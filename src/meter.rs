//! Loudness metering: mean squares of the left and right samples over
//! windows of a tenth of a second.
use vstd::prelude::*;
use crate::wav::AudioFormat;

verus! {

/// Largest square of a 16-bit sample.
pub const MAX_SQUARE: u64 = 1073741824;

/// The model of a meter: window length in samples, samples taken in the
/// current window, and the sums of squares of its even- and odd-indexed
/// samples.
pub struct MeterView {
    pub window: nat,
    pub count: nat,
    pub sum_l: nat,
    pub sum_r: nat,
}

/// The meter after sample `x` at index `idx` of its block, and the mean
/// squares emitted when the window is full.
pub open spec fn step_spec(m: MeterView, idx: int, x: i16) -> (MeterView, Option<(nat, nat)>) {
    let sq = (x as int * x as int) as nat;
    let n = m.count + 1;
    let sl = if idx % 2 == 0 { m.sum_l + sq } else { m.sum_l };
    let sr = if idx % 2 == 0 { m.sum_r } else { m.sum_r + sq };
    if n >= m.window {
        (MeterView { count: 0, sum_l: 0, sum_r: 0, ..m }, Some(((sl / n) as nat, (sr / n) as nat)))
    } else {
        (MeterView { count: n, sum_l: sl, sum_r: sr, ..m }, None)
    }
}

/// The meter after a block of samples, and the mean squares it emitted.
pub open spec fn feed_spec(m: MeterView, s: Seq<i16>) -> (MeterView, Seq<(nat, nat)>)
    decreases s.len(),
{
    if s.len() == 0 {
        (m, seq![])
    } else {
        let (m1, out) = feed_spec(m, s.drop_last());
        let (m2, e) = step_spec(m1, s.len() - 1, s.last());
        match e {
            Some(p) => (m2, out.push(p)),
            None => (m2, out),
        }
    }
}

pub struct RmsMeter {
    window: u64,
    count: u64,
    sum_l: u64,
    sum_r: u64,
}

impl View for RmsMeter {
    type V = MeterView;

    closed spec fn view(&self) -> MeterView {
        MeterView {
            window: self.window as nat,
            count: self.count as nat,
            sum_l: self.sum_l as nat,
            sum_r: self.sum_r as nat,
        }
    }
}

impl RmsMeter {
    /// The window stays below 2^32 and the sums within the squares of the
    /// samples counted.
    pub closed spec fn wf(&self) -> bool {
        &&& self.window < 4294967296
        &&& self.count < 4294967296
        &&& self.sum_l <= self.count * MAX_SQUARE
        &&& self.sum_r <= self.count * MAX_SQUARE
        &&& (self.count < self.window || self.count == 0)
    }

    /// A meter for format `f`, whose window is a tenth of a second of samples.
    pub fn new(f: &AudioFormat) -> (r: RmsMeter)
        requires
            f.wf(),
        ensures
            r.wf(),
            r@ == (MeterView {
                window: (f.sample_rate as int * f.channels as int / 10) as nat,
                count: 0,
                sum_l: 0,
                sum_r: 0,
            }),
    {
        assert(f.sample_rate as int * f.channels as int <= f.byte_rate_spec()) by (nonlinear_arith)
            requires
                f.bits_per_sample >= 8,
                f.byte_rate_spec() == f.sample_rate as int * (f.channels as int * (
                f.bits_per_sample as int / 8)),
        ;
        let w: u64 = (f.sample_rate as u64 * f.channels as u64) / 10;
        RmsMeter { window: w, count: 0, sum_l: 0, sum_r: 0 }
    }

    /// Takes a block of samples and returns the (left, right) mean squares of
    /// every window completed in it; left samples sit at even indices.
    pub fn feed(&mut self, samples: &Vec<i16>) -> (r: Vec<(u64, u64)>)
        requires
            old(self).wf(),
        ensures
            final(self).wf(),
            (final(self)@, r@.map_values(|p: (u64, u64)| (p.0 as nat, p.1 as nat))) == feed_spec(
                old(self)@,
                samples@,
            ),
    {
        let ghost m0 = self@;
        let mut out: Vec<(u64, u64)> = Vec::new();
        let mut i: usize = 0;
        while i < samples.len()
            invariant
                i <= samples.len(),
                self.wf(),
                self.window == m0.window,
                (self@, out@.map_values(|p: (u64, u64)| (p.0 as nat, p.1 as nat))) == feed_spec(
                    m0,
                    samples@.take(i as int),
                ),
            decreases samples.len() - i,
        {
            assert(samples@.take(i as int + 1).drop_last() =~= samples@.take(i as int));
            let x = samples[i];
            let ghost pout = out@.map_values(|p: (u64, u64)| (p.0 as nat, p.1 as nat));
            let ghost pm = self@;
            let xi: i64 = x as i64;
            assert(0 <= xi * xi <= MAX_SQUARE) by (nonlinear_arith)
                requires
                    -32768 <= xi <= 32767,
            ;
            let sq: u64 = (xi * xi) as u64;
            assert(sq as int == x as int * x as int);
            assert(self.count as int * MAX_SQUARE + MAX_SQUARE <= 4294967296 * MAX_SQUARE) by (nonlinear_arith)
                requires
                    self.count < 4294967296,
            ;
            let n: u64 = self.count + 1;
            if i % 2 == 0 {
                self.sum_l = self.sum_l + sq;
            } else {
                self.sum_r = self.sum_r + sq;
            }
            assert(self.sum_l <= n * MAX_SQUARE && self.sum_r <= n * MAX_SQUARE) by (nonlinear_arith)
                requires
                    self.sum_l <= pm.sum_l + sq,
                    self.sum_r <= pm.sum_r + sq,
                    pm.sum_l <= pm.count * MAX_SQUARE,
                    pm.sum_r <= pm.count * MAX_SQUARE,
                    sq <= MAX_SQUARE,
                    n == pm.count + 1,
            ;
            if n >= self.window {
                out.push((self.sum_l / n, self.sum_r / n));
                self.count = 0;
                self.sum_l = 0;
                self.sum_r = 0;
                assert(out@.map_values(|p: (u64, u64)| (p.0 as nat, p.1 as nat)) =~= pout.push(
                    step_spec(pm, i as int, x).1->Some_0,
                ));
            } else {
                self.count = n;
            }
            i = i + 1;
        }
        assert(samples@.take(samples.len() as int) =~= samples@);
        out
    }
}

} // verus!
