//! Audio format descriptor and the WAV header sent once at the start of
//! every client stream.
use vstd::prelude::*;

verus! {

/// Declared payload length of a live stream, whose true length is unbounded.
pub const PLACEHOLDER_DATA_LEN: u32 = 4294967259;

/// Size in bytes of a canonical WAV header.
pub const WAV_HEADER_LEN: usize = 44;

/// Immutable description of the captured audio.
#[derive(Debug, Clone, Copy, PartialEq, Eq, Structural)]
pub struct AudioFormat {
    pub sample_rate: u32,
    pub channels: u16,
    pub bits_per_sample: u16,
    /// Samples are IEEE floats rather than integers.
    pub float_samples: bool,
}

impl AudioFormat {
    /// A usable format: at least one channel, whole-byte samples of 8 to 32
    /// bits, and a byte rate that fits the header's 32-bit field.
    pub open spec fn wf(self) -> bool {
        &&& self.channels >= 1
        &&& (self.bits_per_sample == 8 || self.bits_per_sample == 16
            || self.bits_per_sample == 24 || self.bits_per_sample == 32)
        &&& self.block_align_spec() <= u16::MAX
        &&& self.byte_rate_spec() <= u32::MAX
    }

    pub open spec fn block_align_spec(self) -> int {
        self.channels as int * (self.bits_per_sample as int / 8)
    }

    pub open spec fn byte_rate_spec(self) -> int {
        self.sample_rate as int * self.block_align_spec()
    }

    /// Builds a format, or `None` when the values describe no usable format.
    pub fn new(sample_rate: u32, channels: u16, bits_per_sample: u16, float_samples: bool) -> (r:
        Option<AudioFormat>)
        ensures
            r matches Some(f) ==> f.wf() && f == (AudioFormat {
                sample_rate,
                channels,
                bits_per_sample,
                float_samples,
            }),
            r is None <==> !(AudioFormat { sample_rate, channels, bits_per_sample, float_samples }).wf(),
    {
        let f = AudioFormat { sample_rate, channels, bits_per_sample, float_samples };
        if channels == 0 {
            return None;
        }
        if !(bits_per_sample == 8 || bits_per_sample == 16 || bits_per_sample == 24
            || bits_per_sample == 32) {
            return None;
        }
        let width: u64 = (bits_per_sample / 8) as u64;
        assert(channels as u64 * width <= 65535 * 4) by (nonlinear_arith)
            requires
                width <= 4,
        ;
        let align: u64 = channels as u64 * width;
        assert(sample_rate as u64 * align <= 4294967295 * 262140) by (nonlinear_arith)
            requires
                align <= 262140,
        ;
        let rate: u64 = sample_rate as u64 * align;
        if align > u16::MAX as u64 || rate > u32::MAX as u64 {
            None
        } else {
            Some(f)
        }
    }
}

/// Little-endian bytes of a 16-bit value.
pub open spec fn le16(x: u16) -> Seq<u8> {
    seq![(x % 256) as u8, (x / 256) as u8]
}

/// Little-endian bytes of a 32-bit value.
pub open spec fn le32(x: u32) -> Seq<u8> {
    seq![(x % 256) as u8, (x / 256 % 256) as u8, (x / 65536 % 256) as u8, (x / 16777216) as u8]
}

/// The header of a WAV stream in format `f`: RIFF container, a 16-byte
/// `fmt ` chunk (integer PCM tag 1 or float tag 3) and a `data` chunk whose
/// declared length is the placeholder.
pub open spec fn wav_header_spec(f: AudioFormat) -> Seq<u8> {
    seq![82u8, 73u8, 70u8, 70u8] + le32((PLACEHOLDER_DATA_LEN + 36) as u32) + seq![
        87u8,
        65u8,
        86u8,
        69u8,
        102u8,
        109u8,
        116u8,
        32u8,
    ] + le32(16) + le16(if f.float_samples { 3 } else { 1 }) + le16(f.channels) + le32(
        f.sample_rate,
    ) + le32(f.byte_rate_spec() as u32) + le16(f.block_align_spec() as u16) + le16(
        f.bits_per_sample,
    ) + seq![100u8, 97u8, 116u8, 97u8] + le32(PLACEHOLDER_DATA_LEN)
}

fn push_le16(v: &mut Vec<u8>, x: u16)
    ensures
        final(v)@ == old(v)@ + le16(x),
{
    v.push((x % 256) as u8);
    v.push((x / 256) as u8);
    assert(final(v)@ =~= old(v)@ + le16(x));
}

fn push_le32(v: &mut Vec<u8>, x: u32)
    ensures
        final(v)@ == old(v)@ + le32(x),
{
    v.push((x % 256) as u8);
    v.push((x / 256 % 256) as u8);
    v.push((x / 65536 % 256) as u8);
    v.push((x / 16777216) as u8);
    assert(final(v)@ =~= old(v)@ + le32(x));
}

fn push_tag(v: &mut Vec<u8>, a: u8, b: u8, c: u8, d: u8)
    ensures
        final(v)@ == old(v)@ + seq![a, b, c, d],
{
    v.push(a);
    v.push(b);
    v.push(c);
    v.push(d);
    assert(final(v)@ =~= old(v)@ + seq![a, b, c, d]);
}

/// Synthesizes the header that opens every client stream of format `f`.
pub fn wav_header(f: &AudioFormat) -> (r: Vec<u8>)
    requires
        f.wf(),
    ensures
        r@ == wav_header_spec(*f),
        r@.len() == WAV_HEADER_LEN,
{
    let align: u16 = f.channels * (f.bits_per_sample / 8);
    assert(f.sample_rate as int * align as int == f.byte_rate_spec());
    let rate: u32 = f.sample_rate * (align as u32);
    let tag: u16 = if f.float_samples { 3 } else { 1 };
    let mut v: Vec<u8> = Vec::new();
    push_tag(&mut v, 82, 73, 70, 70);
    push_le32(&mut v, PLACEHOLDER_DATA_LEN + 36);
    push_tag(&mut v, 87, 65, 86, 69);
    push_tag(&mut v, 102, 109, 116, 32);
    push_le32(&mut v, 16);
    push_le16(&mut v, tag);
    push_le16(&mut v, f.channels);
    push_le32(&mut v, f.sample_rate);
    push_le32(&mut v, rate);
    push_le16(&mut v, align);
    push_le16(&mut v, f.bits_per_sample);
    push_tag(&mut v, 100, 97, 116, 97);
    push_le32(&mut v, PLACEHOLDER_DATA_LEN);
    assert(v@ =~= wav_header_spec(*f));
    v
}

} // verus!
