//! Renderer bookkeeping for discovery cycles: which responders are new, so
//! that each device is reported exactly once.
use vstd::prelude::*;

verus! {

/// The two device-control dialects a renderer may speak.
#[derive(Debug, Clone, Copy, PartialEq, Eq, Structural)]
pub enum Dialect {
    OpenHome,
    AvTransport,
}

/// One discovered playback device.
#[derive(Debug)]
pub struct Renderer {
    pub dev_id: String,
    pub dev_name: String,
    pub dev_model: String,
    pub dialect: Dialect,
    /// Address used to match the renderer against an active client stream.
    pub remote_addr: String,
    /// URL of its device description.
    pub location: String,
    /// Endpoint of its transport-control service.
    pub control_url: String,
}

pub struct RendererView {
    pub dev_id: Seq<char>,
    pub dev_name: Seq<char>,
    pub dev_model: Seq<char>,
    pub dialect: Dialect,
    pub remote_addr: Seq<char>,
    pub location: Seq<char>,
    pub control_url: Seq<char>,
}

impl View for Renderer {
    type V = RendererView;

    open spec fn view(&self) -> RendererView {
        RendererView {
            dev_id: self.dev_id@,
            dev_name: self.dev_name@,
            dev_model: self.dev_model@,
            dialect: self.dialect,
            remote_addr: self.remote_addr@,
            location: self.location@,
            control_url: self.control_url@,
        }
    }
}

impl Renderer {
    /// A field-by-field copy, handed outward so that the registry keeps its own.
    pub fn copy(&self) -> (r: Renderer)
        ensures
            r@ == self@,
    {
        Renderer {
            dev_id: self.dev_id.clone(),
            dev_name: self.dev_name.clone(),
            dev_model: self.dev_model.clone(),
            dialect: self.dialect,
            remote_addr: self.remote_addr.clone(),
            location: self.location.clone(),
            control_url: self.control_url.clone(),
        }
    }
}

/// The model of one responder's parsed description: `None` when it could
/// not be fetched or parsed.
pub open spec fn response_view(o: Option<Renderer>) -> Option<RendererView> {
    match o {
        Some(r) => Some(r@),
        None => None,
    }
}

pub open spec fn responses_view(found: Seq<Option<Renderer>>) -> Seq<Option<RendererView>> {
    found.map_values(|o: Option<Renderer>| response_view(o))
}

pub open spec fn renderers_view(rs: Seq<Renderer>) -> Seq<RendererView> {
    rs.map_values(|r: Renderer| r@)
}

/// Some known renderer has device identifier `id`.
pub open spec fn knows(known: Seq<RendererView>, id: Seq<char>) -> bool {
    exists|i: int| 0 <= i < known.len() && (#[trigger] known[i]).dev_id == id
}

/// The known renderers after one cycle's responses, taken in order: each
/// parsed response whose identifier is not yet known is appended; failed
/// responses and known identifiers are skipped.
pub open spec fn absorb_spec(known: Seq<RendererView>, found: Seq<Option<RendererView>>) -> Seq<
    RendererView,
>
    decreases found.len(),
{
    if found.len() == 0 {
        known
    } else {
        let k = absorb_spec(known, found.drop_last());
        match found.last() {
            Some(r) => if knows(k, r.dev_id) {
                k
            } else {
                k.push(r)
            },
            None => k,
        }
    }
}

/// A cycle only appends: the renderers known before stay first, in order.
pub proof fn lemma_absorb_extends(known: Seq<RendererView>, found: Seq<Option<RendererView>>)
    ensures
        absorb_spec(known, found).len() >= known.len(),
        absorb_spec(known, found).take(known.len() as int) == known,
    decreases found.len(),
{
    if found.len() > 0 {
        lemma_absorb_extends(known, found.drop_last());
        let k = absorb_spec(known, found.drop_last());
        assert(k.push(found.last()->Some_0).take(known.len() as int) =~= k.take(known.len() as int));
    }
}

/// A failed response suppresses no other: after a cycle every renderer that
/// answered with a parsed description is known, whatever the other
/// responders sent.
pub proof fn lemma_absorb_finds_every_parsed(known: Seq<RendererView>, found: Seq<Option<RendererView>>)
    ensures
        forall|i: int|
            0 <= i < found.len() && (#[trigger] found[i]) is Some ==> knows(
                absorb_spec(known, found),
                found[i]->Some_0.dev_id,
            ),
    decreases found.len(),
{
    if found.len() > 0 {
        let f0 = found.drop_last();
        lemma_absorb_finds_every_parsed(known, f0);
        let k = absorb_spec(known, f0);
        let k2 = absorb_spec(known, found);
        lemma_absorb_extends(k, seq![found.last()]);
        assert(seq![found.last()].drop_last() =~= Seq::<Option<RendererView>>::empty());
        assert forall|i: int| 0 <= i < found.len() && (#[trigger] found[i]) is Some implies knows(
            k2,
            found[i]->Some_0.dev_id,
        ) by {
            if i < found.len() - 1 {
                assert(f0[i] == found[i]);
                let j = choose|j: int| 0 <= j < k.len() && (#[trigger] k[j]).dev_id == found[i]->Some_0.dev_id;
                assert(k2[j] == k[j]);
            } else if !knows(k, found[i]->Some_0.dev_id) {
                assert(k2[k.len() as int] == found[i]->Some_0);
            } else {
                assert(k2 == k);
            }
        }
    }
}

/// A cycle whose parsed responders are all known changes nothing.
pub proof fn lemma_absorb_known_is_noop(known: Seq<RendererView>, found: Seq<Option<RendererView>>)
    requires
        forall|i: int|
            0 <= i < found.len() && (#[trigger] found[i]) is Some ==> knows(known, found[i]->Some_0.dev_id),
    ensures
        absorb_spec(known, found) == known,
    decreases found.len(),
{
    if found.len() > 0 {
        let f0 = found.drop_last();
        assert forall|i: int| 0 <= i < f0.len() && (#[trigger] f0[i]) is Some implies knows(
            known,
            f0[i]->Some_0.dev_id,
        ) by {
            assert(f0[i] == found[i]);
        }
        lemma_absorb_known_is_noop(known, f0);
        if found.last() is Some {
            assert(found[found.len() - 1] is Some);
        }
    }
}

/// Running a second cycle with the same responses reports no renderer.
pub proof fn lemma_second_cycle_reports_nothing(known: Seq<RendererView>, found: Seq<Option<RendererView>>)
    ensures
        absorb_spec(absorb_spec(known, found), found) == absorb_spec(known, found),
{
    lemma_absorb_finds_every_parsed(known, found);
    lemma_absorb_known_is_noop(absorb_spec(known, found), found);
}

/// With nothing known, two responders with distinct identifiers are both
/// reported, in response order.
pub proof fn lemma_two_distinct_reported(a: RendererView, b: RendererView)
    requires
        a.dev_id != b.dev_id,
    ensures
        absorb_spec(seq![], seq![Some(a), Some(b)]) == seq![a, b],
{
    let f = seq![Some(a), Some(b)];
    assert(f.drop_last() =~= seq![Some(a)]);
    assert(seq![Some(a)].drop_last() =~= Seq::<Option<RendererView>>::empty());
    let e = Seq::<RendererView>::empty();
    assert(absorb_spec(e, Seq::<Option<RendererView>>::empty()) == e);
    assert(!knows(e, a.dev_id));
    let k1 = absorb_spec(seq![], seq![Some(a)]);
    assert(k1 =~= e.push(a));
    if knows(k1, b.dev_id) {
        let j = choose|j: int| 0 <= j < k1.len() && (#[trigger] k1[j]).dev_id == b.dev_id;
        assert(j == 0);
    }
    assert(absorb_spec(seq![], f) =~= seq![a, b]);
}

/// The distinct description URLs of a cycle's responses, each at its first
/// occurrence, in response order.
pub open spec fn unique_spec(urls: Seq<Seq<char>>) -> Seq<Seq<char>>
    decreases urls.len(),
{
    if urls.len() == 0 {
        urls
    } else {
        let u = unique_spec(urls.drop_last());
        if u.contains(urls.last()) {
            u
        } else {
            u.push(urls.last())
        }
    }
}

/// Keeps the first occurrence of each description URL, so that every
/// description is fetched once per cycle.
pub fn unique_locations(urls: &Vec<String>) -> (r: Vec<String>)
    ensures
        r@.map_values(|s: String| s@) == unique_spec(urls@.map_values(|s: String| s@)),
{
    let ghost uv = urls@.map_values(|s: String| s@);
    let mut r: Vec<String> = Vec::new();
    let mut i: usize = 0;
    while i < urls.len()
        invariant
            i <= urls.len(),
            uv == urls@.map_values(|s: String| s@),
            r@.map_values(|s: String| s@) == unique_spec(uv.take(i as int)),
        decreases urls.len() - i,
    {
        assert(uv.take(i as int + 1).drop_last() =~= uv.take(i as int));
        assert(uv.take(i as int + 1).last() == urls@[i as int]@);
        let ghost rv = r@.map_values(|s: String| s@);
        let mut seen = false;
        let mut j: usize = 0;
        while j < r.len()
            invariant
                j <= r.len(),
                i < urls.len(),
                rv == r@.map_values(|s: String| s@),
                seen == exists|k: int| 0 <= k < j && rv[k] == urls@[i as int]@,
            decreases r.len() - j,
        {
            if r[j] == urls[i] {
                seen = true;
            }
            proof {
                if seen {
                    if r[j as int]@ == urls@[i as int]@ {
                        assert(rv[j as int] == urls@[i as int]@);
                    }
                }
            }
            j = j + 1;
        }
        proof {
            if seen {
                let k = choose|k: int| 0 <= k < r.len() && rv[k] == urls@[i as int]@;
                assert(rv.contains(urls@[i as int]@));
            } else {
                assert forall|k: int| 0 <= k < rv.len() implies rv[k] != urls@[i as int]@ by {}
                assert(!rv.contains(urls@[i as int]@));
            }
        }
        if !seen {
            r.push(urls[i].clone());
            assert(r@.map_values(|s: String| s@) =~= rv.push(urls@[i as int]@));
        }
        i = i + 1;
    }
    assert(uv.take(urls.len() as int) =~= uv);
    r
}

/// The renderers seen so far.
pub struct DiscoveryRegistry {
    known: Vec<Renderer>,
}

impl View for DiscoveryRegistry {
    type V = Seq<RendererView>;

    closed spec fn view(&self) -> Seq<RendererView> {
        renderers_view(self.known@)
    }
}

impl DiscoveryRegistry {
    /// A registry that knows no renderer.
    pub fn new() -> (r: DiscoveryRegistry)
        ensures
            r@ == Seq::<RendererView>::empty(),
    {
        let r = DiscoveryRegistry { known: Vec::new() };
        assert(r@ =~= Seq::<RendererView>::empty());
        r
    }

    /// Number of known renderers.
    pub fn len(&self) -> (r: usize)
        ensures
            r == self@.len(),
    {
        self.known.len()
    }

    /// True when a renderer with device identifier `id` is known.
    pub fn knows(&self, id: &String) -> (r: bool)
        ensures
            r == knows(self@, id@),
    {
        let mut i: usize = 0;
        while i < self.known.len()
            invariant
                i <= self.known.len(),
                forall|j: int| 0 <= j < i ==> (#[trigger] self@[j]).dev_id != id@,
            decreases self.known.len() - i,
        {
            assert(self@[i as int] == self.known@[i as int]@);
            if self.known[i].dev_id == *id {
                return true;
            }
            i = i + 1;
        }
        false
    }

    /// A copy of the first known renderer at remote address `addr`, used to
    /// resume playing on a renderer whose connection ended.
    pub fn by_remote(&self, addr: &String) -> (r: Option<Renderer>)
        ensures
            match r {
                Some(x) => exists|i: int|
                    0 <= i < self@.len() && x@ == self@[i] && x@.remote_addr == addr@ && forall|j: int|
                        0 <= j < i ==> (#[trigger] self@[j]).remote_addr != addr@,
                None => forall|i: int| 0 <= i < self@.len() ==> (#[trigger] self@[i]).remote_addr != addr@,
            },
    {
        let mut i: usize = 0;
        while i < self.known.len()
            invariant
                i <= self.known.len(),
                forall|j: int| 0 <= j < i ==> (#[trigger] self@[j]).remote_addr != addr@,
            decreases self.known.len() - i,
        {
            assert(self@[i as int] == self.known@[i as int]@);
            if self.known[i].remote_addr == *addr {
                return Some(self.known[i].copy());
            }
            i = i + 1;
        }
        None
    }

    /// Takes one discovery cycle's responses and returns the renderers seen
    /// for the first time, in response order; they become known. A response
    /// that failed (`None`) is skipped and does not affect the others.
    pub fn absorb(&mut self, found: Vec<Option<Renderer>>) -> (r: Vec<Renderer>)
        ensures
            final(self)@ == absorb_spec(old(self)@, responses_view(found@)),
            renderers_view(r@) == final(self)@.skip(old(self)@.len() as int),
    {
        let ghost k0 = self@;
        let ghost fv = responses_view(found@);
        let mut fresh: Vec<Renderer> = Vec::new();
        let mut i: usize = 0;
        while i < found.len()
            invariant
                i <= found.len(),
                fv == responses_view(found@),
                self@ == absorb_spec(k0, fv.take(i as int)),
                renderers_view(fresh@) == self@.skip(k0.len() as int),
                self@.len() >= k0.len(),
            decreases found.len() - i,
        {
            assert(fv.take(i as int + 1).drop_last() =~= fv.take(i as int));
            assert(fv.take(i as int + 1).last() == fv[i as int]);
            match &found[i] {
                Some(r) => {
                    if !self.knows(&r.dev_id) {
                        let ghost pk = self@;
                        let ghost pf = renderers_view(fresh@);
                        self.known.push(r.copy());
                        fresh.push(r.copy());
                        assert(self@ =~= pk.push(r@));
                        assert(renderers_view(fresh@) =~= pf.push(r@));
                        assert(renderers_view(fresh@) =~= self@.skip(k0.len() as int));
                    }
                },
                None => {},
            }
            i = i + 1;
        }
        assert(fv.take(found.len() as int) =~= fv);
        fresh
    }
}

} // verus!
