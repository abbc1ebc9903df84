//! The registry of active client streams: at most one per remote address,
//! each with a unique id under which its connection writer pulls from it.
use vstd::prelude::*;
use crate::client_stream::{ClientStream, Pull, PullView, StreamView};

verus! {

/// The model of the registry: its streams in registration order and the id
/// the next registration receives.
pub struct RegistryView {
    pub streams: Seq<StreamView>,
    pub next_id: u64,
}

impl RegistryView {
    /// Every stream is well formed, open, and has an id below `next_id`;
    /// ids and remote addresses are unique.
    pub open spec fn wf(self) -> bool {
        &&& forall|i: int| 0 <= i < self.streams.len() ==> #[trigger] self.streams[i].wf()
        &&& forall|i: int| 0 <= i < self.streams.len() ==> !(#[trigger] self.streams[i]).closed
        &&& forall|i: int| 0 <= i < self.streams.len() ==> (#[trigger] self.streams[i]).id < self.next_id
        &&& forall|i: int, j: int|
            0 <= i < self.streams.len() && 0 <= j < self.streams.len() && i != j ==> (
            #[trigger] self.streams[i]).id != (#[trigger] self.streams[j]).id
        &&& forall|i: int, j: int|
            0 <= i < self.streams.len() && 0 <= j < self.streams.len() && i != j ==> (
            #[trigger] self.streams[i]).remote != (#[trigger] self.streams[j]).remote
    }

    pub open spec fn has_remote(self, remote: Seq<char>) -> bool {
        exists|i: int| 0 <= i < self.streams.len() && (#[trigger] self.streams[i]).remote == remote
    }

    /// Position of the stream for `remote`, or -1.
    pub open spec fn index_of_remote(self, remote: Seq<char>) -> int {
        if self.has_remote(remote) {
            choose|i: int| 0 <= i < self.streams.len() && (#[trigger] self.streams[i]).remote == remote
        } else {
            -1
        }
    }

    pub open spec fn has_id(self, id: u64) -> bool {
        exists|i: int| 0 <= i < self.streams.len() && (#[trigger] self.streams[i]).id == id
    }

    /// Position of the stream with `id`, or -1.
    pub open spec fn index_of_id(self, id: u64) -> int {
        if self.has_id(id) {
            choose|i: int| 0 <= i < self.streams.len() && (#[trigger] self.streams[i]).id == id
        } else {
            -1
        }
    }

    /// The registry after a successful registration for `remote`: a stream
    /// already registered for that address leaves, and a fresh stream with
    /// id `next_id` is appended.
    pub open spec fn register_spec(self, remote: Seq<char>, header: Seq<u8>, capacity: nat) -> RegistryView {
        let k = self.index_of_remote(remote);
        let kept = if k >= 0 {
            self.streams.remove(k)
        } else {
            self.streams
        };
        RegistryView {
            streams: kept.push(StreamView::fresh(self.next_id, remote, header, capacity)),
            next_id: (self.next_id + 1) as u64,
        }
    }

    /// What `pull(id)` yields: the stream's own pull, or end of stream when
    /// no stream with that id is registered.
    pub open spec fn pull_result(self, id: u64) -> PullView {
        let k = self.index_of_id(id);
        if k >= 0 {
            self.streams[k].pull_result()
        } else {
            PullView::End
        }
    }

    /// The registry after `pull(id)`.
    pub open spec fn pull_spec(self, id: u64) -> RegistryView {
        let k = self.index_of_id(id);
        if k >= 0 {
            RegistryView { streams: self.streams.update(k, self.streams[k].pull_spec()), ..self }
        } else {
            self
        }
    }

    /// The registry after one captured block went to every stream.
    pub open spec fn broadcast_spec(self, b: Seq<u8>) -> RegistryView {
        RegistryView { streams: self.streams.map_values(|s: StreamView| s.push_spec(b)), ..self }
    }

    /// The registry after `close(id)`: that stream leaves.
    pub open spec fn close_spec(self, id: u64) -> RegistryView {
        let k = self.index_of_id(id);
        if k >= 0 {
            RegistryView { streams: self.streams.remove(k), ..self }
        } else {
            self
        }
    }
}

/// Registering a second stream for an address that already has one replaces
/// it: afterwards the first stream's pull yields end of stream, and exactly
/// one stream, the new one, is registered for that address.
pub proof fn lemma_reregister_ends_first(
    v: RegistryView,
    remote: Seq<char>,
    header: Seq<u8>,
    capacity: nat,
    first: u64,
)
    requires
        v.wf(),
        v.next_id < u64::MAX,
        v.has_id(first),
        v.streams[v.index_of_id(first)].remote == remote,
    ensures
        v.register_spec(remote, header, capacity).pull_result(first) == PullView::End,
        v.register_spec(remote, header, capacity).has_remote(remote),
        forall|i: int|
            0 <= i < v.register_spec(remote, header, capacity).streams.len() && (#[trigger] v.register_spec(
                remote,
                header,
                capacity,
            ).streams[i]).remote == remote ==> v.register_spec(remote, header, capacity).streams[i].id
                == v.next_id,
{
    let k = v.index_of_id(first);
    assert(v.streams[k].remote == remote);
    let kr = v.index_of_remote(remote);
    assert(kr == k);
    let w = v.register_spec(remote, header, capacity);
    let n = w.streams.len() - 1;
    assert(w.streams[n].remote == remote);
    assert forall|i: int| 0 <= i < n implies (#[trigger] w.streams[i]).id != first
        && w.streams[i].remote != remote by {
        if i < k {
            assert(w.streams[i] == v.streams[i]);
        } else {
            assert(w.streams[i] == v.streams[i + 1]);
        }
    }
    assert(!w.has_id(first));
}

/// Closing one stream ends it, whatever its writer was waiting for, and
/// leaves every other stream as it was.
pub proof fn lemma_close_ends_only_that_stream(v: RegistryView, id: u64, other: u64)
    requires
        v.wf(),
        other != id,
    ensures
        v.close_spec(id).pull_result(id) == PullView::End,
        v.close_spec(id).has_id(other) == v.has_id(other),
        v.close_spec(id).pull_result(other) == v.pull_result(other),
        v.close_spec(id).wf(),
{
    let w = v.close_spec(id);
    let k = v.index_of_id(id);
    if k >= 0 {
        assert forall|i: int| 0 <= i < w.streams.len() implies #[trigger] w.streams[i] == v.streams[
            if i < k {
                i
            } else {
                i + 1
            }
        ] by {}
        assert(!w.has_id(id));
        if v.has_id(other) {
            let j = v.index_of_id(other);
            let j2 = if j < k { j } else { j - 1 };
            assert(w.streams[j2] == v.streams[j]);
            assert(w.has_id(other));
            assert(w.index_of_id(other) == j2);
        }
        if w.has_id(other) {
            let j2 = w.index_of_id(other);
            assert(w.streams[j2] == v.streams[if j2 < k { j2 } else { j2 + 1 }]);
        }
    }
}

/// A captured block reaches every registered stream exactly once, whatever
/// the other streams do: each stream's pushed blocks gain that block, and a
/// stream that dropped nothing for it queues it last.
pub proof fn lemma_broadcast_reaches_every_stream(v: RegistryView, b: Seq<u8>)
    requires
        v.wf(),
    ensures
        v.broadcast_spec(b).streams.len() == v.streams.len(),
        forall|i: int|
            0 <= i < v.streams.len() ==> (#[trigger] v.broadcast_spec(b).streams[i]).pushed
                == v.streams[i].pushed.push(b),
        forall|i: int|
            0 <= i < v.streams.len() && (#[trigger] v.broadcast_spec(b).streams[i]).dropped
                == v.streams[i].dropped ==> v.broadcast_spec(b).streams[i].queue
                == v.streams[i].queue.push(b),
{
}

/// The active client streams.
pub struct ClientRegistry {
    streams: Vec<ClientStream>,
    next_id: u64,
}

impl View for ClientRegistry {
    type V = RegistryView;

    closed spec fn view(&self) -> RegistryView {
        RegistryView { streams: self.streams@.map_values(|s: ClientStream| s@), next_id: self.next_id }
    }
}

impl ClientRegistry {
    pub open spec fn wf(&self) -> bool {
        self@.wf()
    }

    /// An empty registry.
    pub fn new() -> (r: ClientRegistry)
        ensures
            r@.streams.len() == 0,
            r@.next_id == 0,
            r.wf(),
    {
        let r = ClientRegistry { streams: Vec::new(), next_id: 0 };
        assert(r@.streams =~= Seq::<StreamView>::empty());
        r
    }

    /// Number of registered streams.
    pub fn len(&self) -> (r: usize)
        ensures
            r == self@.streams.len(),
    {
        self.streams.len()
    }

    fn find_remote(&self, remote: &String) -> (r: Option<usize>)
        requires
            self.wf(),
        ensures
            match r {
                Some(i) => i < self@.streams.len() && i as int == self@.index_of_remote(remote@),
                None => !self@.has_remote(remote@) && self@.index_of_remote(remote@) == -1,
            },
    {
        let mut i: usize = 0;
        while i < self.streams.len()
            invariant
                i <= self.streams.len(),
                self.wf(),
                forall|j: int| 0 <= j < i ==> (#[trigger] self@.streams[j]).remote != remote@,
            decreases self.streams.len() - i,
        {
            assert(self@.streams[i as int] == self.streams@[i as int]@);
            if *self.streams[i].remote() == *remote {
                assert(self@.streams[i as int].remote == remote@);
                let ghost k = self@.index_of_remote(remote@);
                assert(self@.streams[k].remote == remote@);
                return Some(i);
            }
            i = i + 1;
        }
        None
    }

    fn find_id(&self, id: u64) -> (r: Option<usize>)
        requires
            self.wf(),
        ensures
            match r {
                Some(i) => i < self@.streams.len() && i as int == self@.index_of_id(id),
                None => !self@.has_id(id) && self@.index_of_id(id) == -1,
            },
    {
        let mut i: usize = 0;
        while i < self.streams.len()
            invariant
                i <= self.streams.len(),
                self.wf(),
                forall|j: int| 0 <= j < i ==> (#[trigger] self@.streams[j]).id != id,
            decreases self.streams.len() - i,
        {
            assert(self@.streams[i as int] == self.streams@[i as int]@);
            if self.streams[i].id() == id {
                assert(self@.streams[i as int].id == id);
                let ghost k = self@.index_of_id(id);
                assert(self@.streams[k].id == id);
                return Some(i);
            }
            i = i + 1;
        }
        None
    }

    /// True when a stream for `remote` is registered.
    pub fn is_streaming(&self, remote: &String) -> (r: bool)
        requires
            self.wf(),
        ensures
            r == self@.has_remote(remote@),
    {
        self.find_remote(remote).is_some()
    }

    /// Registers a new stream for `remote` and returns its id. A stream
    /// already registered for that address is closed and leaves, so its
    /// writer's next pull yields end of stream. `None` when the ids are
    /// exhausted, and then nothing changes.
    pub fn register(&mut self, remote: String, header: Vec<u8>, capacity: usize) -> (r: Option<u64>)
        requires
            old(self).wf(),
            capacity >= 1,
        ensures
            final(self).wf(),
            old(self)@.next_id == u64::MAX ==> r is None && final(self)@ == old(self)@,
            old(self)@.next_id < u64::MAX ==> r == Some(old(self)@.next_id) && final(self)@
                == old(self)@.register_spec(remote@, header@, capacity as nat),
    {
        if self.next_id == u64::MAX {
            return None;
        }
        let ghost v0 = self@;
        let id = self.next_id;
        let ghost rem = remote@;
        let ghost hdr = header@;
        match self.find_remote(&remote) {
            Some(i) => {
                let mut replaced = self.streams.remove(i);
                replaced.close();
                assert(self.streams@.map_values(|s: ClientStream| s@) =~= v0.streams.remove(
                    i as int,
                ));
            },
            None => {},
        }
        let ghost v1 = self@;
        let s = ClientStream::new(id, remote, header, capacity);
        self.streams.push(s);
        self.next_id = id + 1;
        assert(self@.streams =~= v1.streams.push(StreamView::fresh(id, rem, hdr, capacity as nat)));
        assert(self@ == v0.register_spec(rem, hdr, capacity as nat));
        proof {
            let n = self@.streams.len() - 1;
            assert forall|i: int| 0 <= i < n implies #[trigger] self@.streams[i] == v1.streams[i] by {}
            assert forall|i: int| 0 <= i < n implies (#[trigger] self@.streams[i]).remote != rem by {
                if v0.has_remote(rem) {
                    let k = v0.index_of_remote(rem);
                    if i < k {
                        assert(v1.streams[i] == v0.streams[i]);
                    } else {
                        assert(v1.streams[i] == v0.streams[i + 1]);
                    }
                } else {
                    assert(v1.streams[i] == v0.streams[i]);
                }
            }
        }
        Some(id)
    }

    /// Takes the next chunk of the stream with `id`; end of stream when no
    /// such stream is registered (it was closed or replaced).
    pub fn pull(&mut self, id: u64) -> (r: Pull)
        requires
            old(self).wf(),
        ensures
            final(self).wf(),
            r@ == old(self)@.pull_result(id),
            final(self)@ == old(self)@.pull_spec(id),
    {
        let ghost v0 = self@;
        match self.find_id(id) {
            Some(i) => {
                assert(v0.streams[i as int] == self.streams@[i as int]@);
                let r = self.streams[i].pull();
                assert(self@.streams =~= v0.streams.update(i as int, v0.streams[i as int].pull_spec()));
                r
            },
            None => Pull::End,
        }
    }

    /// Closes the stream with `id` and removes it; nothing happens when no
    /// such stream is registered. Other streams are untouched.
    pub fn close(&mut self, id: u64)
        requires
            old(self).wf(),
        ensures
            final(self).wf(),
            final(self)@ == old(self)@.close_spec(id),
    {
        let ghost v0 = self@;
        match self.find_id(id) {
            Some(i) => {
                let mut s = self.streams.remove(i);
                s.close();
                assert(self@.streams =~= v0.streams.remove(i as int));
            },
            None => {},
        }
    }

    /// Hands a copy of one captured block to every registered stream.
    pub fn broadcast(&mut self, block: &Vec<u8>)
        requires
            old(self).wf(),
        ensures
            final(self).wf(),
            final(self)@ == old(self)@.broadcast_spec(block@),
            final(self)@.next_id == old(self)@.next_id,
            final(self)@.streams.len() == old(self)@.streams.len(),
            forall|i: int|
                0 <= i < old(self)@.streams.len() ==> #[trigger] final(self)@.streams[i]
                    == old(self)@.streams[i].push_spec(block@),
    {
        let ghost v0 = self@;
        let mut i: usize = 0;
        while i < self.streams.len()
            invariant
                i <= self.streams.len(),
                self.streams.len() == v0.streams.len(),
                self.next_id == v0.next_id,
                v0.wf(),
                forall|j: int| 0 <= j < i ==> #[trigger] self@.streams[j] == v0.streams[j].push_spec(block@),
                forall|j: int| i <= j < self.streams.len() ==> #[trigger] self@.streams[j] == v0.streams[j],
                forall|j: int| 0 <= j < self.streams.len() ==> (#[trigger] self@.streams[j]).wf(),
            decreases self.streams.len() - i,
        {
            let ghost pv = self@;
            assert(pv.streams[i as int] == self.streams@[i as int]@);
            self.streams[i].push(block);
            assert(self@.streams =~= pv.streams.update(i as int, v0.streams[i as int].push_spec(block@)));
            i = i + 1;
        }
        assert(self@.streams =~= v0.broadcast_spec(block@).streams);
        proof {
            assert forall|a: int, b: int|
                0 <= a < self@.streams.len() && 0 <= b < self@.streams.len() && a != b implies (
                #[trigger] self@.streams[a]).id != (#[trigger] self@.streams[b]).id
                && self@.streams[a].remote != self@.streams[b].remote by {
                assert(v0.streams[a].id != v0.streams[b].id);
                assert(v0.streams[a].remote != v0.streams[b].remote);
            }
        }
    }
}

} // verus!
