//! The per-client stream buffer: a bounded queue of captured blocks that the
//! connection writer drains, opened by the format header and ended by `close`.
use vstd::prelude::*;
use vstd::seq_lib::lemma_flatten_concat;

verus! {

/// What one `pull` yields.
#[derive(Debug, Clone)]
pub enum Pull {
    /// The next chunk of bytes to write to the connection.
    Chunk(Vec<u8>),
    /// Nothing is queued yet: the writer waits for the next block.
    Pending,
    /// The stream is closed: the writer ends the connection.
    End,
}

/// The model of a pull's outcome.
pub enum PullView {
    Chunk(Seq<u8>),
    Pending,
    End,
}

impl View for Pull {
    type V = PullView;

    open spec fn view(&self) -> PullView {
        match self {
            Pull::Chunk(b) => PullView::Chunk(b@),
            Pull::Pending => PullView::Pending,
            Pull::End => PullView::End,
        }
    }
}

/// The model of a client stream. `pushed` holds every block accepted while
/// open, `delivered` every chunk pulled so far, and `dropped` counts the
/// blocks discarded because the queue was full.
pub struct StreamView {
    pub id: u64,
    pub remote: Seq<char>,
    pub header: Seq<u8>,
    pub header_sent: bool,
    pub queue: Seq<Seq<u8>>,
    pub capacity: nat,
    pub closed: bool,
    pub pushed: Seq<Seq<u8>>,
    pub delivered: Seq<Seq<u8>>,
    pub dropped: nat,
}

impl StreamView {
    /// The data blocks handed out so far, without the header.
    pub open spec fn data_delivered(self) -> Seq<Seq<u8>> {
        if self.header_sent {
            self.delivered.skip(1)
        } else {
            seq![]
        }
    }

    /// The header is pulled first and once; the queue never exceeds its
    /// capacity; and while nothing was dropped, the blocks handed out
    /// followed by those still queued are exactly the blocks pushed.
    pub open spec fn wf(self) -> bool {
        &&& self.capacity >= 1
        &&& self.queue.len() <= self.capacity
        &&& !self.header_sent ==> self.delivered.len() == 0
        &&& self.header_sent ==> self.delivered.len() >= 1 && self.delivered[0] == self.header
        &&& self.dropped == 0 ==> self.data_delivered() + self.queue == self.pushed
    }

    /// A freshly registered stream.
    pub open spec fn fresh(id: u64, remote: Seq<char>, header: Seq<u8>, capacity: nat) -> StreamView {
        StreamView {
            id,
            remote,
            header,
            header_sent: false,
            queue: seq![],
            capacity,
            closed: false,
            pushed: seq![],
            delivered: seq![],
            dropped: 0,
        }
    }

    /// The stream after `push(b)`: ignored once closed; otherwise the block
    /// is queued, and the oldest queued block is dropped first when full.
    pub open spec fn push_spec(self, b: Seq<u8>) -> StreamView {
        if self.closed {
            self
        } else if self.queue.len() >= self.capacity {
            StreamView {
                queue: self.queue.skip(1).push(b),
                pushed: self.pushed.push(b),
                dropped: self.dropped + 1,
                ..self
            }
        } else {
            StreamView { queue: self.queue.push(b), pushed: self.pushed.push(b), ..self }
        }
    }

    /// The outcome of `pull`: end once closed, then the header once, then the
    /// oldest queued block, or pending when nothing is queued.
    pub open spec fn pull_result(self) -> PullView {
        if self.closed {
            PullView::End
        } else if !self.header_sent {
            PullView::Chunk(self.header)
        } else if self.queue.len() > 0 {
            PullView::Chunk(self.queue[0])
        } else {
            PullView::Pending
        }
    }

    /// The stream after `pull`.
    pub open spec fn pull_spec(self) -> StreamView {
        if self.closed {
            self
        } else if !self.header_sent {
            StreamView { header_sent: true, delivered: self.delivered.push(self.header), ..self }
        } else if self.queue.len() > 0 {
            StreamView {
                queue: self.queue.skip(1),
                delivered: self.delivered.push(self.queue[0]),
                ..self
            }
        } else {
            self
        }
    }

    /// The stream after `close`.
    pub open spec fn close_spec(self) -> StreamView {
        StreamView { closed: true, ..self }
    }
}

/// In every reachable state of a stream that has dropped nothing and has
/// sent its header, the chunks pulled so far followed by the blocks still
/// queued, concatenated, are the header once followed by the bytes of every
/// pushed block in push order; the chunks pulled are the header and then a
/// prefix of the pushed blocks.
pub proof fn lemma_pulls_replay_pushes(v: StreamView)
    requires
        v.wf(),
        v.dropped == 0,
        v.header_sent,
    ensures
        v.delivered == seq![v.header] + v.pushed.take(v.delivered.len() - 1),
        v.queue == v.pushed.skip(v.delivered.len() - 1),
        v.delivered.flatten() + v.queue.flatten() == v.header + v.pushed.flatten(),
{
    let d = v.data_delivered();
    assert(v.delivered =~= seq![v.header] + d);
    assert(v.pushed.take(d.len() as int) =~= d);
    assert(v.pushed.skip(d.len() as int) =~= v.queue);
    lemma_flatten_concat(seq![v.header], d);
    lemma_flatten_concat(d, v.queue);
    seq![v.header].lemma_flatten_one_element();
    assert(v.delivered.flatten() + v.queue.flatten() =~= v.header + (d.flatten() + v.queue.flatten()));
}

/// One connected client's live byte buffer.
pub struct ClientStream {
    id: u64,
    remote: String,
    header: Vec<u8>,
    header_sent: bool,
    queue: Vec<Vec<u8>>,
    capacity: usize,
    closed: bool,
    pushed: Ghost<Seq<Seq<u8>>>,
    delivered: Ghost<Seq<Seq<u8>>>,
    dropped: Ghost<nat>,
}

impl View for ClientStream {
    type V = StreamView;

    closed spec fn view(&self) -> StreamView {
        StreamView {
            id: self.id,
            remote: self.remote@,
            header: self.header@,
            header_sent: self.header_sent,
            queue: self.queue@.map_values(|b: Vec<u8>| b@),
            capacity: self.capacity as nat,
            closed: self.closed,
            pushed: self.pushed@,
            delivered: self.delivered@,
            dropped: self.dropped@,
        }
    }
}

impl ClientStream {
    /// The stream's invariant.
    pub open spec fn wf(&self) -> bool {
        self@.wf()
    }

    /// A new open stream for `remote` that starts with `header` and holds at
    /// most `capacity` unread blocks.
    pub fn new(id: u64, remote: String, header: Vec<u8>, capacity: usize) -> (r: ClientStream)
        requires
            capacity >= 1,
        ensures
            r@ == StreamView::fresh(id, remote@, header@, capacity as nat),
            r.wf(),
    {
        let r = ClientStream {
            id,
            remote,
            header,
            header_sent: false,
            queue: Vec::new(),
            capacity,
            closed: false,
            pushed: Ghost(Seq::empty()),
            delivered: Ghost(Seq::empty()),
            dropped: Ghost(0nat),
        };
        assert(r@.queue =~= seq![]);
        assert(r@.data_delivered() + r@.queue =~= r@.pushed);
        r
    }

    pub fn id(&self) -> (r: u64)
        ensures
            r == self@.id,
    {
        self.id
    }

    pub fn remote(&self) -> (r: &String)
        ensures
            r@ == self@.remote,
    {
        &self.remote
    }

    pub fn is_closed(&self) -> (r: bool)
        ensures
            r == self@.closed,
    {
        self.closed
    }

    /// Number of blocks waiting to be pulled.
    pub fn queued(&self) -> (r: usize)
        ensures
            r == self@.queue.len(),
    {
        self.queue.len()
    }

    /// Appends a copy of a captured block, dropping the oldest queued block
    /// when the queue is full. A closed stream ignores it.
    pub fn push(&mut self, block: &Vec<u8>)
        requires
            old(self).wf(),
        ensures
            final(self)@ == old(self)@.push_spec(block@),
            final(self).wf(),
    {
        if self.closed {
            return;
        }
        let ghost v0 = self@;
        if self.queue.len() >= self.capacity {
            let _oldest = self.queue.remove(0);
            self.dropped = Ghost(self.dropped@ + 1);
            assert(self.queue@.map_values(|b: Vec<u8>| b@) =~= v0.queue.skip(1));
        }
        let ghost v1 = self@;
        self.queue.push(block.clone());
        assert(self.queue@.last()@ =~= block@);
        self.pushed = Ghost(self.pushed@.push(block@));
        assert(self@.queue =~= v1.queue.push(block@));
        proof {
            if v0.dropped == 0 && v0.queue.len() < v0.capacity {
                assert(self@.data_delivered() + self@.queue =~= self@.pushed);
            }
        }
        assert(self@ == v0.push_spec(block@));
    }

    /// Takes the next chunk: the header first, then queued blocks in push
    /// order; `Pending` when nothing is queued, `End` once closed.
    pub fn pull(&mut self) -> (r: Pull)
        requires
            old(self).wf(),
        ensures
            r@ == old(self)@.pull_result(),
            final(self)@ == old(self)@.pull_spec(),
            final(self).wf(),
    {
        if self.closed {
            return Pull::End;
        }
        let ghost v0 = self@;
        if !self.header_sent {
            self.header_sent = true;
            self.delivered = Ghost(self.delivered@.push(self.header@));
            let h = self.header.clone();
            assert(h@ =~= self.header@);
            proof {
                if v0.dropped == 0 {
                    assert(self@.data_delivered() =~= seq![]);
                    assert(self@.data_delivered() + self@.queue =~= self@.pushed);
                }
            }
            return Pull::Chunk(h);
        }
        if self.queue.len() > 0 {
            let b = self.queue.remove(0);
            assert(b@ == v0.queue[0]);
            self.delivered = Ghost(self.delivered@.push(b@));
            assert(self@.queue =~= v0.queue.skip(1));
            proof {
                if v0.dropped == 0 {
                    assert(self@.data_delivered() =~= v0.data_delivered().push(b@));
                    assert(self@.data_delivered() + self@.queue =~= v0.data_delivered()
                        + v0.queue);
                }
            }
            return Pull::Chunk(b);
        }
        Pull::Pending
    }

    /// Marks end of stream; every later pull yields `End`. Idempotent.
    pub fn close(&mut self)
        requires
            old(self).wf(),
        ensures
            final(self)@ == old(self)@.close_spec(),
            final(self).wf(),
    {
        self.closed = true;
    }
}

} // verus!
