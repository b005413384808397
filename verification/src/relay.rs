//! The sending half of the relay: batches are framed with a sequence number
//! per connection, kept until the receiver acknowledges them, and sent again
//! in the same order after a reconnection, which is retried with a delay
//! that doubles up to a limit.

use std::collections::VecDeque;
use vstd::prelude::*;

verus! {

/// A batch on the wire, with its place in the stream of its connection.
pub struct Frame<B> {
    pub seq: u64,
    pub batch: B,
}

/// The frames that have been sent and not acknowledged, oldest first, and
/// the sequence number of the next frame.
pub struct RelayClient<B> {
    next_seq: u64,
    in_flight: VecDeque<Frame<B>>,
}

/// The frames carry consecutive sequence numbers that end just before
/// `next_seq`.
pub open spec fn consecutive<B>(frames: Seq<Frame<B>>, next_seq: u64) -> bool {
    &&& frames.len() <= next_seq
    &&& forall|i: int|
        0 <= i < frames.len() ==> (#[trigger] frames[i]).seq == next_seq - frames.len() + i
}

/// The number of frames at the front of `frames` that an acknowledgement
/// of everything up to `seq` covers.
pub open spec fn acknowledged<B>(frames: Seq<Frame<B>>, seq: u64) -> int
    decreases frames.len(),
{
    if frames.len() == 0 || frames[0].seq > seq {
        0
    } else {
        1 + acknowledged(frames.drop_first(), seq)
    }
}

impl<B> View for RelayClient<B> {
    type V = Seq<Frame<B>>;

    closed spec fn view(&self) -> Seq<Frame<B>> {
        self.in_flight@
    }
}

impl<B> RelayClient<B> {
    /// The sequence number that the next frame gets.
    pub closed spec fn spec_next_seq(&self) -> u64 {
        self.next_seq
    }

    /// The frames in flight carry the consecutive sequence numbers that
    /// precede the next one.
    pub open spec fn wf(&self) -> bool {
        consecutive(self@, self.spec_next_seq())
    }

    /// A client at the start of a connection: nothing in flight, and the
    /// first frame will have the number 0.
    pub fn new() -> (r: Self)
        ensures
            r.wf(),
            r@ == Seq::<Frame<B>>::empty(),
            r.spec_next_seq() == 0,
    {
        RelayClient { next_seq: 0, in_flight: VecDeque::new() }
    }

    /// The sequence number that the next frame gets.
    pub fn next_seq(&self) -> (r: u64)
        ensures
            r == self.spec_next_seq(),
    {
        self.next_seq
    }

    /// The number of frames in flight.
    pub fn in_flight_count(&self) -> (r: usize)
        ensures
            r == self@.len(),
    {
        self.in_flight.len()
    }

    /// The `index`-th oldest frame in flight. After a reconnection the
    /// frames are sent again by increasing index.
    pub fn in_flight_frame(&self, index: usize) -> (r: Option<&Frame<B>>)
        ensures
            index < self@.len() ==> r == Some(&self@[index as int]),
            index >= self@.len() ==> r is None,
    {
        if index < self.in_flight.len() {
            Some(&self.in_flight[index])
        } else {
            None
        }
    }

    /// Frames `batch` with the next sequence number and keeps the frame as
    /// in flight. Returns the number, or gives the batch back when the
    /// sequence numbers of the connection are used up.
    pub fn submit(&mut self, batch: B) -> (r: Result<u64, B>)
        requires
            old(self).wf(),
        ensures
            final(self).wf(),
            old(self).spec_next_seq() < u64::MAX ==> r == Ok::<u64, B>(old(self).spec_next_seq())
                && final(self).spec_next_seq() == old(self).spec_next_seq() + 1 && final(self)@
                == old(self)@.push((Frame { seq: old(self).spec_next_seq(), batch })),
            old(self).spec_next_seq() == u64::MAX ==> r == Err::<u64, B>(batch) && final(self)@
                == old(self)@ && final(self).spec_next_seq() == old(self).spec_next_seq(),
    {
        if self.next_seq == u64::MAX {
            return Err(batch);
        }
        let seq = self.next_seq;
        self.in_flight.push_back(Frame { seq, batch });
        self.next_seq = seq + 1;
        Ok(seq)
    }

    /// Forgets the frames that the receiver has acknowledged: every frame
    /// in flight with a number up to `seq`. Returns how many these were.
    pub fn acknowledge(&mut self, seq: u64) -> (r: usize)
        requires
            old(self).wf(),
        ensures
            final(self).wf(),
            final(self).spec_next_seq() == old(self).spec_next_seq(),
            r == acknowledged(old(self)@, seq),
            r <= old(self)@.len(),
            final(self)@ == old(self)@.skip(r as int),
            forall|i: int| 0 <= i < final(self)@.len() ==> (#[trigger] final(self)@[i]).seq > seq,
            forall|i: int| 0 <= i < r ==> (#[trigger] old(self)@[i]).seq <= seq,
    {
        let total: usize = self.in_flight.len();
        let mut count: usize = 0;
        while self.in_flight.len() > 0 && self.in_flight[0].seq <= seq
            invariant
                self.wf(),
                self.next_seq == old(self).next_seq,
                total == old(self)@.len(),
                count + self@.len() == total,
                self@ == old(self)@.skip(count as int),
                acknowledged(old(self)@, seq) == count + acknowledged(self@, seq),
                forall|i: int| 0 <= i < count ==> (#[trigger] old(self)@[i]).seq <= seq,
            decreases self@.len(),
        {
            let ghost before = self@;
            let _ = self.in_flight.pop_front();
            proof {
                assert(self@ =~= before.drop_first());
                assert(self@ =~= old(self)@.skip(count as int + 1));
            }
            count += 1;
        }
        proof {
            if self@.len() > 0 {
                assert forall|i: int| 0 <= i < self@.len() implies (#[trigger] self@[i]).seq
                    > seq by {
                    assert(self@[i].seq >= self@[0].seq);
                }
            }
        }
        count
    }
}

/// Frames that were submitted in some order are in flight in that order,
/// with increasing sequence numbers: sending them again by increasing index
/// repeats the order in which the batches were submitted.
pub proof fn lemma_resend_keeps_order<B>(frames: Seq<Frame<B>>, next_seq: u64, i: int, j: int)
    requires
        consecutive(frames, next_seq),
        0 <= i < j < frames.len(),
    ensures
        frames[i].seq < frames[j].seq,
        frames[j].seq - frames[i].seq == j - i,
{
}

/// The delay before the next attempt to reconnect.
#[derive(Clone, Copy, Debug, PartialEq, Eq, Structural)]
pub struct Backoff {
    /// The delay before the first attempt, in milliseconds.
    pub initial_ms: u64,
    /// The longest delay, in milliseconds.
    pub max_ms: u64,
    /// The delay before the next attempt, in milliseconds.
    pub current_ms: u64,
}

/// The delay that follows `current_ms`: twice as long, up to `max_ms`.
pub open spec fn doubled(current_ms: u64, max_ms: u64) -> u64 {
    if current_ms * 2 <= max_ms {
        (current_ms * 2) as u64
    } else {
        max_ms
    }
}

impl Backoff {
    /// A backoff that starts at `initial_ms` and grows up to `max_ms`; the
    /// first delay is the smaller of the two.
    pub fn new(initial_ms: u64, max_ms: u64) -> (r: Backoff)
        ensures
            r.initial_ms == initial_ms,
            r.max_ms == max_ms,
            r.current_ms == if initial_ms <= max_ms {
                initial_ms
            } else {
                max_ms
            },
    {
        let current_ms = if initial_ms <= max_ms {
            initial_ms
        } else {
            max_ms
        };
        Backoff { initial_ms, max_ms, current_ms }
    }

    /// The delay to wait before the attempt that comes now; the one after
    /// it will be twice as long, up to the limit.
    pub fn next_delay(&mut self) -> (r: u64)
        ensures
            r == old(self).current_ms,
            final(self).current_ms == doubled(old(self).current_ms, old(self).max_ms),
            final(self).initial_ms == old(self).initial_ms,
            final(self).max_ms == old(self).max_ms,
    {
        let delay = self.current_ms;
        self.current_ms = if delay <= self.max_ms / 2 {
            delay * 2
        } else {
            self.max_ms
        };
        delay
    }

    /// Starts over after a connection was made.
    pub fn reset(&mut self)
        ensures
            *final(self) == (Backoff {
                initial_ms: old(self).initial_ms,
                max_ms: old(self).max_ms,
                current_ms: if old(self).initial_ms <= old(self).max_ms {
                    old(self).initial_ms
                } else {
                    old(self).max_ms
                },
            }),
    {
        self.current_ms = if self.initial_ms <= self.max_ms {
            self.initial_ms
        } else {
            self.max_ms
        };
    }
}

} // verus!
