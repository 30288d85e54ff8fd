//! One non-blocking round of event processing, step by step.
//!
//! A round processes the events that are already buffered. If there were
//! none, it flushes the outgoing requests and tries to read from the
//! transport without blocking; what was read is then processed. The work on
//! the connection is the caller's: `Poll` says which step comes next, and
//! takes the outcome of the step that was carried out.
use vstd::prelude::*;

verus! {

/// Where a round stands: the step that the caller has to carry out next, or
/// how the round ended.
#[derive(Clone, Copy, Debug, PartialEq, Eq, Structural)]
pub enum Poll {
    /// Process the events that are buffered.
    Dispatch,
    /// Flush the outgoing requests.
    Flush,
    /// Try to read from the transport, without blocking.
    Read,
    /// Process the events that the read brought.
    Redispatch,
    /// The round is over: this many events were processed.
    Done(usize),
    /// The round is over: the step that was carried out last failed, and
    /// its error goes to the caller as it is.
    Failed,
}

/// How a step ended.
#[derive(Clone, Copy, Debug, PartialEq, Eq, Structural)]
pub enum Outcome {
    /// Buffered events were processed, this many of them.
    Dispatched(usize),
    /// The outgoing requests were flushed.
    Flushed,
    /// The transport was read.
    ReadDone,
    /// The transport had nothing to read: the read would have blocked.
    WouldBlock,
    /// No read was started, because buffered events have to be processed
    /// first.
    Unprepared,
    /// The step failed with an error other than "would block".
    Failed,
}

impl Poll {
    /// Whether the round is over.
    pub open spec fn finished(self) -> bool {
        self is Done || self is Failed
    }

    /// Where the round stands after the step that was due ended with
    /// `outcome`.
    ///
    /// Any failure ends the round as failed; nothing is retried. Buffered
    /// events that were processed end it with their number. A read that
    /// would block, or that was not started, ends it with zero. An outcome
    /// that does not belong to the step that was due changes nothing.
    pub open spec fn after(self, outcome: Outcome) -> Poll {
        match (self, outcome) {
            (Poll::Dispatch, Outcome::Dispatched(count)) => if count > 0 {
                Poll::Done(count)
            } else {
                Poll::Flush
            },
            (Poll::Flush, Outcome::Flushed) => Poll::Read,
            (Poll::Read, Outcome::ReadDone) => Poll::Redispatch,
            (Poll::Read, Outcome::WouldBlock) => Poll::Done(0),
            (Poll::Read, Outcome::Unprepared) => Poll::Done(0),
            (Poll::Redispatch, Outcome::Dispatched(count)) => Poll::Done(count),
            (Poll::Dispatch, Outcome::Failed) => Poll::Failed,
            (Poll::Flush, Outcome::Failed) => Poll::Failed,
            (Poll::Read, Outcome::Failed) => Poll::Failed,
            (Poll::Redispatch, Outcome::Failed) => Poll::Failed,
            _ => self,
        }
    }

    /// The start of a round.
    pub fn start() -> (poll: Poll)
        ensures
            poll == Poll::Dispatch,
    {
        Poll::Dispatch
    }

    /// Whether the round is over.
    pub fn is_finished(&self) -> (finished: bool)
        ensures
            finished == self.finished(),
    {
        match self {
            Poll::Done(_) => true,
            Poll::Failed => true,
            _ => false,
        }
    }

    /// Takes the outcome of the step that was due and returns where the
    /// round stands now.
    pub fn step(self, outcome: Outcome) -> (next: Poll)
        ensures
            next == self.after(outcome),
    {
        match self {
            Poll::Dispatch => match outcome {
                Outcome::Dispatched(count) => if count > 0 {
                    Poll::Done(count)
                } else {
                    Poll::Flush
                },
                Outcome::Failed => Poll::Failed,
                _ => self,
            },
            Poll::Flush => match outcome {
                Outcome::Flushed => Poll::Read,
                Outcome::Failed => Poll::Failed,
                _ => self,
            },
            Poll::Read => match outcome {
                Outcome::ReadDone => Poll::Redispatch,
                Outcome::WouldBlock => Poll::Done(0),
                Outcome::Unprepared => Poll::Done(0),
                Outcome::Failed => Poll::Failed,
                _ => self,
            },
            Poll::Redispatch => match outcome {
                Outcome::Dispatched(count) => Poll::Done(count),
                Outcome::Failed => Poll::Failed,
                _ => self,
            },
            Poll::Done(_) => self,
            Poll::Failed => self,
        }
    }
}

/// A round that is over stays as it ended, whatever is reported to it.
pub proof fn lemma_finished_is_final(poll: Poll, outcome: Outcome)
    requires
        poll.finished(),
    ensures
        poll.after(outcome) == poll,
{
}

} // verus!
