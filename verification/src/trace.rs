//! What holds of whole runs of read operations.
//!
//! A run is the sequence of poll attempts on the transport, each with what
//! it reported and how many bytes it delivered. Each resumption of a read
//! operation makes exactly one attempt, so a run also lists the resumptions.
//! The engine stands between the reader and the operation and hands the
//! reader's answer on as it got it; the statements below are about that
//! case.

use vstd::prelude::*;
use crate::io_error::would_block;
use crate::outcome::{read_outcome, Outcome, ReadOutcome};
use crate::reader::{read_answers, Polled};

verus! {

/// One poll attempt on the transport: what it reported, and how many bytes
/// it left filled in the buffer it was given.
pub struct Attempt {
    pub polled: Polled,
    pub count: usize,
}

/// How a read operation ends when its one poll attempt is `attempt`.
pub open spec fn step(attempt: Attempt) -> ReadOutcome {
    match attempt.polled {
        Polled::Ready => Outcome::Ready(attempt.count),
        Polled::Failed(error) => if would_block(error) {
            Outcome::Pending
        } else {
            Outcome::Failed(error)
        },
        Polled::NotReady => Outcome::Pending,
    }
}

/// The outcomes of the resumptions of a run, in order.
pub open spec fn outcomes(run: Seq<Attempt>) -> Seq<ReadOutcome> {
    Seq::new(run.len(), |i: int| step(run[i]))
}

/// The sizes of the chunks that the transport delivered in a run, in order.
pub open spec fn delivered(run: Seq<Attempt>) -> Seq<usize>
    decreases run.len(),
{
    if run.len() == 0 {
        Seq::empty()
    } else {
        let rest = delivered(run.drop_last());
        match run.last().polled {
            Polled::Ready => rest.push(run.last().count),
            _ => rest,
        }
    }
}

/// The byte counts that the operations of a run completed with, in order.
pub open spec fn reported(outs: Seq<ReadOutcome>) -> Seq<usize>
    decreases outs.len(),
{
    if outs.len() == 0 {
        Seq::empty()
    } else {
        let rest = reported(outs.drop_last());
        match outs.last() {
            Outcome::Ready(n) => rest.push(n),
            _ => rest,
        }
    }
}

/// The outcomes that completed an operation, in order: those that suspended
/// it are left out.
pub open spec fn completions(outs: Seq<ReadOutcome>) -> Seq<ReadOutcome>
    decreases outs.len(),
{
    if outs.len() == 0 {
        Seq::empty()
    } else {
        let rest = completions(outs.drop_last());
        if outs.last() is Pending {
            rest
        } else {
            rest.push(outs.last())
        }
    }
}

/// A run without the poll attempts that suspended the operation.
pub open spec fn without_suspensions(run: Seq<Attempt>) -> Seq<Attempt>
    decreases run.len(),
{
    if run.len() == 0 {
        Seq::empty()
    } else {
        let rest = without_suspensions(run.drop_last());
        if step(run.last()) is Pending {
            rest
        } else {
            rest.push(run.last())
        }
    }
}

/// The reader and the operation together: whatever answer the reader gives
/// to a poll attempt, the operation that gets this answer back from the
/// engine ends as `step` says.
pub proof fn lemma_read_then_settle(attempt: Attempt, read: Result<usize, std::io::Error>)
    requires
        read_answers(attempt.polled, attempt.count as nat, read),
    ensures
        read_outcome(read) == step(attempt),
{
}

/// An operation suspends exactly when the transport was not ready, or
/// failed with the would-block error itself. Every other failure completes
/// the operation with the very error the transport gave, and every delivery,
/// an empty one included, completes it with the delivered count.
pub proof fn lemma_step_cases(attempt: Attempt)
    ensures
        step(attempt) is Pending <==> (attempt.polled is NotReady || (attempt.polled is Failed
            && would_block(attempt.polled->Failed_0))),
        attempt.polled is Ready ==> step(attempt) == Outcome::<usize, std::io::Error>::Ready(
            attempt.count,
        ),
        attempt.polled matches Polled::Failed(error) ==> !would_block(error) ==> step(attempt)
            == Outcome::<usize, std::io::Error>::Failed(error),
{
}

/// Every chunk that the transport delivers is reported by exactly one
/// operation, with its size, and in the order of delivery; nothing else is
/// ever reported.
pub proof fn lemma_delivered_once_in_order(run: Seq<Attempt>)
    ensures
        reported(outcomes(run)) == delivered(run),
    decreases run.len(),
{
    if run.len() > 0 {
        lemma_delivered_once_in_order(run.drop_last());
        assert(outcomes(run).drop_last() =~= outcomes(run.drop_last()));
        assert(outcomes(run).last() == step(run.last()));
    }
}

/// Suspension leaves no trace: the operations of a run complete as those of
/// the same run in which the transport was ready at every attempt.
pub proof fn lemma_suspension_transparent(run: Seq<Attempt>)
    ensures
        completions(outcomes(run)) == outcomes(without_suspensions(run)),
        reported(outcomes(run)) == reported(outcomes(without_suspensions(run))),
        delivered(run) == delivered(without_suspensions(run)),
    decreases run.len(),
{
    if run.len() > 0 {
        let front = run.drop_last();
        lemma_suspension_transparent(front);
        assert(outcomes(run).drop_last() =~= outcomes(front));
        assert(outcomes(run).last() == step(run.last()));
        let kept = without_suspensions(front);
        if !(step(run.last()) is Pending) {
            let all = kept.push(run.last());
            assert(all.drop_last() =~= kept);
            assert(outcomes(all).drop_last() =~= outcomes(kept));
            assert(outcomes(all) =~= outcomes(kept).push(step(run.last())));
        }
        lemma_delivered_once_in_order(run);
        lemma_delivered_once_in_order(without_suspensions(run));
    } else {
        assert(outcomes(run) =~= Seq::<ReadOutcome>::empty());
    }
}

} // verus!
