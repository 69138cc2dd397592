//! Carrying out the transfers of an operation, one after the other.
//!
//! The caller makes the transfers. A `Run` says which transfer comes next
//! and, told how that transfer went, whether the operation goes on.

use crate::error::Error;
use crate::usb::{views, Outcome, Transfer, TransferView};
use vstd::prelude::*;

verus! {

/// What the outcome of one transfer means for the operation.
#[derive(Clone, Copy, Debug, PartialEq, Eq, Structural)]
pub enum Verdict {
    /// No transfer was awaited: the outcome was ignored.
    Idle,
    /// The transfer went through; the operation goes on.
    Proceed,
    /// The transfer did not move as many bytes as it carried. The operation
    /// goes on; the error is to be reported as a warning.
    Warn(Error),
    /// The operation is over and has failed with this error.
    Abort(Error),
}

/// What an outcome means for the transfer at place `index` of a plan.
///
/// A failure of the transport ends the operation. So does a read that
/// brought fewer bytes than asked for, since the profile would be
/// incomplete. A write that did not move as many bytes as it carried is
/// worth a warning. How many bytes a control transfer moved is not looked
/// at.
pub open spec fn judge(transfer: TransferView, index: nat, outcome: Outcome) -> Verdict {
    match outcome {
        Outcome::Failed(fault) => Verdict::Abort(
            Error::TransferError { index: index as usize, fault },
        ),
        Outcome::Moved(moved) => match transfer {
            TransferView::Control { .. } => Verdict::Proceed,
            TransferView::InterruptOut { chunk, .. } => if moved == chunk.len() {
                Verdict::Proceed
            } else {
                Verdict::Warn(
                    Error::ShortTransfer {
                        index: index as usize,
                        expected: chunk.len() as usize,
                        moved,
                    },
                )
            },
            TransferView::InterruptIn { length, .. } => if moved == length {
                Verdict::Proceed
            } else {
                Verdict::Abort(
                    Error::ShortTransfer { index: index as usize, expected: length as usize, moved },
                )
            },
        },
    }
}

/// A run as a mathematical value.
pub struct RunView {
    /// The transfers of the operation, in order.
    pub plan: Seq<TransferView>,
    /// How many of them have been made and have not ended the operation.
    pub done: nat,
    /// The error that ended the operation, if one did.
    pub failure: Option<Error>,
}

impl RunView {
    /// The run of `plan` before its first transfer.
    pub open spec fn fresh(plan: Seq<TransferView>) -> RunView {
        RunView { plan, done: 0, failure: None }
    }

    /// The transfer that is awaited, if the run is not over.
    pub open spec fn pending(self) -> Option<TransferView> {
        if self.failure is None && self.done < self.plan.len() {
            Some(self.plan[self.done as int])
        } else {
            None
        }
    }

    /// What `outcome` means for the run.
    pub open spec fn verdict(self, outcome: Outcome) -> Verdict {
        match self.pending() {
            None => Verdict::Idle,
            Some(transfer) => judge(transfer, self.done, outcome),
        }
    }

    /// The run after `outcome`.
    pub open spec fn record(self, outcome: Outcome) -> RunView {
        match self.verdict(outcome) {
            Verdict::Idle => self,
            Verdict::Proceed => RunView { done: self.done + 1, ..self },
            Verdict::Warn(_) => RunView { done: self.done + 1, ..self },
            Verdict::Abort(error) => RunView { failure: Some(error), ..self },
        }
    }

    /// How the operation ended, if the run is over.
    pub open spec fn result(self) -> Option<Result<(), Error>> {
        match self.failure {
            Some(error) => Some(Err(error)),
            None => if self.done >= self.plan.len() {
                Some(Ok(()))
            } else {
                None
            },
        }
    }
}

/// The run of `plan` after it has been told `outcomes`, in order.
pub open spec fn replay(plan: Seq<TransferView>, outcomes: Seq<Outcome>) -> RunView
    decreases outcomes.len(),
{
    if outcomes.len() == 0 {
        RunView::fresh(plan)
    } else {
        replay(plan, outcomes.drop_last()).record(outcomes.last())
    }
}

/// Whether outcome `k` ends the operation when it is the outcome of
/// transfer `k` of `plan`.
pub open spec fn aborts(plan: Seq<TransferView>, outcomes: Seq<Outcome>, k: int) -> bool {
    judge(plan[k], k as nat, outcomes[k]) is Abort
}

/// Where a run stands after any outcomes: the plan is as it was; transfer
/// `k` was made with outcome `k`, one after the other from the first, and
/// none of those counted as done ended the operation; a failed run stands
/// at the transfer whose outcome ended it; a run that has not failed has
/// made as many transfers as there were outcomes, or the whole plan.
pub proof fn lemma_replay(plan: Seq<TransferView>, outcomes: Seq<Outcome>)
    ensures
        ({
            let run = replay(plan, outcomes);
            &&& run.plan == plan
            &&& run.done <= plan.len()
            &&& run.done <= outcomes.len()
            &&& forall|k: int| 0 <= k < run.done ==> !aborts(plan, outcomes, k)
            &&& run.failure matches Some(error) ==> {
                &&& run.done < plan.len()
                &&& run.done < outcomes.len()
                &&& judge(plan[run.done as int], run.done, outcomes[run.done as int])
                    == Verdict::Abort(error)
            }
            &&& run.failure is None ==> run.done == plan.len() || run.done == outcomes.len()
        }),
    decreases outcomes.len(),
{
    if outcomes.len() > 0 {
        let earlier = outcomes.drop_last();
        lemma_replay(plan, earlier);
        let before = replay(plan, earlier);
        let run = replay(plan, outcomes);
        assert(run == before.record(outcomes.last()));
        assert forall|k: int| 0 <= k < before.done implies !aborts(plan, outcomes, k) by {
            assert(earlier[k] == outcomes[k]);
            assert(!aborts(plan, earlier, k));
        }
        if before.failure is Some {
            assert(earlier[before.done as int] == outcomes[before.done as int]);
        }
    }
}

/// A run in which no outcome ends the operation makes every transfer of
/// the plan and ends well.
pub proof fn lemma_run_completes(plan: Seq<TransferView>, outcomes: Seq<Outcome>)
    requires
        outcomes.len() >= plan.len(),
        forall|k: int| 0 <= k < plan.len() ==> !aborts(plan, outcomes, k),
    ensures
        replay(plan, outcomes).done == plan.len(),
        replay(plan, outcomes).pending() is None,
        replay(plan, outcomes).result() == Some(Ok::<(), Error>(())),
{
    lemma_replay(plan, outcomes);
    let run = replay(plan, outcomes);
    if run.failure is Some {
        assert(aborts(plan, outcomes, run.done as int));
    }
}

/// A run stops at the first outcome that ends the operation: the transfers
/// before it were made, none after it is, and the result is its error.
pub proof fn lemma_run_stops(plan: Seq<TransferView>, outcomes: Seq<Outcome>, k: int)
    requires
        0 <= k < plan.len(),
        k < outcomes.len(),
        aborts(plan, outcomes, k),
        forall|j: int| 0 <= j < k ==> !aborts(plan, outcomes, j),
    ensures
        replay(plan, outcomes).done == k,
        replay(plan, outcomes).pending() is None,
        replay(plan, outcomes).result() matches Some(Err(error)) && judge(
            plan[k],
            k as nat,
            outcomes[k],
        ) == Verdict::Abort(error),
{
    lemma_replay(plan, outcomes);
    let run = replay(plan, outcomes);
    if run.failure is None {
        assert(!aborts(plan, outcomes, k));
    } else {
        let at = run.done as int;
        assert(aborts(plan, outcomes, at));
        if at < k {
            assert(!aborts(plan, outcomes, at));
        }
        if k < at {
            assert(!aborts(plan, outcomes, k));
        }
    }
}

/// The transfers of one operation and how far they have been made.
#[derive(Debug)]
pub struct Run {
    plan: Vec<Transfer>,
    done: usize,
    failure: Option<Error>,
}

impl View for Run {
    type V = RunView;

    closed spec fn view(&self) -> RunView {
        RunView { plan: views(self.plan@), done: self.done as nat, failure: self.failure }
    }
}

impl Run {
    #[verifier::type_invariant]
    spec fn within_plan(self) -> bool {
        self.done <= self.plan@.len()
    }

    /// Begins the run of `plan`.
    pub fn new(plan: Vec<Transfer>) -> (run: Run)
        ensures
            run@ == RunView::fresh(views(plan@)),
    {
        Run { plan, done: 0, failure: None }
    }

    /// The transfer that is to be made next; none when the run is over.
    pub fn pending(&self) -> (transfer: Option<Transfer>)
        ensures
            match transfer {
                Some(transfer) => self@.pending() == Some(transfer@),
                None => self@.pending() is None,
            },
    {
        if self.failure.is_none() && self.done < self.plan.len() {
            Some(self.plan[self.done])
        } else {
            None
        }
    }

    /// How many transfers have been made and have not ended the operation.
    pub fn done(&self) -> (done: usize)
        ensures
            done == self@.done,
    {
        self.done
    }

    /// Takes the outcome of the transfer that `pending` asked for and says
    /// what it means.
    pub fn record(&mut self, outcome: Outcome) -> (verdict: Verdict)
        ensures
            verdict == old(self)@.verdict(outcome),
            final(self)@ == old(self)@.record(outcome),
    {
        proof {
            use_type_invariant(&*self);
        }
        if self.failure.is_some() || self.done >= self.plan.len() {
            return Verdict::Idle;
        }
        let index = self.done;
        let verdict = match outcome {
            Outcome::Failed(fault) => Verdict::Abort(Error::TransferError { index, fault }),
            Outcome::Moved(moved) => match self.plan[index] {
                Transfer::Control { .. } => Verdict::Proceed,
                Transfer::InterruptOut { chunk, .. } => if moved == chunk.len() {
                    Verdict::Proceed
                } else {
                    Verdict::Warn(Error::ShortTransfer { index, expected: chunk.len(), moved })
                },
                Transfer::InterruptIn { length, .. } => if moved == length {
                    Verdict::Proceed
                } else {
                    Verdict::Abort(Error::ShortTransfer { index, expected: length, moved })
                },
            },
        };
        match verdict {
            Verdict::Abort(error) => {
                self.failure = Some(error);
            },
            _ => {
                self.done = index + 1;
            },
        }
        verdict
    }

    /// How the operation ended; nothing while the run is not over.
    pub fn result(&self) -> (result: Option<Result<(), Error>>)
        ensures
            result == self@.result(),
    {
        proof {
            use_type_invariant(self);
        }
        match self.failure {
            Some(error) => Some(Err(error)),
            None => if self.done >= self.plan.len() {
                Some(Ok(()))
            } else {
                None
            },
        }
    }
}

} // verus!
