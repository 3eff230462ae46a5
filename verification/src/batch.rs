//! Applying one action to a batch of handles, one after the other.
//!
//! The engine decides; its caller acts. The caller asks for the next step,
//! runs `usbip` on the handle that the step names, and hands back what
//! `usbip` wrote to its standard error. A failure on one handle does not
//! keep the batch from going on to the next, with one exception: an attach
//! that finds the driver missing ends the batch, because every further
//! attach would fail the same way.

use vstd::prelude::*;
use crate::action::{verdict_of, ActionKind, Verdict};
use crate::error::{failure_error, surfaces, EngineError};

verus! {

/// Whether the diagnostic at `i` is the first that was judged a failure.
pub open spec fn is_first_failure(kind: ActionKind, diagnostics: Seq<Seq<char>>, i: int) -> bool {
    &&& 0 <= i < diagnostics.len()
    &&& verdict_of(kind, diagnostics[i]).spec_is_failure()
    &&& forall|j: int| 0 <= j < i ==> !verdict_of(kind, #[trigger] diagnostics[j]).spec_is_failure()
}

/// Whether any of the diagnostics was judged a failure.
pub open spec fn any_failure(kind: ActionKind, diagnostics: Seq<Seq<char>>) -> bool {
    exists|i: int|
        0 <= i < diagnostics.len() && verdict_of(kind, #[trigger] diagnostics[i]).spec_is_failure()
}

/// Whether one of the diagnostics ends the batch: it reports the driver
/// missing.
pub open spec fn halted(kind: ActionKind, diagnostics: Seq<Seq<char>>) -> bool {
    exists|i: int|
        0 <= i < diagnostics.len() && verdict_of(kind, #[trigger] diagnostics[i])
            == Verdict::DriverMissing
}

/// Whether a batch of `total` handles is over once `diagnostics` have come
/// back: every handle was tried, or the batch was ended early.
pub open spec fn finished(kind: ActionKind, total: nat, diagnostics: Seq<Seq<char>>) -> bool {
    diagnostics.len() >= total || halted(kind, diagnostics)
}

/// Only a batch of attaches can end early: a bind, an unbind or a detach is
/// tried on every handle, whatever came back for the handles before.
pub proof fn lemma_only_attach_halts(kind: ActionKind, total: nat, diagnostics: Seq<Seq<char>>)
    requires
        kind != ActionKind::Attach,
    ensures
        !halted(kind, diagnostics),
        finished(kind, total, diagnostics) <==> diagnostics.len() >= total,
{
}

/// There is one first failure exactly if there is any failure.
pub proof fn lemma_first_failure(kind: ActionKind, diagnostics: Seq<Seq<char>>)
    ensures
        any_failure(kind, diagnostics) <==> exists|i: int|
            is_first_failure(kind, diagnostics, i),
        forall|i: int, j: int|
            is_first_failure(kind, diagnostics, i) && is_first_failure(kind, diagnostics, j)
                ==> i == j,
{
    if any_failure(kind, diagnostics) {
        lemma_least_failure(kind, diagnostics, diagnostics.len() as int);
    }
}

/// Among the first `upto` diagnostics, a failure implies a first failure.
proof fn lemma_least_failure(kind: ActionKind, diagnostics: Seq<Seq<char>>, upto: int)
    requires
        0 <= upto <= diagnostics.len(),
        exists|i: int|
            0 <= i < upto && verdict_of(kind, #[trigger] diagnostics[i]).spec_is_failure(),
    ensures
        exists|i: int| is_first_failure(kind, diagnostics, i),
    decreases upto,
{
    let last = upto - 1;
    if exists|i: int|
        0 <= i < last && verdict_of(kind, #[trigger] diagnostics[i]).spec_is_failure() {
        lemma_least_failure(kind, diagnostics, last);
    } else {
        assert(is_first_failure(kind, diagnostics, last));
    }
}

/// The first failure of a batch: on which handle it came, what it was
/// judged to be, and the diagnostic text itself.
#[derive(Debug, Clone)]
pub struct Failure {
    /// The index of the handle in the batch.
    pub index: usize,
    /// `Failure` or `DriverMissing`.
    pub verdict: Verdict,
    /// What `usbip` wrote to its standard error for that handle.
    pub diagnostic: String,
}

/// What the caller is to do next.
#[derive(Debug, Clone, Copy, PartialEq, Eq, Structural)]
pub enum Step {
    /// Apply the action to the handle at this index and record what came
    /// back.
    Invoke(usize),
    /// Nothing is left to do: read the batch's failure.
    Finish,
}

/// The state of a batch: which action, how many handles, and what has come
/// back so far.
pub struct Batch {
    kind: ActionKind,
    total: usize,
    attempted: usize,
    failure: Option<Failure>,
    halted: bool,
    history: Ghost<Seq<Seq<char>>>,
}

impl Batch {
    /// The action that the batch applies.
    pub closed spec fn kind(&self) -> ActionKind {
        self.kind
    }

    /// The number of handles in the batch.
    pub closed spec fn total(&self) -> nat {
        self.total as nat
    }

    /// The diagnostics recorded so far, one per handle tried, in order.
    pub closed spec fn history(&self) -> Seq<Seq<char>> {
        self.history@
    }

    /// What holds of every batch: no more was recorded than there are
    /// handles, nothing was recorded after the batch was ended, and the
    /// failure held is the first that came.
    #[verifier::type_invariant]
    pub closed spec fn wf(&self) -> bool {
        &&& self.attempted == self.history@.len()
        &&& self.attempted <= self.total
        &&& self.halted == halted(self.kind, self.history@)
        &&& self.history@.len() > 0 ==> !halted(self.kind, self.history@.drop_last())
        &&& self.failure is Some == any_failure(self.kind, self.history@)
        &&& self.failure matches Some(f) ==> {
            &&& is_first_failure(self.kind, self.history@, f.index as int)
            &&& f.verdict == verdict_of(self.kind, self.history@[f.index as int])
            &&& f.diagnostic@ == self.history@[f.index as int]
        }
    }

    /// No batch records more diagnostics than it has handles, and none goes
    /// on after a diagnostic that ended it.
    pub proof fn lemma_history(&self)
        requires
            self.wf(),
        ensures
            self.history().len() <= self.total(),
            self.history().len() > 0 ==> !finished(
                self.kind(),
                self.total(),
                self.history().drop_last(),
            ),
    {
    }

    /// A batch of `total` handles on which nothing was tried yet.
    pub fn new(kind: ActionKind, total: usize) -> (batch: Batch)
        ensures
            batch.kind() == kind,
            batch.total() == total,
            batch.history() == Seq::<Seq<char>>::empty(),
    {
        Batch {
            kind,
            total,
            attempted: 0,
            failure: None,
            halted: false,
            history: Ghost(Seq::empty()),
        }
    }

    /// The next step: the handle to try, in the order of the batch, or the
    /// end. The batch ends when every handle was tried, and also when an
    /// attach found the driver missing.
    pub fn next_step(&self) -> (step: Step)
        ensures
            step == (if finished(self.kind(), self.total(), self.history()) {
                Step::Finish
            } else {
                Step::Invoke(self.history().len() as usize)
            }),
    {
        proof {
            use_type_invariant(self);
        }
        if self.attempted >= self.total || self.halted {
            Step::Finish
        } else {
            Step::Invoke(self.attempted)
        }
    }

    /// Records what `usbip` wrote to its standard error for the handle that
    /// the last step named, and gives the verdict on it. Where the batch is
    /// over, nothing is recorded and there is no verdict.
    pub fn record(self, diagnostic: &str) -> (next: (Batch, Option<Verdict>))
        ensures
            next.0.kind() == self.kind(),
            next.0.total() == self.total(),
            finished(self.kind(), self.total(), self.history()) ==> next.0.history()
                == self.history() && next.1 is None,
            !finished(self.kind(), self.total(), self.history()) ==> next.0.history()
                == self.history().push(diagnostic@) && next.1 == Some(
                verdict_of(self.kind(), diagnostic@),
            ),
    {
        proof {
            use_type_invariant(&self);
        }
        if self.attempted >= self.total || self.halted {
            return (self, None);
        }
        let ghost after = self.history@.push(diagnostic@);
        let verdict = self.kind.classify(diagnostic);
        let Batch { kind, total, attempted, failure, halted: _, history: _ } = self;
        let failure = match failure {
            Some(first) => Some(first),
            None => if verdict.is_failure() {
                Some(Failure { index: attempted, verdict, diagnostic: diagnostic.to_owned() })
            } else {
                None
            },
        };
        let halted = verdict == Verdict::DriverMissing;
        (
            Batch { kind, total, attempted: attempted + 1, failure, halted, history: Ghost(after) },
            Some(verdict),
        )
    }

    /// The number of handles tried so far.
    pub fn attempted(&self) -> (n: usize)
        ensures
            n == self.history().len(),
    {
        proof {
            use_type_invariant(self);
        }
        self.attempted
    }

    /// The first failure among the handles tried so far, if any of them
    /// failed.
    pub fn failure(&self) -> (first: Option<&Failure>)
        ensures
            first is Some == any_failure(self.kind(), self.history()),
            first matches Some(f) ==> is_first_failure(
                self.kind(),
                self.history(),
                f.index as int,
            ),
            first matches Some(f) ==> f.verdict == verdict_of(
                self.kind(),
                self.history()[f.index as int],
            ),
            first matches Some(f) ==> f.diagnostic@ == self.history()[f.index as int],
    {
        proof {
            use_type_invariant(self);
        }
        match &self.failure {
            Some(f) => Some(f),
            None => None,
        }
    }

    /// How the batch ended, as far as it has run: well if no handle failed,
    /// else with the first failure that came.
    pub fn outcome(&self) -> (ended: Result<(), EngineError>)
        ensures
            ended is Ok == !any_failure(self.kind(), self.history()),
            ended matches Err(error) ==> exists|i: int|
                is_first_failure(self.kind(), self.history(), i) && surfaces(
                    error,
                    verdict_of(self.kind(), self.history()[i]),
                    self.history()[i],
                ),
    {
        match self.failure() {
            Some(first) => Err(failure_error(first)),
            None => Ok(()),
        }
    }
}

} // verus!
