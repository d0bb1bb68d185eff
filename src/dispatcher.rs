use vstd::prelude::*;

use crate::error::AcqError;

verus! {

/// The payload shared by both completion paths: the direct install check and
/// the asynchronous completion notification.
#[derive(Clone, Copy, Debug, PartialEq, Eq, Structural)]
pub struct CompletionSignal {
    pub item_id: u64,
    pub app_id: u64,
    pub error: Option<i64>,
}

/// The terminal outcome of a run.
#[derive(Debug, PartialEq, Eq)]
pub enum Outcome {
    Completed { path: String },
    Failed { reason: AcqError },
}

/// The outcome that an accepted signal leads to, given the install location
/// looked up for its item.
pub open spec fn signal_outcome(signal: CompletionSignal, install_path: Option<String>) -> Outcome {
    match signal.error {
        Some(code) => Outcome::Failed { reason: AcqError::DownloadFailed { code } },
        None => match install_path {
            Some(path) => Outcome::Completed { path },
            None => Outcome::Failed { reason: AcqError::InstallInfoMissing },
        },
    }
}

pub fn copy_outcome(o: &Outcome) -> (r: Outcome)
    ensures
        r == *o,
{
    match o {
        Outcome::Completed { path } => Outcome::Completed { path: path.clone() },
        Outcome::Failed { reason } => Outcome::Failed { reason: *reason },
    }
}

/// The single funnel for terminal outcomes: the first signal for the tracked
/// item decides, and everything after it is ignored.
pub struct CompletionDispatcher {
    pub item_id: u64,
    pub outcome: Option<Outcome>,
}

/// One arrival at the dispatcher: its next state and what it reports, if
/// anything.
pub open spec fn dispatch_spec(
    d: CompletionDispatcher,
    signal: CompletionSignal,
    install_path: Option<String>,
) -> (CompletionDispatcher, Option<Outcome>) {
    if d.outcome is None && signal.item_id == d.item_id {
        let o = signal_outcome(signal, install_path);
        (CompletionDispatcher { item_id: d.item_id, outcome: Some(o) }, Some(o))
    } else {
        (d, None)
    }
}

/// An arrival that ends the run without a completion signal (a refused
/// request, the deadline).
pub open spec fn abort_spec(d: CompletionDispatcher, reason: AcqError) -> (
    CompletionDispatcher,
    Option<Outcome>,
) {
    if d.outcome is None {
        let o = Outcome::Failed { reason };
        (CompletionDispatcher { item_id: d.item_id, outcome: Some(o) }, Some(o))
    } else {
        (d, None)
    }
}

impl CompletionDispatcher {
    pub fn new(item_id: u64) -> (r: CompletionDispatcher)
        ensures
            r.item_id == item_id,
            r.outcome is None,
    {
        CompletionDispatcher { item_id, outcome: None }
    }

    /// Hands a completion signal to the dispatcher. `install_path` is the
    /// install location looked up for `signal.item_id`. Returns the outcome to
    /// report when this signal is the first one for the tracked item, and
    /// `None` when it is ignored.
    pub fn dispatch(&mut self, signal: CompletionSignal, install_path: Option<String>) -> (r: Option<
        Outcome,
    >)
        ensures
            (*final(self), r) == dispatch_spec(*old(self), signal, install_path),
    {
        if self.outcome.is_none() && signal.item_id == self.item_id {
            let o = match signal.error {
                Some(code) => Outcome::Failed { reason: AcqError::DownloadFailed { code } },
                None => match install_path {
                    Some(path) => Outcome::Completed { path },
                    None => Outcome::Failed { reason: AcqError::InstallInfoMissing },
                },
            };
            let reported = copy_outcome(&o);
            self.outcome = Some(o);
            Some(reported)
        } else {
            None
        }
    }

    /// Ends the run with `reason`, unless an outcome was already decided.
    pub fn abort(&mut self, reason: AcqError) -> (r: Option<Outcome>)
        ensures
            (*final(self), r) == abort_spec(*old(self), reason),
    {
        if self.outcome.is_none() {
            self.outcome = Some(Outcome::Failed { reason });
            Some(Outcome::Failed { reason })
        } else {
            None
        }
    }
}

/// The outcomes reported when the given arrivals reach the dispatcher in
/// order, with the dispatcher's final state.
pub open spec fn replay(
    d: CompletionDispatcher,
    arrivals: Seq<(CompletionSignal, Option<String>)>,
) -> (CompletionDispatcher, Seq<Outcome>)
    decreases arrivals.len(),
{
    if arrivals.len() == 0 {
        (d, Seq::empty())
    } else {
        let (d1, r) = dispatch_spec(d, arrivals[0].0, arrivals[0].1);
        let (d2, rest) = replay(d1, arrivals.drop_first());
        match r {
            Some(o) => (d2, seq![o] + rest),
            None => (d2, rest),
        }
    }
}

/// Once an outcome is decided, no later arrival is reported or changes it.
pub proof fn lemma_decided_ignores_rest(
    d: CompletionDispatcher,
    arrivals: Seq<(CompletionSignal, Option<String>)>,
)
    requires
        d.outcome is Some,
    ensures
        replay(d, arrivals) == (d, Seq::<Outcome>::empty()),
    decreases arrivals.len(),
{
    if arrivals.len() > 0 {
        lemma_decided_ignores_rest(d, arrivals.drop_first());
    }
}

/// Whatever order the two completion paths deliver their signals in, a fresh
/// dispatcher reports exactly one outcome, that of the first signal for its
/// item, and none when no signal is for its item.
pub proof fn lemma_exactly_one_report(
    item_id: u64,
    arrivals: Seq<(CompletionSignal, Option<String>)>,
)
    ensures
        forall|k: int|
            0 <= k < arrivals.len() && arrivals[k].0.item_id == item_id && (forall|j: int|
                0 <= j < k ==> arrivals[j].0.item_id != item_id) ==> replay(
                CompletionDispatcher { item_id, outcome: None },
                arrivals,
            ).1 == seq![signal_outcome(arrivals[k].0, arrivals[k].1)],
        (forall|j: int| 0 <= j < arrivals.len() ==> arrivals[j].0.item_id != item_id) ==> replay(
            CompletionDispatcher { item_id, outcome: None },
            arrivals,
        ).1.len() == 0,
    decreases arrivals.len(),
{
    let d = CompletionDispatcher { item_id, outcome: None };
    if arrivals.len() > 0 {
        let rest = arrivals.drop_first();
        lemma_exactly_one_report(item_id, rest);
        if arrivals[0].0.item_id == item_id {
            let (d1, r) = dispatch_spec(d, arrivals[0].0, arrivals[0].1);
            lemma_decided_ignores_rest(d1, rest);
            assert(replay(d, arrivals).1 =~= seq![signal_outcome(arrivals[0].0, arrivals[0].1)]);
        } else {
            assert forall|k: int|
                0 <= k < arrivals.len() && arrivals[k].0.item_id == item_id && (forall|j: int|
                    0 <= j < k ==> arrivals[j].0.item_id != item_id) implies replay(d, arrivals).1
                == seq![signal_outcome(arrivals[k].0, arrivals[k].1)] by {
                assert(k > 0);
                assert(rest[k - 1] == arrivals[k]);
                assert forall|j: int| 0 <= j < k - 1 implies rest[j].0.item_id != item_id by {
                    assert(rest[j] == arrivals[j + 1]);
                }
            }
            assert((forall|j: int| 0 <= j < arrivals.len() ==> arrivals[j].0.item_id != item_id)
                ==> (forall|j: int| 0 <= j < rest.len() ==> rest[j].0.item_id != item_id)) by {
                assert forall|j: int| 0 <= j < rest.len() implies rest[j] == arrivals[j + 1] by {}
            }
        }
    }
}

} // verus!
