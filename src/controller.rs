use vstd::prelude::*;

use crate::dispatcher::{
    abort_spec, copy_outcome, dispatch_spec, signal_outcome, CompletionDispatcher,
    CompletionSignal, Outcome,
};
use crate::error::AcqError;
use crate::progress::{download_percent, lemma_percent_bounds, percent_of};
use crate::resolver::ItemDescriptor;

verus! {

/// Where the controller stands in the acquisition.
#[derive(Clone, Copy, Debug, PartialEq, Eq, Structural)]
pub enum Phase {
    Start,
    CheckingInstall,
    Registering,
    Requesting,
    Polling,
    AwaitingCallback,
    Done,
}

/// What the caller observed since the last action.
#[derive(Debug, PartialEq, Eq)]
pub enum Event {
    Started,
    /// The install location of the item, if it is installed.
    InstallChecked { path: Option<String> },
    CallbackRegistered,
    /// Whether the service accepted the download request.
    DownloadRequested { accepted: bool },
    /// The current `(bytes downloaded, total bytes)`, or `None` once the
    /// service no longer tracks the download.
    ProgressSampled { sample: Option<(u64, u64)> },
    /// A completion notification, with the install location looked up for its
    /// item.
    Completion { signal: CompletionSignal, install_path: Option<String> },
    DeadlinePassed,
}

/// What the caller is to do next.
#[derive(Debug, PartialEq, Eq)]
pub enum Action {
    CheckInstall { item_id: u64 },
    RegisterCallback,
    RequestDownload { item_id: u64, high_priority: bool },
    /// Sample progress after the next tick; `percent` is the progress to show
    /// for the sample just taken, if any.
    SampleProgress { item_id: u64, percent: Option<u64> },
    /// Keep pumping events until the completion notification arrives.
    AwaitCallback,
    /// The terminal outcome, reported once.
    Report { outcome: Outcome },
    Nothing,
}

/// The acquisition state as the data model describes it.
#[derive(Debug, PartialEq, Eq)]
pub enum AcquisitionState {
    Queried,
    Downloading { bytes_downloaded: u64, total_bytes: u64 },
    Completed { path: String },
    Failed { reason: AcqError },
}

/// Drives one acquisition: it decides, the caller performs each action and
/// hands back what it observed.
pub struct AcquisitionController {
    pub item: ItemDescriptor,
    /// Register the completion callback before requesting the download.
    pub register_first: bool,
    pub phase: Phase,
    pub progress: Option<(u64, u64)>,
    pub callback_registered: bool,
    pub download_requested: bool,
    pub dispatcher: CompletionDispatcher,
}

/// The signal that the install-check path hands to the dispatcher.
pub open spec fn install_signal(item: ItemDescriptor) -> CompletionSignal {
    CompletionSignal { item_id: item.id, app_id: item.owner_app_id, error: None }
}

/// Ends the run with the dispatcher's verdict.
pub open spec fn finish(c: AcquisitionController, step: (CompletionDispatcher, Option<Outcome>)) -> (
    AcquisitionController,
    Action,
) {
    match step.1 {
        Some(outcome) => (
            AcquisitionController { phase: Phase::Done, dispatcher: step.0, ..c },
            Action::Report { outcome },
        ),
        None => (c, Action::Nothing),
    }
}

/// The transition on one event.
pub open spec fn next(c: AcquisitionController, ev: Event) -> (AcquisitionController, Action) {
    let id = c.item.id;
    if c.phase == Phase::Done {
        (c, Action::Nothing)
    } else {
        match ev {
            Event::Started => if c.phase == Phase::Start {
                (
                    AcquisitionController { phase: Phase::CheckingInstall, ..c },
                    Action::CheckInstall { item_id: id },
                )
            } else {
                (c, Action::Nothing)
            },
            Event::InstallChecked { path } => if c.phase != Phase::CheckingInstall {
                (c, Action::Nothing)
            } else if path is Some {
                finish(c, dispatch_spec(c.dispatcher, install_signal(c.item), path))
            } else if c.register_first {
                (AcquisitionController { phase: Phase::Registering, ..c }, Action::RegisterCallback)
            } else {
                (
                    AcquisitionController { phase: Phase::Requesting, ..c },
                    Action::RequestDownload { item_id: id, high_priority: true },
                )
            },
            Event::CallbackRegistered => if c.phase != Phase::Registering {
                (c, Action::Nothing)
            } else if c.download_requested {
                (
                    AcquisitionController { phase: Phase::Polling, callback_registered: true, ..c },
                    Action::SampleProgress { item_id: id, percent: None },
                )
            } else {
                (
                    AcquisitionController {
                        phase: Phase::Requesting,
                        callback_registered: true,
                        ..c
                    },
                    Action::RequestDownload { item_id: id, high_priority: true },
                )
            },
            Event::DownloadRequested { accepted } => if c.phase != Phase::Requesting {
                (c, Action::Nothing)
            } else if !accepted {
                finish(c, abort_spec(c.dispatcher, AcqError::DownloadRequest))
            } else if c.callback_registered {
                (
                    AcquisitionController { phase: Phase::Polling, download_requested: true, ..c },
                    Action::SampleProgress { item_id: id, percent: None },
                )
            } else {
                (
                    AcquisitionController {
                        phase: Phase::Registering,
                        download_requested: true,
                        ..c
                    },
                    Action::RegisterCallback,
                )
            },
            Event::ProgressSampled { sample } => if c.phase != Phase::Polling {
                (c, Action::Nothing)
            } else {
                match sample {
                    None => (
                        AcquisitionController { phase: Phase::AwaitingCallback, ..c },
                        Action::AwaitCallback,
                    ),
                    Some((bytes, total)) => if bytes >= total {
                        (
                            AcquisitionController {
                                phase: Phase::AwaitingCallback,
                                progress: sample,
                                ..c
                            },
                            Action::AwaitCallback,
                        )
                    } else {
                        (
                            AcquisitionController { progress: sample, ..c },
                            Action::SampleProgress {
                                item_id: id,
                                percent: Some(percent_of(bytes, total) as u64),
                            },
                        )
                    },
                }
            },
            Event::Completion { signal, install_path } => finish(
                c,
                dispatch_spec(c.dispatcher, signal, install_path),
            ),
            Event::DeadlinePassed => finish(c, abort_spec(c.dispatcher, AcqError::TimedOut)),
        }
    }
}

/// The acquisition state that a controller stands for.
pub open spec fn state_of(c: AcquisitionController) -> AcquisitionState {
    match c.dispatcher.outcome {
        Some(Outcome::Completed { path }) => AcquisitionState::Completed { path },
        Some(Outcome::Failed { reason }) => AcquisitionState::Failed { reason },
        None => match c.progress {
            Some((bytes_downloaded, total_bytes)) => AcquisitionState::Downloading {
                bytes_downloaded,
                total_bytes,
            },
            None => AcquisitionState::Queried,
        },
    }
}

/// The controller after the given events, with the actions it returned.
pub open spec fn run(c: AcquisitionController, events: Seq<Event>) -> (
    AcquisitionController,
    Seq<Action>,
)
    decreases events.len(),
{
    if events.len() == 0 {
        (c, Seq::empty())
    } else {
        let (c1, a) = next(c, events[0]);
        let (c2, rest) = run(c1, events.drop_first());
        (c2, seq![a] + rest)
    }
}

/// Each transition keeps the controller in agreement with its dispatcher.
pub proof fn lemma_next_wf(c: AcquisitionController, ev: Event)
    requires
        c.wf(),
    ensures
        next(c, ev).0.wf(),
        next(c, ev).0.item == c.item,
{
}

/// A finished run stays as it is and asks for nothing more, whatever arrives.
pub proof fn lemma_done_is_final(c: AcquisitionController, events: Seq<Event>)
    requires
        c.phase == Phase::Done,
    ensures
        run(c, events).0 == c,
        forall|i: int| 0 <= i < run(c, events).1.len() ==> run(c, events).1[i] == Action::Nothing,
        run(c, events).1.len() == events.len(),
    decreases events.len(),
{
    if events.len() > 0 {
        lemma_done_is_final(c, events.drop_first());
    }
}

pub open spec fn is_report(a: Action) -> bool {
    a is Report
}

/// The number of terminal reports among the actions.
pub open spec fn report_count(actions: Seq<Action>) -> nat
    decreases actions.len(),
{
    if actions.len() == 0 {
        0
    } else {
        (if is_report(actions[0]) { 1nat } else { 0nat }) + report_count(actions.drop_first())
    }
}

proof fn lemma_no_reports_when_done(c: AcquisitionController, events: Seq<Event>)
    requires
        c.phase == Phase::Done,
    ensures
        report_count(run(c, events).1) == 0,
    decreases events.len(),
{
    if events.len() > 0 {
        lemma_no_reports_when_done(c, events.drop_first());
        let (c1, a) = next(c, events[0]);
        let rest = run(c1, events.drop_first()).1;
        assert((seq![a] + rest).drop_first() =~= rest);
    }
}

/// However the install check, the poller and the completion notification
/// interleave, a run reports at most one terminal outcome, and a run that
/// has reported leaves its outcome unchanged.
pub proof fn lemma_at_most_one_report(c: AcquisitionController, events: Seq<Event>)
    requires
        c.wf(),
    ensures
        report_count(run(c, events).1) <= 1,
        report_count(run(c, events).1) == 1 ==> run(c, events).0.phase == Phase::Done,
        c.phase == Phase::Done ==> report_count(run(c, events).1) == 0,
    decreases events.len(),
{
    if events.len() > 0 {
        let (c1, a) = next(c, events[0]);
        let rest_events = events.drop_first();
        let rest = run(c1, rest_events).1;
        assert((seq![a] + rest).drop_first() =~= rest);
        lemma_next_wf(c, events[0]);
        lemma_at_most_one_report(c1, rest_events);
        if is_report(a) {
            assert(c1.phase == Phase::Done);
            lemma_no_reports_when_done(c1, rest_events);
            lemma_done_is_final(c1, rest_events);
        }
        if c.phase == Phase::Done {
            lemma_no_reports_when_done(c, events);
        }
    }
}

/// When the item is found installed at the first check, the run completes
/// with that location, and no download is ever requested, whatever follows.
pub proof fn lemma_installed_item_needs_no_download(
    item: ItemDescriptor,
    register_first: bool,
    path: String,
    later: Seq<Event>,
)
    ensures
        ({
            let c = AcquisitionController {
                item,
                register_first,
                phase: Phase::Start,
                progress: None,
                callback_registered: false,
                download_requested: false,
                dispatcher: CompletionDispatcher { item_id: item.id, outcome: None },
            };
            let events = seq![Event::Started, Event::InstallChecked { path: Some(path) }] + later;
            let (end, actions) = run(c, events);
            &&& state_of(end) == AcquisitionState::Completed { path }
            &&& !end.download_requested
            &&& forall|i: int| 0 <= i < actions.len() ==> !(actions[i] is RequestDownload)
        }),
{
    let c = AcquisitionController {
        item,
        register_first,
        phase: Phase::Start,
        progress: None,
        callback_registered: false,
        download_requested: false,
        dispatcher: CompletionDispatcher { item_id: item.id, outcome: None },
    };
    let events = seq![Event::Started, Event::InstallChecked { path: Some(path) }] + later;
    let (c1, a1) = next(c, events[0]);
    let (c2, a2) = next(c1, events[1]);
    assert(c2.phase == Phase::Done);
    lemma_done_is_final(c2, later);
    assert(events.drop_first().drop_first() =~= later);
    let (end, rest) = run(c2, later);
    assert(run(c1, events.drop_first()) == (end, seq![a2] + rest));
    assert(run(c, events) == (end, seq![a1] + (seq![a2] + rest)));
    assert forall|i: int| 0 <= i < run(c, events).1.len() implies !(
    #[trigger] run(c, events).1[i] is RequestDownload) by {
        if i >= 2 {
            assert(run(c, events).1[i] == rest[i - 2]);
        }
    }
}

/// A refused download request ends the run with that error, and the poller
/// is never started afterwards, whatever follows.
pub proof fn lemma_refused_request_fails(c: AcquisitionController, later: Seq<Event>)
    requires
        c.wf(),
        c.phase == Phase::Requesting,
    ensures
        ({
            let (c1, a) = next(c, Event::DownloadRequested { accepted: false });
            let (end, actions) = run(c1, later);
            &&& a == Action::Report {
                outcome: Outcome::Failed { reason: AcqError::DownloadRequest },
            }
            &&& state_of(end) == AcquisitionState::Failed { reason: AcqError::DownloadRequest }
            &&& forall|i: int|
                0 <= i < actions.len() ==> !(actions[i] is SampleProgress) && !(
                actions[i] is AwaitCallback)
        }),
{
    let (c1, a) = next(c, Event::DownloadRequested { accepted: false });
    lemma_done_is_final(c1, later);
}

/// A completion notification for the item that carries an error fails the
/// run with that code, whatever progress was last sampled (a finished-looking
/// sample included).
pub proof fn lemma_error_signal_fails(c: AcquisitionController, signal: CompletionSignal, install_path: Option<String>)
    requires
        c.wf(),
        c.phase != Phase::Done,
        signal.item_id == c.item.id,
        signal.error is Some,
    ensures
        ({
            let (c1, a) = next(c, Event::Completion { signal, install_path });
            let reason = AcqError::DownloadFailed { code: signal.error->0 };
            &&& a == Action::Report { outcome: Outcome::Failed { reason } }
            &&& state_of(c1) == AcquisitionState::Failed { reason }
            &&& c1.phase == Phase::Done
        }),
{
}

impl AcquisitionController {
    /// The controller agrees with its dispatcher: the run is over exactly when
    /// an outcome is decided.
    pub open spec fn wf(self) -> bool {
        &&& self.dispatcher.item_id == self.item.id
        &&& (self.phase == Phase::Done <==> self.dispatcher.outcome is Some)
    }

    pub fn new(item: ItemDescriptor, register_first: bool) -> (r: AcquisitionController)
        ensures
            r.wf(),
            r.item == item,
            r.register_first == register_first,
            r.phase == Phase::Start,
            r.progress is None,
            !r.callback_registered,
            !r.download_requested,
    {
        let id = item.id;
        AcquisitionController {
            item,
            register_first,
            phase: Phase::Start,
            progress: None,
            callback_registered: false,
            download_requested: false,
            dispatcher: CompletionDispatcher::new(id),
        }
    }

    fn finish_with(&mut self, verdict: Option<Outcome>) -> (r: Action)
        ensures
            (*final(self), r) == finish(*old(self), (final(self).dispatcher, verdict)),
            final(self).dispatcher == old(self).dispatcher,
    {
        match verdict {
            Some(outcome) => {
                self.phase = Phase::Done;
                Action::Report { outcome }
            },
            None => Action::Nothing,
        }
    }

    /// Takes one event and returns the next action.
    pub fn step(&mut self, ev: Event) -> (r: Action)
        requires
            old(self).wf(),
        ensures
            final(self).wf(),
            (*final(self), r) == next(*old(self), ev),
    {
        let id = self.item.id;
        if self.phase == Phase::Done {
            return Action::Nothing;
        }
        match ev {
            Event::Started => {
                if self.phase == Phase::Start {
                    self.phase = Phase::CheckingInstall;
                    Action::CheckInstall { item_id: id }
                } else {
                    Action::Nothing
                }
            },
            Event::InstallChecked { path } => {
                if self.phase != Phase::CheckingInstall {
                    Action::Nothing
                } else if path.is_some() {
                    let signal = CompletionSignal {
                        item_id: id,
                        app_id: self.item.owner_app_id,
                        error: None,
                    };
                    let verdict = self.dispatcher.dispatch(signal, path);
                    self.finish_with(verdict)
                } else if self.register_first {
                    self.phase = Phase::Registering;
                    Action::RegisterCallback
                } else {
                    self.phase = Phase::Requesting;
                    Action::RequestDownload { item_id: id, high_priority: true }
                }
            },
            Event::CallbackRegistered => {
                if self.phase != Phase::Registering {
                    Action::Nothing
                } else if self.download_requested {
                    self.phase = Phase::Polling;
                    self.callback_registered = true;
                    Action::SampleProgress { item_id: id, percent: None }
                } else {
                    self.phase = Phase::Requesting;
                    self.callback_registered = true;
                    Action::RequestDownload { item_id: id, high_priority: true }
                }
            },
            Event::DownloadRequested { accepted } => {
                if self.phase != Phase::Requesting {
                    Action::Nothing
                } else if !accepted {
                    let verdict = self.dispatcher.abort(AcqError::DownloadRequest);
                    self.finish_with(verdict)
                } else if self.callback_registered {
                    self.phase = Phase::Polling;
                    self.download_requested = true;
                    Action::SampleProgress { item_id: id, percent: None }
                } else {
                    self.phase = Phase::Registering;
                    self.download_requested = true;
                    Action::RegisterCallback
                }
            },
            Event::ProgressSampled { sample } => {
                if self.phase != Phase::Polling {
                    Action::Nothing
                } else {
                    match sample {
                        None => {
                            self.phase = Phase::AwaitingCallback;
                            Action::AwaitCallback
                        },
                        Some((bytes, total)) => {
                            self.progress = sample;
                            if bytes >= total {
                                self.phase = Phase::AwaitingCallback;
                                Action::AwaitCallback
                            } else {
                                proof {
                                    lemma_percent_bounds(bytes, total);
                                }
                                let percent = download_percent(bytes, total);
                                Action::SampleProgress { item_id: id, percent: Some(percent) }
                            }
                        },
                    }
                }
            },
            Event::Completion { signal, install_path } => {
                let verdict = self.dispatcher.dispatch(signal, install_path);
                self.finish_with(verdict)
            },
            Event::DeadlinePassed => {
                let verdict = self.dispatcher.abort(AcqError::TimedOut);
                self.finish_with(verdict)
            },
        }
    }

    /// The current acquisition state.
    pub fn state(&self) -> (r: AcquisitionState)
        ensures
            r == state_of(*self),
    {
        match &self.dispatcher.outcome {
            Some(outcome) => match copy_outcome(outcome) {
                Outcome::Completed { path } => AcquisitionState::Completed { path },
                Outcome::Failed { reason } => AcquisitionState::Failed { reason },
            },
            None => match self.progress {
                Some((bytes_downloaded, total_bytes)) => AcquisitionState::Downloading {
                    bytes_downloaded,
                    total_bytes,
                },
                None => AcquisitionState::Queried,
            },
        }
    }
}

} // verus!
