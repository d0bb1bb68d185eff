use steam_workshop_downloader::controller::{
    AcquisitionController, AcquisitionState, Action, Event, Phase,
};
use steam_workshop_downloader::dispatcher::{CompletionDispatcher, CompletionSignal, Outcome};
use steam_workshop_downloader::error::AcqError;
use steam_workshop_downloader::resolver::ItemDescriptor;

const ID: u64 = 123456789;

fn descriptor() -> ItemDescriptor {
    ItemDescriptor { id: ID, title: "Map pack".to_string(), owner_app_id: 4000 }
}

fn signal(item_id: u64, error: Option<i64>) -> CompletionSignal {
    CompletionSignal { item_id, app_id: 4000, error }
}

fn completed(path: &str) -> Outcome {
    Outcome::Completed { path: path.to_string() }
}

/// Runs a controller up to the point where it polls.
fn polling_controller(register_first: bool) -> AcquisitionController {
    let mut c = AcquisitionController::new(descriptor(), register_first);
    assert_eq!(c.step(Event::Started), Action::CheckInstall { item_id: ID });
    let a = c.step(Event::InstallChecked { path: None });
    if register_first {
        assert_eq!(a, Action::RegisterCallback);
        assert_eq!(
            c.step(Event::CallbackRegistered),
            Action::RequestDownload { item_id: ID, high_priority: true }
        );
        assert_eq!(
            c.step(Event::DownloadRequested { accepted: true }),
            Action::SampleProgress { item_id: ID, percent: None }
        );
    } else {
        assert_eq!(a, Action::RequestDownload { item_id: ID, high_priority: true });
        assert_eq!(c.step(Event::DownloadRequested { accepted: true }), Action::RegisterCallback);
        assert_eq!(
            c.step(Event::CallbackRegistered),
            Action::SampleProgress { item_id: ID, percent: None }
        );
    }
    assert_eq!(c.phase, Phase::Polling);
    c
}

#[test]
fn installed_item_completes_without_download_request() {
    let mut c = AcquisitionController::new(descriptor(), true);
    let mut actions = vec![c.step(Event::Started)];
    actions.push(c.step(Event::InstallChecked { path: Some("/items/1".to_string()) }));
    actions.push(c.step(Event::CallbackRegistered));
    actions.push(c.step(Event::DownloadRequested { accepted: true }));
    assert_eq!(actions[1], Action::Report { outcome: completed("/items/1") });
    assert!(!actions.iter().any(|a| matches!(a, Action::RequestDownload { .. })));
    assert!(!c.download_requested);
    assert_eq!(c.state(), AcquisitionState::Completed { path: "/items/1".to_string() });
}

#[test]
fn refused_request_fails_without_polling() {
    for register_first in [true, false] {
        let mut c = AcquisitionController::new(descriptor(), register_first);
        c.step(Event::Started);
        let a = c.step(Event::InstallChecked { path: None });
        if register_first {
            assert_eq!(a, Action::RegisterCallback);
            c.step(Event::CallbackRegistered);
        }
        let r = c.step(Event::DownloadRequested { accepted: false });
        assert_eq!(r, Action::Report { outcome: Outcome::Failed { reason: AcqError::DownloadRequest } });
        assert_eq!(c.step(Event::CallbackRegistered), Action::Nothing);
        assert_eq!(c.step(Event::ProgressSampled { sample: Some((1, 2)) }), Action::Nothing);
        assert_eq!(c.state(), AcquisitionState::Failed { reason: AcqError::DownloadRequest });
    }
}

#[test]
fn download_reports_progress_then_waits_for_callback() {
    for register_first in [true, false] {
        let mut c = polling_controller(register_first);
        assert_eq!(
            c.step(Event::ProgressSampled { sample: Some((1, 3)) }),
            Action::SampleProgress { item_id: ID, percent: Some(33) }
        );
        assert_eq!(
            c.state(),
            AcquisitionState::Downloading { bytes_downloaded: 1, total_bytes: 3 }
        );
        assert_eq!(
            c.step(Event::ProgressSampled { sample: Some((2, 3)) }),
            Action::SampleProgress { item_id: ID, percent: Some(66) }
        );
        assert_eq!(c.step(Event::ProgressSampled { sample: Some((3, 3)) }), Action::AwaitCallback);
        assert_eq!(c.phase, Phase::AwaitingCallback);
        let r = c.step(Event::Completion {
            signal: signal(ID, None),
            install_path: Some("/items/2".to_string()),
        });
        assert_eq!(r, Action::Report { outcome: completed("/items/2") });
        assert_eq!(c.state(), AcquisitionState::Completed { path: "/items/2".to_string() });
    }
}

#[test]
fn lost_tracking_defers_to_callback() {
    let mut c = polling_controller(true);
    assert_eq!(c.step(Event::ProgressSampled { sample: None }), Action::AwaitCallback);
    assert_eq!(c.state(), AcquisitionState::Queried);
    let r = c.step(Event::Completion {
        signal: signal(ID, None),
        install_path: Some("/items/3".to_string()),
    });
    assert_eq!(r, Action::Report { outcome: completed("/items/3") });
}

#[test]
fn error_signal_fails_even_after_full_sample() {
    let mut c = polling_controller(false);
    assert_eq!(c.step(Event::ProgressSampled { sample: Some((8, 8)) }), Action::AwaitCallback);
    let r = c.step(Event::Completion {
        signal: signal(ID, Some(15)),
        install_path: Some("/items/4".to_string()),
    });
    let reason = AcqError::DownloadFailed { code: 15 };
    assert_eq!(r, Action::Report { outcome: Outcome::Failed { reason } });
    assert_eq!(c.state(), AcquisitionState::Failed { reason });
}

#[test]
fn success_signal_without_install_location_fails() {
    let mut c = polling_controller(true);
    let r = c.step(Event::Completion { signal: signal(ID, None), install_path: None });
    assert_eq!(
        r,
        Action::Report { outcome: Outcome::Failed { reason: AcqError::InstallInfoMissing } }
    );
}

#[test]
fn second_completion_is_ignored() {
    let mut c = AcquisitionController::new(descriptor(), true);
    c.step(Event::Started);
    let first = c.step(Event::InstallChecked { path: Some("/items/5".to_string()) });
    assert_eq!(first, Action::Report { outcome: completed("/items/5") });
    let second = c.step(Event::Completion {
        signal: signal(ID, Some(2)),
        install_path: None,
    });
    assert_eq!(second, Action::Nothing);
    assert_eq!(c.step(Event::DeadlinePassed), Action::Nothing);
    assert_eq!(c.state(), AcquisitionState::Completed { path: "/items/5".to_string() });
}

#[test]
fn notification_for_other_item_is_ignored() {
    let mut c = polling_controller(true);
    let r = c.step(Event::Completion { signal: signal(ID + 1, None), install_path: None });
    assert_eq!(r, Action::Nothing);
    assert_eq!(c.phase, Phase::Polling);
}

#[test]
fn deadline_fails_the_run_once() {
    let mut c = polling_controller(true);
    let r = c.step(Event::DeadlinePassed);
    assert_eq!(r, Action::Report { outcome: Outcome::Failed { reason: AcqError::TimedOut } });
    let late = c.step(Event::Completion {
        signal: signal(ID, None),
        install_path: Some("/items/6".to_string()),
    });
    assert_eq!(late, Action::Nothing);
}

#[test]
fn dispatcher_accepts_only_the_first_signal() {
    let mut d = CompletionDispatcher::new(ID);
    assert_eq!(d.dispatch(signal(ID + 1, None), None), None);
    assert_eq!(
        d.dispatch(signal(ID, None), Some("/items/7".to_string())),
        Some(completed("/items/7"))
    );
    assert_eq!(d.dispatch(signal(ID, Some(3)), None), None);
    assert_eq!(d.abort(AcqError::TimedOut), None);
    assert_eq!(d.outcome, Some(completed("/items/7")));
}

#[test]
fn dispatcher_error_signal_wins_over_install_location() {
    let mut d = CompletionDispatcher::new(ID);
    assert_eq!(
        d.dispatch(signal(ID, Some(9)), Some("/items/8".to_string())),
        Some(Outcome::Failed { reason: AcqError::DownloadFailed { code: 9 } })
    );
}
