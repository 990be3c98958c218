use resize_rabbit::apply_run::{ApplyAction, ApplyEvent, ApplyRun, ApplyStage};
use resize_rabbit::window_manager::{ApplyConfig, WindowManagerError};

#[test]
fn config_builders_set_each_field() {
    let c = ApplyConfig::new();
    assert_eq!(c, ApplyConfig { pid: None, retry: false, retries: 0, monitor: false });
    let c = ApplyConfig::new().pid(Some(42)).retry(true).monitor(true).retries(1);
    assert_eq!(c, ApplyConfig { pid: Some(42), retry: true, retries: 1, monitor: true });
    assert_eq!(ApplyConfig::default(), ApplyConfig::new());
    assert_eq!(ApplyConfig::interactive(), ApplyConfig { pid: None, retry: true, retries: 0, monitor: true });
}

#[test]
fn given_pid_is_tried_and_success_finishes() {
    let (mut run, a) = ApplyRun::start(ApplyConfig::new().pid(Some(7)).monitor(true));
    assert_eq!(a, ApplyAction::TryPid { pid: 7, monitor: true });
    let a = run.step(ApplyEvent::PidTried(Ok(())));
    assert_eq!(a, ApplyAction::Finish { result: Ok(()), list_windows: false });
    assert_eq!(run.stage, ApplyStage::Finished);
}

#[test]
fn candidates_are_tried_in_order_until_a_window_is_found() {
    let (mut run, a) = ApplyRun::start(ApplyConfig::new());
    assert_eq!(a, ApplyAction::ResolvePids);
    let a = run.step(ApplyEvent::PidsResolved(vec![10, 20, 30]));
    assert_eq!(a, ApplyAction::TryPid { pid: 10, monitor: false });
    let a = run.step(ApplyEvent::PidTried(Err(None)));
    assert_eq!(a, ApplyAction::TryPid { pid: 20, monitor: false });
    let a = run.step(ApplyEvent::PidTried(Err(Some(WindowManagerError::AccessDenied))));
    assert_eq!(a, ApplyAction::Finish { result: Err(WindowManagerError::AccessDenied), list_windows: false });
}

#[test]
fn no_process_and_no_title_match_is_process_not_found() {
    let (mut run, _) = ApplyRun::start(ApplyConfig::new().retry(true));
    let a = run.step(ApplyEvent::PidsResolved(vec![]));
    assert_eq!(a, ApplyAction::FindPidByTitle);
    let a = run.step(ApplyEvent::TitleSearched(None));
    assert_eq!(a, ApplyAction::Finish { result: Err(WindowManagerError::ProcessNotFound), list_windows: false });
}

#[test]
fn title_match_is_tried_when_no_candidate_has_a_window() {
    let (mut run, _) = ApplyRun::start(ApplyConfig::new());
    run.step(ApplyEvent::PidsResolved(vec![5]));
    let a = run.step(ApplyEvent::PidTried(Err(None)));
    assert_eq!(a, ApplyAction::FindPidByTitle);
    let a = run.step(ApplyEvent::TitleSearched(Some(99)));
    assert_eq!(a, ApplyAction::TryPid { pid: 99, monitor: false });
    let a = run.step(ApplyEvent::PidTried(Ok(())));
    assert_eq!(a, ApplyAction::Finish { result: Ok(()), list_windows: false });
}

#[test]
fn retrying_waits_twice_then_fails_and_lists_windows() {
    let (mut run, _) = ApplyRun::start(ApplyConfig::new().retry(true).monitor(true));
    let mut waits = 0;
    let mut passes = 0;
    let mut action = run.step(ApplyEvent::PidsResolved(vec![3]));
    loop {
        match action {
            ApplyAction::ResolvePids => action = run.step(ApplyEvent::PidsResolved(vec![3])),
            ApplyAction::TryPid { pid, monitor } => {
                assert_eq!(pid, 3);
                assert!(monitor);
                passes += 1;
                action = run.step(ApplyEvent::PidTried(Err(None)));
            }
            ApplyAction::FindPidByTitle => action = run.step(ApplyEvent::TitleSearched(None)),
            ApplyAction::Wait { seconds } => {
                assert_eq!(seconds, 5);
                waits += 1;
                action = run.step(ApplyEvent::Waited);
            }
            ApplyAction::Finish { result, list_windows } => {
                assert_eq!(result, Err(WindowManagerError::ApplyFailed));
                assert!(list_windows);
                break;
            }
        }
    }
    assert_eq!(waits, 2);
    assert_eq!(passes, 3);
    assert_eq!(run.config.retries, 2);
}

#[test]
fn pinned_pid_without_window_never_searches_by_title() {
    let (mut run, _) = ApplyRun::start(ApplyConfig::new().pid(Some(4)));
    let a = run.step(ApplyEvent::PidTried(Err(None)));
    assert_eq!(a, ApplyAction::Finish { result: Err(WindowManagerError::ApplyFailed), list_windows: true });
}

#[test]
fn unexpected_report_repeats_pending_action() {
    let (mut run, a) = ApplyRun::start(ApplyConfig::new().pid(Some(4)));
    let b = run.step(ApplyEvent::Waited);
    assert_eq!(a, b);
    let b = run.step(ApplyEvent::TitleSearched(Some(1)));
    assert_eq!(a, b);
}

#[test]
fn exhausted_retries_fail_at_once() {
    let (mut run, _) = ApplyRun::start(ApplyConfig::new().pid(Some(4)).retry(true).retries(2));
    let a = run.step(ApplyEvent::PidTried(Err(None)));
    assert_eq!(a, ApplyAction::Finish { result: Err(WindowManagerError::ApplyFailed), list_windows: true });
}
