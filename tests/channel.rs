use libcontainer::channel::{wait_step, NotifyChannel, Phase, SyncError, WaitStep};

#[test]
fn proceed_before_setup_is_refused() {
    let mut c = NotifyChannel::listen();
    assert_eq!(c.signal_ready(Phase::Proceed), Err(SyncError::OutOfOrder));
    assert!(c.observed().is_empty());
    assert_eq!(c.signal_ready(Phase::SetupComplete), Ok(()));
    assert_eq!(c.signal_ready(Phase::Proceed), Ok(()));
    assert_eq!(c.observed(), vec![Phase::SetupComplete, Phase::Proceed]);
}

#[test]
fn each_phase_is_signaled_once() {
    let mut c = NotifyChannel::listen();
    assert_eq!(c.signal_ready(Phase::SetupComplete), Ok(()));
    assert_eq!(c.signal_ready(Phase::SetupComplete), Err(SyncError::OutOfOrder));
    assert_eq!(c.signal_ready(Phase::Proceed), Ok(()));
    assert_eq!(c.signal_ready(Phase::Proceed), Err(SyncError::OutOfOrder));
    assert_eq!(c.observed().len(), 2);
}

#[test]
fn wait_after_peer_abort_is_peer_closed() {
    let mut c = NotifyChannel::listen();
    assert_eq!(c.signal_ready(Phase::SetupComplete), Ok(()));
    c.close();
    assert_eq!(c.wait_ready(Phase::SetupComplete), Ok(()));
    assert_eq!(c.wait_ready(Phase::Proceed), Err(SyncError::PeerClosed));
    assert_eq!(c.signal_ready(Phase::Proceed), Err(SyncError::PeerClosed));
}

#[test]
fn wait_without_signal_times_out() {
    let c = NotifyChannel::listen();
    assert_eq!(c.wait_ready(Phase::SetupComplete), Err(SyncError::Timeout));
    assert!(!c.is_signaled(Phase::SetupComplete));
}

#[test]
fn wait_step_decisions() {
    assert_eq!(wait_step(true, true, 50, Some(10)), WaitStep::Ready);
    assert_eq!(wait_step(false, true, 0, None), WaitStep::Failed(SyncError::PeerClosed));
    assert_eq!(wait_step(false, false, 10, Some(10)), WaitStep::Failed(SyncError::Timeout));
    assert_eq!(wait_step(false, false, 9, Some(10)), WaitStep::Pending);
    assert_eq!(wait_step(false, false, u64::MAX, None), WaitStep::Pending);
}
