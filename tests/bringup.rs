use front_io_board::bringup::{
    disposition, Bringup, BringupOutcome, BringupState, BringupStep, ControllerIdentity,
    ControllerRole, DeviceState, Disposition, ExpectedDesign, FpgaError, FpgaEvent, FpgaOp,
};

const EXPECTED: ExpectedDesign = ExpectedDesign { id: 0x1DE, checksum: 0xC0FFEE };

fn good() -> ControllerIdentity {
    ControllerIdentity { id: 0x1DE, checksum: 0xC0FFEE, version: 3, sha: 0xABCD }
}

fn bad() -> ControllerIdentity {
    ControllerIdentity { id: 0x1DE, checksum: 0xBAD, version: 2, sha: 0x1234 }
}

fn started() -> Bringup {
    let mut b = Bringup::new(EXPECTED);
    assert_eq!(b.begin(), FpgaOp::AwaitReady);
    b
}

#[test]
fn load_is_followed_by_lock_then_check() {
    let mut b = started();
    assert_eq!(b.resume(FpgaEvent::State(DeviceState::AwaitingBitstream)), BringupStep::Issue(FpgaOp::LoadBitstream));
    assert_eq!(b.resume(FpgaEvent::Done), BringupStep::Issue(FpgaOp::WriteChecksum));
    assert_eq!(b.resume(FpgaEvent::Done), BringupStep::Issue(FpgaOp::ReadIdentity));
    assert_eq!(b.resume(FpgaEvent::Identity(good())), BringupStep::Finish(BringupOutcome::Verified));
    assert_eq!(b.state, BringupState::VerifiedRunning);
    assert!(b.is_verified());
    assert_eq!(b.identity, Some(good()));
}

#[test]
fn running_design_that_matches_skips_load() {
    let mut b = started();
    assert_eq!(b.resume(FpgaEvent::State(DeviceState::RunningUserDesign)), BringupStep::Issue(FpgaOp::ReadIdentity));
    assert_eq!(b.resume(FpgaEvent::Identity(good())), BringupStep::Finish(BringupOutcome::Verified));
    assert_eq!(b.outcome, Some(BringupOutcome::Verified));
}

#[test]
fn second_mismatch_is_reported_not_retried() {
    let mut b = started();
    b.resume(FpgaEvent::State(DeviceState::RunningUserDesign));
    assert_eq!(b.resume(FpgaEvent::Identity(bad())), BringupStep::Issue(FpgaOp::Reset));
    assert_eq!(b.resume(FpgaEvent::Done), BringupStep::Issue(FpgaOp::LoadBitstream));
    assert_eq!(b.resume(FpgaEvent::Done), BringupStep::Issue(FpgaOp::WriteChecksum));
    assert_eq!(b.resume(FpgaEvent::Done), BringupStep::Issue(FpgaOp::ReadIdentity));
    assert_eq!(b.resume(FpgaEvent::Identity(bad())), BringupStep::Finish(BringupOutcome::Unverified(bad())));
    assert_eq!(b.state, BringupState::UnverifiedRunning);
    assert!(!b.is_verified());
}

#[test]
fn match_after_the_retry_is_verified() {
    let mut b = started();
    b.resume(FpgaEvent::State(DeviceState::AwaitingBitstream));
    b.resume(FpgaEvent::Done);
    b.resume(FpgaEvent::Done);
    assert_eq!(b.resume(FpgaEvent::Identity(bad())), BringupStep::Issue(FpgaOp::Reset));
    b.resume(FpgaEvent::Done);
    b.resume(FpgaEvent::Done);
    b.resume(FpgaEvent::Done);
    assert_eq!(b.resume(FpgaEvent::Identity(good())), BringupStep::Finish(BringupOutcome::Verified));
}

#[test]
fn load_failure_ends_bringup() {
    let mut b = started();
    b.resume(FpgaEvent::State(DeviceState::AwaitingBitstream));
    let step = b.resume(FpgaEvent::Failed(FpgaError::AuxMissingBlob));
    assert_eq!(step, BringupStep::Finish(BringupOutcome::LoadFailed(FpgaError::AuxMissingBlob)));
    assert_eq!(b.state, BringupState::Faulted);
}

#[test]
fn device_not_ready() {
    let mut b = started();
    assert_eq!(b.resume(FpgaEvent::State(DeviceState::Unknown)), BringupStep::Finish(BringupOutcome::NotReady));
    let mut c = started();
    assert_eq!(c.resume(FpgaEvent::Failed(FpgaError::Io(5))), BringupStep::Finish(BringupOutcome::NotReady));
}

#[test]
fn lock_failure_is_reported() {
    let mut b = started();
    b.resume(FpgaEvent::State(DeviceState::AwaitingBitstream));
    b.resume(FpgaEvent::Done);
    assert_eq!(b.resume(FpgaEvent::Failed(FpgaError::Io(7))), BringupStep::Finish(BringupOutcome::Failed(FpgaError::Io(7))));
}

#[test]
fn dispositions() {
    assert_eq!(disposition(ControllerRole::Primary, BringupOutcome::Verified), Disposition::Continue);
    assert_eq!(disposition(ControllerRole::Auxiliary, BringupOutcome::Verified), Disposition::Continue);
    assert_eq!(
        disposition(ControllerRole::Primary, BringupOutcome::LoadFailed(FpgaError::AuxMissingBlob)),
        Disposition::Abort { delay_ms: 100 }
    );
    assert_eq!(disposition(ControllerRole::Primary, BringupOutcome::LoadFailed(FpgaError::Io(1))), Disposition::Abort { delay_ms: 0 });
    assert_eq!(disposition(ControllerRole::Primary, BringupOutcome::Unverified(bad())), Disposition::Abort { delay_ms: 0 });
    assert_eq!(disposition(ControllerRole::Primary, BringupOutcome::NotReady), Disposition::Abort { delay_ms: 0 });
    assert_eq!(disposition(ControllerRole::Auxiliary, BringupOutcome::NotReady), Disposition::Report);
    assert_eq!(disposition(ControllerRole::Auxiliary, BringupOutcome::LoadFailed(FpgaError::AuxMissingBlob)), Disposition::Report);
}

#[test]
fn events_answer_fpga_operations() {
    assert!(FpgaEvent::State(DeviceState::Unknown).answers(FpgaOp::AwaitReady));
    assert!(!FpgaEvent::Done.answers(FpgaOp::AwaitReady));
    assert!(FpgaEvent::Identity(good()).answers(FpgaOp::ReadIdentity));
    assert!(FpgaEvent::Done.answers(FpgaOp::WriteChecksum));
    assert!(FpgaEvent::Failed(FpgaError::Io(0)).answers(FpgaOp::Reset));
}

#[test]
fn progress_is_reported_until_the_end() {
    let mut b = Bringup::new(EXPECTED);
    assert!(!b.in_progress());
    b.begin();
    assert!(b.in_progress());
    b.resume(FpgaEvent::State(DeviceState::RunningUserDesign));
    assert!(b.in_progress());
    b.resume(FpgaEvent::Identity(good()));
    assert!(!b.in_progress());
}
