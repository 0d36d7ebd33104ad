//! Bring-up of an FPGA-backed controller: wait until the device is ready,
//! load and lock its bitstream when needed, and check that the running
//! design is the expected one, with one reset-and-reload retry.
use vstd::prelude::*;

verus! {

/// Delay before aborting when the bitstream is missing from storage, as on a
/// first boot of an unprovisioned board, so that restarts do not spin.
pub const MISSING_BLOB_DELAY_MS: u64 = 100;

/// What the FPGA reports about itself.
#[derive(Clone, Copy, Debug, PartialEq, Eq, Structural)]
pub enum DeviceState {
    Unknown,
    AwaitingBitstream,
    RunningUserDesign,
}

/// A failure of an FPGA operation.
#[derive(Clone, Copy, Debug, PartialEq, Eq, Structural)]
pub enum FpgaError {
    /// The bitstream is not in storage.
    AuxMissingBlob,
    /// Any other failure, by its code.
    Io(u32),
}

/// The words that identify the design running in a controller.
#[derive(Clone, Copy, Debug, PartialEq, Eq, Structural)]
pub struct ControllerIdentity {
    pub id: u32,
    pub checksum: u32,
    pub version: u32,
    pub sha: u32,
}

/// The identity and checksum that this build expects of a controller.
#[derive(Clone, Copy, Debug, PartialEq, Eq, Structural)]
pub struct ExpectedDesign {
    pub id: u32,
    pub checksum: u32,
}

/// An operation on an FPGA controller.
#[derive(Clone, Copy, Debug, PartialEq, Eq, Structural)]
pub enum FpgaOp {
    /// Poll the device state, a bounded number of times, until it leaves
    /// `Unknown`.
    AwaitReady,
    /// Load the bitstream from storage.
    LoadBitstream,
    /// Write the checksum lock, so that the loaded design cannot be replaced
    /// until the next hardware reset.
    WriteChecksum,
    /// Read the identity registers.
    ReadIdentity,
    /// Reset the device.
    Reset,
    /// Enable the LED drivers behind the controller.
    EnableLedController,
}

/// The answer to an [`FpgaOp`].
#[derive(Clone, Copy, Debug, PartialEq, Eq, Structural)]
pub enum FpgaEvent {
    Done,
    State(DeviceState),
    Identity(ControllerIdentity),
    Failed(FpgaError),
}

impl FpgaEvent {
    /// Whether the event has the shape of an answer to `op`.
    pub open spec fn answers_spec(self, op: FpgaOp) -> bool {
        match self {
            FpgaEvent::Failed(_) => true,
            FpgaEvent::State(_) => op == FpgaOp::AwaitReady,
            FpgaEvent::Identity(_) => op == FpgaOp::ReadIdentity,
            FpgaEvent::Done => op != FpgaOp::AwaitReady && op != FpgaOp::ReadIdentity,
        }
    }

    /// Whether the event has the shape of an answer to `op`.
    pub fn answers(self, op: FpgaOp) -> (r: bool)
        ensures
            r == self.answers_spec(op),
    {
        match self {
            FpgaEvent::Failed(_) => true,
            FpgaEvent::State(_) => op == FpgaOp::AwaitReady,
            FpgaEvent::Identity(_) => op == FpgaOp::ReadIdentity,
            FpgaEvent::Done => op != FpgaOp::AwaitReady && op != FpgaOp::ReadIdentity,
        }
    }
}

/// How a bring-up ended.
#[derive(Clone, Copy, Debug, PartialEq, Eq, Structural)]
pub enum BringupOutcome {
    /// The expected design runs.
    Verified,
    /// The device did not become ready.
    NotReady,
    /// The bitstream could not be loaded.
    LoadFailed(FpgaError),
    /// After the one retry the design is still not the expected one.
    Unverified(ControllerIdentity),
    /// Locking, reading the identity or resetting failed.
    Failed(FpgaError),
}

/// Where a bring-up stands. `retried` records that the one reset-and-reload
/// retry has been spent.
#[derive(Clone, Copy, Debug, PartialEq, Eq, Structural)]
pub enum BringupState {
    Unknown,
    Polling,
    Loading { retried: bool },
    Locking { retried: bool },
    Verifying { retried: bool },
    Resetting,
    VerifiedRunning,
    UnverifiedRunning,
    Faulted,
}

/// What a bring-up asks for next.
#[derive(Clone, Copy, Debug, PartialEq, Eq, Structural)]
pub enum BringupStep {
    /// Perform this operation and resume with its answer.
    Issue(FpgaOp),
    /// The bring-up is over.
    Finish(BringupOutcome),
}

/// Whether a controller runs the expected design.
pub open spec fn identity_matches(expected: ExpectedDesign, ident: ControllerIdentity) -> bool {
    ident.id == expected.id && ident.checksum == expected.checksum
}

/// The operation whose answer a bring-up in `state` waits for; none before
/// it starts and once it is over.
pub open spec fn awaited(state: BringupState) -> Option<FpgaOp> {
    match state {
        BringupState::Polling => Some(FpgaOp::AwaitReady),
        BringupState::Loading { .. } => Some(FpgaOp::LoadBitstream),
        BringupState::Locking { .. } => Some(FpgaOp::WriteChecksum),
        BringupState::Verifying { .. } => Some(FpgaOp::ReadIdentity),
        BringupState::Resetting => Some(FpgaOp::Reset),
        _ => None,
    }
}

/// The bring-up protocol, one answer at a time: the next state and what to
/// do next.
pub open spec fn transition(state: BringupState, expected: ExpectedDesign, event: FpgaEvent) -> (
    BringupState,
    BringupStep,
) {
    match (state, event) {
        (BringupState::Polling, FpgaEvent::State(DeviceState::AwaitingBitstream)) => (
            BringupState::Loading { retried: false },
            BringupStep::Issue(FpgaOp::LoadBitstream),
        ),
        (BringupState::Polling, FpgaEvent::State(DeviceState::RunningUserDesign)) => (
            BringupState::Verifying { retried: false },
            BringupStep::Issue(FpgaOp::ReadIdentity),
        ),
        (BringupState::Polling, _) => (
            BringupState::Faulted,
            BringupStep::Finish(BringupOutcome::NotReady),
        ),
        (BringupState::Loading { retried }, FpgaEvent::Done) => (
            BringupState::Locking { retried },
            BringupStep::Issue(FpgaOp::WriteChecksum),
        ),
        (BringupState::Loading { .. }, FpgaEvent::Failed(e)) => (
            BringupState::Faulted,
            BringupStep::Finish(BringupOutcome::LoadFailed(e)),
        ),
        (BringupState::Locking { retried }, FpgaEvent::Done) => (
            BringupState::Verifying { retried },
            BringupStep::Issue(FpgaOp::ReadIdentity),
        ),
        (BringupState::Verifying { retried }, FpgaEvent::Identity(ident)) => if identity_matches(
            expected,
            ident,
        ) {
            (BringupState::VerifiedRunning, BringupStep::Finish(BringupOutcome::Verified))
        } else if !retried {
            (BringupState::Resetting, BringupStep::Issue(FpgaOp::Reset))
        } else {
            (BringupState::UnverifiedRunning, BringupStep::Finish(BringupOutcome::Unverified(ident)))
        },
        (BringupState::Resetting, FpgaEvent::Done) => (
            BringupState::Loading { retried: true },
            BringupStep::Issue(FpgaOp::LoadBitstream),
        ),
        (_, FpgaEvent::Failed(e)) => (BringupState::Faulted, BringupStep::Finish(BringupOutcome::Failed(e))),
        (_, _) => (BringupState::Faulted, BringupStep::Finish(BringupOutcome::NotReady)),
    }
}

/// The bring-up of one controller.
#[derive(Clone, Copy, Debug, PartialEq, Eq, Structural)]
pub struct Bringup {
    pub expected: ExpectedDesign,
    pub state: BringupState,
    /// The identity read last, kept for diagnostics whatever the outcome.
    pub identity: Option<ControllerIdentity>,
    /// How the bring-up ended, once it has.
    pub outcome: Option<BringupOutcome>,
}

impl Bringup {
    /// A bring-up that has not started.
    pub open spec fn new_spec(expected: ExpectedDesign) -> Bringup {
        Bringup { expected, state: BringupState::Unknown, identity: None, outcome: None }
    }

    pub fn new(expected: ExpectedDesign) -> (r: Bringup)
        ensures
            r == Bringup::new_spec(expected),
    {
        Bringup { expected, state: BringupState::Unknown, identity: None, outcome: None }
    }

    /// Starts the bring-up: the first operation is the readiness poll.
    pub fn begin(&mut self) -> (r: FpgaOp)
        requires
            old(self).state == BringupState::Unknown,
        ensures
            r == FpgaOp::AwaitReady,
            *final(self) == (Bringup { state: BringupState::Polling, ..*old(self) }),
            awaited(final(self).state) == Some(r),
    {
        self.state = BringupState::Polling;
        FpgaOp::AwaitReady
    }

    /// The bring-up after it is handed `event`, and what it asks for next:
    /// the identity read last and the outcome are kept for diagnostics.
    pub open spec fn resumed(self, event: FpgaEvent) -> (Bringup, BringupStep) {
        let (state, step) = transition(self.state, self.expected, event);
        (
            Bringup {
                state,
                identity: if event is Identity {
                    Some(event->Identity_0)
                } else {
                    self.identity
                },
                outcome: if step is Finish {
                    Some(step->Finish_0)
                } else {
                    self.outcome
                },
                ..self
            },
            step,
        )
    }

    /// Hands the bring-up the answer to the operation it asked for.
    pub fn resume(&mut self, event: FpgaEvent) -> (r: BringupStep)
        requires
            awaited(old(self).state) matches Some(op) && event.answers_spec(op),
        ensures
            (*final(self), r) == old(self).resumed(event),
            r matches BringupStep::Issue(op) ==> awaited(final(self).state) == Some(op),
            r is Finish ==> awaited(final(self).state) is None,
    {
        let (next, step) = match (self.state, event) {
            (BringupState::Polling, FpgaEvent::State(DeviceState::AwaitingBitstream)) => (
                BringupState::Loading { retried: false },
                BringupStep::Issue(FpgaOp::LoadBitstream),
            ),
            (BringupState::Polling, FpgaEvent::State(DeviceState::RunningUserDesign)) => (
                BringupState::Verifying { retried: false },
                BringupStep::Issue(FpgaOp::ReadIdentity),
            ),
            (BringupState::Polling, _) => (
                BringupState::Faulted,
                BringupStep::Finish(BringupOutcome::NotReady),
            ),
            (BringupState::Loading { retried }, FpgaEvent::Done) => (
                BringupState::Locking { retried },
                BringupStep::Issue(FpgaOp::WriteChecksum),
            ),
            (BringupState::Loading { .. }, FpgaEvent::Failed(e)) => (
                BringupState::Faulted,
                BringupStep::Finish(BringupOutcome::LoadFailed(e)),
            ),
            (BringupState::Locking { retried }, FpgaEvent::Done) => (
                BringupState::Verifying { retried },
                BringupStep::Issue(FpgaOp::ReadIdentity),
            ),
            (BringupState::Verifying { retried }, FpgaEvent::Identity(ident)) => {
                if ident.id == self.expected.id && ident.checksum == self.expected.checksum {
                    (BringupState::VerifiedRunning, BringupStep::Finish(BringupOutcome::Verified))
                } else if !retried {
                    (BringupState::Resetting, BringupStep::Issue(FpgaOp::Reset))
                } else {
                    (
                        BringupState::UnverifiedRunning,
                        BringupStep::Finish(BringupOutcome::Unverified(ident)),
                    )
                }
            },
            (BringupState::Resetting, FpgaEvent::Done) => (
                BringupState::Loading { retried: true },
                BringupStep::Issue(FpgaOp::LoadBitstream),
            ),
            (_, FpgaEvent::Failed(e)) => (
                BringupState::Faulted,
                BringupStep::Finish(BringupOutcome::Failed(e)),
            ),
            (_, _) => (BringupState::Faulted, BringupStep::Finish(BringupOutcome::NotReady)),
        };
        if let FpgaEvent::Identity(ident) = event {
            self.identity = Some(ident);
        }
        if let BringupStep::Finish(outcome) = step {
            self.outcome = Some(outcome);
        }
        self.state = next;
        step
    }

    /// Whether the bring-up has started and waits for an answer.
    pub fn in_progress(&self) -> (r: bool)
        ensures
            r == awaited(self.state) is Some,
    {
        match self.state {
            BringupState::Polling | BringupState::Resetting => true,
            BringupState::Loading { .. } | BringupState::Locking { .. } | BringupState::Verifying { .. } => true,
            _ => false,
        }
    }

    /// Whether the bring-up ended with the expected design running.
    pub fn is_verified(&self) -> (r: bool)
        ensures
            r == (self.state == BringupState::VerifiedRunning),
    {
        self.state == BringupState::VerifiedRunning
    }
}

/// The role of a controller in the system.
#[derive(Clone, Copy, Debug, PartialEq, Eq, Structural)]
pub enum ControllerRole {
    /// The system cannot run without it.
    Primary,
    /// It sits on an optional board.
    Auxiliary,
}

/// What the task does with the outcome of a bring-up.
#[derive(Clone, Copy, Debug, PartialEq, Eq, Structural)]
pub enum Disposition {
    /// Carry on.
    Continue,
    /// Stop the task after `delay_ms`, so that its supervisor restarts it and
    /// bring-up runs again from the start.
    Abort { delay_ms: u64 },
    /// Report the failure to the caller; the task carries on.
    Report,
}

/// The policy for a finished bring-up: a primary controller that is not
/// verified stops the task (after a delay when only the bitstream is
/// missing); an auxiliary one is reported, never fatal.
pub fn disposition(role: ControllerRole, outcome: BringupOutcome) -> (r: Disposition)
    ensures
        outcome == BringupOutcome::Verified ==> r == Disposition::Continue,
        outcome != BringupOutcome::Verified ==> r == match role {
            ControllerRole::Auxiliary => Disposition::Report,
            ControllerRole::Primary => Disposition::Abort {
                delay_ms: if outcome == BringupOutcome::LoadFailed(FpgaError::AuxMissingBlob) {
                    MISSING_BLOB_DELAY_MS
                } else {
                    0
                },
            },
        },
{
    match (role, outcome) {
        (_, BringupOutcome::Verified) => Disposition::Continue,
        (ControllerRole::Auxiliary, _) => Disposition::Report,
        (ControllerRole::Primary, BringupOutcome::LoadFailed(FpgaError::AuxMissingBlob)) => Disposition::Abort {
            delay_ms: MISSING_BLOB_DELAY_MS,
        },
        (ControllerRole::Primary, _) => Disposition::Abort { delay_ms: 0 },
    }
}

/// The states and steps that a sequence of answers leads a bring-up through.
pub open spec fn run(state: BringupState, expected: ExpectedDesign, events: Seq<FpgaEvent>) -> (
    BringupState,
    Seq<BringupStep>,
)
    decreases events.len(),
{
    if events.len() == 0 {
        (state, Seq::empty())
    } else {
        let (next, step) = transition(state, expected, events[0]);
        let (last, steps) = run(next, expected, events.drop_first());
        (last, seq![step] + steps)
    }
}

/// A successful load is always followed by the checksum lock, and success is
/// only ever reported right after the identity was read and matched.
pub proof fn lemma_load_then_lock(state: BringupState, expected: ExpectedDesign, event: FpgaEvent)
    ensures
        state is Loading && event == FpgaEvent::Done ==> transition(state, expected, event).1
            == BringupStep::Issue(FpgaOp::WriteChecksum),
        transition(state, expected, event).1 == BringupStep::Finish(BringupOutcome::Verified) ==> (
        state is Verifying && (event matches FpgaEvent::Identity(ident) && identity_matches(
            expected,
            ident,
        ))),
        transition(state, expected, event).0 is Verifying ==> (state is Locking && event
            == FpgaEvent::Done) || (state == BringupState::Polling && event == FpgaEvent::State(
            DeviceState::RunningUserDesign,
        )),
{
}

proof fn lemma_faulted_never_verifies(expected: ExpectedDesign, events: Seq<FpgaEvent>, k: int)
    requires
        0 <= k < run(BringupState::Faulted, expected, events).1.len(),
    ensures
        run(BringupState::Faulted, expected, events).1[k] != BringupStep::Finish(BringupOutcome::Verified),
    decreases events.len(),
{
    let (next, step) = transition(BringupState::Faulted, expected, events[0]);
    let rest = run(next, expected, events.drop_first());
    assert(run(BringupState::Faulted, expected, events).1 == seq![step] + rest.1);
    if k > 0 {
        lemma_faulted_never_verifies(expected, events.drop_first(), k - 1);
    }
}

/// Whatever the answers, a bring-up that finds the device awaiting its
/// bitstream reports success only after it asked for the checksum lock.
pub proof fn lemma_success_after_load_is_locked(expected: ExpectedDesign, events: Seq<FpgaEvent>, k: int)
    requires
        events.len() > 0,
        events[0] == FpgaEvent::State(DeviceState::AwaitingBitstream),
        0 <= k < run(BringupState::Polling, expected, events).1.len(),
        run(BringupState::Polling, expected, events).1[k] == BringupStep::Finish(BringupOutcome::Verified),
    ensures
        exists|j: int|
            0 <= j < k && run(BringupState::Polling, expected, events).1[j] == BringupStep::Issue(
                FpgaOp::WriteChecksum,
            ),
{
    let steps = run(BringupState::Polling, expected, events).1;
    let rest = events.drop_first();
    let loading = run(BringupState::Loading { retried: false }, expected, rest).1;
    assert(steps == seq![BringupStep::Issue(FpgaOp::LoadBitstream)] + loading);
    assert(k >= 1);
    let (next, step) = transition(BringupState::Loading { retried: false }, expected, rest[0]);
    let tail = run(next, expected, rest.drop_first()).1;
    assert(loading == seq![step] + tail);
    if rest[0] == FpgaEvent::Done {
        assert(steps[1] == BringupStep::Issue(FpgaOp::WriteChecksum));
    } else {
        assert(next == BringupState::Faulted);
        assert(k >= 2);
        lemma_faulted_never_verifies(expected, rest.drop_first(), k - 2);
    }
}

/// A device that already runs the expected design is verified without a
/// load or a lock: the only operation is the identity read.
pub proof fn lemma_running_design_skips_load(expected: ExpectedDesign, ident: ControllerIdentity)
    requires
        identity_matches(expected, ident),
    ensures
        run(
            BringupState::Polling,
            expected,
            seq![FpgaEvent::State(DeviceState::RunningUserDesign), FpgaEvent::Identity(ident)],
        ) == (
            BringupState::VerifiedRunning,
            seq![
                BringupStep::Issue(FpgaOp::ReadIdentity),
                BringupStep::Finish(BringupOutcome::Verified),
            ],
        ),
{
    let e = seq![FpgaEvent::State(DeviceState::RunningUserDesign), FpgaEvent::Identity(ident)];
    let e1 = e.drop_first();
    let e2 = e1.drop_first();
    assert(e1 =~= seq![FpgaEvent::Identity(ident)]);
    assert(e2 =~= Seq::<FpgaEvent>::empty());
    let r2 = run(BringupState::VerifiedRunning, expected, e2);
    let r1 = run(BringupState::Verifying { retried: false }, expected, e1);
    assert(r2.1 =~= Seq::<BringupStep>::empty());
    assert(r1.1 =~= seq![BringupStep::Finish(BringupOutcome::Verified)]);
    let r0 = run(BringupState::Polling, expected, e);
    assert(r0.1 =~= seq![
        BringupStep::Issue(FpgaOp::ReadIdentity),
        BringupStep::Finish(BringupOutcome::Verified),
    ]);
}

/// States from which the protocol never asks for another reset: the retry
/// is spent, or the bring-up is over or has not started.
pub open spec fn retry_spent(state: BringupState) -> bool {
    match state {
        BringupState::Polling => false,
        BringupState::Loading { retried } => retried,
        BringupState::Locking { retried } => retried,
        BringupState::Verifying { retried } => retried,
        _ => true,
    }
}

proof fn lemma_no_reset_once_spent(state: BringupState, expected: ExpectedDesign, events: Seq<FpgaEvent>, k: int)
    requires
        retry_spent(state),
        0 <= k < run(state, expected, events).1.len(),
    ensures
        run(state, expected, events).1[k] != BringupStep::Issue(FpgaOp::Reset),
    decreases events.len(),
{
    let (next, step) = transition(state, expected, events[0]);
    let rest = run(next, expected, events.drop_first());
    assert(run(state, expected, events).1 == seq![step] + rest.1);
    if k > 0 {
        lemma_no_reset_once_spent(next, expected, events.drop_first(), k - 1);
    }
}

/// Whatever the answers, a bring-up asks for at most one reset: the retry
/// after a mismatch is never repeated.
pub proof fn lemma_at_most_one_retry(
    state: BringupState,
    expected: ExpectedDesign,
    events: Seq<FpgaEvent>,
    j: int,
    k: int,
)
    requires
        0 <= j < run(state, expected, events).1.len(),
        0 <= k < run(state, expected, events).1.len(),
        run(state, expected, events).1[j] == BringupStep::Issue(FpgaOp::Reset),
        run(state, expected, events).1[k] == BringupStep::Issue(FpgaOp::Reset),
    ensures
        j == k,
    decreases events.len(),
{
    let (next, step) = transition(state, expected, events[0]);
    let rest = run(next, expected, events.drop_first());
    assert(run(state, expected, events).1 == seq![step] + rest.1);
    if step == BringupStep::Issue(FpgaOp::Reset) {
        assert(next == BringupState::Resetting);
        if j > 0 {
            lemma_no_reset_once_spent(next, expected, events.drop_first(), j - 1);
        }
        if k > 0 {
            lemma_no_reset_once_spent(next, expected, events.drop_first(), k - 1);
        }
    } else {
        lemma_at_most_one_retry(next, expected, events.drop_first(), j - 1, k - 1);
    }
}

/// A mismatch spends the one retry (reset, reload, lock, read again); a
/// second consecutive mismatch is reported and ends the bring-up, which then
/// waits for no further operation.
pub proof fn lemma_single_retry(expected: ExpectedDesign, first: ControllerIdentity, second: ControllerIdentity)
    requires
        !identity_matches(expected, first),
        !identity_matches(expected, second),
    ensures
        run(
            BringupState::Verifying { retried: false },
            expected,
            seq![
                FpgaEvent::Identity(first),
                FpgaEvent::Done,
                FpgaEvent::Done,
                FpgaEvent::Done,
                FpgaEvent::Identity(second),
            ],
        ) == (
            BringupState::UnverifiedRunning,
            seq![
                BringupStep::Issue(FpgaOp::Reset),
                BringupStep::Issue(FpgaOp::LoadBitstream),
                BringupStep::Issue(FpgaOp::WriteChecksum),
                BringupStep::Issue(FpgaOp::ReadIdentity),
                BringupStep::Finish(BringupOutcome::Unverified(second)),
            ],
        ),
        awaited(BringupState::UnverifiedRunning) is None,
{
    let e = seq![
        FpgaEvent::Identity(first),
        FpgaEvent::Done,
        FpgaEvent::Done,
        FpgaEvent::Done,
        FpgaEvent::Identity(second),
    ];
    let e1 = e.drop_first();
    let e2 = e1.drop_first();
    let e3 = e2.drop_first();
    let e4 = e3.drop_first();
    let e5 = e4.drop_first();
    assert(e1 =~= seq![FpgaEvent::Done, FpgaEvent::Done, FpgaEvent::Done, FpgaEvent::Identity(second)]);
    assert(e2 =~= seq![FpgaEvent::Done, FpgaEvent::Done, FpgaEvent::Identity(second)]);
    assert(e3 =~= seq![FpgaEvent::Done, FpgaEvent::Identity(second)]);
    assert(e4 =~= seq![FpgaEvent::Identity(second)]);
    assert(e5 =~= Seq::<FpgaEvent>::empty());
    let r5 = run(BringupState::UnverifiedRunning, expected, e5);
    let r4 = run(BringupState::Verifying { retried: true }, expected, e4);
    let r3 = run(BringupState::Locking { retried: true }, expected, e3);
    let r2 = run(BringupState::Loading { retried: true }, expected, e2);
    let r1 = run(BringupState::Resetting, expected, e1);
    assert(r5.1 =~= Seq::<BringupStep>::empty());
    assert(r4.1 =~= seq![BringupStep::Finish(BringupOutcome::Unverified(second))]);
    assert(r3.1 =~= seq![
        BringupStep::Issue(FpgaOp::ReadIdentity),
        BringupStep::Finish(BringupOutcome::Unverified(second)),
    ]);
    assert(r2.1 =~= seq![
        BringupStep::Issue(FpgaOp::WriteChecksum),
        BringupStep::Issue(FpgaOp::ReadIdentity),
        BringupStep::Finish(BringupOutcome::Unverified(second)),
    ]);
    assert(r1.1 =~= seq![
        BringupStep::Issue(FpgaOp::LoadBitstream),
        BringupStep::Issue(FpgaOp::WriteChecksum),
        BringupStep::Issue(FpgaOp::ReadIdentity),
        BringupStep::Finish(BringupOutcome::Unverified(second)),
    ]);
    let r0 = run(BringupState::Verifying { retried: false }, expected, e);
    assert(r0.1 =~= seq![
        BringupStep::Issue(FpgaOp::Reset),
        BringupStep::Issue(FpgaOp::LoadBitstream),
        BringupStep::Issue(FpgaOp::WriteChecksum),
        BringupStep::Issue(FpgaOp::ReadIdentity),
        BringupStep::Finish(BringupOutcome::Unverified(second)),
    ]);
}

} // verus!
