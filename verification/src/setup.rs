//! The order in which the monitor sets itself up when it is loaded, what it
//! undoes when a step fails, and what it takes down when it is unloaded.
//! The loader runs the machine below: it performs each action and reports the
//! outcome as the next event.

use vstd::prelude::*;
use crate::status::{is_success, nt_success, STATUS_INSUFFICIENT_RESOURCES};

verus! {

/// One registration made while the monitor sets itself up.
#[derive(Clone, Copy, Debug, PartialEq, Eq, Structural)]
pub enum SetupStep {
    CreateDevice,
    CreateSymbolicLink,
    RegisterProcessNotify,
    RegisterThreadNotify,
    RegisterImageNotify,
    RegisterRegistryCallback,
}

/// The number of registrations.
pub const SETUP_STEP_COUNT: usize = 6;

/// The registrations, in the order in which they are made.
pub open spec fn step_at(i: int) -> SetupStep {
    if i == 0 {
        SetupStep::CreateDevice
    } else if i == 1 {
        SetupStep::CreateSymbolicLink
    } else if i == 2 {
        SetupStep::RegisterProcessNotify
    } else if i == 3 {
        SetupStep::RegisterThreadNotify
    } else if i == 4 {
        SetupStep::RegisterImageNotify
    } else {
        SetupStep::RegisterRegistryCallback
    }
}

/// The first `k` registrations, in order.
pub open spec fn steps_before(k: int) -> Seq<SetupStep> {
    Seq::new(k as nat, |i: int| step_at(i))
}

/// The `i`-th registration.
pub fn setup_step(i: usize) -> (s: SetupStep)
    requires
        i < SETUP_STEP_COUNT,
    ensures
        s == step_at(i as int),
{
    if i == 0 {
        SetupStep::CreateDevice
    } else if i == 1 {
        SetupStep::CreateSymbolicLink
    } else if i == 2 {
        SetupStep::RegisterProcessNotify
    } else if i == 3 {
        SetupStep::RegisterThreadNotify
    } else if i == 4 {
        SetupStep::RegisterImageNotify
    } else {
        SetupStep::RegisterRegistryCallback
    }
}

/// Law: the registrations are, in order, the device, its symbolic link, then
/// the process, thread, image-load and registry notifications; each is made
/// once. The first `k` of them are exactly `k` registrations, the ones made
/// first, which is what a failure after `k` registrations undoes.
pub proof fn law_registration_order(k: int)
    requires
        0 <= k <= 6,
    ensures
        step_at(0) == SetupStep::CreateDevice,
        step_at(1) == SetupStep::CreateSymbolicLink,
        step_at(2) == SetupStep::RegisterProcessNotify,
        step_at(3) == SetupStep::RegisterThreadNotify,
        step_at(4) == SetupStep::RegisterImageNotify,
        step_at(5) == SetupStep::RegisterRegistryCallback,
        forall|i: int, j: int| 0 <= i < j < 6 ==> step_at(i) != step_at(j),
        steps_before(k).len() == k,
        forall|i: int| 0 <= i < k ==> steps_before(k)[i] == step_at(i),
        steps_before(6).take(k) == steps_before(k),
{
    assert(steps_before(6).take(k) =~= steps_before(k));
}

/// The first `k` registrations, in order.
pub fn setup_steps(k: usize) -> (v: Vec<SetupStep>)
    requires
        k <= SETUP_STEP_COUNT,
    ensures
        v@ == steps_before(k as int),
        v@.len() == k,
        forall|i: int| 0 <= i < k ==> v@[i] == step_at(i),
{
    let mut v: Vec<SetupStep> = Vec::new();
    let mut i: usize = 0;
    while i < k
        invariant
            i <= k <= SETUP_STEP_COUNT,
            v@ =~= steps_before(i as int),
        decreases k - i,
    {
        v.push(setup_step(i));
        i = i + 1;
    }
    v
}

/// What is undone when the monitor is unloaded: every registration, in the
/// order in which they were made.
pub fn teardown_steps() -> (v: Vec<SetupStep>)
    ensures
        v@ == steps_before(SETUP_STEP_COUNT as int),
{
    setup_steps(SETUP_STEP_COUNT)
}

/// Where the setup stands.
pub enum StartupState {
    /// The storage for events is being reserved.
    Reserving,
    /// The first `completed` registrations were made; the next one is under way.
    Registering { completed: usize },
    /// Setup has ended.
    Finished,
}

/// What the loader learnt from the last action.
pub enum StartupEvent {
    /// Whether the storage for the queue's events could be reserved.
    Reserved { ok: bool },
    /// The status of the registration under way.
    StepStatus { status: i32 },
}

/// What the loader does next.
pub enum StartupAction {
    ReserveEventStorage,
    Perform { step: SetupStep },
    /// Undo these registrations, in this order, and return `status`.
    Finish { status: i32, undo: Vec<SetupStep> },
}

/// The event that each state waits for.
pub open spec fn startup_accepts(s: StartupState, e: StartupEvent) -> bool {
    match s {
        StartupState::Reserving => e is Reserved,
        StartupState::Registering { completed } => completed < SETUP_STEP_COUNT && e is StepStatus,
        StartupState::Finished => false,
    }
}

/// Setup starts by reserving the storage for events.
pub fn startup_begin() -> (r: (StartupState, StartupAction))
    ensures
        r.0 is Reserving,
        r.1 is ReserveEventStorage,
{
    (StartupState::Reserving, StartupAction::ReserveEventStorage)
}

impl StartupState {
    /// Whether the state waits for this event.
    pub fn accepts(&self, e: &StartupEvent) -> (r: bool)
        ensures
            r == startup_accepts(*self, *e),
    {
        match self {
            StartupState::Reserving => matches!(e, StartupEvent::Reserved { .. }),
            StartupState::Registering { completed } => *completed < SETUP_STEP_COUNT && matches!(
                e,
                StartupEvent::StepStatus { .. }
            ),
            StartupState::Finished => false,
        }
    }

    /// One decision of the setup. Registrations are made in order; the first
    /// failure ends the setup with that failure's status, undoing exactly the
    /// registrations made before it. When all succeed, nothing is undone and
    /// the status of the last one is returned.
    pub fn step(self, e: StartupEvent) -> (r: (StartupState, StartupAction))
        requires
            startup_accepts(self, e),
        ensures
            e matches StartupEvent::Reserved { ok } ==> if ok {
                r.0 == (StartupState::Registering { completed: 0 }) && r.1 == (StartupAction::Perform {
                    step: step_at(0),
                })
            } else {
                r.0 is Finished && (r.1 matches StartupAction::Finish { status, undo } && status
                    == STATUS_INSUFFICIENT_RESOURCES && undo@.len() == 0)
            },
            self matches StartupState::Registering { completed } ==> (e matches StartupEvent::StepStatus {
                status,
            } && if !is_success(status) {
                r.0 is Finished && (r.1 matches StartupAction::Finish { status: st, undo } && st == status
                    && undo@ == steps_before(completed as int))
            } else if completed + 1 == SETUP_STEP_COUNT {
                r.0 is Finished && (r.1 matches StartupAction::Finish { status: st, undo } && st == status
                    && undo@.len() == 0)
            } else {
                r.0 == (StartupState::Registering { completed: (completed + 1) as usize }) && r.1 == (
                StartupAction::Perform { step: step_at(completed + 1) })
            }),
            // A negative status ends the setup, undoing each of the registrations
            // made before it, in the order in which they were made.
            self matches StartupState::Registering { completed } ==> (e matches StartupEvent::StepStatus {
                status,
            } ==> (status < 0 ==> r.0 is Finished && (r.1 matches StartupAction::Finish { status: st, undo }
                && st == status && undo@.len() == completed && forall|i: int|
                0 <= i < completed ==> undo@[i] == step_at(i)))),
            // Setup reports success only once the last registration succeeded,
            // and then undoes nothing.
            r.1 matches StartupAction::Finish { status, undo } ==> (is_success(status) ==> undo@.len()
                == 0 && (self matches StartupState::Registering { completed } && completed + 1
                == SETUP_STEP_COUNT)),
            r.0 is Registering ==> startup_accepts(r.0, StartupEvent::StepStatus { status: 0 }),
    {
        match e {
            StartupEvent::Reserved { ok } => {
                if ok {
                    (
                        StartupState::Registering { completed: 0 },
                        StartupAction::Perform { step: setup_step(0) },
                    )
                } else {
                    (
                        StartupState::Finished,
                        StartupAction::Finish { status: STATUS_INSUFFICIENT_RESOURCES, undo: Vec::new() },
                    )
                }
            },
            StartupEvent::StepStatus { status } => {
                let completed = match self {
                    StartupState::Registering { completed } => completed,
                    _ => {
                        assert(false);
                        0
                    },
                };
                if !nt_success(status) {
                    (StartupState::Finished, StartupAction::Finish { status, undo: setup_steps(completed) })
                } else if completed + 1 == SETUP_STEP_COUNT {
                    (StartupState::Finished, StartupAction::Finish { status, undo: Vec::new() })
                } else {
                    (
                        StartupState::Registering { completed: completed + 1 },
                        StartupAction::Perform { step: setup_step(completed + 1) },
                    )
                }
            },
        }
    }
}

} // verus!
