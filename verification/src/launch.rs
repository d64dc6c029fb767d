//! The creation of a child process, as a state machine: the EinScan launch
//! latch is checked where the process manager starts the service, the child
//! is created (suspended and outside the job when the runtime is to be
//! injected), the runtime injected, the child resumed or, when that fails,
//! terminated, a traced child probed, and the launch recorded. The caller
//! performs each action and hands back what it gave.
use vstd::prelude::*;
use crate::einscan::ERROR_ALREADY_EXISTS;
use crate::hooks::{
    late_probe_due, launch_creation_flags, launch_probes, CREATE_BREAKAWAY_FROM_JOB,
    CREATE_SUSPENDED, WAIT_TIMEOUT,
};

verus! {

/// How long the first probe waits for the child, in milliseconds.
pub const FIRST_PROBE_MS: u32 = 50;
/// How long the late probe waits, in milliseconds.
pub const LATE_PROBE_MS: u32 = 950;
/// The exit code of a child that could not be resumed.
pub const TERMINATE_EXIT_CODE: u32 = 1;

/// What is known of a launch before it starts: the creator's flags, whether
/// the runtime is injected (its paths are known), whether the launch is
/// traced, whether the latch is checked for a native duplicate launch, and
/// whether the process manager is the child.
#[derive(Clone, Copy, PartialEq, Eq, Structural, Debug)]
pub struct LaunchPlan {
    pub flags: u32,
    pub inject: bool,
    pub traced: bool,
    pub check_duplicate: bool,
    pub targets_manager: bool,
}

/// Where the launch stands; the flag carried from the resume on is whether
/// the launch succeeded.
#[derive(Clone, Copy, PartialEq, Eq, Structural, Debug)]
pub enum LaunchPhase {
    Start,
    Latching,
    Creating,
    Injecting,
    Resuming,
    Terminating,
    Probing(bool),
    LateProbing(bool),
    Watching(bool),
    Recording(bool),
    Done(bool),
}

/// What the last action gave back: whether it worked, and a code (the
/// latch's error, or a wait's result).
#[derive(Clone, Copy, PartialEq, Eq, Structural, Debug)]
pub struct LaunchReply {
    pub ok: bool,
    pub code: u32,
}

/// What the caller does next.
#[derive(Clone, Copy, PartialEq, Eq, Structural, Debug)]
pub enum LaunchAction {
    /// Take the EinScan launch latch without tracing; `ok` when taken, else
    /// `code` the error.
    AcquireLatch,
    /// Create the process with these flags; `ok` when created.
    Create(u32),
    /// Inject the runtime; `ok` when it worked.
    Inject,
    /// Resume the child's first thread; `ok` when it worked.
    Resume,
    /// Terminate the child with this exit code.
    Terminate(u32),
    /// Wait for the child this many milliseconds; `code` the wait's result.
    Wait(u32),
    /// Watch the process manager's child in the background.
    Watch,
    /// Record the launch: the flags it was created with and whether it
    /// succeeded.
    Record(u32, bool),
    /// The launch is over, with this result.
    Finish(bool),
}

/// A line the launch writes.
#[derive(Clone, Copy, PartialEq, Eq, Structural, Debug)]
pub enum LaunchNote {
    /// The service was already launched natively.
    DuplicateNativeLaunch,
    /// The injection, and whether it worked.
    Injection(bool),
    /// The first probe's wait result.
    Probe(u32),
    /// The late probe's wait result.
    LateProbe(u32),
}

/// The flags the child is created with.
pub open spec fn planned_flags(plan: LaunchPlan) -> u32 {
    if plan.inject {
        plan.flags | CREATE_SUSPENDED | CREATE_BREAKAWAY_FROM_JOB
    } else {
        plan.flags
    }
}

/// The creator wanted the child running.
pub open spec fn child_should_run(plan: LaunchPlan) -> bool {
    plan.flags & CREATE_SUSPENDED == 0
}

/// The launch is recorded, with its result.
pub open spec fn record_step(plan: LaunchPlan, succeeded: bool) -> (LaunchPhase, LaunchAction) {
    (LaunchPhase::Recording(succeeded), LaunchAction::Record(planned_flags(plan), succeeded))
}

/// Once the injected child is settled: a traced child that runs is probed,
/// any other launch recorded.
pub open spec fn settled_step(plan: LaunchPlan, succeeded: bool) -> (LaunchPhase, LaunchAction) {
    if plan.traced && child_should_run(plan) {
        (LaunchPhase::Probing(succeeded), LaunchAction::Wait(FIRST_PROBE_MS))
    } else {
        record_step(plan, succeeded)
    }
}

/// Once the probes are over: the process manager is watched, any other
/// child recorded.
pub open spec fn probed_step(plan: LaunchPlan, succeeded: bool) -> (LaunchPhase, LaunchAction) {
    if plan.targets_manager {
        (LaunchPhase::Watching(succeeded), LaunchAction::Watch)
    } else {
        record_step(plan, succeeded)
    }
}

/// The launch's next phase, action and line, given what the last action
/// gave.
pub open spec fn launch_next(plan: LaunchPlan, phase: LaunchPhase, reply: LaunchReply) -> (
    LaunchPhase,
    LaunchAction,
    Option<LaunchNote>,
) {
    match phase {
        LaunchPhase::Start => if plan.check_duplicate {
            (LaunchPhase::Latching, LaunchAction::AcquireLatch, None)
        } else {
            (LaunchPhase::Creating, LaunchAction::Create(planned_flags(plan)), None)
        },
        LaunchPhase::Latching => (
            LaunchPhase::Creating,
            LaunchAction::Create(planned_flags(plan)),
            if !reply.ok && reply.code == ERROR_ALREADY_EXISTS {
                Some(LaunchNote::DuplicateNativeLaunch)
            } else {
                None
            },
        ),
        LaunchPhase::Creating => if !reply.ok {
            (record_step(plan, false).0, record_step(plan, false).1, None)
        } else if !plan.inject {
            (record_step(plan, true).0, record_step(plan, true).1, None)
        } else {
            (LaunchPhase::Injecting, LaunchAction::Inject, None)
        },
        LaunchPhase::Injecting => {
            let note = if plan.traced { Some(LaunchNote::Injection(reply.ok)) } else { None };
            if child_should_run(plan) {
                (LaunchPhase::Resuming, LaunchAction::Resume, note)
            } else {
                (settled_step(plan, true).0, settled_step(plan, true).1, note)
            }
        },
        LaunchPhase::Resuming => if reply.ok {
            (settled_step(plan, true).0, settled_step(plan, true).1, None)
        } else {
            (LaunchPhase::Terminating, LaunchAction::Terminate(TERMINATE_EXIT_CODE), None)
        },
        LaunchPhase::Terminating => (settled_step(plan, false).0, settled_step(plan, false).1, None),
        LaunchPhase::Probing(s) => {
            let note = Some(LaunchNote::Probe(reply.code));
            if reply.code == WAIT_TIMEOUT {
                (LaunchPhase::LateProbing(s), LaunchAction::Wait(LATE_PROBE_MS), note)
            } else {
                (probed_step(plan, s).0, probed_step(plan, s).1, note)
            }
        },
        LaunchPhase::LateProbing(s) => (
            probed_step(plan, s).0,
            probed_step(plan, s).1,
            Some(LaunchNote::LateProbe(reply.code)),
        ),
        LaunchPhase::Watching(s) => (record_step(plan, s).0, record_step(plan, s).1, None),
        LaunchPhase::Recording(s) => (LaunchPhase::Done(s), LaunchAction::Finish(s), None),
        LaunchPhase::Done(s) => (LaunchPhase::Done(s), LaunchAction::Finish(s), None),
    }
}

fn record_step_of(plan: &LaunchPlan, succeeded: bool) -> (r: (LaunchPhase, LaunchAction))
    ensures
        r == record_step(*plan, succeeded),
{
    (LaunchPhase::Recording(succeeded), LaunchAction::Record(launch_creation_flags(plan.flags, plan.inject), succeeded))
}

fn settled_step_of(plan: &LaunchPlan, succeeded: bool) -> (r: (LaunchPhase, LaunchAction))
    ensures
        r == settled_step(*plan, succeeded),
{
    if launch_probes(plan.traced, plan.flags, plan.targets_manager).probe {
        (LaunchPhase::Probing(succeeded), LaunchAction::Wait(FIRST_PROBE_MS))
    } else {
        record_step_of(plan, succeeded)
    }
}

fn probed_step_of(plan: &LaunchPlan, succeeded: bool) -> (r: (LaunchPhase, LaunchAction))
    ensures
        r == probed_step(*plan, succeeded),
{
    if plan.targets_manager {
        (LaunchPhase::Watching(succeeded), LaunchAction::Watch)
    } else {
        record_step_of(plan, succeeded)
    }
}

/// One step of a child launch: the next phase, the next action, and the
/// line to write, given what the last action gave back.
pub fn child_launch_step(plan: &LaunchPlan, phase: LaunchPhase, reply: LaunchReply) -> (r: (
    LaunchPhase,
    LaunchAction,
    Option<LaunchNote>,
))
    ensures
        r == launch_next(*plan, phase, reply),
{
    match phase {
        LaunchPhase::Start => if plan.check_duplicate {
            (LaunchPhase::Latching, LaunchAction::AcquireLatch, None)
        } else {
            (LaunchPhase::Creating, LaunchAction::Create(launch_creation_flags(plan.flags, plan.inject)), None)
        },
        LaunchPhase::Latching => {
            let note = if !reply.ok && reply.code == ERROR_ALREADY_EXISTS {
                Some(LaunchNote::DuplicateNativeLaunch)
            } else {
                None
            };
            (LaunchPhase::Creating, LaunchAction::Create(launch_creation_flags(plan.flags, plan.inject)), note)
        },
        LaunchPhase::Creating => if !reply.ok {
            let (p, a) = record_step_of(plan, false);
            (p, a, None)
        } else if !plan.inject {
            let (p, a) = record_step_of(plan, true);
            (p, a, None)
        } else {
            (LaunchPhase::Injecting, LaunchAction::Inject, None)
        },
        LaunchPhase::Injecting => {
            let note = if plan.traced { Some(LaunchNote::Injection(reply.ok)) } else { None };
            if plan.flags & CREATE_SUSPENDED == 0 {
                (LaunchPhase::Resuming, LaunchAction::Resume, note)
            } else {
                let (p, a) = settled_step_of(plan, true);
                (p, a, note)
            }
        },
        LaunchPhase::Resuming => {
            if reply.ok {
                let (p, a) = settled_step_of(plan, true);
                (p, a, None)
            } else {
                (LaunchPhase::Terminating, LaunchAction::Terminate(TERMINATE_EXIT_CODE), None)
            }
        },
        LaunchPhase::Terminating => {
            let (p, a) = settled_step_of(plan, false);
            (p, a, None)
        },
        LaunchPhase::Probing(s) => {
            let note = Some(LaunchNote::Probe(reply.code));
            if late_probe_due(reply.code) {
                (LaunchPhase::LateProbing(s), LaunchAction::Wait(LATE_PROBE_MS), note)
            } else {
                let (p, a) = probed_step_of(plan, s);
                (p, a, note)
            }
        },
        LaunchPhase::LateProbing(s) => {
            let (p, a) = probed_step_of(plan, s);
            (p, a, Some(LaunchNote::LateProbe(reply.code)))
        },
        LaunchPhase::Watching(s) => {
            let (p, a) = record_step_of(plan, s);
            (p, a, None)
        },
        LaunchPhase::Recording(s) => (LaunchPhase::Done(s), LaunchAction::Finish(s), None),
        LaunchPhase::Done(s) => (LaunchPhase::Done(s), LaunchAction::Finish(s), None),
    }
}

/// A child is terminated only when it was to run and resuming it failed,
/// and the launch then fails; it is resumed only when its creator wanted it
/// running and it was created for injection.
pub proof fn law_launch_terminates_only_unresumable_children(plan: LaunchPlan, phase: LaunchPhase, reply: LaunchReply)
    ensures
        launch_next(plan, phase, reply).1 is Terminate ==> phase == LaunchPhase::Resuming && !reply.ok,
        launch_next(plan, phase, reply).1 is Terminate ==> launch_next(plan, phase, reply).0
            == LaunchPhase::Terminating,
        phase == LaunchPhase::Terminating ==> launch_next(plan, phase, reply).0 == settled_step(plan, false).0,
        launch_next(plan, phase, reply).1 is Resume ==> phase == LaunchPhase::Injecting && child_should_run(plan),
{
}

/// Every creation asks for the same flags: the creator's, with
/// `CREATE_SUSPENDED` and `CREATE_BREAKAWAY_FROM_JOB` added when the runtime
/// is injected; and every record carries them.
pub proof fn law_launch_creation_flags(plan: LaunchPlan, phase: LaunchPhase, reply: LaunchReply)
    ensures
        launch_next(plan, phase, reply).1 matches LaunchAction::Create(f) ==> f == planned_flags(plan),
        launch_next(plan, phase, reply).1 matches LaunchAction::Record(f, _) ==> f == planned_flags(plan),
{
}

/// A launch fails only where the child was not created or could not be
/// resumed: the result carried into the record is `false` only after a
/// failed creation or from the termination on.
pub proof fn law_launch_fails_only_on_create_or_resume(plan: LaunchPlan, phase: LaunchPhase, reply: LaunchReply)
    ensures
        launch_next(plan, phase, reply).1 == LaunchAction::Record(planned_flags(plan), false) ==> (phase
            == LaunchPhase::Creating && !reply.ok) || phase == LaunchPhase::Terminating || phase
            == LaunchPhase::Watching(false) || phase == LaunchPhase::Probing(false) || phase
            == LaunchPhase::LateProbing(false),
{
}

/// How many steps at most remain before the launch is over.
pub open spec fn launch_steps_left(phase: LaunchPhase) -> int {
    match phase {
        LaunchPhase::Start => 12,
        LaunchPhase::Latching => 11,
        LaunchPhase::Creating => 10,
        LaunchPhase::Injecting => 9,
        LaunchPhase::Resuming => 8,
        LaunchPhase::Terminating => 7,
        LaunchPhase::Probing(_) => 6,
        LaunchPhase::LateProbing(_) => 5,
        LaunchPhase::Watching(_) => 4,
        LaunchPhase::Recording(_) => 1,
        LaunchPhase::Done(_) => 0,
    }
}

/// Every launch ends, in at most twelve steps, and ends with the result it
/// recorded: each step before the end brings the end closer, whatever the
/// last action gave back, and the record is followed by the end with the
/// same result.
pub proof fn law_launch_ends(plan: LaunchPlan, phase: LaunchPhase, reply: LaunchReply)
    ensures
        !(phase is Done) ==> launch_steps_left(launch_next(plan, phase, reply).0) < launch_steps_left(phase),
        launch_steps_left(phase) == 0 <==> phase is Done,
        phase matches LaunchPhase::Recording(s) ==> launch_next(plan, phase, reply).1 == LaunchAction::Finish(s),
        launch_next(plan, phase, reply).1 matches LaunchAction::Record(_, s) ==> launch_next(plan, phase, reply).0
            == LaunchPhase::Recording(s),
{
}

} // verus!
