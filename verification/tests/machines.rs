use zluda_exstar::hooks::{adapter_spoof_due, device_poll_next, terminate_backtraces, DevicePollAction, TerminateBacktraces};
use zluda_exstar::launch::{child_launch_step, LaunchAction, LaunchNote, LaunchPhase, LaunchPlan, LaunchReply};
use zluda_exstar::watchdog::{
    watchdog_dump_start, watchdog_dump_step, DumpAction, DumpPhase, DumpRecord, DumpReply, ThreadErrorReason,
};

fn reply(ok: bool, value: u64) -> DumpReply {
    DumpReply { ok, value, last_error: 0 }
}

/// Runs a dump against scripted replies, one per action; returns the
/// actions asked for and the records written.
fn run_dump(mut answer: impl FnMut(DumpAction) -> DumpReply) -> (Vec<DumpAction>, Vec<DumpRecord>) {
    let (mut phase, mut action) = watchdog_dump_start();
    let mut actions = vec![];
    let mut records = vec![];
    while action != DumpAction::Finish {
        actions.push(action);
        assert!(actions.len() < 200);
        let (next, next_action, record) = watchdog_dump_step(phase, answer(action));
        records.extend(record);
        phase = next;
        action = next_action;
    }
    assert_eq!(phase, DumpPhase::Done);
    (actions, records)
}

#[test]
fn watchdog_dump_open_failure_ends_at_once() {
    let (actions, records) = run_dump(|_| DumpReply { ok: false, value: 0, last_error: 5 });
    assert_eq!(actions, vec![DumpAction::OpenThread]);
    assert_eq!(records, vec![DumpRecord::ThreadError(ThreadErrorReason::OpenThreadFailed, 5)]);
}

#[test]
fn watchdog_dump_suspend_failure_closes_without_resuming() {
    let (actions, records) = run_dump(|a| match a {
        DumpAction::OpenThread => reply(true, 0),
        DumpAction::SuspendThread => DumpReply { ok: false, value: 0, last_error: 6 },
        _ => reply(true, 0),
    });
    assert_eq!(actions, vec![DumpAction::OpenThread, DumpAction::SuspendThread, DumpAction::CloseThread]);
    assert_eq!(records, vec![DumpRecord::ThreadError(ThreadErrorReason::SuspendFailed, 6)]);
}

#[test]
fn watchdog_dump_context_failure_resumes_and_closes() {
    let (actions, records) = run_dump(|a| match a {
        DumpAction::GetContext => DumpReply { ok: false, value: 0, last_error: 31 },
        _ => reply(true, 0),
    });
    assert_eq!(actions[2..], [DumpAction::GetContext, DumpAction::ResumeThread, DumpAction::CloseThread]);
    assert_eq!(records, vec![DumpRecord::ThreadError(ThreadErrorReason::GetContextFailed, 31)]);
}

#[test]
fn watchdog_dump_unwinds_until_no_entry() {
    let mut pcs = vec![0x3000u64, 0x2000, 0x1000];
    let (actions, records) = run_dump(|a| match a {
        DumpAction::ReadPc => reply(true, pcs.pop().unwrap()),
        DumpAction::LookupEntry(pc) => reply(pc != 0x3000, 0),
        _ => reply(true, 0),
    });
    assert_eq!(
        records,
        vec![
            DumpRecord::Context,
            DumpRecord::Frame(0, 0x1000),
            DumpRecord::Frame(1, 0x2000),
            DumpRecord::Frame(2, 0x3000),
            DumpRecord::UnwindEnd(2),
        ]
    );
    assert_eq!(actions[actions.len() - 2..], [DumpAction::ResumeThread, DumpAction::CloseThread]);
}

#[test]
fn watchdog_dump_unwinds_at_most_twenty_frames() {
    let (_, records) = run_dump(|a| match a {
        DumpAction::ReadPc => reply(true, 0x4000),
        _ => reply(true, 0),
    });
    let frames = records.iter().filter(|r| matches!(r, DumpRecord::Frame(_, _))).count();
    assert_eq!(frames, 20);
    assert_eq!(records.last(), Some(&DumpRecord::Frame(19, 0x4000)));
}

#[test]
fn watchdog_dump_stops_at_zero_pc() {
    let (_, records) = run_dump(|a| match a {
        DumpAction::ReadPc => reply(true, 0),
        _ => reply(true, 0),
    });
    assert_eq!(records, vec![DumpRecord::Context]);
}

#[test]
fn watchdog_dump_scans_readable_words_without_unwinder() {
    let (actions, records) = run_dump(|a| match a {
        DumpAction::FindUnwinder => reply(false, 0),
        DumpAction::QueryStackWord(i) => {
            if i == 3 {
                reply(false, 0)
            } else if i == 1 {
                reply(true, 0x01)
            } else {
                reply(true, 0x04)
            }
        }
        DumpAction::ReadStackWord(i) => reply(i == 2, 0x7ff0 + i as u64),
        _ => reply(true, 0),
    });
    assert_eq!(records, vec![DumpRecord::Context, DumpRecord::Fallback, DumpRecord::Stack(2, 16, 0x7ff2)]);
    assert!(!actions.contains(&DumpAction::ReadStackWord(1)));
    assert!(!actions.contains(&DumpAction::QueryStackWord(4)));
}

#[test]
fn watchdog_dump_scans_at_most_thirty_two_words() {
    let (actions, records) = run_dump(|a| match a {
        DumpAction::FindUnwinder => reply(false, 0),
        DumpAction::QueryStackWord(_) => reply(true, 0x40),
        DumpAction::ReadStackWord(i) => reply(true, i as u64),
        _ => reply(true, 0),
    });
    let words = records.iter().filter(|r| matches!(r, DumpRecord::Stack(_, _, _))).count();
    assert_eq!(words, 32);
    assert_eq!(records.last(), Some(&DumpRecord::Stack(31, 248, 31)));
    assert_eq!(actions[actions.len() - 2..], [DumpAction::ResumeThread, DumpAction::CloseThread]);
}

fn plan(flags: u32, inject: bool, traced: bool, check_duplicate: bool, targets_manager: bool) -> LaunchPlan {
    LaunchPlan { flags, inject, traced, check_duplicate, targets_manager }
}

/// Runs a launch against scripted replies; returns the actions, the notes
/// and the result.
fn run_launch(plan: &LaunchPlan, mut answer: impl FnMut(LaunchAction) -> LaunchReply) -> (Vec<LaunchAction>, Vec<LaunchNote>, bool) {
    let mut phase = LaunchPhase::Start;
    let mut last = LaunchReply { ok: true, code: 0 };
    let mut actions = vec![];
    let mut notes = vec![];
    loop {
        let (next, action, note) = child_launch_step(plan, phase, last);
        notes.extend(note);
        phase = next;
        if let LaunchAction::Finish(result) = action {
            return (actions, notes, result);
        }
        actions.push(action);
        assert!(actions.len() < 50);
        last = answer(action);
    }
}

const SUSPENDED_BREAKAWAY: u32 = 0x4 | 0x01000000;

#[test]
fn child_launch_injects_resumes_and_probes_the_manager() {
    let p = plan(0x10, true, true, false, true);
    let (actions, notes, result) = run_launch(&p, |a| match a {
        LaunchAction::Wait(50) => LaunchReply { ok: true, code: 0x102 },
        LaunchAction::Wait(_) => LaunchReply { ok: true, code: 0 },
        _ => LaunchReply { ok: true, code: 0 },
    });
    assert!(result);
    assert_eq!(
        actions,
        vec![
            LaunchAction::Create(0x10 | SUSPENDED_BREAKAWAY),
            LaunchAction::Inject,
            LaunchAction::Resume,
            LaunchAction::Wait(50),
            LaunchAction::Wait(950),
            LaunchAction::Watch,
            LaunchAction::Record(0x10 | SUSPENDED_BREAKAWAY, true),
        ]
    );
    assert_eq!(notes, vec![LaunchNote::Injection(true), LaunchNote::Probe(0x102), LaunchNote::LateProbe(0)]);
}

#[test]
fn child_launch_terminates_a_child_that_cannot_resume() {
    let p = plan(0, true, false, false, false);
    let (actions, notes, result) = run_launch(&p, |a| LaunchReply { ok: a != LaunchAction::Resume, code: 0 });
    assert!(!result);
    assert_eq!(
        actions,
        vec![
            LaunchAction::Create(SUSPENDED_BREAKAWAY),
            LaunchAction::Inject,
            LaunchAction::Resume,
            LaunchAction::Terminate(1),
            LaunchAction::Record(SUSPENDED_BREAKAWAY, false),
        ]
    );
    assert!(notes.is_empty());
}

#[test]
fn child_launch_keeps_a_suspended_child_suspended() {
    let p = plan(0x4, true, true, false, false);
    let (actions, notes, result) = run_launch(&p, |a| LaunchReply { ok: a != LaunchAction::Inject, code: 0 });
    assert!(result);
    assert_eq!(
        actions,
        vec![LaunchAction::Create(SUSPENDED_BREAKAWAY), LaunchAction::Inject, LaunchAction::Record(SUSPENDED_BREAKAWAY, true)]
    );
    assert_eq!(notes, vec![LaunchNote::Injection(false)]);
}

#[test]
fn child_launch_without_paths_is_made_as_asked() {
    let p = plan(0x20, false, true, true, false);
    let (actions, notes, result) = run_launch(&p, |a| match a {
        LaunchAction::AcquireLatch => LaunchReply { ok: false, code: 183 },
        _ => LaunchReply { ok: true, code: 0 },
    });
    assert!(result);
    assert_eq!(actions, vec![LaunchAction::AcquireLatch, LaunchAction::Create(0x20), LaunchAction::Record(0x20, true)]);
    assert_eq!(notes, vec![LaunchNote::DuplicateNativeLaunch]);
}

#[test]
fn child_launch_creation_failure_is_recorded() {
    let p = plan(0, true, true, false, true);
    let (actions, _, result) = run_launch(&p, |_| LaunchReply { ok: false, code: 0 });
    assert!(!result);
    assert_eq!(actions, vec![LaunchAction::Create(SUSPENDED_BREAKAWAY), LaunchAction::Record(SUSPENDED_BREAKAWAY, false)]);
}

#[test]
fn adapter_spoofed_only_after_successful_call_with_description() {
    assert!(adapter_spoof_due(0, false));
    assert!(adapter_spoof_due(1, false));
    assert!(!adapter_spoof_due(-1, false));
    assert!(!adapter_spoof_due(0, true));
}

#[test]
fn terminate_backtraces_taken_once_each() {
    let mut community = false;
    let mut first = false;
    assert_eq!(
        terminate_backtraces(false, &mut community, &mut first),
        TerminateBacktraces { community_kill: false, first_terminate: true }
    );
    assert!(!community && first);
    assert_eq!(
        terminate_backtraces(true, &mut community, &mut first),
        TerminateBacktraces { community_kill: true, first_terminate: false }
    );
    assert_eq!(
        terminate_backtraces(true, &mut community, &mut first),
        TerminateBacktraces { community_kill: false, first_terminate: false }
    );
}

#[test]
fn dialog_closer_looks_every_half_second_for_two_minutes() {
    assert_eq!(zluda_exstar::window::dialog_closer_next(0), Some(500));
    assert_eq!(zluda_exstar::window::dialog_closer_next(119_999), Some(500));
    assert_eq!(zluda_exstar::window::dialog_closer_next(120_000), None);
}

#[test]
fn device_poller_looks_sixty_times() {
    assert_eq!(device_poll_next(1, true), DevicePollAction::Hook);
    assert_eq!(device_poll_next(1, false), DevicePollAction::WaitThenCheck(500));
    assert_eq!(device_poll_next(59, false), DevicePollAction::WaitThenCheck(500));
    assert_eq!(device_poll_next(60, false), DevicePollAction::WaitThenGiveUp(500));
    assert_eq!(device_poll_next(60, true), DevicePollAction::Hook);
}
