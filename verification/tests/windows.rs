use zluda_exstar::hooks::{
    exe_entry_backtrace_due, library_load_hooks, preserve_heartbeat_due, LoadHooks, PreserveAction, PreserveHub,
    PreservePhase,
    MANAGER_SEARCH_ATTEMPTS, MANAGER_SEARCH_DELAY_MS,
};
use zluda_exstar::exstar::{ExstarSettings, ProcessInfo};
use zluda_exstar::modules::{ExeHookKind, ExeHookMarks, loaded_target_of, on_load_plan, startup_plan, target_file_name, HookTarget, LoadPlan};
use zluda_exstar::qt::{ConnectRetry, ConnectStep, HELPER_CONNECT_RETRY_ATTEMPTS, HELPER_CONNECT_RETRY_DELAY_MS};
use zluda_exstar::window::{
    dialog_closer_process, error_dialog_verdict, find_app_window, is_exstar_main_window, window_hide_backtrace_due,
    BridgeAction, BridgeEvent, BridgePhase, DialogCandidate, DialogVerdict, ShutdownBridge, TopLevelWindow,
    WindowLatches, WindowTransition, BRIDGE_DEADLINE_MS, BRIDGE_POLL_MS,
};

fn window(handle: u64, owner_pid: u32, title: &str) -> TopLevelWindow {
    TopLevelWindow { handle, owner_pid, title: title.to_string() }
}

/// Drives one `isConnected` call over the given answers; returns the
/// number of checks made and the result.
fn run_connect(traced: bool, target: bool, answers: &[bool]) -> (usize, bool) {
    let mut checks = 0usize;
    let mut next = || {
        let answer = answers[checks];
        checks += 1;
        answer
    };
    let first = next();
    let (mut retry, mut step) = ConnectRetry::start(traced, target, first);
    let mut attempts = Vec::new();
    let result = loop {
        match step {
            ConnectStep::Done { connected } => break connected,
            ConnectStep::Retry { attempt, delay_ms } => {
                assert_eq!(delay_ms, HELPER_CONNECT_RETRY_DELAY_MS);
                attempts.push(attempt);
                let answer = next();
                step = retry.after_retry(answer);
            }
        }
    };
    let expected: Vec<u32> = (1..=attempts.len() as u32).collect();
    assert_eq!(attempts, expected);
    (checks, result)
}

#[test]
fn connected_helper_is_checked_once() {
    assert_eq!(run_connect(true, true, &[true, false, false, false, false]), (1, true));
}

#[test]
fn untraced_helper_is_not_retried() {
    assert_eq!(run_connect(false, true, &[false, true, true, true, true]), (1, false));
    assert_eq!(run_connect(true, false, &[false, true, true, true, true]), (1, false));
}

#[test]
fn traced_helper_retries_until_connected() {
    assert_eq!(run_connect(true, true, &[false, false, true, false, false]), (3, true));
}

#[test]
fn traced_helper_gives_up_after_four_retries() {
    assert_eq!(HELPER_CONNECT_RETRY_ATTEMPTS, 4);
    assert_eq!(run_connect(true, true, &[false, false, false, false, false]), (5, false));
    assert_eq!(run_connect(true, true, &[false, false, false, false, true]), (5, true));
}

#[test]
fn app_window_is_the_first_of_this_process() {
    let windows = vec![
        window(1, 7, "EXStar Hub"),
        window(2, 9, "App_EA.xml - other"),
        window(3, 7, "Layout App_EA.xml"),
        window(4, 7, "App_EA.xml"),
    ];
    assert_eq!(find_app_window(&windows, 7), Some(3));
    assert_eq!(find_app_window(&windows, 9), Some(2));
    assert_eq!(find_app_window(&windows, 8), None);
    assert_eq!(find_app_window(&[window(5, 7, "app_ea.xml")], 7), None);
}

#[test]
fn main_window_is_recognised_by_exact_title() {
    assert!(is_exstar_main_window(true, true, "EXStar Hub"));
    assert!(!is_exstar_main_window(true, true, "exstar hub"));
    assert!(!is_exstar_main_window(true, false, "EXStar Hub"));
    assert!(!is_exstar_main_window(false, true, "EXStar Hub"));
}

#[test]
fn window_transitions_latch_once() {
    let mut latches = WindowLatches::new();
    let none = WindowTransition { traced: false, announce_app_window: false, promote_app_window: false };
    assert_eq!(latches.observe_transition(false, true, true, "EXStar Hub", true, 11), none);
    assert_eq!(latches.main_window_thread(), 0);
    assert_eq!(latches.observe_transition(true, false, true, "App_EA.xml", true, 11), none);
    assert_eq!(latches.observe_transition(true, true, false, "App_EA.xml", true, 11), none);
    assert!(!latches.on_main_window_thread(11));

    let t = latches.observe_transition(true, true, true, "EXStar Hub", true, 11);
    assert_eq!(t, WindowTransition { traced: true, announce_app_window: false, promote_app_window: false });
    assert!(latches.on_main_window_thread(11));
    latches.observe_transition(true, true, true, "EXStar Hub", true, 12);
    assert!(latches.on_main_window_thread(11));
    assert!(!latches.on_main_window_thread(12));

    let hidden = latches.observe_transition(true, true, true, "App_EA.xml", false, 11);
    assert_eq!(hidden, WindowTransition { traced: true, announce_app_window: false, promote_app_window: false });
    let shown = latches.observe_transition(true, true, true, "App_EA.xml", true, 11);
    assert_eq!(shown, WindowTransition { traced: true, announce_app_window: true, promote_app_window: true });
    assert!(latches.app_window_shown() && latches.app_window_foregrounded());
    let again = latches.observe_transition(true, true, true, "App_EA.xml", true, 11);
    assert_eq!(again, WindowTransition { traced: true, announce_app_window: false, promote_app_window: false });
}

#[test]
fn untraced_hub_hands_the_app_window_the_foreground_once() {
    let mut latches = WindowLatches::new();
    let hidden = latches.observe_transition(false, true, true, "./App_EA.xml", false, 3);
    assert_eq!(hidden, WindowTransition { traced: false, announce_app_window: false, promote_app_window: false });
    let shown = latches.observe_transition(false, true, true, "./App_EA.xml", true, 3);
    assert_eq!(shown, WindowTransition { traced: false, announce_app_window: true, promote_app_window: true });
    let again = latches.observe_transition(false, true, true, "./App_EA.xml", true, 3);
    assert_eq!(again, WindowTransition { traced: false, announce_app_window: false, promote_app_window: false });
    assert!(latches.app_window_foregrounded());
    assert_eq!(latches.main_window_thread(), 0);
}

#[test]
fn hide_backtrace_is_taken_once_for_the_main_window() {
    let mut emitted = false;
    assert!(!window_hide_backtrace_due(5, true, true, true, "EXStar Hub", &mut emitted));
    assert!(!window_hide_backtrace_due(0, true, true, true, "Other", &mut emitted));
    assert!(!emitted);
    assert!(window_hide_backtrace_due(0, true, true, true, "exstar HUB", &mut emitted));
    assert!(emitted);
    assert!(!window_hide_backtrace_due(0, true, true, true, "EXStar Hub", &mut emitted));
}

#[test]
fn exe_entry_backtrace_waits_for_the_main_window_thread() {
    let mut emitted = false;
    assert!(!exe_entry_backtrace_due(true, false, &mut emitted));
    assert!(!emitted);
    assert!(exe_entry_backtrace_due(true, true, &mut emitted));
    assert!(!exe_entry_backtrace_due(false, false, &mut emitted));
    let mut fresh = false;
    assert!(exe_entry_backtrace_due(false, false, &mut fresh));
}

#[test]
fn loaded_libraries_pick_their_hooks() {
    assert_eq!(library_load_hooks("C:\\Windows\\System32\\DXGI.dll"), LoadHooks { device_einstar: false, dxgi: true });
    assert_eq!(library_load_hooks("Sn3DDeviceEinStar.dll"), LoadHooks { device_einstar: true, dxgi: false });
    assert_eq!(library_load_hooks("kernel32.dll"), LoadHooks { device_einstar: false, dxgi: false });
}

/// Drives the bootstrap Hub's wait over scripted observations, each a
/// (compat active, related manager) pair; returns the actions taken.
fn run_preserve(script: &[(bool, Option<u32>)]) -> Vec<PreserveAction> {
    let mut machine = PreserveHub::start(true).unwrap();
    let mut actions = Vec::new();
    for &(compat, related) in script {
        let action = machine.step(compat, related);
        actions.push(action);
        if matches!(action, PreserveAction::GiveUp { .. } | PreserveAction::End { .. } | PreserveAction::Stop) {
            break;
        }
    }
    actions
}

#[test]
fn hub_is_not_held_outside_startup() {
    assert!(PreserveHub::start(false).is_none());
    assert_eq!(PreserveHub::start(true).unwrap().phase, PreservePhase::Searching { failed: 0 });
}

#[test]
fn hub_holds_while_its_manager_runs() {
    let actions = run_preserve(&[
        (true, None),
        (true, None),
        (true, Some(40)),
        (true, Some(40)),
        (true, Some(40)),
        (true, Some(41)),
    ]);
    assert_eq!(
        actions,
        vec![
            PreserveAction::WaitForManager { announce: true, delay_ms: MANAGER_SEARCH_DELAY_MS },
            PreserveAction::WaitForManager { announce: false, delay_ms: MANAGER_SEARCH_DELAY_MS },
            PreserveAction::Begin { manager_pid: 40 },
            PreserveAction::Pump,
            PreserveAction::Pump,
            PreserveAction::End { manager_pid: 40 },
        ]
    );
}

#[test]
fn hub_stops_holding_when_startup_compat_ends() {
    let actions = run_preserve(&[(false, Some(40)), (false, Some(40))]);
    assert_eq!(actions, vec![PreserveAction::Begin { manager_pid: 40 }, PreserveAction::End { manager_pid: 40 }]);
}

#[test]
fn hub_gives_up_after_twenty_searches() {
    assert_eq!(MANAGER_SEARCH_ATTEMPTS, 20);
    let script = vec![(true, None); 25];
    let actions = run_preserve(&script);
    assert_eq!(actions.len(), 20);
    assert_eq!(actions[19], PreserveAction::GiveUp { delay_ms: 250 });
    assert!(actions[..19].iter().all(|a| matches!(a, PreserveAction::WaitForManager { .. })));
}

fn settings(host: bool) -> ExstarSettings {
    let mut vars = Vec::new();
    if host {
        vars.push(("ZLUDA_EXSTAR_HOST_TRACE".to_string(), "1".to_string()));
    }
    ExstarSettings::from_env(&vars)
}

fn process(exe: &str, args: &[&str]) -> ProcessInfo {
    ProcessInfo { exe_name: Some(exe.to_string()), args: args.iter().map(|a| a.to_string()).collect() }
}

#[test]
fn loaded_libraries_are_recognised_by_file_name() {
    assert_eq!(loaded_target_of("qt5core.DLL"), Some(HookTarget::QtCore));
    assert_eq!(loaded_target_of("PrestartCheck.dll"), Some(HookTarget::PrestartCheck));
    assert_eq!(loaded_target_of("Sn3DDeviceEinStar.dll"), None);
    assert_eq!(loaded_target_of("Qt5Core.dll.bak"), None);
    assert_eq!(target_file_name(HookTarget::QtTunnel), "qttunnel.3.2.7.dll");
}

#[test]
fn load_plan_patches_prestart_and_hooks_the_rest() {
    let hub = process("EXStar Hub.exe", &["EXStar Hub.exe"]);
    let quiet = settings(false);
    let traced = settings(true);
    assert_eq!(
        on_load_plan(&quiet, &hub, true, "PrestartCheck.dll"),
        LoadPlan { log: false, patch_prestart: true, hook: None }
    );
    assert_eq!(
        on_load_plan(&traced, &hub, true, "libsn3dnavigation.dll"),
        LoadPlan { log: true, patch_prestart: false, hook: Some(HookTarget::Navigation) }
    );
    let none = LoadPlan { log: false, patch_prestart: false, hook: None };
    assert_eq!(on_load_plan(&traced, &hub, false, "Qt5Gui.dll"), none);
    assert_eq!(on_load_plan(&traced, &hub, true, "kernel32.dll"), none);
}

#[test]
fn startup_plan_follows_the_trace_switches() {
    let quiet = startup_plan(&settings(false), &process("EXStar Hub.exe", &[]));
    assert_eq!(quiet.modules, vec![HookTarget::QtCore, HookTarget::QtWidgets, HookTarget::QtGui]);
    assert!(!quiet.exe_detours && quiet.manager_exe_detour_only);
    let traced = startup_plan(&settings(true), &process("scanservice.exe", &[]));
    assert_eq!(traced.modules.len(), 10);
    assert_eq!(traced.modules[0], HookTarget::AppUi);
    assert_eq!(traced.modules[9], HookTarget::DeviceEinStar);
    assert!(traced.exe_detours && !traced.manager_exe_detour_only);
}

fn dialog(owner_pid: u32, visible: bool, class_name: &str, title: &str, children: &[&str]) -> DialogCandidate {
    DialogCandidate {
        owner_pid,
        visible,
        class_name: class_name.to_string(),
        title: title.to_string(),
        child_texts: children.iter().map(|c| c.to_string()).collect(),
    }
}

#[test]
fn error_dialogs_are_recognised() {
    assert!(dialog_closer_process(&process("Sn3DprocessManager.exe", &[])));
    assert!(!dialog_closer_process(&process("scanservice.exe", &[])));
    let by_title = error_dialog_verdict(&dialog(3, true, "Qt5QWindowIcon", "ERROR", &[]), 3);
    assert_eq!(by_title, DialogVerdict { close: true, title_matches: true, child_matches: false });
    let by_child = error_dialog_verdict(&dialog(3, true, "Qt5QWindowIcon", "", &["OK", "Software error code 7"]), 3);
    assert_eq!(by_child, DialogVerdict { close: true, title_matches: false, child_matches: true });
    let plain = error_dialog_verdict(&dialog(3, true, "Qt5QWindowIcon", "Settings", &["warning"]), 3);
    assert_eq!(plain, DialogVerdict { close: false, title_matches: false, child_matches: false });
    let none = DialogVerdict { close: false, title_matches: false, child_matches: false };
    assert_eq!(error_dialog_verdict(&dialog(4, true, "Qt5QWindowIcon", "Error", &[]), 3), none);
    assert_eq!(error_dialog_verdict(&dialog(3, false, "Qt5QWindowIcon", "Error", &[]), 3), none);
    assert_eq!(error_dialog_verdict(&dialog(3, true, "#32770", "Error", &[]), 3), none);
}

#[test]
fn bridge_runs_only_in_the_child_hub() {
    assert!(ShutdownBridge::start(&process("EXStar Hub.exe", &["EXStar Hub.exe"])).is_none());
    let bridge = ShutdownBridge::start(&process("EXStar Hub.exe", &["EXStar Hub.exe", "@#$", "4242"])).unwrap();
    assert_eq!(bridge.phase, BridgePhase::Idle);
    assert_eq!(bridge.observed_manager, Some(4242));
}

#[test]
fn bridge_shuts_down_after_the_manager_exits() {
    let mut bridge = ShutdownBridge::start(&process("EXStar Hub.exe", &["EXStar Hub.exe", "@#$", "x"])).unwrap();
    assert_eq!(bridge.observed_manager, None);
    let poll = BridgeAction::SleepThenObserve { delay_ms: BRIDGE_POLL_MS };
    assert_eq!(bridge.step(BridgeEvent::LoopHead { elapsed_ms: 0 }), poll);
    // Nothing happens before the application window is shown.
    assert_eq!(
        bridge.step(BridgeEvent::Observed { app_window_shown: false, related_manager: None }),
        BridgeAction::Continue
    );
    assert_eq!(bridge.step(BridgeEvent::LoopHead { elapsed_ms: 250 }), poll);
    // Without a manager seen, a missing manager is no reason to act.
    assert_eq!(
        bridge.step(BridgeEvent::Observed { app_window_shown: true, related_manager: None }),
        BridgeAction::Continue
    );
    assert_eq!(bridge.step(BridgeEvent::LoopHead { elapsed_ms: 500 }), poll);
    assert_eq!(
        bridge.step(BridgeEvent::Observed { app_window_shown: true, related_manager: Some(77) }),
        BridgeAction::Continue
    );
    assert_eq!(bridge.step(BridgeEvent::LoopHead { elapsed_ms: 750 }), poll);
    assert_eq!(
        bridge.step(BridgeEvent::Observed { app_window_shown: true, related_manager: None }),
        BridgeAction::CheckManager { manager_pid: 77 }
    );
    assert_eq!(bridge.step(BridgeEvent::ManagerChecked { alive: true }), BridgeAction::Continue);
    assert_eq!(bridge.step(BridgeEvent::LoopHead { elapsed_ms: 1000 }), poll);
    bridge.step(BridgeEvent::Observed { app_window_shown: true, related_manager: None });
    assert_eq!(bridge.step(BridgeEvent::ManagerChecked { alive: false }), BridgeAction::FindAppWindow);
    assert_eq!(bridge.step(BridgeEvent::WindowFound { window: None }), BridgeAction::Continue);
    assert_eq!(bridge.step(BridgeEvent::LoopHead { elapsed_ms: 1250 }), poll);
    bridge.step(BridgeEvent::Observed { app_window_shown: true, related_manager: None });
    bridge.step(BridgeEvent::ManagerChecked { alive: false });
    assert_eq!(
        bridge.step(BridgeEvent::WindowFound { window: Some(0x55) }),
        BridgeAction::Shutdown { manager_pid: 77, window: 0x55 }
    );
    assert_eq!(bridge.phase, BridgePhase::Done);
    assert_eq!(bridge.step(BridgeEvent::LoopHead { elapsed_ms: 1500 }), BridgeAction::Stop);
}

#[test]
fn bridge_gives_up_at_the_deadline() {
    let mut bridge = ShutdownBridge::start(&process("EXStar Hub.exe", &["EXStar Hub.exe", "@#$", "9"])).unwrap();
    assert_eq!(BRIDGE_DEADLINE_MS, 600_000);
    assert_eq!(bridge.step(BridgeEvent::LoopHead { elapsed_ms: 600_000 }), BridgeAction::Stop);
    assert_eq!(bridge.phase, BridgePhase::Done);
}

#[test]
fn heartbeat_is_due_at_the_top_of_each_minute() {
    assert!(preserve_heartbeat_due(0));
    assert!(preserve_heartbeat_due(60_099));
    assert!(!preserve_heartbeat_due(60_100));
    assert!(!preserve_heartbeat_due(59_999));
    assert!(preserve_heartbeat_due(120_050));
}

#[test]
fn executable_hooks_are_claimed_once_per_module() {
    let traced = ExstarSettings::from_env(&[("ZLUDA_EXSTAR_EXE_TRACE".to_string(), "1".to_string())]);
    let quiet = settings(false);
    let hub = process("EXStar Hub.exe", &[]);
    let manager = process("Sn3DprocessManager.exe", &[]);
    let mut marks = ExeHookMarks::new();
    assert!(!marks.claim(&quiet, &hub, ExeHookKind::Hub, 0x1000));
    assert!(marks.claim(&traced, &hub, ExeHookKind::Hub, 0x1000));
    assert!(!marks.claim(&traced, &hub, ExeHookKind::Hub, 0x1000));
    assert!(!marks.claim(&traced, &hub, ExeHookKind::Manager, 0x1000));
    assert!(marks.claim(&quiet, &manager, ExeHookKind::Manager, 0x1000));
    assert!(!marks.claim(&quiet, &manager, ExeHookKind::Manager, 0x1000));
    assert!(!marks.claim(&quiet, &manager, ExeHookKind::ScanService, 0x1000));
    assert!(marks.claim(&quiet, &process("scanservice.exe", &[]), ExeHookKind::ScanService, 0x2000));
}
