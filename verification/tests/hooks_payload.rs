use zluda_exstar::exstar::{ExstarSettings, ProcessInfo};
use zluda_exstar::hooks::{
    child_creation_flags, late_probe_due, launch_creation_flags, launch_probes,
    native_launch_duplicate_check, LaunchProbes, child_launch_bookkeeping, clear_duplicate_mutex_error, exception_trace,
    exit_process_plan, exit_thread_runs_event_loop, exstar_hub_related_manager, exstar_manager_has_child_hub,
    exstar_prestartcheck_patch_action, exstar_process_id_exists, is_child_hub_start_thread, locale_spoofed_process,
    lock_file_flags, lock_file_result, nvidia_adapter_description, observe_manager_wait, prestart_patch_bytes,
    prestartcheck_patch_address, resume_after_injection, sleep_ex_duration, spoofed_locale, terminate_exit_code,
    trace_child_injection, ExitPlan, ExitPreserve, ManagerState, MutexNames, PrestartAction, ProcessEntry,
    WaitMarks, WaitObservation, STATUS_ACCESS_VIOLATION,
};
use zluda_exstar::payload::{
    collect_candidate_strings, decode_utf16_candidate, exstar_is_ui_state_topic, exstar_plugin_tail_window_offset,
    app_parts_cuttable_check, exstar_processmg_branch_label, has_app_branch, is_interesting_qt_event_type, join_payload_strings,
    launch_targets_einscan_net_svr, memory_readable, prune_redundant_strings, push_unique_string, MemoryRegion,
    MEM_COMMIT, PAGE_GUARD, PAGE_READWRITE,
};
use zluda_exstar::qt::{
    caller_offset, event_backtraces, exstar_should_suppress_prestartcheck_timer, publish_trace,
    signal_published_trace, subpub_connect_trace, suppress_application_exit, suppress_application_quit,
    suppress_message_box, suppress_visibility_change, ProtocolMarks, StackFrame, VisibilityCall, QMESSAGEBOX_OK,
};

fn process(exe: &str, args: &[&str]) -> ProcessInfo {
    ProcessInfo { exe_name: Some(exe.to_string()), args: args.iter().map(|a| a.to_string()).collect() }
}

fn strings(items: &[&str]) -> Vec<String> {
    items.iter().map(|s| s.to_string()).collect()
}

#[test]
fn readable_memory_regions() {
    let region = MemoryRegion { base: 0x1000, size: 0x1000, state: MEM_COMMIT, protect: PAGE_READWRITE };
    assert!(memory_readable(0x1800, 8, Some(region)));
    assert!(memory_readable(0x1ff8, 8, Some(region)));
    assert!(!memory_readable(0x1ff9, 8, Some(region)));
    assert!(!memory_readable(0x0800, 8, Some(region)));
    assert!(!memory_readable(0, 8, Some(region)));
    assert!(!memory_readable(0x1800, 0, Some(region)));
    assert!(!memory_readable(0x1800, 8, None));
    let guarded = MemoryRegion { protect: PAGE_READWRITE | PAGE_GUARD, ..region };
    assert!(!memory_readable(0x1800, 8, Some(guarded)));
    let reserved = MemoryRegion { state: 0x2000, ..region };
    assert!(!memory_readable(0x1800, 8, Some(reserved)));
}

#[test]
fn utf16_text_candidates() {
    let mut units: Vec<u16> = "AppUiTopic".encode_utf16().collect();
    units.push(0);
    units.push(0x41);
    assert_eq!(decode_utf16_candidate(&units), Some("AppUiTopic".to_string()));
    let digits: Vec<u16> = vec![0x31, 0x32, 0x33, 0];
    assert_eq!(decode_utf16_candidate(&digits), None);
    let short: Vec<u16> = vec![0x41, 0x42, 0];
    assert_eq!(decode_utf16_candidate(&short), None);
    let unterminated: Vec<u16> = vec![0x41, 0x42, 0x43, 0x44];
    assert_eq!(decode_utf16_candidate(&unterminated), None);
    let accented: Vec<u16> = vec![0x41, 0xe9, 0x43, 0];
    assert_eq!(decode_utf16_candidate(&accented), None);
}

#[test]
fn collected_strings_are_unique_and_pruned() {
    let mut v = strings(&["a"]);
    push_unique_string(&mut v, "b".to_string());
    push_unique_string(&mut v, "a".to_string());
    assert_eq!(v, strings(&["a", "b"]));
    let mut p = strings(&["Topic", "AppUiTopic", "0x1234ab", "zz", "aa", "Ui"]);
    prune_redundant_strings(&mut p);
    assert_eq!(p, strings(&["AppUiTopic", "aa", "zz"]));
    let mut many: Vec<String> = (0..12).map(|i| format!("item{:02}", i)).collect();
    prune_redundant_strings(&mut many);
    assert_eq!(many.len(), 8);
    assert_eq!(many[0], "item00");
    let mut found = strings(&["x"]);
    collect_candidate_strings(&mut found, strings(&["y", "x", "z"]));
    assert_eq!(found, strings(&["x", "y", "z"]));
    assert_eq!(join_payload_strings(&found), "x|y|z");
    assert_eq!(join_payload_strings(&Vec::new()), "<none>");
}

#[test]
fn payload_classifications() {
    assert_eq!(exstar_processmg_branch_label("x|APP10|Demo"), Some("app10_demo"));
    assert_eq!(exstar_processmg_branch_label("app1|app6"), Some("app1_app6"));
    assert_eq!(exstar_processmg_branch_label("ScanChannel"), Some("scanchannel"));
    assert_eq!(exstar_processmg_branch_label("Sn3DprocessManager.exe|App5"), Some("manager_app5"));
    assert_eq!(exstar_processmg_branch_label("plain"), None);
    assert!(has_app_branch("foo| App12 |bar"));
    assert!(!has_app_branch("app|apple|app1x"));
    assert!(app_parts_cuttable_check("foo| App12 |bar"));
    assert!(app_parts_cuttable_check("\u{20ac}\u{20ac}|app1"));
    assert!(!app_parts_cuttable_check("\u{e9}\u{20ac}|app1"));
    assert!(!app_parts_cuttable_check("ok|ab\u{e9}"));
    assert!(app_parts_cuttable_check("ok|a\u{e9}\u{e9}"));
    assert!(app_parts_cuttable_check("app1| \u{e9}\u{20ac} "));
    assert!(!app_parts_cuttable_check("\u{e9}\u{e9}"));
    assert!(app_parts_cuttable_check("\u{e9}"));
    assert!(has_app_branch("app1| \u{e9}\u{20ac} "));
    assert!(exstar_is_ui_state_topic("ModeChoosePageTopic"));
    assert!(!exstar_is_ui_state_topic("appuitopic"));
    assert!(is_interesting_qt_event_type(105));
    assert!(!is_interesting_qt_event_type(12));
    assert_eq!(exstar_plugin_tail_window_offset(Some(("sn3dprocessplugin.dll", 0x10000)), 0x17996), Some(0x7996));
    assert_eq!(exstar_plugin_tail_window_offset(Some(("sn3dprocessplugin.dll", 0x10000)), 0x179bf), None);
    assert_eq!(exstar_plugin_tail_window_offset(Some(("other.dll", 0x10000)), 0x17996), None);
    assert!(launch_targets_einscan_net_svr(None, Some(r#""C:\X\EinScan_Net_Svr.exe" 1"#)));
    assert!(!launch_targets_einscan_net_svr(Some("scanhub.exe"), None));
}

#[test]
fn manager_sweeps_and_kills() {
    let s = ExstarSettings::from_env(&[]);
    let manager = process("Sn3DprocessManager.exe", &[]);
    let mut m = ManagerState::new();
    assert_eq!(m.load_config(), (1, 0));
    assert_eq!(m.note_scanhub_launch(), 1);
    assert_eq!(m.load_config(), (2, 2));
    assert_eq!(m.load_config(), (3, 2));
    let kill = m.kill_one(&s, &manager, "sn3DCommunity.exe", 1, true);
    assert!(kill.suspicious && !kill.skip);
    assert_eq!((kill.count, kill.second_sweep_id), (1, 2));
    assert!(m.kill_one(&s, &manager, "scanhub.exe", 1, false).skip);
    assert!(!m.kill_all(&s, true).skip);
    m.begin_kill_context(7, kill.count, kill.second_sweep_id);
    assert_eq!(m.kill_context(7), Some((1, 2)));
    assert_eq!(m.kill_context(8), None);
    m.end_kill_context();
    assert_eq!(m.kill_context(7), None);
    assert_eq!(m.clear_second_sweep(), 2);
    assert_eq!(m.load_config(), (4, 0));
}

#[test]
fn manager_waits() {
    let mut m = ManagerState::new();
    let mut marks = WaitMarks::new();
    let helper = WaitObservation {
        tracked_mutex: false,
        suspicious: false,
        result: 0,
        object_type: "Process".to_string(),
        object_name: "<unnamed>".to_string(),
        process_path: Some(r"C:\EXStar\TestOpenglHelper.exe".to_string()),
        exit_code: Some(1),
    };
    let t = observe_manager_wait(&mut m, &mut marks, &helper);
    assert!(t.detailed && t.helper_exit);
    assert_eq!(t.answer, 0);
    let timed_out = WaitObservation {
        tracked_mutex: true,
        suspicious: false,
        result: 0x102,
        object_type: "Event".to_string(),
        object_name: "<unnamed>".to_string(),
        process_path: None,
        exit_code: None,
    };
    let mut m2 = ManagerState::new();
    let mut marks2 = WaitMarks::new();
    assert_eq!(observe_manager_wait(&mut m2, &mut marks2, &timed_out).answer, 0x102);
    assert!(marks.post_helper_active);
    assert!(!observe_manager_wait(&mut m, &mut marks, &helper).helper_exit);
    let mutant = WaitObservation {
        object_type: "Mutant".to_string(),
        process_path: None,
        exit_code: None,
        ..helper
    };
    assert!(observe_manager_wait(&mut m, &mut marks, &mutant).mutant_backtrace);
    assert!(!observe_manager_wait(&mut m, &mut marks, &mutant).mutant_backtrace);
    m.wait_count = 40;
    let quiet = observe_manager_wait(&mut m, &mut marks, &mutant);
    assert_eq!(quiet.count, 41);
    assert!(!quiet.detailed);
}

#[test]
fn exits_and_sleeps() {
    let s = ExstarSettings::from_env(&[("ZLUDA_EXSTAR_HUB_EXIT_DELAY_MS".to_string(), "100".to_string())]);
    let helper = process("TestOpenglHelper.exe", &[]);
    assert_eq!(terminate_exit_code(true, 1, &helper), 0);
    assert_eq!(terminate_exit_code(false, 1, &helper), 1);
    assert_eq!(terminate_exit_code(true, 1, &process("x.exe", &[])), 1);
    let bootstrap = process("EXStar Hub.exe", &["hub"]);
    assert_eq!(
        exit_process_plan(&s, &bootstrap, 0, true, false),
        ExitPlan { delay_ms: 100, preserve: ExitPreserve::UntilManagerExit }
    );
    let child = process("EXStar Hub.exe", &["hub", "@#$"]);
    assert_eq!(exit_process_plan(&s, &child, 0, true, false).preserve, ExitPreserve::ChildHubAfterDialog);
    assert_eq!(exit_process_plan(&s, &child, 0, true, true).preserve, ExitPreserve::ChildHubSkipped);
    assert_eq!(exit_process_plan(&s, &child, 3, true, false), ExitPlan { delay_ms: 0, preserve: ExitPreserve::ExitNow });
    assert!(is_child_hub_start_thread(5, 5, &child));
    assert!(!is_child_hub_start_thread(0, 0, &child));
    let mut attempted = false;
    assert!(exit_thread_runs_event_loop(true, 0, &mut attempted));
    assert!(!exit_thread_runs_event_loop(true, 0, &mut attempted));
    assert_eq!(sleep_ex_duration(true, 100, Some(3)), 1);
    assert_eq!(sleep_ex_duration(true, 100, Some(30)), 100);
    assert_eq!(sleep_ex_duration(true, 20, Some(3)), 20);
    assert_eq!(sleep_ex_duration(false, 100, Some(3)), 100);
    assert_eq!(lock_file_flags(2), 3);
    assert_eq!(lock_file_result(0, 2), 1);
    assert_eq!(lock_file_result(0, 3), 0);
    assert!(locale_spoofed_process(&process("SCANHUB.EXE", &[])));
    assert_eq!(spoofed_locale(true, 6), Some(vec![0x65, 0x6e, 0x2d, 0x55, 0x53, 0]));
    assert_eq!(spoofed_locale(true, 5), None);
}

#[test]
fn mutexes_and_process_tree() {
    let child = process("EXStar Hub.exe", &["hub", "@#$"]);
    assert!(clear_duplicate_mutex_error(&child, Some("EinScan-Pro.exe"), 183));
    assert!(!clear_duplicate_mutex_error(&child, Some("Other"), 183));
    let mut names = MutexNames::new();
    names.record(true, 0x40, Some("M".to_string()));
    names.record(false, 0x44, Some("N".to_string()));
    assert_eq!(names.lookup(0x40), Some("M".to_string()));
    assert_eq!(names.lookup(0x44), None);
    names.record(true, 0x40, Some("M2".to_string()));
    names.record(true, 0, Some("Z".to_string()));
    names.record(true, 0x48, None);
    assert_eq!(names.lookup(0x40), Some("M2".to_string()));
    assert_eq!(names.lookup(0), None);
    assert_eq!(names.lookup(0x48), None);
    let tree = vec![
        ProcessEntry { pid: 10, parent_pid: 1, exe_name: "Sn3DprocessManager.exe".to_string() },
        ProcessEntry { pid: 20, parent_pid: 10, exe_name: "EXStar Hub.exe".to_string() },
        ProcessEntry { pid: 30, parent_pid: 20, exe_name: "sn3dprocessmanager.exe".to_string() },
    ];
    assert_eq!(exstar_hub_related_manager(&tree, 20), Some(("parent_manager_alive", 10)));
    assert_eq!(exstar_hub_related_manager(&tree[1..], 20), Some(("child_manager_alive", 30)));
    assert_eq!(exstar_hub_related_manager(&tree, 99), None);
    assert!(exstar_manager_has_child_hub(&tree, 10));
    assert!(!exstar_manager_has_child_hub(&tree, 30));
    assert!(exstar_process_id_exists(&tree, 30));
    assert!(!exstar_process_id_exists(&tree, 31));
}

#[test]
fn prestartcheck_and_adapter_spoofing() {
    let unpatched = [0x84u8, 0xDB, 0x0F, 0x84, 0xA7, 0x07, 0x00, 0x00];
    let bad = [0x90u8, 0x90, 0xE9, 0x35, 0x0C, 0x00, 0x00, 0x90];
    assert_eq!(exstar_prestartcheck_patch_action(&unpatched), PrestartAction::Apply);
    assert_eq!(exstar_prestartcheck_patch_action(&bad), PrestartAction::Apply);
    assert_eq!(exstar_prestartcheck_patch_action(&prestart_patch_bytes()), PrestartAction::AlreadyPatched);
    assert_eq!(exstar_prestartcheck_patch_action(&[0u8; 8]), PrestartAction::Unexpected);
    assert_eq!(prestartcheck_patch_address(0), None);
    assert_eq!(prestartcheck_patch_address(0x10000), Some(0x159f1));
    let desc = nvidia_adapter_description();
    let mut expected: Vec<u16> = "NVIDIA GeForce RTX 3060".encode_utf16().collect();
    expected.push(0);
    assert_eq!(desc, expected);
    let mut emitted = false;
    let first = exception_trace(STATUS_ACCESS_VIOLATION, false, true, &mut emitted);
    assert!(first.log && first.backtrace);
    let second = exception_trace(STATUS_ACCESS_VIOLATION, false, true, &mut emitted);
    assert!(!second.log && !second.backtrace);
    assert!(exception_trace(0, true, false, &mut emitted).log);
    assert_eq!(exception_trace(0, false, false, &mut emitted).disposition, 0);
}

#[test]
fn child_process_launches() {
    assert_eq!(child_creation_flags(0x10), 0x10 | 0x4 | 0x01000000);
    assert!(resume_after_injection(0));
    assert!(!resume_after_injection(0x4));
    assert!(trace_child_injection(Some(r"C:\x\EXStar Hub.exe"), None));
    assert!(!trace_child_injection(None, Some("scanhub.exe")));
    let b = child_launch_bookkeeping(true, true, true, false, true);
    assert!(b.einscan_started && !b.scanhub_launched);
    assert!(!child_launch_bookkeeping(true, false, true, true, true).einscan_started);
    let untraced = child_launch_bookkeeping(false, true, true, true, true);
    assert!(!untraced.einscan_started && !untraced.scanhub_launched);
    assert!(child_launch_bookkeeping(true, true, false, true, true).scanhub_launched);
    assert_eq!(launch_creation_flags(0x10, true), 0x10 | 0x4 | 0x01000000);
    assert_eq!(launch_creation_flags(0x10, false), 0x10);
    assert_eq!(launch_probes(true, 0, true), LaunchProbes { probe: true, watch_manager: true });
    assert_eq!(launch_probes(true, 0x4, true), LaunchProbes { probe: false, watch_manager: false });
    assert_eq!(launch_probes(true, 0, false), LaunchProbes { probe: true, watch_manager: false });
    assert!(late_probe_due(0x102));
    assert!(!late_probe_due(0));
    let manager = process("Sn3DprocessManager.exe", &["m"]);
    assert!(native_launch_duplicate_check(&manager, None, Some("einscan_net_svr.exe 1")));
    assert!(!native_launch_duplicate_check(&manager, None, Some("scanhub.exe")));
    assert!(!native_launch_duplicate_check(&process("EXStar Hub.exe", &[]), None, Some("einscan_net_svr.exe")));
}

#[test]
fn qt_visibility_and_dialogs() {
    assert!(suppress_visibility_change(VisibilityCall::WidgetHide, true));
    assert!(suppress_visibility_change(VisibilityCall::WindowSetVisible(false), true));
    assert!(!suppress_visibility_change(VisibilityCall::WindowSetVisible(true), true));
    assert!(!suppress_visibility_change(VisibilityCall::WindowClose, true));
    assert!(!suppress_visibility_change(VisibilityCall::WidgetHide, false));
    assert!(suppress_application_quit(true));
    assert!(suppress_application_exit(true, 0));
    assert!(!suppress_application_exit(true, 1));
    assert!(!exstar_should_suppress_prestartcheck_timer(0x1234));
    assert_eq!(event_backtraces(18, false), (true, false));
    assert_eq!(event_backtraces(19, true), (false, true));
    assert_eq!(suppress_message_box("Warning", "x"), Some(QMESSAGEBOX_OK));
    assert_eq!(suppress_message_box("Info", "Software is unable to repeat opening"), Some(QMESSAGEBOX_OK));
    assert_eq!(suppress_message_box("Info", "All good"), None);
}

#[test]
fn qt_callers_and_protocol_traces() {
    let frames = vec![
        StackFrame { module: None, address: 0x50 },
        StackFrame { module: Some(("Qt5Core.dll".to_string(), 0x1000)), address: 0x1100 },
        StackFrame { module: Some(("sn3dprocessplugin.dll".to_string(), 0x10000)), address: 0x172c5 },
    ];
    assert_eq!(caller_offset(&frames, "Sn3DProcessPlugin.dll", 0x72c0, 0x7a00), Some(0x72c5));
    assert_eq!(caller_offset(&frames, "Sn3DProcessPlugin.dll", 0x7300, 0x7a00), None);
    let mut marks = ProtocolMarks::new();
    let t = subpub_connect_trace(&mut marks, "app10|demo|app8");
    assert_eq!(t.branch, Some("app10_demo"));
    assert!(t.branch_backtrace && t.app_branch_backtrace && t.app8_backtrace);
    let again = subpub_connect_trace(&mut marks, "app10|demo|app8");
    assert!(!again.branch_backtrace && !again.app_branch_backtrace && !again.app8_backtrace);
    let s = signal_published_trace(&mut marks, false, "x", "AppUiTopic");
    assert!(s.ui_state && s.ui_backtrace && !s.hub_backtrace);
    assert!(!signal_published_trace(&mut marks, false, "AppUiTopic", "x").ui_backtrace);
    assert_eq!(publish_trace(&mut marks, "Sn3dProcessMgTopic"), (true, false, false));
    assert_eq!(publish_trace(&mut marks, "Sn3DUserPassportTopic"), (false, true, true));
}
