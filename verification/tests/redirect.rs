use zluda_exstar::einscan::{
    acquire_einscan_launch_latch, einscan_spawn_arguments, maybe_launch_einscan_net_svr_delivery,
    maybe_launch_einscan_net_svr_publish, EinscanLaunchState, PublishDecision, SpawnOutcome, ERROR_ALREADY_EXISTS,
};
use zluda_exstar::exstar::{
    exstar_child_hub_manager_pid_from_args, exstar_current_process_is_manager, exstar_hub_light_trace_enabled,
    exstar_hub_startup_compat_active, exstar_is_child_hub_process, exstar_manager_is_core_peer,
    exstar_manager_should_skip_kill, exstar_should_force_child_hub_quit, exstar_trace_logging_enabled,
    ExstarSettings, ProcessInfo,
};
use zluda_exstar::modules::{manager_exe_probes, ManagerProbe};
use zluda_exstar::nvrtc::{dll_file_name, is_arch_option, is_nvrtc, is_nvrtc_file_name, nvrtc_kept_options};

fn vars(pairs: &[(&str, &str)]) -> Vec<(String, String)> {
    pairs.iter().map(|(k, v)| (k.to_string(), v.to_string())).collect()
}

fn process(exe: &str, args: &[&str]) -> ProcessInfo {
    ProcessInfo { exe_name: Some(exe.to_string()), args: args.iter().map(|a| a.to_string()).collect() }
}

fn utf16(text: &str) -> Vec<u16> {
    text.encode_utf16().collect()
}

#[test]
fn nvrtc_names_that_are_rejected() {
    assert!(!is_nvrtc(&utf16("nvrtc64_.dll")));
    assert!(!is_nvrtc(&utf16("nvrtc64_12_.dll")));
    assert!(!is_nvrtc(&utf16("nvrtc64_1_2_3.dll")));
    assert!(!is_nvrtc(&utf16("nvrtc64_120.dll.bak")));
    assert!(!is_nvrtc(&utf16("nvrtc-builtins64_120.dll")));
    assert!(!is_nvrtc(&utf16("nvrtc64_120.dll/")));
    assert!(is_nvrtc(&utf16("NVRTC64_12_4.Dll")));
    assert!(is_nvrtc(&utf16("lib/nvrtc64_9.dll")));
    assert!(is_nvrtc_file_name(&utf16("nvrtc64_9.dll")));
}

#[test]
fn dll_file_name_takes_the_last_component() {
    assert_eq!(dll_file_name(&utf16(r"C:\a/b\c.dll")), utf16("c.dll"));
    assert_eq!(dll_file_name(&utf16("plain.dll")), utf16("plain.dll"));
    assert_eq!(dll_file_name(&utf16(r"dir\")), Vec::<u16>::new());
}

#[test]
fn arch_options_are_recognised() {
    assert!(is_arch_option(b"-arch=compute_86"));
    assert!(is_arch_option(b"--gpu-architecture = sm_75"));
    assert!(is_arch_option(b"-arch=compute_86 trailing"));
    assert!(!is_arch_option(b"-arch=compute86"));
    assert!(!is_arch_option(b"-arch=_86"));
    assert!(!is_arch_option(b"-arch compute_86"));
    assert!(!is_arch_option(b"-default-device"));
    assert!(!is_arch_option(b"-arch=compute_\xff"));
    assert!(!is_arch_option(b"-arch=compute_"));
}

#[test]
fn arch_options_are_dropped_from_compilations() {
    let options = vec![b"-default-device".to_vec(), b"-arch=compute_70".to_vec(), b"-lineinfo".to_vec()];
    assert_eq!(nvrtc_kept_options(&options), vec![0, 2]);
}

#[test]
fn exstar_settings_from_environment() {
    let s = ExstarSettings::from_env(&vars(&[
        ("ZLUDA_EXSTAR_LIGHT_TRACE", "1"),
        ("ZLUDA_EXSTAR_HUB_EXIT_DELAY_MS", " 250 "),
        ("ZLUDA_EXSTAR_HUB_STARTUP_COMPAT_TIMEOUT_MS", "soon"),
        ("ZLUDA_EXSTAR_MANAGER_SKIP_KILL", " a.exe ;; B.exe|,c.exe "),
    ]));
    assert!(exstar_trace_logging_enabled(&s));
    assert_eq!(s.hub_exit_delay_ms, 250);
    assert_eq!(s.hub_startup_compat_timeout_ms, 45000);
    assert_eq!(s.skip_kill_targets, vec!["a.exe".to_string(), "B.exe".to_string(), "c.exe".to_string()]);
    assert!(exstar_hub_light_trace_enabled(&s, &process("exstar hub.EXE", &[])));
    assert!(!exstar_hub_light_trace_enabled(&s, &process("scanhub.exe", &[])));
}

#[test]
fn manager_kill_skips() {
    let s = ExstarSettings::from_env(&vars(&[("ZLUDA_EXSTAR_MANAGER_SKIP_KILL", "custom.exe")]));
    let manager = process("Sn3DProcessManager.exe", &[]);
    assert!(exstar_current_process_is_manager(&manager));
    assert!(exstar_manager_should_skip_kill(&s, &manager, "SCANHUB.exe", 0));
    assert!(exstar_manager_should_skip_kill(&s, &manager, "SnSyncService.exe", 0));
    assert!(exstar_manager_should_skip_kill(&s, &manager, "Custom.EXE", 0));
    assert!(!exstar_manager_should_skip_kill(&s, &manager, "sn3DCommunity.exe", 3));
    assert!(!exstar_manager_should_skip_kill(&s, &process("scanhub.exe", &[]), "scanhub.exe", 0));
    let sweep = ExstarSettings::from_env(&vars(&[("ZLUDA_EXSTAR_MANAGER_SKIP_SECOND_SWEEP", "1")]));
    assert!(exstar_manager_should_skip_kill(&sweep, &manager, "sn3DCommunity.exe", 3));
    assert!(!exstar_manager_should_skip_kill(&sweep, &manager, "sn3DCommunity.exe", 0));
    assert!(exstar_manager_is_core_peer("informationcollect.exe"));
    assert!(!exstar_manager_is_core_peer("SnSyncService.exe"));
}

#[test]
fn child_hub_recognition() {
    let child = process("EXStar Hub.exe", &["EXStar Hub.exe", "@#$", "4242", "x"]);
    assert!(exstar_is_child_hub_process(&child));
    assert_eq!(exstar_child_hub_manager_pid_from_args(&child), Some(4242));
    let bootstrap = process("EXStar Hub.exe", &["EXStar Hub.exe"]);
    assert!(!exstar_is_child_hub_process(&bootstrap));
    assert_eq!(exstar_child_hub_manager_pid_from_args(&bootstrap), None);
    let bad_pid = process("EXStar Hub.exe", &["hub", "@#$", "x42"]);
    assert_eq!(exstar_child_hub_manager_pid_from_args(&bad_pid), None);
    let s = ExstarSettings::from_env(&vars(&[("ZLUDA_EXSTAR_HUB_STARTUP_COMPAT_TIMEOUT_MS", "10")]));
    assert!(exstar_hub_startup_compat_active(&s, &bootstrap, 10_000_000));
    assert!(!exstar_hub_startup_compat_active(&s, &bootstrap, 10_000_001));
    assert!(!exstar_hub_startup_compat_active(&s, &child, 0));
    assert!(exstar_should_force_child_hub_quit(&child, "x|QUITAPP|y", true));
    assert!(!exstar_should_force_child_hub_quit(&child, "x|quitAppNow", true));
    assert!(!exstar_should_force_child_hub_quit(&child, "quitApp", false));
    assert!(!exstar_should_force_child_hub_quit(&bootstrap, "quitApp", true));
}

#[test]
fn einscan_publish_decisions() {
    let s = ExstarSettings::from_env(&vars(&[("ZLUDA_EXSTAR_EINSCAN_NET_SVR_COMPAT", "1")]));
    let collector = process("informationCollect.exe", &[]);
    assert_eq!(
        maybe_launch_einscan_net_svr_publish(&s, &collector, "informationCollect.exe| einscan_net_svr |XML"),
        PublishDecision::Launch { using_publish_fallback: false, delay_ms: 0 }
    );
    assert_eq!(
        maybe_launch_einscan_net_svr_publish(&s, &collector, "einscan_net_svr"),
        PublishDecision::Skip("bare-publish-observational")
    );
    assert_eq!(
        maybe_launch_einscan_net_svr_publish(&s, &collector, "einscan_net_svr|Channel"),
        PublishDecision::Skip("channel-observational")
    );
    assert_eq!(
        maybe_launch_einscan_net_svr_publish(&s, &collector, "einscan_net_svr|app8"),
        PublishDecision::Skip("app8-observational")
    );
    assert_eq!(
        maybe_launch_einscan_net_svr_publish(&s, &collector, "einscan_net_svr|other"),
        PublishDecision::Skip("payload-mismatch")
    );
    assert_eq!(maybe_launch_einscan_net_svr_publish(&s, &collector, "nothing here"), PublishDecision::Ignore);
    assert_eq!(
        maybe_launch_einscan_net_svr_publish(&s, &process("scanhub.exe", &[]), "einscan_net_svr"),
        PublishDecision::Ignore
    );
    let off = ExstarSettings::from_env(&vars(&[]));
    assert_eq!(maybe_launch_einscan_net_svr_publish(&off, &collector, "einscan_net_svr"), PublishDecision::Ignore);
    let fallback = ExstarSettings::from_env(&vars(&[
        ("ZLUDA_EXSTAR_EINSCAN_NET_SVR_COMPAT", "1"),
        ("ZLUDA_EXSTAR_EINSCAN_NET_SVR_PUBLISH_FALLBACK", "1"),
        ("ZLUDA_EXSTAR_EINSCAN_NET_SVR_PUBLISH_FALLBACK_DELAY_MS", "500"),
    ]));
    assert_eq!(
        maybe_launch_einscan_net_svr_publish(&fallback, &collector, "einscan_net_svr"),
        PublishDecision::Launch { using_publish_fallback: true, delay_ms: 500 }
    );
}

#[test]
fn einscan_delivery_and_launch_bookkeeping() {
    let s = ExstarSettings::from_env(&vars(&[("ZLUDA_EXSTAR_EINSCAN_NET_SVR_COMPAT", "1")]));
    let manager = process("Sn3DprocessManager.exe", &[]);
    assert!(maybe_launch_einscan_net_svr_delivery(&s, &manager, "APP5", "sn3dprocessmgtopic"));
    assert!(!maybe_launch_einscan_net_svr_delivery(&s, &manager, "app6", "Sn3dProcessMgTopic"));
    assert!(!maybe_launch_einscan_net_svr_delivery(&s, &process("hub.exe", &[]), "app5", "Sn3dProcessMgTopic"));
    assert_eq!(acquire_einscan_launch_latch(true, false, 5), Ok(()));
    assert_eq!(acquire_einscan_launch_latch(false, false, 5), Err(5));
    assert_eq!(acquire_einscan_launch_latch(false, true, ERROR_ALREADY_EXISTS), Err(ERROR_ALREADY_EXISTS));
    assert_eq!(acquire_einscan_launch_latch(false, true, 0), Ok(()));
    let mut state = EinscanLaunchState::new();
    assert!(state.begin_spawn());
    assert!(!state.begin_spawn());
    state.finish_spawn(SpawnOutcome::TargetMissing);
    assert!(state.begin_spawn());
    state.finish_spawn(SpawnOutcome::Spawned);
    assert!(!state.begin_spawn());
    let args = einscan_spawn_arguments(1234);
    assert_eq!(args.len(), 13);
    assert_eq!(args[0], "1234");
    assert_eq!(args[1], "@#$");
    assert_eq!(args[5], "-1");
    assert_eq!(args[12], "@#$");
}

#[test]
fn manager_probes_follow_the_trace_switches() {
    let plain = ExstarSettings::from_env(&[]);
    assert_eq!(manager_exe_probes(&plain), vec![ManagerProbe::KillOneE560, ManagerProbe::EnvDetect5e30]);
    let sweep = ExstarSettings::from_env(&vars(&[("ZLUDA_EXSTAR_MANAGER_SKIP_SECOND_SWEEP", "1")]));
    assert_eq!(
        manager_exe_probes(&sweep),
        vec![
            ManagerProbe::KillAllE1a0,
            ManagerProbe::LoadConfigEf30,
            ManagerProbe::KillOneE560,
            ManagerProbe::EnvDetect5e30,
        ]
    );
    let light = ExstarSettings::from_env(&vars(&[("ZLUDA_EXSTAR_LIGHT_TRACE", "1")]));
    assert_eq!(
        manager_exe_probes(&light),
        vec![
            ManagerProbe::KillAllE1a0,
            ManagerProbe::LoadConfigEf30,
            ManagerProbe::KillOneE560,
            ManagerProbe::EnvDetect5e30,
            ManagerProbe::LaunchF5f0,
        ]
    );
}
