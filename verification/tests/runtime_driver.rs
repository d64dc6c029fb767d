use zluda_exstar::cuda::{get_error_string, CuError, CUDA_ERROR_DEINITIALIZED, CUDA_ERROR_INVALID_DEVICE,
    CUDA_ERROR_INVALID_HANDLE, CUDA_ERROR_INVALID_VALUE, CUDA_ERROR_NOT_FOUND, CUDA_ERROR_NOT_SUPPORTED};
use zluda_exstar::driver::{
    alloc_pitch_plan, capture_info_v3_check, classify_proc_address, cubin_extra_arguments_check, device_index,
    finish_function_attribute, free_result, function_attribute_source, hybrid_runtime_free,
    hybrid_runtime_name_check, launch_attributes_check, launch_kernel_begin, launch_kernel_follow_up,
    occupancy_blocks, require_pointer, set_attribute_allowed, should_log_proc_request, zero_fill_before_register,
    AttributeSource, CU_FUNC_ATTRIBUTE_BINARY_VERSION, CU_FUNC_ATTRIBUTE_NUM_REGS, CU_FUNC_ATTRIBUTE_PTX_VERSION,
    CU_GET_PROC_ADDRESS_SUCCESS, CU_GET_PROC_ADDRESS_SYMBOL_NOT_FOUND, CU_GET_PROC_ADDRESS_VERSION_NOT_SUFFICIENT,
    HYBRID_RUNTIME_TOKEN,
};
use zluda_exstar::runtime::{
    announce_sync_after_launch, cuFuncSetBlockShape, cuFuncSetSharedSize, cuLaunch, cuLaunchGrid,
    cuLaunchGridAsync, cuParamSetSize, cuParamSetf, cuParamSeti, cuParamSetv, deinitialize, entry_gate, initialized,
    log_launch, log_stream_memory, log_sync, next_launch_sequence, AnnounceLatch, KernelFunction, LaunchCounter,
    RuntimeState,
};
use zluda_exstar::settings::{
    blocked_kernel_substring, cls_put_fail_count, compat_cls_module_window, env_count, env_flag, env_substring,
    exstar_device_qualification_compat, launch_logging_enabled, sync_after_launch_enabled, DebugSettings,
};

fn vars(pairs: &[(&str, &str)]) -> Vec<(String, String)> {
    pairs.iter().map(|(k, v)| (k.to_string(), v.to_string())).collect()
}

fn kernel() -> KernelFunction {
    KernelFunction { base: 0x1000, name: "k".to_string(), sm_version: 86 }
}

#[test]
fn env_flag_off_words_in_any_case() {
    assert!(!env_flag(None));
    assert!(!env_flag(Some("")));
    assert!(!env_flag(Some("  FALSE ")));
    assert!(!env_flag(Some("Off")));
    assert!(!env_flag(Some("no")));
    assert!(!env_flag(Some(" 0\t")));
    assert!(env_flag(Some("1")));
    assert!(env_flag(Some("yes")));
    assert!(env_flag(Some("00")));
}

#[test]
fn env_count_and_substring_decoding() {
    assert_eq!(env_count(Some(" 3 ")), Some(3));
    assert_eq!(env_count(Some("0")), None);
    assert_eq!(env_count(Some("+7")), Some(7));
    assert_eq!(env_count(Some("4294967296")), None);
    assert_eq!(env_count(Some("abc")), None);
    assert_eq!(env_count(None), None);
    assert_eq!(env_substring(Some("  gemm ")), Some("gemm".to_string()));
    assert_eq!(env_substring(Some("   ")), None);
}

#[test]
fn debug_settings_from_environment() {
    let s = DebugSettings::from_env(&vars(&[
        ("ZLUDA_DEBUG_LAUNCH", "1"),
        ("ZLUDA_DEBUG_FAIL_CLS_PUT_COUNT", "2"),
        ("ZLUDA_DEBUG_BLOCK_KERNEL_SUBSTRING", " conv "),
        ("ZLUDA_DEBUG_COMPAT_CLS_MODULE_WINDOW", "on"),
        ("ZLUDA_EXSTAR_DEVICE_QUALIFICATION_COMPAT", "0"),
    ]));
    assert!(launch_logging_enabled(&s));
    assert!(!sync_after_launch_enabled(&s));
    assert_eq!(cls_put_fail_count(&s), Some(2));
    assert_eq!(blocked_kernel_substring(&s), Some("conv".to_string()));
    assert!(compat_cls_module_window(&s));
    assert!(!exstar_device_qualification_compat(&s));
    let defaults = DebugSettings::from_env(&vars(&[]));
    assert!(exstar_device_qualification_compat(&defaults));
    assert!(!launch_logging_enabled(&defaults));
}

#[test]
fn log_lines_carry_channel_prefix() {
    let s = DebugSettings::from_env(&vars(&[("ZLUDA_DEBUG_LAUNCH", "1"), ("ZLUDA_DEBUG_SYNC", "true")]));
    assert_eq!(log_launch(&s, "op=x"), Some("[ZLUDA_LAUNCH] op=x".to_string()));
    assert_eq!(log_sync(&s, "a b"), Some("[ZLUDA_SYNC] a b".to_string()));
    assert_eq!(log_stream_memory(&s, "m"), None);
}

#[test]
fn sync_after_launch_is_announced_once() {
    let s = DebugSettings::from_env(&vars(&[("ZLUDA_DEBUG_SYNC_AFTER_LAUNCH", "1")]));
    let mut latch = AnnounceLatch::new();
    assert_eq!(
        announce_sync_after_launch(&s, &mut latch),
        Some("[ZLUDA_LAUNCH] mode=sync_after_launch enabled=1".to_string())
    );
    assert_eq!(announce_sync_after_launch(&s, &mut latch), None);
    assert_eq!(announce_sync_after_launch(&s, &mut latch), None);
    let off = DebugSettings::from_env(&vars(&[]));
    let mut fresh = AnnounceLatch::new();
    assert_eq!(announce_sync_after_launch(&off, &mut fresh), None);
    assert_eq!(announce_sync_after_launch(&off, &mut fresh), None);
    assert!(!fresh.announced);
}

#[test]
fn launch_sequence_starts_at_one_and_wraps() {
    let mut c = LaunchCounter::new();
    assert_eq!(next_launch_sequence(&mut c), 1);
    assert_eq!(next_launch_sequence(&mut c), 2);
    c.next = u64::MAX;
    assert_eq!(next_launch_sequence(&mut c), u64::MAX);
    assert_eq!(c.next, 0);
}

#[test]
fn legacy_entry_points_are_not_supported() {
    let rt = RuntimeState::new();
    let mut c = LaunchCounter::new();
    let k = kernel();
    let not_supported = Err(CuError { code: CUDA_ERROR_NOT_SUPPORTED });
    assert_eq!(cuFuncSetBlockShape(&rt, &mut c, Ok(&k), 1, 2, 3), not_supported);
    assert_eq!(cuFuncSetSharedSize(&rt, &mut c, Ok(&k), 64), not_supported);
    assert_eq!(cuParamSetSize(&rt, &mut c, Ok(&k), 8), not_supported);
    assert_eq!(cuParamSeti(&rt, &mut c, Ok(&k), 0, 5), not_supported);
    assert_eq!(cuParamSetf(&rt, &mut c, Ok(&k), 0, 1.5f32.to_bits()), not_supported);
    assert_eq!(cuParamSetv(&rt, &mut c, Ok(&k), 0, 0x10, 4), not_supported);
    assert_eq!(cuLaunch(&rt, &mut c, Ok(&k)), not_supported);
    assert_eq!(cuLaunchGrid(&rt, &mut c, Ok(&k), 1, 1), not_supported);
    assert_eq!(cuLaunchGridAsync(&rt, &mut c, Ok(&k), 1, 1, Ok(0)), not_supported);
    assert_eq!(c.next, 10);
}

#[test]
fn legacy_entry_points_report_handle_and_teardown_errors() {
    let mut rt = RuntimeState::new();
    let mut c = LaunchCounter::new();
    let k = kernel();
    let bad = CuError { code: CUDA_ERROR_INVALID_HANDLE };
    assert_eq!(cuLaunch(&rt, &mut c, Err(bad)), Err(bad));
    assert_eq!(cuLaunchGridAsync(&rt, &mut c, Ok(&k), 1, 1, Err(bad)), Err(bad));
    assert_eq!(c.next, 1);
    assert!(initialized(&rt));
    deinitialize(&mut rt);
    assert!(!initialized(&rt));
    assert_eq!(cuLaunch(&rt, &mut c, Ok(&k)), Err(CuError { code: CUDA_ERROR_DEINITIALIZED }));
    assert_eq!(c.next, 1);
    assert_eq!(entry_gate(&rt), Err(CuError { code: CUDA_ERROR_DEINITIALIZED }));
    deinitialize(&mut rt);
    assert!(!initialized(&rt));
    assert_eq!(cuLaunch(&rt, &mut c, Err(bad)), Err(CuError { code: CUDA_ERROR_DEINITIALIZED }));
    assert_eq!(entry_gate(&RuntimeState::new()), Ok(()));
}

#[test]
fn error_strings() {
    assert_eq!(get_error_string(0), "no error");
    assert_eq!(get_error_string(801), "operation not supported");
    assert_eq!(get_error_string(710), "device-side assert triggered");
    assert_eq!(get_error_string(12345), "error");
}

#[test]
fn function_attributes() {
    let k = kernel();
    assert_eq!(function_attribute_source(CU_FUNC_ATTRIBUTE_PTX_VERSION, &k), AttributeSource::Known(86));
    assert_eq!(function_attribute_source(CU_FUNC_ATTRIBUTE_BINARY_VERSION, &k), AttributeSource::Known(120));
    assert_eq!(function_attribute_source(12, &k), AttributeSource::Known(0));
    assert_eq!(function_attribute_source(CU_FUNC_ATTRIBUTE_NUM_REGS, &k), AttributeSource::Runtime);
    assert_eq!(finish_function_attribute(CU_FUNC_ATTRIBUTE_NUM_REGS, 0), 1);
    assert_eq!(finish_function_attribute(CU_FUNC_ATTRIBUTE_NUM_REGS, 40), 40);
    assert_eq!(finish_function_attribute(0, 0), 0);
    assert!(set_attribute_allowed(CU_FUNC_ATTRIBUTE_PTX_VERSION).is_err());
    assert!(set_attribute_allowed(8).is_ok());
}

#[test]
fn launch_checks_and_follow_up() {
    let mut c = LaunchCounter::new();
    assert_eq!(launch_kernel_begin(&mut c, false), Err(CuError { code: CUDA_ERROR_NOT_SUPPORTED }));
    assert_eq!(launch_kernel_begin(&mut c, true), Ok(1));
    let s = DebugSettings::from_env(&vars(&[("ZLUDA_DEBUG_SYNC_AFTER_LAUNCH", "1")]));
    let mut latch = AnnounceLatch::new();
    let f = launch_kernel_follow_up(&s, &mut latch, Ok(()));
    assert!(f.synchronize);
    assert!(f.announcement.is_some());
    let g = launch_kernel_follow_up(&s, &mut latch, Ok(()));
    assert!(g.synchronize && g.announcement.is_none());
    let h = launch_kernel_follow_up(&s, &mut latch, Err(CuError { code: 1 }));
    assert!(!h.synchronize);
    assert!(launch_attributes_check(&[(6, 0), (6, 0)]).is_ok());
    assert!(launch_attributes_check(&[(6, 1)]).is_err());
    assert!(launch_attributes_check(&[(5, 0)]).is_err());
    assert!(launch_attributes_check(&[]).is_ok());
}

#[test]
fn proc_address_classification() {
    let missing = classify_proc_address(0);
    assert_eq!(missing.result, Err(CuError { code: CUDA_ERROR_NOT_FOUND }));
    assert_eq!(missing.status, CU_GET_PROC_ADDRESS_SYMBOL_NOT_FOUND);
    assert_eq!(classify_proc_address(usize::MAX).status, CU_GET_PROC_ADDRESS_VERSION_NOT_SUFFICIENT);
    let found = classify_proc_address(0x4000);
    assert_eq!((found.result, found.status, found.pfn), (Ok(()), CU_GET_PROC_ADDRESS_SUCCESS, 0x4000));
    assert!(should_log_proc_request("cudaLaunchKernel"));
    assert!(!should_log_proc_request("cuMemAlloc"));
}

#[test]
fn hybrid_runtime_handshake() {
    assert!(hybrid_runtime_name_check("nvcudart_hybrid64.dll").is_ok());
    assert!(hybrid_runtime_name_check("nvcudart_hybrid64a.dll").is_ok());
    assert_eq!(hybrid_runtime_name_check("cudart64.dll"), Err(CuError { code: CUDA_ERROR_INVALID_VALUE }));
    assert!(hybrid_runtime_free(HYBRID_RUNTIME_TOKEN).is_ok());
    assert!(hybrid_runtime_free(1).is_err());
}

#[test]
fn pitched_allocation_sizes() {
    assert_eq!(alloc_pitch_plan(1000, 3, 4), Ok((1024, 3072)));
    assert_eq!(alloc_pitch_plan(512, 2, 1), Ok((512, 1024)));
    assert_eq!(alloc_pitch_plan(0, 5, 1), Ok((0, 0)));
    assert_eq!(alloc_pitch_plan(1000, 3, 0), Err(CuError { code: CUDA_ERROR_INVALID_VALUE }));
    assert!(alloc_pitch_plan(usize::MAX, 1, 4).is_err());
    assert!(alloc_pitch_plan(1 << 40, 1 << 40, 4).is_err());
}

#[test]
fn small_driver_decisions() {
    assert_eq!(occupancy_blocks(0), 1);
    assert_eq!(occupancy_blocks(7), 7);
    assert!(cubin_extra_arguments_check(true, true, 0).is_ok());
    assert!(cubin_extra_arguments_check(true, false, 0).is_err());
    assert_eq!(device_index(0, 1), Ok(0));
    assert_eq!(device_index(-1, 1), Err(CuError { code: CUDA_ERROR_INVALID_DEVICE }));
    assert!(device_index(1, 1).is_err());
    assert_eq!(free_result(Err(CuError { code: 2 }), Ok(())), Err(CuError { code: 2 }));
    assert_eq!(free_result(Ok(()), Err(CuError { code: 999 })), Err(CuError { code: 999 }));
    assert!(zero_fill_before_register(false));
    assert!(capture_info_v3_check(false).is_err());
    assert!(require_pointer(true).is_err());
}
