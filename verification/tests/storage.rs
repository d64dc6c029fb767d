use zluda_exstar::cls::{cls_config, ClsConfig, ClsPut, ClsState, StorageData};
use zluda_exstar::cuda::CUDA_ERROR_INVALID_HANDLE;
use zluda_exstar::settings::DebugSettings;

fn plain() -> ClsConfig {
    ClsConfig {
        disabled: false,
        null_value: false,
        put_fails: false,
        get_fails: false,
        first_put_fails: false,
        put_fail_count: None,
        get_fail_after_count: None,
        trace_get_hit_count: None,
        compat_put_window: false,
        compat_pattern_window: false,
        compat_module_window: false,
        trace_success: false,
    }
}

fn request(null_ctx: bool, key: u64, value: u64, dtor: Option<u64>) -> ClsPut {
    ClsPut { null_ctx, ctx: 0x77, key, value, dtor }
}

#[test]
fn cls_get_returns_what_put_stored() {
    let cfg = plain();
    let mut state = ClsState::new();
    let done = state.put(&cfg, &request(false, 5, 0xabc, Some(0x10)), None).unwrap();
    assert_eq!(done.replaced, None);
    let got = state.get(&cfg, 5);
    assert_eq!(got.written, Some(0xabc));
    let hit = got.result.unwrap();
    assert_eq!(hit.value, 0xabc);
    assert_eq!(hit.hit_count, 1);
    assert_eq!(state.get(&cfg, 5).result.unwrap().hit_count, 2);
    assert_eq!(
        state.storage.get(&5),
        Some(&StorageData { value: 0xabc, reset_cb: Some(0x10), handle: 0x77 })
    );
}

#[test]
fn cls_second_put_replaces_and_resets_counters() {
    let cfg = plain();
    let mut state = ClsState::new();
    state.put(&cfg, &request(false, 1, 10, None), None).unwrap();
    state.get(&cfg, 1);
    let done = state.put(&cfg, &request(false, 1, 20, None), None).unwrap();
    assert_eq!(done.replaced.map(|d| d.value), Some(10));
    assert_eq!(state.get(&cfg, 1).result.unwrap().hit_count, 1);
    assert_eq!(state.get(&cfg, 1).written, Some(20));
}

#[test]
fn cls_miss_writes_nothing_and_counts() {
    let cfg = plain();
    let mut state = ClsState::new();
    let first = state.get(&cfg, 9);
    assert_eq!(first.written, None);
    assert_eq!(first.result.unwrap_err().code, CUDA_ERROR_INVALID_HANDLE);
    state.get(&cfg, 9);
    assert_eq!(state.storage_get_misses.get(&9), Some(&2));
}

#[test]
fn cls_delete_then_get_misses() {
    let cfg = plain();
    let mut state = ClsState::new();
    state.put(&cfg, &request(false, 3, 30, None), None).unwrap();
    let removed = state.delete(&cfg, 3).unwrap();
    assert_eq!(removed.map(|d| d.value), Some(30));
    assert_eq!(state.delete(&cfg, 3).unwrap(), None);
    let got = state.get(&cfg, 3);
    assert_eq!(got.written, None);
    assert!(got.result.is_err());
    assert_eq!(state.storage_get_misses.get(&3), Some(&1));
}

#[test]
fn cls_disabled_refuses_everything() {
    let mut cfg = plain();
    cfg.disabled = true;
    let mut state = ClsState::new();
    assert_eq!(state.put(&cfg, &request(false, 1, 1, None), None).unwrap_err().code, CUDA_ERROR_INVALID_HANDLE);
    let got = state.get(&cfg, 1);
    assert_eq!(got.written, Some(0));
    assert!(got.result.is_err());
    assert!(state.delete(&cfg, 1).is_err());
    assert!(state.storage.is_empty());
    assert!(state.storage_get_misses.is_empty());
}

#[test]
fn cls_put_and_get_failure_switches() {
    let mut cfg = plain();
    cfg.put_fails = true;
    let mut state = ClsState::new();
    assert!(state.put(&cfg, &request(false, 1, 1, None), None).is_err());
    assert!(state.storage.is_empty());
    let mut cfg = plain();
    cfg.get_fails = true;
    state.put(&cfg, &request(false, 1, 1, None), None).unwrap();
    let got = state.get(&cfg, 1);
    assert_eq!(got.written, Some(0));
    assert!(got.result.is_err());
}

#[test]
fn cls_first_put_fails_once_per_key() {
    let mut cfg = plain();
    cfg.first_put_fails = true;
    let mut state = ClsState::new();
    assert!(state.put(&cfg, &request(false, 4, 1, None), None).is_err());
    assert!(state.put(&cfg, &request(false, 4, 2, None), None).is_ok());
    assert!(state.put(&cfg, &request(false, 4, 3, None), None).is_ok());
    assert!(state.put(&cfg, &request(false, 5, 1, None), None).is_err());
    assert_eq!(state.failed_storage_puts.get(&4), Some(&1));
}

#[test]
fn cls_put_fail_count_refuses_that_many() {
    let mut cfg = plain();
    cfg.put_fail_count = Some(3);
    cfg.first_put_fails = true;
    let mut state = ClsState::new();
    for _ in 0..3 {
        assert!(state.put(&cfg, &request(false, 8, 1, None), None).is_err());
    }
    assert!(state.put(&cfg, &request(false, 8, 1, None), None).is_ok());
}

#[test]
fn cls_compat_put_window_only_for_new_keys_with_destructor() {
    let mut cfg = plain();
    cfg.compat_put_window = true;
    let mut state = ClsState::new();
    assert!(state.put(&cfg, &request(false, 1, 1, None), None).is_ok());
    assert!(state.put(&cfg, &request(false, 2, 1, Some(0x99)), None).is_err());
    assert!(state.put(&cfg, &request(false, 2, 1, Some(0x99)), None).is_err());
    assert!(state.put(&cfg, &request(false, 2, 1, Some(0x99)), None).is_ok());
    assert!(state.put(&cfg, &request(false, 2, 5, Some(0x99)), None).is_ok());
}

#[test]
fn cls_pattern_window_needs_two_misses_and_null_context() {
    let mut cfg = plain();
    cfg.compat_pattern_window = true;
    let mut state = ClsState::new();
    assert!(state.put(&cfg, &request(true, 6, 1, Some(0x99)), None).is_ok());
    state.delete(&cfg, 6).unwrap();
    state.get(&cfg, 6);
    state.get(&cfg, 6);
    assert!(state.put(&cfg, &request(false, 6, 1, Some(0x99)), None).is_ok());
    state.delete(&cfg, 6).unwrap();
    state.get(&cfg, 6);
    state.get(&cfg, 6);
    assert!(state.put(&cfg, &request(true, 6, 1, Some(0x99)), None).is_err());
    assert!(state.put(&cfg, &request(true, 6, 1, Some(0x99)), None).is_err());
    assert!(state.put(&cfg, &request(true, 6, 1, Some(0x99)), None).is_ok());
}

#[test]
fn cls_module_window_matches_color_correct_library() {
    let mut cfg = plain();
    cfg.compat_module_window = true;
    let mut state = ClsState::new();
    state.get(&cfg, 7);
    state.get(&cfg, 7);
    let other = Some(r"C:\EXStar\other.dll");
    assert!(state.put(&cfg, &request(true, 7, 1, Some(0x99)), other).is_ok());
    state.delete(&cfg, 7).unwrap();
    state.get(&cfg, 7);
    state.get(&cfg, 7);
    let path = Some(r"C:\EXStar\Sn3DColorCorrect.dll");
    assert!(state.put(&cfg, &request(true, 7, 1, Some(0x99)), path).is_err());
    assert!(state.put(&cfg, &request(true, 7, 1, None), path).is_ok());
}

#[test]
fn cls_null_value_stores_null_without_destructor() {
    let mut cfg = plain();
    cfg.null_value = true;
    let mut state = ClsState::new();
    state.put(&cfg, &request(false, 2, 0x1234, Some(0x55)), None).unwrap();
    assert_eq!(state.storage.get(&2), Some(&StorageData { value: 0, reset_cb: None, handle: 0x77 }));
    assert_eq!(state.get(&cfg, 2).written, Some(0));
}

#[test]
fn cls_get_fails_after_count() {
    let mut cfg = plain();
    cfg.get_fail_after_count = Some(2);
    let mut state = ClsState::new();
    state.put(&cfg, &request(false, 1, 42, None), None).unwrap();
    assert!(state.get(&cfg, 1).result.is_ok());
    assert!(state.get(&cfg, 1).result.is_ok());
    let third = state.get(&cfg, 1);
    assert_eq!(third.written, Some(0));
    assert!(third.result.is_err());
}

#[test]
fn cls_tracing_marks_first_put_get_and_hit() {
    let mut cfg = plain();
    cfg.trace_success = true;
    cfg.trace_get_hit_count = Some(2);
    let mut state = ClsState::new();
    assert!(state.put(&cfg, &request(false, 1, 1, None), None).unwrap().trace_first);
    assert!(!state.put(&cfg, &request(false, 1, 2, None), None).unwrap().trace_first);
    let first = state.get(&cfg, 1).result.unwrap();
    assert!(first.trace_first && !first.trace_hit);
    let second = state.get(&cfg, 1).result.unwrap();
    assert!(!second.trace_first && second.trace_hit);
}

#[test]
fn cls_config_combines_module_window_switches() {
    let vars = vec![("ZLUDA_EXSTAR_COLOR_CORRECT_CLS_COMPAT".to_string(), "1".to_string())];
    let settings = DebugSettings::from_env(&vars);
    let cfg = cls_config(&settings);
    assert!(cfg.compat_module_window);
    assert!(!cfg.compat_pattern_window);
}

#[test]
fn cls_refused_puts_then_each_later_put_stores_its_own_value() {
    let mut cfg = plain();
    cfg.put_fail_count = Some(2);
    let mut state = ClsState::new();
    assert!(state.put(&cfg, &request(false, 4, 100, None), None).is_err());
    assert!(state.put(&cfg, &request(false, 4, 200, Some(0x9)), None).is_err());
    assert_eq!(state.get(&cfg, 4).written, None);
    assert!(state.put(&cfg, &request(false, 4, 300, None), None).is_ok());
    assert_eq!(state.get(&cfg, 4).written, Some(300));
    assert!(state.put(&cfg, &request(false, 4, 400, Some(0x8)), None).is_ok());
    assert_eq!(state.get(&cfg, 4).written, Some(400));
}

#[test]
fn cls_get_returns_last_put_across_other_operations() {
    let cfg = plain();
    let mut state = ClsState::new();
    state.put(&cfg, &request(false, 4, 0x400, None), None).unwrap();
    state.put(&cfg, &request(false, 6, 0x600, Some(0x20)), None).unwrap();
    state.get(&cfg, 6);
    state.get(&cfg, 4);
    state.get(&cfg, 8);
    state.delete(&cfg, 6).unwrap();
    state.put(&cfg, &request(true, 7, 0x700, None), None).unwrap();
    let got = state.get(&cfg, 4);
    assert_eq!(got.written, Some(0x400));
    assert_eq!(got.result.unwrap().value, 0x400);
}
