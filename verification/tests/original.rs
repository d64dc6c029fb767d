use zluda_exstar::allocations::{AllocationInfo, Allocations};
use zluda_exstar::exstar::exstar_should_preserve_child_hub_exit;
use zluda_exstar::hooks::watchdog_thread_order;
use zluda_exstar::nvrtc::is_nvrtc;

fn utf16(text: &str) -> Vec<u16> {
    text.encode_utf16().collect()
}

fn assert_is_nvrtc(text: &str) {
    assert!(is_nvrtc(&utf16(text)));
}

#[test]
fn get_allocation() {
    let ctx1 = 0x1234usize;
    let ctx2 = 0x5678usize;
    let mut alloc_info = Allocations::new();
    alloc_info.insert(0x1000, 4, ctx1);
    alloc_info.insert(0x2000, 8, ctx2);
    for i in 0..4 {
        assert_eq!(
            alloc_info.get_offset_and_info(0x1000 + i),
            Some((
                i,
                AllocationInfo {
                    size: 4,
                    context: ctx1
                }
            ))
        );
    }
    assert_eq!(alloc_info.get_offset_and_info(0x1000 + 4), None);
    for i in 0..8 {
        assert_eq!(
            alloc_info.get_offset_and_info(0x2000 + i),
            Some((
                i,
                AllocationInfo {
                    size: 8,
                    context: ctx2
                }
            ))
        );
    }
    assert_eq!(alloc_info.get_offset_and_info(0x2000 + 8), None);
}

#[test]
fn is_nvrtc1() {
    assert_is_nvrtc("nvrtc64_112_0.dll");
}

#[test]
fn is_nvrtc2() {
    assert_is_nvrtc("nvrtc64_130.dll");
}

#[test]
fn is_nvrtc3() {
    assert_is_nvrtc(r#"C:\Users\vosen\.conda\envs\pytorch\lib\site-packages\torch\lib\nvrtc64_112_0.dll"#);
}

#[test]
fn is_nvrtc4() {
    assert_is_nvrtc(r#"C:\Users\vosen\.conda\envs\pytorch\lib\site-packages\torch\lib\nvrtc64_120.DLL"#);
}

#[test]
fn watchdog_thread_order_keeps_main_first_and_skips_current() {
    assert_eq!(
        watchdog_thread_order(20, 30, &[10, 20, 30, 40, 20, 50]),
        vec![20, 10, 40, 50]
    );
}

#[test]
fn watchdog_thread_order_works_when_main_missing() {
    assert_eq!(watchdog_thread_order(77, 30, &[10, 30, 40, 10]), vec![10, 40]);
}

#[test]
fn preserve_child_hub_exit_only_during_startup_before_real_window() {
    assert!(exstar_should_preserve_child_hub_exit(true, false));
    assert!(!exstar_should_preserve_child_hub_exit(true, true));
    assert!(!exstar_should_preserve_child_hub_exit(false, false));
    assert!(!exstar_should_preserve_child_hub_exit(false, true));
}
