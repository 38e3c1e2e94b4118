use frontend::gamepad_panel::{GamepadPanelState, LOG_CAPACITY};
use frontend::info_panel::{adapter_rows, AdapterSummary, InfoRow, WasmInfoPanel};

fn present(s: &GamepadPanelState) -> Vec<String> {
    s.log_messages().iter().flatten().cloned().collect()
}

#[test]
fn new_panel_is_empty() {
    let s = GamepadPanelState::new();
    assert_eq!(s.current_gamepad(), None);
    assert_eq!(s.log_messages().len(), LOG_CAPACITY);
    assert!(s.log_messages().iter().all(|m| m.is_none()));
    assert!(!s.is_selected(0));
}

#[test]
fn log_is_newest_first() {
    let mut s = GamepadPanelState::new();
    s.log("a".to_string());
    s.log("b".to_string());
    s.log("c".to_string());
    assert_eq!(present(&s), vec!["c", "b", "a"]);
    assert_eq!(s.log_messages().len(), LOG_CAPACITY);
    assert_eq!(s.log_messages()[3], None);
}

#[test]
fn full_log_drops_the_oldest() {
    let mut s = GamepadPanelState::new();
    for i in 0..(LOG_CAPACITY + 2) {
        s.log(format!("m{i}"));
    }
    let lines = present(&s);
    assert_eq!(lines.len(), LOG_CAPACITY);
    assert_eq!(lines[0], format!("m{}", LOG_CAPACITY + 1));
    assert_eq!(lines[LOG_CAPACITY - 1], "m2");
}

#[test]
fn first_gamepad_heard_is_selected() {
    let mut s = GamepadPanelState::new();
    s.record_event(3, "x".to_string());
    assert_eq!(s.current_gamepad(), Some(3));
    s.record_event(5, "y".to_string());
    assert_eq!(s.current_gamepad(), Some(3));
    assert!(s.is_selected(3));
    assert!(!s.is_selected(5));
    assert_eq!(present(&s), vec!["y", "x"]);
}

#[test]
fn selection_can_be_changed() {
    let mut s = GamepadPanelState::new();
    s.record_event(1, "x".to_string());
    s.select(7);
    assert_eq!(s.current_gamepad(), Some(7));
    assert_eq!(present(&s), vec!["x"]);
    s.record_event(1, "z".to_string());
    assert_eq!(s.current_gamepad(), Some(7));
}

fn summary(name: &str, driver: &str, driver_info: &str, vendor: u32, device: u32) -> AdapterSummary {
    AdapterSummary {
        backend: "Vulkan".to_string(),
        device_type: "Cpu".to_string(),
        name: name.to_string(),
        driver: driver.to_string(),
        driver_info: driver_info.to_string(),
        vendor,
        device,
    }
}

#[test]
fn adapter_rows_show_everything_set() {
    let rows = adapter_rows(summary("llvmpipe", "llvmpipe", "Mesa 23.1.6", 0x10de, 0x2f));
    assert_eq!(
        rows,
        vec![
            InfoRow::Backend("Vulkan".to_string()),
            InfoRow::DeviceType("Cpu".to_string()),
            InfoRow::Name("llvmpipe".to_string()),
            InfoRow::Driver("llvmpipe".to_string()),
            InfoRow::DriverInfo("Mesa 23.1.6".to_string()),
            InfoRow::Vendor(0x10de),
            InfoRow::Device(0x2f),
        ]
    );
}

#[test]
fn adapter_rows_skip_empty_and_zero() {
    let rows = adapter_rows(summary("Apple M1 Pro", "", "", 0, 0));
    assert_eq!(
        rows,
        vec![
            InfoRow::Backend("Vulkan".to_string()),
            InfoRow::DeviceType("Cpu".to_string()),
            InfoRow::Name("Apple M1 Pro".to_string()),
        ]
    );
    let rows = adapter_rows(summary("", "d", "", 0, 1));
    assert_eq!(
        rows,
        vec![
            InfoRow::Backend("Vulkan".to_string()),
            InfoRow::DeviceType("Cpu".to_string()),
            InfoRow::Driver("d".to_string()),
            InfoRow::Device(1),
        ]
    );
}

#[test]
fn info_panel_keeps_its_history() {
    let p = WasmInfoPanel::new(vec![1u8, 2]);
    assert_eq!(p.frame_history, vec![1u8, 2]);
}
