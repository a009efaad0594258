use tablet_tool::NativeLayer;
use tablet_tool::TabletTool;
use tablet_tool::ToolInfo;
use tablet_tool::TabletToolType;

fn eraser_info() -> ToolInfo {
    ToolInfo {
        serial: 77_001_234,
        tool_id: 0x8_8a,
        type_code: 2,
        buttons: vec![331, 332],
        has_distance: true,
        has_pressure: true,
        has_rotation: false,
        has_slider: false,
        has_tilt: true,
        has_wheel: false,
        has_size: false,
        is_unique: true,
    }
}

fn bare_info(type_code: u32) -> ToolInfo {
    ToolInfo {
        serial: 0,
        tool_id: 0,
        type_code,
        buttons: Vec::new(),
        has_distance: false,
        has_pressure: false,
        has_rotation: false,
        has_slider: false,
        has_tilt: false,
        has_wheel: false,
        has_size: false,
        is_unique: false,
    }
}

#[test]
fn clone_and_release_balance() {
    let mut layer = NativeLayer::new();
    let handle = layer.publish();
    assert_eq!(layer.ref_count(handle), 1);

    let original = TabletTool::from_raw(handle, eraser_info());
    let first = original.clone_ref(&mut layer);
    let second = original.clone_ref(&mut layer);
    let third = original.clone_ref(&mut layer);
    assert_eq!(layer.ref_count(handle), 4);

    assert!(!first.release(&mut layer));
    assert!(!second.release(&mut layer));
    assert!(!third.release(&mut layer));
    assert!(layer.is_live(handle));

    assert!(original.release(&mut layer));
    assert!(!layer.is_live(handle));
    assert_eq!(layer.ref_count(handle), 0);
}

#[test]
fn serial_and_tool_id_are_zero_when_unreported_and_stable_otherwise() {
    let mut layer = NativeLayer::new();
    let anonymous = TabletTool::from_raw(layer.publish(), bare_info(1));
    assert_eq!(anonymous.serial(), 0);
    assert_eq!(anonymous.tool_id(), 0);

    let reported = TabletTool::from_raw(layer.publish(), eraser_info());
    assert_eq!(reported.serial(), 77_001_234);
    assert_eq!(reported.serial(), 77_001_234);
    assert_eq!(reported.tool_id(), 0x8_8a);
    assert_eq!(reported.tool_id(), 0x8_8a);
}

#[test]
fn capability_accessors_are_idempotent() {
    let mut layer = NativeLayer::new();
    let tool = TabletTool::from_raw(layer.publish(), eraser_info());
    assert_eq!(tool.has_pressure(), tool.has_pressure());
    assert_eq!(tool.has_distance(), tool.has_distance());
    assert_eq!(tool.has_rotation(), tool.has_rotation());
    assert_eq!(tool.has_slider(), tool.has_slider());
    assert_eq!(tool.has_tilt(), tool.has_tilt());
    assert_eq!(tool.has_wheel(), tool.has_wheel());
    assert_eq!(tool.has_size(), tool.has_size());
    assert_eq!(tool.is_unique(), tool.is_unique());
}

#[test]
fn eraser_tag_decodes_and_reserved_tag_degrades() {
    let mut layer = NativeLayer::new();
    let eraser = TabletTool::from_raw(layer.publish(), eraser_info());
    assert_eq!(eraser.tool_type(), Some(TabletToolType::Eraser));

    let reserved = TabletTool::from_raw(layer.publish(), bare_info(9999));
    assert_eq!(reserved.tool_type(), None);
}

#[test]
fn clones_report_identical_values() {
    let mut layer = NativeLayer::new();
    let original = TabletTool::from_raw(layer.publish(), eraser_info());
    let dup = original.clone_ref(&mut layer);
    let other = original.clone_ref(&mut layer);

    assert_eq!(dup.serial(), other.serial());
    assert_eq!(dup.tool_id(), other.tool_id());
    assert_eq!(dup.tool_type(), other.tool_type());
    assert_eq!(dup.has_button(331), other.has_button(331));
    assert_eq!(dup.has_button(330), other.has_button(330));
    assert_eq!(dup.has_distance(), other.has_distance());
    assert_eq!(dup.has_pressure(), other.has_pressure());
    assert_eq!(dup.has_rotation(), other.has_rotation());
    assert_eq!(dup.has_slider(), other.has_slider());
    assert_eq!(dup.has_tilt(), other.has_tilt());
    assert_eq!(dup.has_wheel(), other.has_wheel());
    assert_eq!(dup.has_size(), other.has_size());
    assert_eq!(dup.is_unique(), other.is_unique());

    assert_eq!(dup.serial(), original.serial());
    assert_eq!(dup.tool_type(), Some(TabletToolType::Eraser));
}

#[test]
fn has_button_passes_codes_through() {
    let mut layer = NativeLayer::new();
    let tool = TabletTool::from_raw(layer.publish(), eraser_info());
    assert!(tool.has_button(331));
    assert!(tool.has_button(332));
    assert!(!tool.has_button(330));
    assert!(!tool.has_button(0));
    assert!(!tool.has_button(u32::MAX));

    let buttonless = TabletTool::from_raw(layer.publish(), bare_info(1));
    assert!(!buttonless.has_button(331));
}

#[test]
fn handles_stay_independent() {
    let mut layer = NativeLayer::new();
    let first_handle = layer.publish();
    let second_handle = layer.publish();
    assert_ne!(first_handle, second_handle);

    let first = TabletTool::from_raw(first_handle, bare_info(1));
    let second = TabletTool::from_raw(second_handle, bare_info(2));
    let second_dup = second.clone_ref(&mut layer);
    assert_eq!(layer.ref_count(first_handle), 1);
    assert_eq!(layer.ref_count(second_handle), 2);

    assert!(first.release(&mut layer));
    assert!(!layer.is_live(first_handle));
    assert!(layer.is_live(second_handle));

    assert!(!second.release(&mut layer));
    assert!(second_dup.release(&mut layer));
    assert!(!layer.is_live(second_handle));
}
