use tablet_tool::tool_type::TabletToolType;
use tablet_tool::tool_type::translate;

#[test]
fn known_codes_translate_to_their_variant() {
    assert_eq!(translate(1), Some(TabletToolType::Pen));
    assert_eq!(translate(2), Some(TabletToolType::Eraser));
    assert_eq!(translate(3), Some(TabletToolType::Brush));
    assert_eq!(translate(4), Some(TabletToolType::Pencil));
    assert_eq!(translate(5), Some(TabletToolType::Airbrush));
    assert_eq!(translate(6), Some(TabletToolType::Mouse));
    assert_eq!(translate(7), Some(TabletToolType::Lens));
    assert_eq!(translate(8), Some(TabletToolType::Totem));
}

#[test]
fn unknown_codes_translate_to_none() {
    assert_eq!(translate(0), None);
    assert_eq!(translate(9), None);
    assert_eq!(translate(9999), None);
    assert_eq!(translate(u32::MAX), None);
}
