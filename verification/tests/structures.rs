use falling_sand::structures::{
    CellState, CursorState, Intent, IntentKind, GLOBALS_SIZE, GRID_CELL_SIZE, INTENT_SIZE,
};

#[test]
fn cursor_state_codes() {
    assert_eq!(CursorState::Default.code(), 0);
    assert_eq!(CursorState::Pressed.code(), 1);
}

#[test]
fn cell_state_codes_round_trip() {
    assert_eq!(CellState::Empty.code(), 0);
    assert_eq!(CellState::Sand.code(), 1);
    for s in [CellState::Empty, CellState::Sand] {
        assert_eq!(CellState::from_code(s.code()), Some(s));
    }
    assert_eq!(CellState::from_code(2), None);
    assert_eq!(CellState::from_code(u32::MAX), None);
}

#[test]
fn intent_kind_codes_round_trip() {
    let kinds = [IntentKind::Stay, IntentKind::MoveDown, IntentKind::MoveDL, IntentKind::MoveDR];
    for (i, k) in kinds.iter().enumerate() {
        assert_eq!(k.code(), i as u32);
        assert_eq!(IntentKind::from_code(k.code()), Some(*k));
    }
    assert_eq!(IntentKind::from_code(4), None);
}

#[test]
fn zeroed_intent_is_a_stay() {
    let i = Intent::zeroed();
    assert_eq!(i, Intent { kind: 0, flags: 0 });
    assert_eq!(IntentKind::from_code(i.kind), Some(IntentKind::Stay));
}

#[test]
fn record_sizes() {
    assert_eq!(GRID_CELL_SIZE, 32);
    assert_eq!(INTENT_SIZE, 8);
    assert_eq!(GLOBALS_SIZE, 32);
}
