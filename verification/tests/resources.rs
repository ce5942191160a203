use falling_sand::resources::{intents_to_bytes, StateLayout};
use falling_sand::structures::Intent;

#[test]
fn layout_sizes_for_a_small_surface() {
    let l = StateLayout::new(3, 2);
    assert_eq!(l.width(), 3);
    assert_eq!(l.height(), 2);
    assert_eq!(l.cell_count(), 6);
    assert_eq!(l.grid_size(), 192);
    assert_eq!(l.intent_size(), 48);
}

#[test]
fn layout_sizes_for_a_full_hd_surface() {
    let l = StateLayout::new(1920, 1080);
    assert_eq!(l.cell_count(), 2_073_600);
    assert_eq!(l.grid_size(), 66_355_200);
    assert_eq!(l.intent_size(), 16_588_800);
}

#[test]
fn zero_uploads_fill_their_buffers() {
    let l = StateLayout::new(5, 7);
    let g = l.zero_grid_bytes();
    assert_eq!(g.len() as u64, l.grid_size());
    assert!(g.iter().all(|b| *b == 0));
    let i = l.zero_intent_bytes();
    assert_eq!(i.len() as u64, l.intent_size());
    assert!(i.iter().all(|b| *b == 0));
}

#[test]
fn one_by_one_surface_uploads() {
    let l = StateLayout::new(1, 1);
    assert_eq!(l.zero_grid_bytes().len(), 32);
    assert_eq!(l.zero_intent_bytes().len(), 8);
}

#[test]
fn intents_are_laid_out_kind_then_flags() {
    let intents = [
        Intent { kind: 1, flags: 0x0403_0201 },
        Intent { kind: 3, flags: 0 },
    ];
    let bytes = intents_to_bytes(&intents);
    assert_eq!(bytes.len(), 16);
    let mut expected = Vec::new();
    for i in intents.iter() {
        expected.extend_from_slice(&i.kind.to_ne_bytes());
        expected.extend_from_slice(&i.flags.to_ne_bytes());
    }
    assert_eq!(bytes, expected);
}

#[test]
fn no_intents_no_bytes() {
    assert!(intents_to_bytes(&[]).is_empty());
}
