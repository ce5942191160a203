use falling_sand::frames::{
    create_frame_resources, cs_intent_layout, BindEntry, BindingKind, BufferId, LayoutEntry,
};

#[test]
fn slot_zero_reads_grid_and_writes_grid_next() {
    let f = create_frame_resources();
    assert_eq!(f[0].cs_intent.grid, BufferId::Grid);
    assert_eq!(f[0].cs_resolve.grid, BufferId::Grid);
    assert_eq!(f[0].cs_resolve.grid_next, BufferId::GridNext);
    assert_eq!(f[0].rs.grid, BufferId::Grid);
    assert_eq!(f[1].cs_intent.grid, BufferId::GridNext);
    assert_eq!(f[1].cs_resolve.grid, BufferId::GridNext);
    assert_eq!(f[1].cs_resolve.grid_next, BufferId::Grid);
    assert_eq!(f[1].rs.grid, BufferId::GridNext);
}

#[test]
fn slots_ping_pong() {
    let f = create_frame_resources();
    for s in 0..2 {
        assert_eq!(f[s].cs_resolve.grid_next, f[1 - s].cs_resolve.grid);
        assert_ne!(f[s].cs_resolve.grid, f[s].cs_resolve.grid_next);
        assert_eq!(f[s].cs_intent.intent, BufferId::Intent);
        assert_eq!(f[s].cs_resolve.intent, BufferId::Intent);
        assert_eq!(f[s].cs_intent.globals, BufferId::Globals);
        assert_eq!(f[s].cs_resolve.globals, BufferId::Globals);
        assert_eq!(f[s].rs.globals, BufferId::Globals);
    }
}

#[test]
fn intent_layout_entries() {
    assert_eq!(
        cs_intent_layout(),
        vec![
            LayoutEntry { binding: 0, kind: BindingKind::Uniform },
            LayoutEntry { binding: 1, kind: BindingKind::ReadOnlyStorage },
            LayoutEntry { binding: 2, kind: BindingKind::ReadWriteStorage },
        ]
    );
}

#[test]
fn intent_bind_group_matches_layout() {
    let layout = cs_intent_layout();
    for f in create_frame_resources().iter() {
        let e = f.cs_intent.entries();
        assert_eq!(e.len(), layout.len());
        for (be, le) in e.iter().zip(layout.iter()) {
            assert_eq!(be.binding, le.binding);
            match le.kind {
                BindingKind::Uniform => assert_eq!(be.buffer, BufferId::Globals),
                BindingKind::ReadOnlyStorage => assert_ne!(be.buffer, BufferId::Globals),
                BindingKind::ReadWriteStorage => assert_eq!(be.buffer, BufferId::Intent),
            }
        }
    }
    let f = create_frame_resources();
    assert_eq!(
        f[1].cs_intent.entries(),
        vec![
            BindEntry { binding: 0, buffer: BufferId::Globals },
            BindEntry { binding: 1, buffer: BufferId::GridNext },
            BindEntry { binding: 2, buffer: BufferId::Intent },
        ]
    );
}
