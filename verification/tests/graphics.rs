use falling_sand::frames::BufferId;
use falling_sand::graphics::{Dispatch, Graphics};
use falling_sand::structures::CursorState;

#[test]
fn new_clamps_zero_sizes_to_one() {
    let g = Graphics::new(0, 0);
    assert_eq!((g.width(), g.height()), (1, 1));
    assert_eq!(g.frame_index(), 0);
    assert_eq!(g.cursor_state(), CursorState::Default);
    let g = Graphics::new(800, 600);
    assert_eq!((g.width(), g.height()), (800, 600));
}

#[test]
fn dispatch_covers_the_surface() {
    let g = Graphics::new(800, 601);
    assert_eq!(g.run_cs().dispatch, Dispatch { x: 100, y: 76, z: 1 });
    let g = Graphics::new(1, 9);
    assert_eq!(g.run_cs().dispatch, Dispatch { x: 1, y: 2, z: 1 });
    let g = Graphics::new(u32::MAX - 7, 8);
    assert_eq!(g.run_cs().dispatch, Dispatch { x: 536_870_911, y: 1, z: 1 });
}

#[test]
fn draw_alternates_slots() {
    let mut g = Graphics::new(16, 16);
    let a = g.draw();
    assert_eq!(g.frame_index(), 1);
    let b = g.draw();
    assert_eq!(g.frame_index(), 0);
    assert_eq!(a.compute.resolve.grid, BufferId::Grid);
    assert_eq!(b.compute.resolve.grid, a.compute.resolve.grid_next);
    assert_eq!(b.render.grid, BufferId::GridNext);
    let c = g.draw();
    assert_eq!(c, a);
}

#[test]
fn draw_reports_size_and_cursor() {
    let mut g = Graphics::new(640, 480);
    g.set_cursor_state(CursorState::Pressed);
    let d = g.draw();
    assert_eq!((d.width, d.height), (640, 480));
    assert_eq!(d.mouse_state, 1);
    assert_eq!(d.compute.dispatch, Dispatch { x: 80, y: 60, z: 1 });
    g.set_cursor_state(CursorState::Default);
    assert_eq!(g.draw().mouse_state, 0);
}

#[test]
fn resize_clamps_and_keeps_slot_and_cursor() {
    let mut g = Graphics::new(100, 100);
    g.set_cursor_state(CursorState::Pressed);
    g.draw();
    g.resize(0, 37);
    assert_eq!((g.width(), g.height()), (1, 37));
    assert_eq!(g.frame_index(), 1);
    assert_eq!(g.cursor_state(), CursorState::Pressed);
    assert_eq!(g.get_frame_resources().cs_resolve.grid, BufferId::GridNext);
    assert_eq!(g.run_rs().grid, BufferId::GridNext);
}

#[test]
fn state_layout_follows_the_surface() {
    let mut g = Graphics::new(10, 20);
    g.resize(30, 0);
    let l = g.state_layout();
    assert_eq!((l.width(), l.height()), (30, 1));
    assert_eq!(l.grid_size(), 960);
}
