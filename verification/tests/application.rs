use falling_sand::application::{Action, App, ElementState, MouseButton, WindowEvent};
use falling_sand::graphics::Graphics;
use falling_sand::structures::CursorState;

fn ready_app(width: u32, height: u32) -> App {
    let mut app = App::new();
    assert_eq!(app.resumed(), Action::CreateGraphics);
    assert_eq!(app.user_event(Graphics::new(width, height)), Action::RequestRedraw);
    app
}

#[test]
fn graphics_are_created_once() {
    let mut app = App::new();
    assert!(app.graphics().is_none());
    assert_eq!(app.resumed(), Action::CreateGraphics);
    assert_eq!(app.resumed(), Action::Nothing);
    app.user_event(Graphics::new(4, 4));
    assert_eq!(app.resumed(), Action::Nothing);
    assert!(app.graphics().is_some());
}

#[test]
fn events_before_ready_do_nothing() {
    let mut app = App::new();
    let events = [
        WindowEvent::MouseInput { button: MouseButton::Left, state: ElementState::Pressed },
        WindowEvent::Resized { width: 10, height: 10 },
        WindowEvent::RedrawRequested,
        WindowEvent::CursorMoved,
        WindowEvent::Other,
    ];
    for e in events {
        assert_eq!(app.window_event(e), Action::Nothing);
        assert!(app.graphics().is_none());
    }
    assert_eq!(app.window_event(WindowEvent::CloseRequested), Action::Exit);
}

#[test]
fn close_exits_when_ready() {
    let mut app = ready_app(8, 8);
    assert_eq!(app.window_event(WindowEvent::CloseRequested), Action::Exit);
}

#[test]
fn left_button_sets_cursor_state() {
    let mut app = ready_app(8, 8);
    let press = WindowEvent::MouseInput { button: MouseButton::Left, state: ElementState::Pressed };
    assert_eq!(app.window_event(press), Action::Nothing);
    assert_eq!(app.graphics().unwrap().cursor_state(), CursorState::Pressed);
    let other = WindowEvent::MouseInput { button: MouseButton::Other, state: ElementState::Released };
    app.window_event(other);
    assert_eq!(app.graphics().unwrap().cursor_state(), CursorState::Pressed);
    let release =
        WindowEvent::MouseInput { button: MouseButton::Left, state: ElementState::Released };
    app.window_event(release);
    assert_eq!(app.graphics().unwrap().cursor_state(), CursorState::Default);
}

#[test]
fn resize_event_resizes() {
    let mut app = ready_app(8, 8);
    assert_eq!(
        app.window_event(WindowEvent::Resized { width: 0, height: 300 }),
        Action::Resize { width: 1, height: 300 }
    );
    let g = app.graphics().unwrap();
    assert_eq!((g.width(), g.height()), (1, 300));
}

#[test]
fn redraw_draws_and_advances() {
    let mut app = ready_app(64, 32);
    match app.window_event(WindowEvent::RedrawRequested) {
        Action::Draw(d) => {
            assert_eq!((d.width, d.height), (64, 32));
            assert_eq!((d.compute.dispatch.x, d.compute.dispatch.y), (8, 4));
        }
        other => panic!("unexpected action {:?}", other),
    }
    assert_eq!(app.graphics().unwrap().frame_index(), 1);
}

#[test]
fn cursor_moves_are_recorded_when_ready() {
    let mut app = ready_app(8, 8);
    assert_eq!(app.window_event(WindowEvent::CursorMoved), Action::SetMousePos);
    assert_eq!(app.window_event(WindowEvent::Other), Action::Nothing);
}
