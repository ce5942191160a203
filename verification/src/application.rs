use vstd::prelude::*;

use crate::graphics::{clamp_extent, DrawCommands, Graphics, GraphicsView};
use crate::structures::CursorState;

verus! {

/// Which mouse button an input event is about.
#[derive(Debug, Clone, Copy, PartialEq, Eq, Structural)]
pub enum MouseButton {
    Left,
    /// Any button but the left one.
    Other,
}

/// Whether a button went down or up.
#[derive(Debug, Clone, Copy, PartialEq, Eq, Structural)]
pub enum ElementState {
    Pressed,
    Released,
}

/// The window events the application reacts to, with the values its
/// decisions depend on.
#[derive(Debug, Clone, Copy, PartialEq, Eq, Structural)]
pub enum WindowEvent {
    MouseInput { button: MouseButton, state: ElementState },
    /// The window's inner size changed.
    Resized { width: u32, height: u32 },
    RedrawRequested,
    CloseRequested,
    /// The cursor moved; its position stays with the caller.
    CursorMoved,
    /// Any other event.
    Other,
}

/// What the caller does after an event has been handled.
#[derive(Debug, Clone, Copy, PartialEq, Eq, Structural)]
pub enum Action {
    /// Nothing beyond the state change already made.
    Nothing,
    /// Create the window and its graphics, and hand them back through
    /// `user_event`.
    CreateGraphics,
    /// Ask the window for a redraw.
    RequestRedraw,
    /// Reconfigure the surface at this size and rebuild the state buffers and
    /// frame bind groups for it.
    Resize { width: u32, height: u32 },
    /// Record the event's cursor position as the mouse position.
    SetMousePos,
    /// Record and submit this frame, present it, then ask for a redraw.
    Draw(DrawCommands),
    /// Leave the event loop.
    Exit,
}

/// Before the graphics exist the application waits, holding the one means
/// of handing them back; afterwards it drives them.
enum State {
    Ready(Graphics),
    /// `true` while graphics creation has not been started yet.
    Init(bool),
}

/// The application's reaction to lifecycle and window events.
pub struct App {
    state: State,
}

/// The values an `App` stands for.
pub struct AppView {
    /// The graphics state once it is ready.
    pub graphics: Option<GraphicsView>,
    /// Graphics creation has not been started yet.
    pub creation_pending: bool,
}

impl AppView {
    /// Ready graphics are well formed and can be drawn.
    pub open spec fn wf(self) -> bool {
        &&& self.graphics matches Some(g) ==> g.wf() && g.dispatchable()
        &&& self.graphics is Some ==> !self.creation_pending
    }
}

/// A window event whose handling keeps the graphics drawable: a new size must
/// leave room for the `(extent + 7) / 8` workgroup computation.
pub open spec fn event_in_range(event: WindowEvent) -> bool {
    event matches WindowEvent::Resized { width, height } ==> width <= u32::MAX - 7 && height
        <= u32::MAX - 7
}

/// The state after a window event, and what the caller does next.
pub open spec fn handle_window_event(app: AppView, event: WindowEvent) -> (AppView, Action) {
    match event {
        WindowEvent::CloseRequested => (app, Action::Exit),
        WindowEvent::MouseInput { button, state } => match app.graphics {
            Some(g) => if button == MouseButton::Left {
                let cursor_state = if state == ElementState::Pressed {
                    CursorState::Pressed
                } else {
                    CursorState::Default
                };
                (
                    AppView { graphics: Some(GraphicsView { cursor_state, ..g }), ..app },
                    Action::Nothing,
                )
            } else {
                (app, Action::Nothing)
            },
            None => (app, Action::Nothing),
        },
        WindowEvent::Resized { width, height } => match app.graphics {
            Some(g) => {
                let g2 = GraphicsView {
                    width: clamp_extent(width),
                    height: clamp_extent(height),
                    ..g
                };
                (
                    AppView { graphics: Some(g2), ..app },
                    Action::Resize { width: g2.width, height: g2.height },
                )
            },
            None => (app, Action::Nothing),
        },
        WindowEvent::RedrawRequested => match app.graphics {
            Some(g) => (
                AppView {
                    graphics: Some(GraphicsView { frame_index: (1 - g.frame_index) as nat, ..g }),
                    ..app
                },
                Action::Draw(g.draw_commands()),
            ),
            None => (app, Action::Nothing),
        },
        WindowEvent::CursorMoved => match app.graphics {
            Some(_) => (app, Action::SetMousePos),
            None => (app, Action::Nothing),
        },
        WindowEvent::Other => (app, Action::Nothing),
    }
}

impl View for App {
    type V = AppView;

    closed spec fn view(&self) -> AppView {
        match self.state {
            State::Ready(g) => AppView { graphics: Some(g@), creation_pending: false },
            State::Init(pending) => AppView { graphics: None, creation_pending: pending },
        }
    }
}

impl App {
    #[verifier::type_invariant]
    closed spec fn inv(self) -> bool {
        self@.wf()
    }

    /// A new application, waiting for the event loop to resume.
    pub fn new() -> (a: App)
        ensures
            a@.graphics is None,
            a@.creation_pending,
    {
        App { state: State::Init(true) }
    }

    /// The ready graphics, if any.
    pub fn graphics(&self) -> (g: Option<&Graphics>)
        ensures
            g is Some <==> self@.graphics is Some,
            g matches Some(gr) ==> self@.graphics == Some(gr@),
            self@.wf(),
    {
        proof {
            use_type_invariant(self);
        }
        match &self.state {
            State::Ready(g) => Some(g),
            State::Init(_) => None,
        }
    }

    /// The event loop resumed: the first time, graphics creation starts; any
    /// later time, nothing happens.
    pub fn resumed(&mut self) -> (a: Action)
        ensures
            old(self)@.creation_pending ==> a == Action::CreateGraphics && final(self)@ == (AppView {
                creation_pending: false,
                ..old(self)@
            }),
            !old(self)@.creation_pending ==> a == Action::Nothing && final(self)@ == old(self)@,
    {
        proof {
            use_type_invariant(&*self);
        }
        let pending = match &self.state {
            State::Init(p) => *p,
            State::Ready(_) => false,
        };
        if pending {
            self.state = State::Init(false);
            Action::CreateGraphics
        } else {
            Action::Nothing
        }
    }

    /// The graphics are ready: from now on events drive them, starting with
    /// a redraw request.
    pub fn user_event(&mut self, graphics: Graphics) -> (a: Action)
        requires
            graphics@.wf(),
            graphics@.dispatchable(),
        ensures
            a == Action::RequestRedraw,
            final(self)@ == (AppView { graphics: Some(graphics@), creation_pending: false }),
    {
        self.state = State::Ready(graphics);
        Action::RequestRedraw
    }

    /// Handles a window event: left-button changes set the cursor state,
    /// resizes resize, redraw requests decide a frame and cursor moves are
    /// recorded, all only once the graphics are ready; a close request exits
    /// in any state; everything else is ignored.
    pub fn window_event(&mut self, event: WindowEvent) -> (a: Action)
        requires
            event_in_range(event),
        ensures
            (final(self)@, a) == handle_window_event(old(self)@, event),
            final(self)@.wf(),
            event matches WindowEvent::MouseInput { button, state } ==> (button != MouseButton::Left
                ==> final(self)@ == old(self)@ && a == Action::Nothing),
            event matches WindowEvent::MouseInput { button, state } ==> (button == MouseButton::Left
                && old(self)@.graphics is Some ==> final(self)@.graphics->0.cursor_state == (if state
                == ElementState::Pressed {
                CursorState::Pressed
            } else {
                CursorState::Default
            })),
            event == WindowEvent::CloseRequested ==> a == Action::Exit && final(self)@ == old(self)@,
            old(self)@.graphics is None ==> final(self)@ == old(self)@,
            event == WindowEvent::RedrawRequested && old(self)@.graphics is Some ==> a == Action::Draw(
                old(self)@.graphics->0.draw_commands(),
            ) && final(self)@.graphics->0.frame_index != old(self)@.graphics->0.frame_index,
            event matches WindowEvent::Resized { width, height } ==> (old(self)@.graphics is Some
                ==> a == (Action::Resize {
                width: if width == 0 {
                    1
                } else {
                    width
                },
                height: if height == 0 {
                    1
                } else {
                    height
                },
            })),
    {
        proof {
            use_type_invariant(&*self);
        }
        match event {
            WindowEvent::CloseRequested => Action::Exit,
            WindowEvent::MouseInput { button, state } => {
                if let MouseButton::Left = button {
                    let cursor_state = match state {
                        ElementState::Pressed => CursorState::Pressed,
                        ElementState::Released => CursorState::Default,
                    };
                    self.cursor_clicked(cursor_state);
                }
                Action::Nothing
            },
            WindowEvent::Resized { width, height } => self.resized(width, height),
            WindowEvent::RedrawRequested => self.draw(),
            WindowEvent::CursorMoved => {
                if self.graphics().is_some() {
                    Action::SetMousePos
                } else {
                    Action::Nothing
                }
            },
            WindowEvent::Other => Action::Nothing,
        }
    }

    fn cursor_clicked(&mut self, cursor_state: CursorState)
        ensures
            final(self)@ == (match old(self)@.graphics {
                Some(g) => AppView { graphics: Some(GraphicsView { cursor_state, ..g }), ..old(self)@ },
                None => old(self)@,
            }),
    {
        proof {
            use_type_invariant(&*self);
        }
        let mut state = State::Init(false);
        std::mem::swap(&mut state, &mut self.state);
        if let State::Ready(mut gfx) = state {
            gfx.set_cursor_state(cursor_state);
            state = State::Ready(gfx);
        }
        self.state = state;
    }

    fn resized(&mut self, width: u32, height: u32) -> (a: Action)
        requires
            width <= u32::MAX - 7,
            height <= u32::MAX - 7,
        ensures
            (final(self)@, a) == handle_window_event(
                old(self)@,
                WindowEvent::Resized { width, height },
            ),
    {
        proof {
            use_type_invariant(&*self);
        }
        let mut state = State::Init(false);
        std::mem::swap(&mut state, &mut self.state);
        let a = if let State::Ready(mut gfx) = state {
            gfx.resize(width, height);
            let a = Action::Resize { width: gfx.width(), height: gfx.height() };
            state = State::Ready(gfx);
            a
        } else {
            Action::Nothing
        };
        self.state = state;
        a
    }

    fn draw(&mut self) -> (a: Action)
        ensures
            (final(self)@, a) == handle_window_event(old(self)@, WindowEvent::RedrawRequested),
    {
        proof {
            use_type_invariant(&*self);
        }
        let mut state = State::Init(false);
        std::mem::swap(&mut state, &mut self.state);
        let a = if let State::Ready(mut gfx) = state {
            let d = gfx.draw();
            state = State::Ready(gfx);
            Action::Draw(d)
        } else {
            Action::Nothing
        };
        self.state = state;
        a
    }
}

/// A close request is the one window event that makes the application exit,
/// whatever state it is in.
pub proof fn lemma_exit_iff_close(app: AppView, event: WindowEvent)
    ensures
        handle_window_event(app, event).1 == Action::Exit <==> event == WindowEvent::CloseRequested,
{
}

/// Until the graphics are ready, window events change nothing and ask for
/// nothing but, on a close request, to exit.
pub proof fn lemma_inert_until_ready(app: AppView, event: WindowEvent)
    requires
        app.graphics is None,
    ensures
        handle_window_event(app, event).0 == app,
        handle_window_event(app, event).1 == Action::Nothing || handle_window_event(app, event).1
            == Action::Exit,
{
}

/// Window events never restart graphics creation, so it is started at most
/// once; and handling an event keeps ready graphics well formed and drawable.
pub proof fn lemma_window_event_keeps_state_wf(app: AppView, event: WindowEvent)
    requires
        app.wf(),
        event_in_range(event),
    ensures
        handle_window_event(app, event).0.creation_pending == app.creation_pending,
        handle_window_event(app, event).0.wf(),
        (handle_window_event(app, event).0.graphics is Some) == (app.graphics is Some),
{
}

/// Only the left button matters: an event of any other button, pressed or
/// released, leaves the application as it was and asks for nothing.
pub proof fn lemma_other_buttons_ignored(app: AppView, state: ElementState)
    ensures
        handle_window_event(app, WindowEvent::MouseInput { button: MouseButton::Other, state }).0
            == app,
        handle_window_event(app, WindowEvent::MouseInput { button: MouseButton::Other, state }).1
            == Action::Nothing,
{
}

/// After a left-button event on ready graphics, the cursor state records
/// whether that button is now down.
pub proof fn lemma_cursor_follows_left_button(app: AppView, state: ElementState)
    requires
        app.graphics is Some,
    ensures
        ({
            let next = handle_window_event(
                app,
                WindowEvent::MouseInput { button: MouseButton::Left, state },
            ).0;
            next.graphics->0.cursor_state == (if state == ElementState::Pressed {
                CursorState::Pressed
            } else {
                CursorState::Default
            })
        }),
{
}

} // verus!
