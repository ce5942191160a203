use vstd::prelude::*;

use crate::frames::{
    create_frame_resources, frame_plan, FrameResources, IntentBinding, RenderBinding,
    ResolveBinding,
};
use crate::resources::StateLayout;
use crate::structures::{CursorState, GRID_CELL_SIZE};

verus! {

/// Number of workgroups along an axis of `extent` cells: enough groups of 8
/// (the side of the square of cells one workgroup covers) to cover every cell.
pub open spec fn workgroup_count(extent: u32) -> int {
    (extent + 7) / 8
}

/// A surface dimension as the surface is configured: at least one pixel.
pub open spec fn clamp_extent(e: u32) -> u32 {
    if e == 0 {
        1
    } else {
        e
    }
}

/// Workgroup counts of a compute dispatch along x, y and z.
#[derive(Debug, Clone, Copy, PartialEq, Eq, Structural)]
pub struct Dispatch {
    pub x: u32,
    pub y: u32,
    pub z: u32,
}

/// What the compute passes of a frame record: the intent pass, then the
/// resolve pass, both dispatched over the same workgroup grid.
#[derive(Debug, Clone, Copy, PartialEq, Eq, Structural)]
pub struct ComputeCommands {
    pub intent: IntentBinding,
    pub resolve: ResolveBinding,
    pub dispatch: Dispatch,
}

/// The values a frame is drawn from: the integer fields of the globals
/// block, the compute passes and the render pass.
#[derive(Debug, Clone, Copy, PartialEq, Eq, Structural)]
pub struct DrawCommands {
    /// Surface width in pixels.
    pub width: u32,
    /// Surface height in pixels.
    pub height: u32,
    /// The cursor state's code.
    pub mouse_state: u32,
    /// The frame slot whose bind groups the passes use.
    pub frame_index: usize,
    pub compute: ComputeCommands,
    pub render: RenderBinding,
}

/// The per-window simulation state that drawing decisions are made from.
pub struct Graphics {
    width: u32,
    height: u32,
    frames: [FrameResources; 2],
    cursor_state: CursorState,
    frame_index: usize,
}

/// The values a `Graphics` stands for.
pub struct GraphicsView {
    pub width: u32,
    pub height: u32,
    pub cursor_state: CursorState,
    pub frame_index: nat,
}

impl GraphicsView {
    /// Surface dimensions are at least one pixel and the frame index is one
    /// of the two slots.
    pub open spec fn wf(self) -> bool {
        &&& self.width >= 1
        &&& self.height >= 1
        &&& self.frame_index < 2
    }

    /// The compute commands of the current frame.
    pub open spec fn compute_commands(self) -> ComputeCommands {
        ComputeCommands {
            intent: frame_plan(self.frame_index as int).cs_intent,
            resolve: frame_plan(self.frame_index as int).cs_resolve,
            dispatch: Dispatch {
                x: workgroup_count(self.width) as u32,
                y: workgroup_count(self.height) as u32,
                z: 1,
            },
        }
    }

    /// The draw commands of the current frame.
    pub open spec fn draw_commands(self) -> DrawCommands {
        DrawCommands {
            width: self.width,
            height: self.height,
            mouse_state: self.cursor_state.spec_code(),
            frame_index: self.frame_index as usize,
            compute: self.compute_commands(),
            render: frame_plan(self.frame_index as int).rs,
        }
    }

    /// The dispatch counts fit a `u32` computation of `(extent + 7) / 8`.
    pub open spec fn dispatchable(self) -> bool {
        &&& self.width <= u32::MAX - 7
        &&& self.height <= u32::MAX - 7
    }
}

impl View for Graphics {
    type V = GraphicsView;

    closed spec fn view(&self) -> GraphicsView {
        GraphicsView {
            width: self.width,
            height: self.height,
            cursor_state: self.cursor_state,
            frame_index: self.frame_index as nat,
        }
    }
}

impl Graphics {
    #[verifier::type_invariant]
    closed spec fn inv(self) -> bool {
        &&& self@.wf()
        &&& self.frames@[0] == frame_plan(0)
        &&& self.frames@[1] == frame_plan(1)
    }

    /// The state for a window whose inner size is `width` by `height`: the
    /// surface is configured at least one pixel wide and high, the cursor is
    /// up, and the first frame uses slot 0.
    pub fn new(width: u32, height: u32) -> (g: Graphics)
        ensures
            g@.width == clamp_extent(width),
            g@.height == clamp_extent(height),
            width >= 1 ==> g@.width == width,
            height >= 1 ==> g@.height == height,
            width == 0 ==> g@.width == 1,
            height == 0 ==> g@.height == 1,
            g@.cursor_state == CursorState::Default,
            g@.frame_index == 0,
            g@.wf(),
    {
        Graphics {
            width: if width > 1 { width } else { 1 },
            height: if height > 1 { height } else { 1 },
            frames: create_frame_resources(),
            cursor_state: CursorState::Default,
            frame_index: 0,
        }
    }

    /// Configured surface width.
    pub fn width(&self) -> (w: u32)
        ensures
            w == self@.width,
            self@.wf(),
    {
        proof {
            use_type_invariant(self);
        }
        self.width
    }

    /// Configured surface height.
    pub fn height(&self) -> (h: u32)
        ensures
            h == self@.height,
            self@.wf(),
    {
        proof {
            use_type_invariant(self);
        }
        self.height
    }

    /// The cursor state the next frame reports.
    pub fn cursor_state(&self) -> (c: CursorState)
        ensures
            c == self@.cursor_state,
    {
        self.cursor_state
    }

    /// The slot of the next frame (0 or 1).
    pub fn frame_index(&self) -> (i: usize)
        ensures
            i == self@.frame_index,
            i < 2,
    {
        proof {
            use_type_invariant(self);
        }
        self.frame_index
    }

    /// Records whether the left button is down; nothing else changes.
    pub fn set_cursor_state(&mut self, cursor_state: CursorState)
        ensures
            final(self)@ == (GraphicsView { cursor_state, ..old(self)@ }),
            final(self)@.wf(),
    {
        proof {
            use_type_invariant(&*self);
        }
        self.cursor_state = cursor_state;
    }

    /// Takes a new window size: the surface becomes at least one pixel wide
    /// and high, the frame bind groups are rebuilt for the new buffers, and
    /// the cursor state and frame slot carry over.
    pub fn resize(&mut self, width: u32, height: u32)
        ensures
            final(self)@ == (GraphicsView {
                width: clamp_extent(width),
                height: clamp_extent(height),
                ..old(self)@
            }),
            width >= 1 ==> final(self)@.width == width,
            height >= 1 ==> final(self)@.height == height,
            width == 0 ==> final(self)@.width == 1,
            height == 0 ==> final(self)@.height == 1,
            final(self)@.wf(),
    {
        proof {
            use_type_invariant(&*self);
        }
        self.width = if width > 1 { width } else { 1 };
        self.height = if height > 1 { height } else { 1 };
        self.frames = create_frame_resources();
    }

    /// The layout of the state buffers for the configured surface.
    pub fn state_layout(&self) -> (l: StateLayout)
        requires
            (self@.width as nat) * (self@.height as nat) * GRID_CELL_SIZE <= usize::MAX,
        ensures
            l@.width == self@.width,
            l@.height == self@.height,
            l@.wf(),
    {
        StateLayout::new(self.width, self.height)
    }

    /// The bind groups of the current frame slot.
    pub fn get_frame_resources(&self) -> (f: FrameResources)
        ensures
            f == frame_plan(self@.frame_index as int),
    {
        proof {
            use_type_invariant(self);
        }
        self.frames[self.frame_index % 2]
    }

    /// The compute passes of the current frame: the intent and resolve bind
    /// groups of the frame slot, dispatched over `ceil(width / 8)` by
    /// `ceil(height / 8)` workgroups.
    pub fn run_cs(&self) -> (c: ComputeCommands)
        requires
            self@.dispatchable(),
        ensures
            c == self@.compute_commands(),
            c.intent == frame_plan(self@.frame_index as int).cs_intent,
            c.resolve == frame_plan(self@.frame_index as int).cs_resolve,
            c.dispatch.x * 8 >= self@.width,
            (c.dispatch.x - 1) * 8 < self@.width,
            c.dispatch.y * 8 >= self@.height,
            (c.dispatch.y - 1) * 8 < self@.height,
            c.dispatch.z == 1,
    {
        let x = (self.width + 7) / 8;
        let y = (self.height + 7) / 8;
        let frame = self.get_frame_resources();
        ComputeCommands { intent: frame.cs_intent, resolve: frame.cs_resolve, dispatch: Dispatch { x, y, z: 1 } }
    }

    /// The render pass of the current frame: its render bind group.
    pub fn run_rs(&self) -> (r: RenderBinding)
        ensures
            r == frame_plan(self@.frame_index as int).rs,
    {
        self.get_frame_resources().rs
    }

    /// Decides one frame: the globals' integer fields, the compute and render
    /// passes of the current slot; then moves to the other slot.
    pub fn draw(&mut self) -> (d: DrawCommands)
        requires
            old(self)@.dispatchable(),
        ensures
            d == old(self)@.draw_commands(),
            d.frame_index == old(self)@.frame_index,
            d.compute.intent == frame_plan(d.frame_index as int).cs_intent,
            d.compute.resolve == frame_plan(d.frame_index as int).cs_resolve,
            d.render == frame_plan(d.frame_index as int).rs,
            d.width == old(self)@.width,
            d.height == old(self)@.height,
            d.mouse_state == old(self)@.cursor_state.spec_code(),
            final(self)@.frame_index != old(self)@.frame_index,
            final(self)@ == (GraphicsView { frame_index: (1 - old(self)@.frame_index) as nat, ..old(self)@ }),
            final(self)@.wf(),
    {
        proof {
            use_type_invariant(&*self);
        }
        let d = DrawCommands {
            width: self.width,
            height: self.height,
            mouse_state: self.cursor_state.code(),
            frame_index: self.frame_index,
            compute: self.run_cs(),
            render: self.run_rs(),
        };
        let current = self.frame_index;
        let next = current ^ 1;
        assert(next == 1 - current) by (bit_vector)
            requires
                current < 2,
                next == current ^ 1,
        ;
        self.frame_index = next;
        d
    }
}

/// Drawing alternates the frame slots: the grid the resolve pass writes in
/// one frame is the grid every pass of the next frame reads, and two frames
/// in a row bring the slot back to where it was.
pub proof fn lemma_draw_alternates(g: GraphicsView)
    requires
        g.wf(),
    ensures
        ({
            let g1 = GraphicsView { frame_index: (1 - g.frame_index) as nat, ..g };
            let g2 = GraphicsView { frame_index: (1 - g1.frame_index) as nat, ..g1 };
            &&& g1.wf()
            &&& g2 == g
            &&& g1.draw_commands().compute.intent.grid == g.draw_commands().compute.resolve.grid_next
            &&& g1.draw_commands().compute.resolve.grid == g.draw_commands().compute.resolve.grid_next
            &&& g1.draw_commands().render.grid == g.draw_commands().compute.resolve.grid_next
            &&& g1.draw_commands().compute.resolve.grid_next == g.draw_commands().compute.resolve.grid
        }),
{
}

/// A surface side is the window's side raised to at least one pixel: a
/// positive side is kept as it is, and only a zero side becomes 1.
pub proof fn lemma_clamp_extent_is_max_one(e: u32)
    ensures
        e >= 1 ==> clamp_extent(e) == e,
        e == 0 ==> clamp_extent(e) == 1,
        clamp_extent(e) >= 1,
        clamp_extent(e) >= e,
{
}

/// The frame a draw decides is the frame of the current slot: it reports
/// that slot, and its intent, resolve and render bind groups are that slot's;
/// its size and mouse state are the graphics' own.
pub proof fn lemma_draw_commands_use_current_slot(g: GraphicsView)
    requires
        g.wf(),
    ensures
        g.draw_commands().frame_index == g.frame_index,
        g.draw_commands().compute.intent == frame_plan(g.frame_index as int).cs_intent,
        g.draw_commands().compute.resolve == frame_plan(g.frame_index as int).cs_resolve,
        g.draw_commands().render == frame_plan(g.frame_index as int).rs,
        g.draw_commands().width == g.width,
        g.draw_commands().height == g.height,
        g.draw_commands().mouse_state == g.cursor_state.spec_code(),
        g.draw_commands().compute.dispatch.x * 8 >= g.width,
        g.draw_commands().compute.dispatch.y * 8 >= g.height,
        g.draw_commands().compute.dispatch.z == 1,
{
}

/// The workgroup grid covers an axis exactly: `count` groups of 8 reach
/// every cell, and one group fewer would not.
pub proof fn lemma_workgroups_cover(extent: u32)
    requires
        extent >= 1,
    ensures
        workgroup_count(extent) * 8 >= extent,
        (workgroup_count(extent) - 1) * 8 < extent,
        workgroup_count(extent) >= 1,
{
}

} // verus!
