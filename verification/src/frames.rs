use vstd::prelude::*;

verus! {

/// The buffers of the simulation that the per-frame bind groups refer to.
#[derive(Debug, Clone, Copy, PartialEq, Eq, Structural)]
pub enum BufferId {
    /// The uniform block with resolution, time and mouse input.
    Globals,
    /// The first of the two grid buffers.
    Grid,
    /// The second of the two grid buffers.
    GridNext,
    /// The per-cell intent buffer.
    Intent,
}

/// The buffers bound for the intent pass, in bind group order.
#[derive(Debug, Clone, Copy, PartialEq, Eq, Structural)]
pub struct IntentBinding {
    pub globals: BufferId,
    /// The grid the pass reads.
    pub grid: BufferId,
    /// The buffer the pass writes each cell's intent to.
    pub intent: BufferId,
}

/// The buffers bound for the resolve pass, in bind group order.
#[derive(Debug, Clone, Copy, PartialEq, Eq, Structural)]
pub struct ResolveBinding {
    pub globals: BufferId,
    /// The grid the pass reads.
    pub grid: BufferId,
    /// The grid the pass writes.
    pub grid_next: BufferId,
    pub intent: BufferId,
}

/// The buffers bound for the render pass, in bind group order.
#[derive(Debug, Clone, Copy, PartialEq, Eq, Structural)]
pub struct RenderBinding {
    pub globals: BufferId,
    /// The grid that is drawn.
    pub grid: BufferId,
}

/// The three bind groups one frame uses.
#[derive(Debug, Clone, Copy, PartialEq, Eq, Structural)]
pub struct FrameResources {
    pub cs_intent: IntentBinding,
    pub cs_resolve: ResolveBinding,
    pub rs: RenderBinding,
}

/// How a shader may use a buffer bound at some binding.
#[derive(Debug, Clone, Copy, PartialEq, Eq, Structural)]
pub enum BindingKind {
    Uniform,
    ReadOnlyStorage,
    ReadWriteStorage,
}

/// One entry of a bind group layout.
#[derive(Debug, Clone, Copy, PartialEq, Eq, Structural)]
pub struct LayoutEntry {
    pub binding: u32,
    pub kind: BindingKind,
}

/// One entry of a bind group: the buffer bound at a binding.
#[derive(Debug, Clone, Copy, PartialEq, Eq, Structural)]
pub struct BindEntry {
    pub binding: u32,
    pub buffer: BufferId,
}

/// The intent pipeline's bind group layout: the globals as a uniform block
/// at 0, the grid read-only at 1, the intents read-write at 2.
pub open spec fn spec_cs_intent_layout() -> Seq<LayoutEntry> {
    seq![
        LayoutEntry { binding: 0, kind: BindingKind::Uniform },
        LayoutEntry { binding: 1, kind: BindingKind::ReadOnlyStorage },
        LayoutEntry { binding: 2, kind: BindingKind::ReadWriteStorage },
    ]
}

/// The entries of the intent pipeline's bind group layout, in binding order.
pub fn cs_intent_layout() -> (l: Vec<LayoutEntry>)
    ensures
        l@ == spec_cs_intent_layout(),
{
    let l = vec![
        LayoutEntry { binding: 0, kind: BindingKind::Uniform },
        LayoutEntry { binding: 1, kind: BindingKind::ReadOnlyStorage },
        LayoutEntry { binding: 2, kind: BindingKind::ReadWriteStorage },
    ];
    assert(l@ =~= spec_cs_intent_layout());
    l
}

impl IntentBinding {
    /// The bind group entries: globals at 0, grid at 1, intents at 2.
    pub open spec fn spec_entries(self) -> Seq<BindEntry> {
        seq![
            BindEntry { binding: 0, buffer: self.globals },
            BindEntry { binding: 1, buffer: self.grid },
            BindEntry { binding: 2, buffer: self.intent },
        ]
    }

    /// The bind group entries, in binding order.
    pub fn entries(&self) -> (e: Vec<BindEntry>)
        ensures
            e@ == self.spec_entries(),
            e@.len() == 3,
            e@[0] == (BindEntry { binding: 0, buffer: self.globals }),
            e@[1] == (BindEntry { binding: 1, buffer: self.grid }),
            e@[2] == (BindEntry { binding: 2, buffer: self.intent }),
    {
        let e = vec![
            BindEntry { binding: 0, buffer: self.globals },
            BindEntry { binding: 1, buffer: self.grid },
            BindEntry { binding: 2, buffer: self.intent },
        ];
        assert(e@ =~= self.spec_entries());
        e
    }
}

/// The buffer a binding kind may hold in this simulation: the globals are the
/// one uniform block, and storage bindings hold the grids and intents.
pub open spec fn kind_fits(kind: BindingKind, buffer: BufferId) -> bool {
    match kind {
        BindingKind::Uniform => buffer == BufferId::Globals,
        _ => buffer != BufferId::Globals,
    }
}

/// The grid buffer that frame slot `slot` (0 or 1) reads.
pub open spec fn source_grid(slot: int) -> BufferId {
    if slot == 0 {
        BufferId::Grid
    } else {
        BufferId::GridNext
    }
}

/// The grid buffer that frame slot `slot` (0 or 1) writes.
pub open spec fn target_grid(slot: int) -> BufferId {
    if slot == 0 {
        BufferId::GridNext
    } else {
        BufferId::Grid
    }
}

/// What frame slot `slot` binds: every pass reads the slot's source grid, the
/// resolve pass writes the slot's target grid, and all share the globals and
/// the intent buffer.
pub open spec fn frame_plan(slot: int) -> FrameResources {
    FrameResources {
        cs_intent: IntentBinding {
            globals: BufferId::Globals,
            grid: source_grid(slot),
            intent: BufferId::Intent,
        },
        cs_resolve: ResolveBinding {
            globals: BufferId::Globals,
            grid: source_grid(slot),
            grid_next: target_grid(slot),
            intent: BufferId::Intent,
        },
        rs: RenderBinding { globals: BufferId::Globals, grid: source_grid(slot) },
    }
}

/// The bind group plans of one frame slot.
fn create_frame_slot(slot: usize) -> (f: FrameResources)
    requires
        slot < 2,
    ensures
        f == frame_plan(slot as int),
{
    let (grid, grid_next) = if slot == 0 {
        (BufferId::Grid, BufferId::GridNext)
    } else {
        (BufferId::GridNext, BufferId::Grid)
    };
    FrameResources {
        cs_intent: IntentBinding { globals: BufferId::Globals, grid, intent: BufferId::Intent },
        cs_resolve: ResolveBinding {
            globals: BufferId::Globals,
            grid,
            grid_next,
            intent: BufferId::Intent,
        },
        rs: RenderBinding { globals: BufferId::Globals, grid },
    }
}

/// The bind groups of the two frame slots, in slot order.
pub fn create_frame_resources() -> (frames: [FrameResources; 2])
    ensures
        frames@[0] == frame_plan(0),
        frames@[1] == frame_plan(1),
{
    [create_frame_slot(0), create_frame_slot(1)]
}

/// The grid a slot writes is the grid the other slot reads, so consecutive
/// frames hand the simulation state from one buffer to the other; within a
/// slot, the resolve pass never writes the grid it reads.
pub proof fn lemma_frames_ping_pong(slot: int)
    requires
        0 <= slot < 2,
    ensures
        frame_plan(slot).cs_resolve.grid_next == frame_plan(1 - slot).cs_resolve.grid,
        frame_plan(slot).cs_resolve.grid != frame_plan(slot).cs_resolve.grid_next,
        frame_plan(slot).cs_intent.grid == frame_plan(slot).cs_resolve.grid,
        frame_plan(slot).rs.grid == frame_plan(slot).cs_resolve.grid,
        frame_plan(slot).cs_intent.intent == frame_plan(slot).cs_resolve.intent,
        frame_plan(0).cs_resolve.grid == BufferId::Grid,
        frame_plan(0).cs_resolve.grid_next == BufferId::GridNext,
        frame_plan(slot).cs_intent.globals == BufferId::Globals,
        frame_plan(slot).cs_resolve.globals == BufferId::Globals,
        frame_plan(slot).rs.globals == BufferId::Globals,
        frame_plan(slot).cs_intent.intent == BufferId::Intent,
{
}

/// Each intent bind group entry holds the buffer of its own field: the
/// globals at 0, the grid the pass reads at 1, the intents at 2; so in
/// every slot the intent pass reads the grid that slot's resolve pass reads.
pub proof fn lemma_intent_entries_hold_fields(b: IntentBinding, slot: int)
    requires
        0 <= slot < 2,
    ensures
        b.spec_entries().len() == 3,
        b.spec_entries()[0] == (BindEntry { binding: 0, buffer: b.globals }),
        b.spec_entries()[1] == (BindEntry { binding: 1, buffer: b.grid }),
        b.spec_entries()[2] == (BindEntry { binding: 2, buffer: b.intent }),
        frame_plan(slot).cs_intent.spec_entries()[1].buffer == frame_plan(slot).cs_resolve.grid,
        frame_plan(0).cs_intent.spec_entries()[1].buffer == BufferId::Grid,
        frame_plan(1).cs_intent.spec_entries()[1].buffer == BufferId::GridNext,
{
}

/// In both frame slots the intent bind group matches its layout entry for
/// entry: same bindings in the same order, the globals in the uniform slot, a
/// grid in the read-only slot, and the intent buffer in the one writable
/// slot, so the intent pass never writes a grid.
pub proof fn lemma_intent_binding_matches_layout(slot: int)
    requires
        0 <= slot < 2,
    ensures
        ({
            let e = frame_plan(slot).cs_intent.spec_entries();
            let l = spec_cs_intent_layout();
            &&& e.len() == l.len()
            &&& forall|i: int| #![auto] 0 <= i < e.len() ==> e[i].binding == l[i].binding
                && kind_fits(l[i].kind, e[i].buffer)
            &&& forall|i: int| #![auto] 0 <= i < e.len() && l[i].kind == BindingKind::ReadWriteStorage
                ==> e[i].buffer == BufferId::Intent
        }),
{
    let e = frame_plan(slot).cs_intent.spec_entries();
    let l = spec_cs_intent_layout();
    assert forall|i: int| #![auto] 0 <= i < e.len() implies e[i].binding == l[i].binding
        && kind_fits(l[i].kind, e[i].buffer)
        && (l[i].kind == BindingKind::ReadWriteStorage ==> e[i].buffer == BufferId::Intent) by {
        if i == 0 {
        } else if i == 1 {
        } else {
        }
    }
}

} // verus!
