use vstd::prelude::*;

verus! {

/// Whether the left mouse button is held down over the window.
#[derive(Debug, Clone, Copy, PartialEq, Eq, Structural)]
pub enum CursorState {
    Default,
    Pressed,
}

impl CursorState {
    /// The number the shaders receive for this state (its `u32` discriminant).
    pub open spec fn spec_code(self) -> u32 {
        match self {
            CursorState::Default => 0,
            CursorState::Pressed => 1,
        }
    }

    /// The state as the `u32` the globals block carries to the shaders.
    pub fn code(&self) -> (c: u32)
        ensures
            c == self.spec_code(),
    {
        match self {
            CursorState::Default => 0,
            CursorState::Pressed => 1,
        }
    }
}


/// The contents of one grid cell, as stored in its `state` word.
#[derive(Debug, Clone, Copy, PartialEq, Eq, Structural)]
pub enum CellState {
    Empty,
    Sand,
}

impl CellState {
    /// The `u32` that stands for this state in a grid cell.
    pub open spec fn spec_code(self) -> u32 {
        match self {
            CellState::Empty => 0,
            CellState::Sand => 1,
        }
    }

    /// The state's `u32` code.
    pub fn code(&self) -> (c: u32)
        ensures
            c == self.spec_code(),
    {
        match self {
            CellState::Empty => 0,
            CellState::Sand => 1,
        }
    }

    /// The state that a cell's `state` word names, if it names one.
    pub fn from_code(code: u32) -> (r: Option<CellState>)
        ensures
            r is Some <==> code < 2,
            r matches Some(s) ==> s.spec_code() == code,
    {
        if code == 0 {
            Some(CellState::Empty)
        } else if code == 1 {
            Some(CellState::Sand)
        } else {
            None
        }
    }
}

/// The move that the intent pass chooses for a cell.
#[derive(Debug, Clone, Copy, PartialEq, Eq, Structural)]
pub enum IntentKind {
    Stay,
    MoveDown,
    MoveDL,
    MoveDR,
}

impl IntentKind {
    /// The `u32` that stands for this move in an intent's `kind` word.
    pub open spec fn spec_code(self) -> u32 {
        match self {
            IntentKind::Stay => 0,
            IntentKind::MoveDown => 1,
            IntentKind::MoveDL => 2,
            IntentKind::MoveDR => 3,
        }
    }

    /// The move's `u32` code.
    pub fn code(&self) -> (c: u32)
        ensures
            c == self.spec_code(),
    {
        match self {
            IntentKind::Stay => 0,
            IntentKind::MoveDown => 1,
            IntentKind::MoveDL => 2,
            IntentKind::MoveDR => 3,
        }
    }

    /// The move that an intent's `kind` word names, if it names one.
    pub fn from_code(code: u32) -> (r: Option<IntentKind>)
        ensures
            r is Some <==> code < 4,
            r matches Some(k) ==> k.spec_code() == code,
    {
        if code == 0 {
            Some(IntentKind::Stay)
        } else if code == 1 {
            Some(IntentKind::MoveDown)
        } else if code == 2 {
            Some(IntentKind::MoveDL)
        } else if code == 3 {
            Some(IntentKind::MoveDR)
        } else {
            None
        }
    }
}

/// One cell's entry in the intent buffer: two 32-bit words, `kind` first.
#[derive(Debug, Clone, Copy, PartialEq, Eq, Structural)]
pub struct Intent {
    /// An `IntentKind` code.
    pub kind: u32,
    pub flags: u32,
}

impl Intent {
    /// The all-zero intent (a `Stay` with no flags).
    pub fn zeroed() -> (i: Intent)
        ensures
            i.kind == 0,
            i.flags == 0,
    {
        Intent { kind: 0, flags: 0 }
    }
}

/// Bytes of one grid cell on the GPU: a colour of four 32-bit floats, then the
/// `state` and `flags` words and two words of padding.
pub const GRID_CELL_SIZE: u64 = 32;

/// Bytes of one `Intent` on the GPU.
pub const INTENT_SIZE: u64 = 8;

/// Bytes of the globals block: resolution and mouse position (two floats
/// each), time, mouse state and two floats of padding.
pub const GLOBALS_SIZE: u64 = 32;

/// A cursor state's code is below 2, and distinct states have distinct codes.
pub proof fn lemma_cursor_code_injective(a: CursorState, b: CursorState)
    ensures
        CursorState::Default.spec_code() == 0,
        CursorState::Pressed.spec_code() == 1,
        a.spec_code() < 2,
        a.spec_code() == b.spec_code() ==> a == b,
{
}

/// Decoding a cell state's code gives that state back; every code below 2 is
/// the code of exactly one state.
pub proof fn lemma_cell_code_round_trip(s: CellState, code: u32)
    ensures
        CellState::Empty.spec_code() == 0,
        CellState::Sand.spec_code() == 1,
        s.spec_code() < 2,
        code < 2 ==> exists|t: CellState| t.spec_code() == code,
        s.spec_code() == code ==> (forall|t: CellState| t.spec_code() == code ==> t == s),
{
    if code == 0 {
        assert(CellState::Empty.spec_code() == code);
    } else if code == 1 {
        assert(CellState::Sand.spec_code() == code);
    }
}

/// Decoding an intent kind's code gives that kind back; every code below 4 is
/// the code of exactly one kind.
pub proof fn lemma_intent_code_round_trip(k: IntentKind, code: u32)
    ensures
        IntentKind::Stay.spec_code() == 0,
        IntentKind::MoveDown.spec_code() == 1,
        IntentKind::MoveDL.spec_code() == 2,
        IntentKind::MoveDR.spec_code() == 3,
        k.spec_code() < 4,
        code < 4 ==> exists|t: IntentKind| t.spec_code() == code,
        k.spec_code() == code ==> (forall|t: IntentKind| t.spec_code() == code ==> t == k),
{
    if code == 0 {
        assert(IntentKind::Stay.spec_code() == code);
    } else if code == 1 {
        assert(IntentKind::MoveDown.spec_code() == code);
    } else if code == 2 {
        assert(IntentKind::MoveDL.spec_code() == code);
    } else if code == 3 {
        assert(IntentKind::MoveDR.spec_code() == code);
    }
}

} // verus!
