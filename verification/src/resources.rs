use vstd::prelude::*;

use crate::structures::{Intent, GRID_CELL_SIZE, INTENT_SIZE};

verus! {

/// Byte `j` of a 32-bit word, counting from the least significant (0 to 3).
pub open spec fn word_byte(w: u32, j: int) -> u8 {
    (if j == 0 {
        w as int % 256
    } else if j == 1 {
        (w as int / 0x100) % 256
    } else if j == 2 {
        (w as int / 0x10000) % 256
    } else {
        (w as int / 0x1000000) % 256
    }) as u8
}

/// `bytes` holds `words` one after another, each least significant byte first.
pub open spec fn little_endian_bytes(words: Seq<u32>, bytes: Seq<u8>) -> bool {
    &&& bytes.len() == 4 * words.len()
    &&& forall|i: int| 0 <= i < bytes.len() ==> #[trigger] bytes[i] == word_byte(words[i / 4], i % 4)
}

/// `bytes` holds `words` one after another, each most significant byte first.
pub open spec fn big_endian_bytes(words: Seq<u32>, bytes: Seq<u8>) -> bool {
    &&& bytes.len() == 4 * words.len()
    &&& forall|i: int| 0 <= i < bytes.len() ==> #[trigger] bytes[i] == word_byte(words[i / 4], 3 - i % 4)
}

/// `bytes` is the in-memory image of `words` in one of the two byte orders
/// that a machine can have.
pub open spec fn memory_image(words: Seq<u32>, bytes: Seq<u8>) -> bool {
    little_endian_bytes(words, bytes) || big_endian_bytes(words, bytes)
}

/// Every byte is zero.
pub open spec fn all_zero(bytes: Seq<u8>) -> bool {
    forall|i: int| 0 <= i < bytes.len() ==> #[trigger] bytes[i] == 0
}

/// Calls `bytemuck::cast_slice::<u32, u8>` and copies the result: the slice's
/// memory read as bytes, four per word, in the machine's byte order. The
/// contract states the length and that the bytes are the words' bytes in one
/// of the two byte orders; which order is the machine's is left open.
#[verifier::external_body]
fn cast_words_to_bytes(words: &[u32]) -> (bytes: Vec<u8>)
    requires
        4 * words@.len() <= usize::MAX,
    ensures
        memory_image(words@, bytes@),
{
    bytemuck::cast_slice::<u32, u8>(words).to_vec()
}

/// The word sequence of a run of intents laid out as on the GPU: each
/// intent's `kind` word followed by its `flags` word.
pub open spec fn intent_words(intents: Seq<Intent>) -> Seq<u32> {
    Seq::new(
        2 * intents.len(),
        |i: int|
            if i % 2 == 0 {
                intents[i / 2].kind
            } else {
                intents[i / 2].flags
            },
    )
}

/// The intents' words in buffer order.
fn intents_to_words(intents: &[Intent]) -> (words: Vec<u32>)
    requires
        2 * intents@.len() <= usize::MAX,
    ensures
        words@ == intent_words(intents@),
{
    let n = intents.len();
    let mut words: Vec<u32> = Vec::with_capacity(2 * n);
    let mut k: usize = 0;
    while k < n
        invariant
            n == intents@.len(),
            k <= n,
            2 * n <= usize::MAX,
            words@.len() == 2 * k,
            forall|j: int|
                0 <= j < 2 * k ==> #[trigger] words@[j] == intent_words(intents@)[j],
        decreases n - k,
    {
        words.push(intents[k].kind);
        words.push(intents[k].flags);
        k = k + 1;
    }
    assert(words@ =~= intent_words(intents@));
    words
}

/// The bytes of a run of intents as an upload to the intent buffer: each
/// intent's `kind` word then its `flags` word, in the machine's byte order.
pub fn intents_to_bytes(intents: &[Intent]) -> (bytes: Vec<u8>)
    requires
        8 * intents@.len() <= usize::MAX,
    ensures
        memory_image(intent_words(intents@), bytes@),
        bytes@.len() == INTENT_SIZE * intents@.len(),
{
    let words = intents_to_words(intents);
    cast_words_to_bytes(words.as_slice())
}

/// A grid buffer holds 32 bytes per cell and the intent buffer 8, one cell
/// per pixel of the surface; and the intents' word sequence is each intent's
/// `kind` word then its `flags` word, in order.
pub proof fn lemma_layout_sizes(l: StateLayoutView, intents: Seq<Intent>, k: int)
    requires
        0 <= k < intents.len(),
    ensures
        l.cell_count() == l.width * l.height,
        l.grid_size() == l.width * l.height * 32,
        l.intent_size() == l.width * l.height * 8,
        intent_words(intents).len() == 2 * intents.len(),
        intent_words(intents)[2 * k] == intents[k].kind,
        intent_words(intents)[2 * k + 1] == intents[k].flags,
{
    assert((2 * k) / 2 == k);
    assert((2 * k + 1) / 2 == k);
}

/// The image of words that are all zero is all zero, in either byte order.
pub proof fn lemma_zero_words_zero_bytes(words: Seq<u32>, bytes: Seq<u8>)
    requires
        memory_image(words, bytes),
        forall|k: int| 0 <= k < words.len() ==> #[trigger] words[k] == 0,
    ensures
        all_zero(bytes),
{
    assert forall|i: int| 0 <= i < bytes.len() implies #[trigger] bytes[i] == 0 by {
        assert(words[i / 4] == 0);
    }
}


/// The grid dimensions the simulation's state buffers are sized for: one
/// cell per pixel of the surface.
pub struct StateLayout {
    width: usize,
    height: usize,
}

/// The values a `StateLayout` stands for.
pub struct StateLayoutView {
    pub width: nat,
    pub height: nat,
}

impl StateLayoutView {
    /// Number of cells in the grid.
    pub open spec fn cell_count(self) -> nat {
        self.width * self.height
    }

    /// Bytes of each of the two grid buffers.
    pub open spec fn grid_size(self) -> nat {
        self.cell_count() * (GRID_CELL_SIZE as nat)
    }

    /// Bytes of the intent buffer.
    pub open spec fn intent_size(self) -> nat {
        self.cell_count() * (INTENT_SIZE as nat)
    }

    /// The sizes fit the machine's `usize`.
    pub open spec fn wf(self) -> bool {
        self.grid_size() <= usize::MAX
    }
}

impl View for StateLayout {
    type V = StateLayoutView;

    closed spec fn view(&self) -> StateLayoutView {
        StateLayoutView { width: self.width as nat, height: self.height as nat }
    }
}

impl StateLayout {
    #[verifier::type_invariant]
    closed spec fn inv(self) -> bool {
        self@.wf()
    }

    /// The layout for a surface of `width` by `height` pixels.
    pub fn new(width: u32, height: u32) -> (l: StateLayout)
        requires
            (width as nat) * (height as nat) * GRID_CELL_SIZE <= usize::MAX,
        ensures
            l@.width == width,
            l@.height == height,
            l@.wf(),
    {
        let l = StateLayout { width: width as usize, height: height as usize };
        assert(l@.wf());
        l
    }

    /// Grid width in cells.
    pub fn width(&self) -> (w: usize)
        ensures
            w == self@.width,
    {
        self.width
    }

    /// Grid height in cells.
    pub fn height(&self) -> (h: usize)
        ensures
            h == self@.height,
    {
        self.height
    }

    proof fn lemma_products(self)
        requires
            self@.wf(),
        ensures
            self@.cell_count() <= self@.intent_size() <= self@.grid_size() <= usize::MAX,
    {
        let c = self@.cell_count();
        assert(c <= c * 8 <= c * 32) by (nonlinear_arith);
    }

    /// Number of cells: width times height.
    pub fn cell_count(&self) -> (n: usize)
        ensures
            n == self@.cell_count(),
            n == self@.width * self@.height,
            self@.wf(),
    {
        proof {
            use_type_invariant(self);
            self.lemma_products();
        }
        self.width * self.height
    }

    /// Bytes of each grid buffer: one `GRID_CELL_SIZE` record per cell.
    pub fn grid_size(&self) -> (s: u64)
        ensures
            s == self@.grid_size(),
            s == self@.width * self@.height * 32,
    {
        proof {
            use_type_invariant(self);
            self.lemma_products();
        }
        let n = self.cell_count();
        (n * 32) as u64
    }

    /// Bytes of the intent buffer: one `INTENT_SIZE` record per cell.
    pub fn intent_size(&self) -> (s: u64)
        ensures
            s == self@.intent_size(),
            s == self@.width * self@.height * 8,
    {
        proof {
            use_type_invariant(self);
            self.lemma_products();
        }
        let n = self.cell_count();
        (n * 8) as u64
    }

    /// The upload that clears a grid buffer: `grid_size()` zero bytes.
    pub fn zero_grid_bytes(&self) -> (bytes: Vec<u8>)
        ensures
            bytes@.len() == self@.grid_size(),
            bytes@.len() == self@.width * self@.height * 32,
            all_zero(bytes@),
    {
        proof {
            use_type_invariant(self);
            self.lemma_products();
        }
        let n = self.cell_count();
        let words: Vec<u32> = vec![0u32; n * 8];
        let bytes = cast_words_to_bytes(words.as_slice());
        proof {
            lemma_zero_words_zero_bytes(words@, bytes@);
        }
        bytes
    }

    /// The upload that clears the intent buffer: one zeroed `Intent` per cell,
    /// `intent_size()` zero bytes in all.
    pub fn zero_intent_bytes(&self) -> (bytes: Vec<u8>)
        ensures
            bytes@.len() == self@.intent_size(),
            bytes@.len() == self@.width * self@.height * 8,
            all_zero(bytes@),
    {
        proof {
            use_type_invariant(self);
            self.lemma_products();
        }
        let n = self.cell_count();
        let intents: Vec<Intent> = vec![Intent::zeroed(); n];
        let bytes = intents_to_bytes(intents.as_slice());
        proof {
            let w = intent_words(intents@);
            assert forall|k: int| 0 <= k < w.len() implies #[trigger] w[k] == 0 by {
                assert(intents@[k / 2].kind == 0 && intents@[k / 2].flags == 0);
            }
            lemma_zero_words_zero_bytes(w, bytes@);
        }
        bytes
    }
}

} // verus!
