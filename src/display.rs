//! Display frames, the messages that carry them, and the effects that a
//! rendering surface receives for them.

use vstd::prelude::*;

verus! {

/// Width of the display in pixels.
pub const WIDTH: usize = 64;

/// Height of the display in pixels.
pub const HEIGHT: usize = 32;

/// Number of pixels of a frame.
pub const PIXEL_COUNT: usize = 2048;

/// Pixel `x` of a row word: the leftmost pixel is the most significant bit.
pub open spec fn bit_of(word: u64, x: u64) -> bool {
    (word >> ((63u64 - x) as u64)) & 1u64 == 1u64
}

proof fn lemma_zero_word(x: u64)
    requires
        x < 64,
    ensures
        !bit_of(0u64, x),
{
    assert((0u64 >> ((63u64 - x) as u64)) & 1u64 == 0u64) by (bit_vector)
        requires
            x < 64u64,
    ;
}

proof fn lemma_set_bit(word: u64, x: u64, y: u64)
    requires
        x < 64,
        y < 64,
    ensures
        bit_of(word | (1u64 << ((63u64 - x) as u64)), y) == (x == y || bit_of(word, y)),
{
    assert((((word | (1u64 << ((63u64 - x) as u64))) >> ((63u64 - y) as u64)) & 1u64 == 1u64) == (x == y || (
    word >> ((63u64 - y) as u64)) & 1u64 == 1u64)) by (bit_vector)
        requires
            x < 64u64,
            y < 64u64,
    ;
}

/// A monochrome frame of `WIDTH` x `HEIGHT` pixels, one word per row.
#[derive(Debug, PartialEq, Eq)]
pub struct Frame {
    rows: Vec<u64>,
}

impl View for Frame {
    /// The pixels, row by row.
    type V = Seq<bool>;

    closed spec fn view(&self) -> Seq<bool> {
        Seq::new(
            PIXEL_COUNT as nat,
            |i: int| bit_of(self.rows@[i / WIDTH as int], (i % WIDTH as int) as u64),
        )
    }
}

impl Frame {
    /// The row words, top row first.
    pub closed spec fn rows(self) -> Seq<u64> {
        self.rows@
    }

    /// A frame holds exactly one word per row.
    #[verifier::type_invariant]
    spec fn wf(self) -> bool {
        self.rows@.len() == HEIGHT
    }

    /// The pixel at column `x` of row `y`.
    pub open spec fn pixel_at(self, x: int, y: int) -> bool {
        self@[y * WIDTH as int + x]
    }

    proof fn lemma_view_index(self, i: int)
        requires
            0 <= i < PIXEL_COUNT,
        ensures
            self@[i] == bit_of(self.rows@[i / WIDTH as int], (i % WIDTH as int) as u64),
    {
    }

    /// A frame with every pixel off.
    pub fn blank() -> (f: Frame)
        ensures
            f@ == Seq::new(PIXEL_COUNT as nat, |i: int| false),
            f.rows() == Seq::new(HEIGHT as nat, |i: int| 0u64),
    {
        let rows: Vec<u64> = vec![0u64; HEIGHT];
        let f = Frame { rows };
        assert forall|i: int| 0 <= i < PIXEL_COUNT implies !#[trigger] f@[i] by {
            lemma_zero_word((i % WIDTH as int) as u64);
        }
        assert(f@ =~= Seq::new(PIXEL_COUNT as nat, |i: int| false));
        assert(f.rows() =~= Seq::new(HEIGHT as nat, |i: int| 0u64));
        f
    }

    /// The frame of the given row words, or `None` unless there is one word
    /// per row.
    pub fn from_rows(rows: Vec<u64>) -> (r: Option<Frame>)
        ensures
            r is Some <==> rows@.len() == HEIGHT,
            r matches Some(f) ==> f.rows() == rows@,
    {
        if rows.len() == HEIGHT {
            Some(Frame { rows })
        } else {
            None
        }
    }

    /// The frame of the given pixels, row by row, or `None` unless there is
    /// exactly one value per pixel.
    pub fn from_pixels(pixels: &Vec<bool>) -> (r: Option<Frame>)
        ensures
            r is Some <==> pixels@.len() == PIXEL_COUNT,
            r matches Some(f) ==> f@ == pixels@,
    {
        if pixels.len() != PIXEL_COUNT {
            return None;
        }
        let mut rows: Vec<u64> = Vec::with_capacity(HEIGHT);
        let mut y: usize = 0;
        while y < HEIGHT
            invariant
                pixels@.len() == PIXEL_COUNT,
                y <= HEIGHT,
                rows@.len() == y,
                forall|yy: int, xx: int|
                    0 <= yy < y && 0 <= xx < WIDTH ==> #[trigger] bit_of(rows@[yy], xx as u64)
                        == pixels@[yy * WIDTH as int + xx],
            decreases HEIGHT - y,
        {
            let mut word: u64 = 0;
            let mut x: usize = 0;
            assert forall|xx: int| 0 <= xx < WIDTH implies !#[trigger] bit_of(word, xx as u64) by {
                lemma_zero_word(xx as u64);
            }
            while x < WIDTH
                invariant
                    pixels@.len() == PIXEL_COUNT,
                    y < HEIGHT,
                    x <= WIDTH,
                    forall|xx: int|
                        0 <= xx < WIDTH ==> #[trigger] bit_of(word, xx as u64) == (xx < x && pixels@[y
                            * WIDTH as int + xx]),
                decreases WIDTH - x,
            {
                let on = pixels[y * WIDTH + x];
                if on {
                    let next = word | (1u64 << (63u64 - x as u64));
                    assert forall|xx: int| 0 <= xx < WIDTH implies #[trigger] bit_of(next, xx as u64) == (
                    xx < x + 1 && pixels@[y * WIDTH as int + xx]) by {
                        lemma_set_bit(word, x as u64, xx as u64);
                    }
                    word = next;
                }
                x = x + 1;
            }
            rows.push(word);
            y = y + 1;
        }
        let f = Frame { rows };
        assert forall|i: int| 0 <= i < PIXEL_COUNT implies #[trigger] f@[i] == pixels@[i] by {
            let yy = i / WIDTH as int;
            let xx = i % WIDTH as int;
            assert(yy * WIDTH as int + xx == i);
        }
        assert(f@ =~= pixels@);
        Some(f)
    }

    /// The pixel at column `x` of row `y`.
    pub fn pixel(&self, x: usize, y: usize) -> (r: bool)
        requires
            x < WIDTH,
            y < HEIGHT,
        ensures
            r == self.pixel_at(x as int, y as int),
    {
        let i = y * WIDTH + x;
        proof {
            use_type_invariant(self);
            self.lemma_view_index(i as int);
            assert(i as int / WIDTH as int == y);
            assert(i as int % WIDTH as int == x);
        }
        (self.rows[y] >> (63u64 - x as u64)) & 1u64 == 1u64
    }

    /// The pixels, row by row, in the form a rendering surface draws.
    pub fn to_pixels(&self) -> (r: Vec<bool>)
        ensures
            r@ == self@,
    {
        proof {
            use_type_invariant(self);
        }
        let mut out: Vec<bool> = Vec::with_capacity(PIXEL_COUNT);
        let mut i: usize = 0;
        while i < PIXEL_COUNT
            invariant
                self.rows@.len() == HEIGHT,
                i <= PIXEL_COUNT,
                out@ =~= self@.take(i as int),
            decreases PIXEL_COUNT - i,
        {
            let x = i % WIDTH;
            let y = i / WIDTH;
            let on = (self.rows[y] >> (63u64 - x as u64)) & 1u64 == 1u64;
            out.push(on);
            i = i + 1;
        }
        out
    }
}

/// What the simulation core tells a display.
#[derive(Debug, PartialEq, Eq)]
pub enum DisplayMessage {
    /// Every pixel turns off.
    Clear,
    /// The whole display shows this frame.
    Update(Frame),
}

/// What a rendering surface is asked to do.
#[derive(Clone, Debug, PartialEq, Eq)]
pub enum RenderEffect {
    /// Clear the surface; the event carries no payload.
    Clear,
    /// Draw these pixels, row by row.
    Draw(Vec<bool>),
}

/// `effect` is what `msg` asks of a rendering surface: a clear for a clear,
/// and for a frame a draw of exactly its pixels.
pub open spec fn renders(msg: DisplayMessage, effect: RenderEffect) -> bool {
    match msg {
        DisplayMessage::Clear => effect is Clear,
        DisplayMessage::Update(f) => effect matches RenderEffect::Draw(p) && p@ == f@,
    }
}

/// Translates a display message into the effect that renders it.
pub fn render(msg: DisplayMessage) -> (r: RenderEffect)
    ensures
        renders(msg, r),
{
    match msg {
        DisplayMessage::Clear => RenderEffect::Clear,
        DisplayMessage::Update(f) => RenderEffect::Draw(f.to_pixels()),
    }
}

} // verus!
