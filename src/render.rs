//! What a renderer draws for the display buffer: one square of `scale`
//! physical pixels per logical pixel.
use vstd::prelude::*;
use crate::machine::{DISPLAY_HEIGHT, DISPLAY_SIZE, DISPLAY_WIDTH};

verus! {

/// Largest scale at which every square's corner fits in an `i32`.
pub const MAX_SCALE: u32 = 0x1FF_FFFF;

/// A square of the output surface: its top-left corner and its side.
#[derive(Clone, Copy, Debug, PartialEq, Eq, Structural)]
pub struct Square {
    pub x: i32,
    pub y: i32,
    pub side: u32,
}

/// The square covering logical pixel (`x`, `y`) at `scale`.
pub open spec fn square_at(x: int, y: int, scale: u32) -> Square {
    Square { x: (x * scale) as i32, y: (y * scale) as i32, side: scale }
}

/// The logical pixels in the order in which they are visited: column by
/// column, top to bottom within a column. Visit `c` is pixel
/// (`c / 32`, `c % 32`).
pub open spec fn visit(c: int) -> (int, int) {
    (c / DISPLAY_HEIGHT as int, c % DISPLAY_HEIGHT as int)
}

/// The square of visit `c` when its pixel's state is `lit`.
pub open spec fn square_if(display: Seq<bool>, scale: u32, lit: bool, c: int) -> Option<Square> {
    let (x, y) = visit(c);
    if display[x + y * DISPLAY_WIDTH] == lit {
        Some(square_at(x, y, scale))
    } else {
        None
    }
}

/// The squares of all pixels whose state is `lit`, in visiting order.
pub open spec fn squares_spec(display: Seq<bool>, scale: u32, lit: bool) -> Seq<Square> {
    Seq::new(DISPLAY_SIZE as nat, |c: int| c).filter_map(
        |c: int| square_if(display, scale, lit, c),
    )
}

/// The squares to fill for every pixel whose state is `lit`, visiting the
/// display column by column.
pub fn pixel_squares(display: &Vec<bool>, scale: u32, lit: bool) -> (r: Vec<Square>)
    requires
        display@.len() == DISPLAY_SIZE,
        scale <= MAX_SCALE,
    ensures
        r@ == squares_spec(display@, scale, lit),
{
    let ghost cells = Seq::new(DISPLAY_SIZE as nat, |c: int| c);
    let ghost f = |c: int| square_if(display@, scale, lit, c);
    let mut out: Vec<Square> = Vec::new();
    let mut x: usize = 0;
    while x < DISPLAY_WIDTH
        invariant
            x <= DISPLAY_WIDTH,
            display@.len() == DISPLAY_SIZE,
            scale <= MAX_SCALE,
            cells == Seq::new(DISPLAY_SIZE as nat, |c: int| c),
            f == (|c: int| square_if(display@, scale, lit, c)),
            out@ == cells.take(x * DISPLAY_HEIGHT).filter_map(f),
        decreases DISPLAY_WIDTH - x,
    {
        let mut y: usize = 0;
        while y < DISPLAY_HEIGHT
            invariant
                x < DISPLAY_WIDTH,
                y <= DISPLAY_HEIGHT,
                display@.len() == DISPLAY_SIZE,
                scale <= MAX_SCALE,
                cells == Seq::new(DISPLAY_SIZE as nat, |c: int| c),
                f == (|c: int| square_if(display@, scale, lit, c)),
                out@ == cells.take(x * DISPLAY_HEIGHT + y).filter_map(f),
            decreases DISPLAY_HEIGHT - y,
        {
            let ghost c = x * DISPLAY_HEIGHT + y;
            proof {
                cells.lemma_filter_map_take_succ(f, c);
                assert(visit(c) == (x as int, y as int));
            }
            if display[x + y * DISPLAY_WIDTH] == lit {
                assert(x * scale <= 63 * MAX_SCALE && y * scale <= 31 * MAX_SCALE) by (nonlinear_arith)
                    requires
                        x < 64,
                        y < 32,
                        scale <= MAX_SCALE,
                ;
                let sq = Square {
                    x: (x as u64 * scale as u64) as i32,
                    y: (y as u64 * scale as u64) as i32,
                    side: scale,
                };
                out.push(sq);
            }
            y += 1;
        }
        x += 1;
    }
    assert(cells.take(DISPLAY_SIZE as int) =~= cells);
    out
}

} // verus!
