//! Sprite drawing on the 64 x 32 display buffer.
use vstd::prelude::*;
use crate::machine::{mem_at, DISPLAY_HEIGHT, DISPLAY_SIZE, DISPLAY_WIDTH, MEM_SIZE};

verus! {

/// Bit `col` of a sprite row, the most significant bit being column 0.
pub open spec fn sprite_bit(b: u8, col: int) -> bool {
    (b >> ((7 - col) as u8)) & 1u8 == 1u8
}

/// The sprite row that lands on display row `p / 64` when drawing at row `vy`.
pub open spec fn sprite_row(p: int, vy: u8) -> int {
    (p / DISPLAY_WIDTH as int - vy) % DISPLAY_HEIGHT as int
}

/// The sprite column that lands on display column `p % 64` when drawing at column `vx`.
pub open spec fn sprite_col(p: int, vx: u8) -> int {
    (p % DISPLAY_WIDTH as int - vx) % DISPLAY_WIDTH as int
}

/// Whether the `n`-row sprite read from `mem` at `index`, drawn at
/// (`vx`, `vy`) with wrap-around, has a set bit on pixel `p`.
pub open spec fn sprite_hits(mem: Seq<u8>, index: u16, vx: u8, vy: u8, n: u8, p: int) -> bool {
    let row = sprite_row(p, vy);
    let col = sprite_col(p, vx);
    &&& row < n
    &&& col < 8
    &&& sprite_bit(mem_at(mem, index + row), col)
}

/// The display after the sprite is XORed onto it.
pub open spec fn drawn(display: Seq<bool>, mem: Seq<u8>, index: u16, vx: u8, vy: u8, n: u8) -> Seq<
    bool,
> {
    Seq::new(display.len(), |p: int| display[p] != sprite_hits(mem, index, vx, vy, n, p))
}

/// Whether drawing the sprite erases a pixel that was set.
pub open spec fn collides(display: Seq<bool>, mem: Seq<u8>, index: u16, vx: u8, vy: u8, n: u8) -> bool {
    exists|p: int|
        0 <= p < DISPLAY_SIZE && #[trigger] sprite_hits(mem, index, vx, vy, n, p) && display[p]
}

/// Order in which the drawing loop reaches a pixel: row by row, column by column.
spec fn visit_order(p: int, vx: u8, vy: u8) -> int {
    sprite_row(p, vy) * 8 + sprite_col(p, vx)
}

/// Display pixel of sprite row `r` and column `c`; it is the only pixel
/// that row and column land on.
proof fn lemma_target(vx: u8, vy: u8, r: int, c: int, p: int)
    requires
        0 <= r < DISPLAY_HEIGHT,
        0 <= c < 8,
    ensures
        ({
            let t = (vx + c) % DISPLAY_WIDTH as int + ((vy + r) % DISPLAY_HEIGHT as int)
                * DISPLAY_WIDTH as int;
            &&& 0 <= t < DISPLAY_SIZE
            &&& sprite_row(t, vy) == r
            &&& sprite_col(t, vx) == c
            &&& (0 <= p < DISPLAY_SIZE && sprite_row(p, vy) == r && sprite_col(p, vx) == c)
                ==> p == t
        }),
{
    let t = (vx + c) % 64 + ((vy + r) % 32) * 64;
    assert(t / 64 == (vy + r) % 32 && t % 64 == (vx + c) % 64) by (nonlinear_arith)
        requires
            t == (vx + c) % 64 + ((vy + r) % 32) * 64,
            0 <= (vx + c) % 64 < 64,
    ;
    if 0 <= p < DISPLAY_SIZE && sprite_row(p, vy) == r && sprite_col(p, vx) == c {
        assert(p == p % 64 + (p / 64) * 64) by (nonlinear_arith)
            requires
                0 <= p,
        ;
        assert(p / 64 < 32) by (nonlinear_arith)
            requires
                0 <= p < 2048,
        ;
    }
}

/// XORs the `n`-row sprite stored at `index` onto `display` at (`vx`, `vy`),
/// wrapping at the display's edges; returns whether a set pixel was erased.
pub fn draw_sprite(display: &mut Vec<bool>, mem: &Vec<u8>, index: u16, vx: u8, vy: u8, n: u8) -> (collided: bool)
    requires
        old(display)@.len() == DISPLAY_SIZE,
        mem@.len() == MEM_SIZE,
        n < 16,
    ensures
        final(display)@ == drawn(old(display)@, mem@, index, vx, vy, n),
        collided == collides(old(display)@, mem@, index, vx, vy, n),
{
    let ghost d0 = display@;
    let ghost hit = |p: int| sprite_hits(mem@, index, vx, vy, n, p);
    let mut collided = false;
    let mut row: u8 = 0;
    while row < n
        invariant
            row <= n,
            n < 16,
            mem@.len() == MEM_SIZE,
            d0.len() == DISPLAY_SIZE,
            hit == (|p: int| sprite_hits(mem@, index, vx, vy, n, p)),
            display@ == Seq::new(
                DISPLAY_SIZE as nat,
                |p: int| d0[p] != (hit(p) && visit_order(p, vx, vy) < row * 8),
            ),
            collided == exists|p: int|
                0 <= p < DISPLAY_SIZE && #[trigger] hit(p) && visit_order(p, vx, vy) < row * 8
                    && d0[p],
        decreases n - row,
    {
        let byte = mem[(index as usize + row as usize) % MEM_SIZE];
        let mut col: u8 = 0;
        while col < 8
            invariant
                row < n,
                col <= 8,
                n < 16,
                mem@.len() == MEM_SIZE,
                d0.len() == DISPLAY_SIZE,
                byte == mem_at(mem@, index + row),
                hit == (|p: int| sprite_hits(mem@, index, vx, vy, n, p)),
                display@ == Seq::new(
                    DISPLAY_SIZE as nat,
                    |p: int| d0[p] != (hit(p) && visit_order(p, vx, vy) < row * 8 + col),
                ),
                collided == exists|p: int|
                    0 <= p < DISPLAY_SIZE && #[trigger] hit(p) && visit_order(p, vx, vy) < row
                        * 8 + col && d0[p],
            decreases 8 - col,
        {
            let x_pos = (vx as usize + col as usize) % DISPLAY_WIDTH;
            let y_pos = (vy as usize + row as usize) % DISPLAY_HEIGHT;
            let p = x_pos + y_pos * DISPLAY_WIDTH;
            let bit = (byte >> (7 - col)) & 1 == 1;
            let ghost k = row * 8 + col;
            proof {
                lemma_target(vx, vy, row as int, col as int, 0);
                assert forall|q: int| 0 <= q < DISPLAY_SIZE && hit(q) implies (visit_order(q, vx, vy)
                    == k <==> q == p) by {
                    lemma_target(vx, vy, row as int, col as int, q);
                }
                assert(hit(p as int) == bit);
            }
            if bit {
                if display[p] {
                    collided = true;
                    assert(hit(p as int) && visit_order(p as int, vx, vy) < k + 1 && d0[p as int]);
                }
                let cur = display[p];
                display.set(p, !cur);
            }
            col += 1;
            assert(display@ =~= Seq::new(
                DISPLAY_SIZE as nat,
                |q: int| d0[q] != (hit(q) && visit_order(q, vx, vy) < row * 8 + col),
            ));
        }
        row += 1;
    }
    assert(display@ =~= drawn(d0, mem@, index, vx, vy, n)) by {
        assert forall|p: int| 0 <= p < DISPLAY_SIZE && hit(p) implies visit_order(p, vx, vy) < n
            * 8 by {}
    }
    assert(collided == collides(d0, mem@, index, vx, vy, n)) by {
        if collides(d0, mem@, index, vx, vy, n) {
            let p = choose|p: int|
                0 <= p < DISPLAY_SIZE && #[trigger] sprite_hits(mem@, index, vx, vy, n, p)
                    && d0[p];
            assert(hit(p));
        }
    }
    collided
}

/// Drawing the same sprite twice leaves the display as it was, and the
/// second draw collides exactly when the sprite covers a pixel that was
/// clear before the first.
pub proof fn lemma_draw_twice(display: Seq<bool>, mem: Seq<u8>, index: u16, vx: u8, vy: u8, n: u8)
    requires
        display.len() == DISPLAY_SIZE,
    ensures
        drawn(drawn(display, mem, index, vx, vy, n), mem, index, vx, vy, n) == display,
        collides(drawn(display, mem, index, vx, vy, n), mem, index, vx, vy, n) <==> exists|p: int|
            0 <= p < DISPLAY_SIZE && #[trigger] sprite_hits(mem, index, vx, vy, n, p) && !display[p],
{
    let once = drawn(display, mem, index, vx, vy, n);
    assert(drawn(once, mem, index, vx, vy, n) =~= display);
    if exists|p: int|
        0 <= p < DISPLAY_SIZE && #[trigger] sprite_hits(mem, index, vx, vy, n, p) && !display[p] {
        let p = choose|p: int|
            0 <= p < DISPLAY_SIZE && #[trigger] sprite_hits(mem, index, vx, vy, n, p) && !display[p];
        assert(once[p]);
    }
}

} // verus!
