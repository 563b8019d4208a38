//! Sprites and how they are composited onto the display.
//!
//! A sprite is a sequence of bytes, one per row, top row first. The most
//! significant bit of a byte is the leftmost of its eight pixels. Drawing
//! a sprite at `(vx, vy)` toggles, for every set bit at row `r` and column
//! `c`, the pixel at column `(vx + c) mod 64` and row `(vy + r) mod 32`: a
//! sprite that runs off an edge comes back in on the opposite one.

use vstd::prelude::*;
use vstd::arithmetic::div_mod::lemma_fundamental_div_mod;
use vstd::arithmetic::div_mod::lemma_fundamental_div_mod_converse;
use crate::model::DISPLAY_SIZE;

verus! {

/// Whether the pixel in column `col` (0 is leftmost) of a sprite row is
/// set.
pub open spec fn bit_at(byte: u8, col: int) -> bool {
    (byte >> ((7 - col) as u8)) & 1u8 == 1u8
}

/// Where on the display the pixel at column `x`, row `y` is stored. Both
/// coordinates wrap.
pub open spec fn pixel_index(x: int, y: int) -> int {
    x % 64 + 64 * (y % 32)
}

/// The sprite column that lands on display pixel `p` when the sprite is
/// drawn at column `vx`.
pub open spec fn column_in_sprite(p: int, vx: int) -> int {
    (p % 64 - vx) % 64
}

/// The sprite row that lands on display pixel `p` when the sprite is drawn
/// at row `vy`.
pub open spec fn row_in_sprite(p: int, vy: int) -> int {
    (p / 64 - vy) % 32
}

/// Whether drawing `sprite` at `(vx, vy)` puts a set bit on display pixel
/// `p`.
pub open spec fn sprite_hits(sprite: Seq<u8>, vx: int, vy: int, p: int) -> bool {
    let col = column_in_sprite(p, vx);
    let row = row_in_sprite(p, vy);
    col < 8 && row < sprite.len() && bit_at(sprite[row], col)
}

/// The display after `sprite` has been drawn at `(vx, vy)`: each pixel is
/// the exclusive or of what it was and what the sprite puts on it.
pub open spec fn drawn(display: Seq<bool>, sprite: Seq<u8>, vx: int, vy: int) -> Seq<bool> {
    Seq::new(2048, |p: int| display[p] != sprite_hits(sprite, vx, vy, p))
}

/// Whether drawing `sprite` at `(vx, vy)` puts a set bit on a pixel that
/// is already on.
pub open spec fn collides(display: Seq<bool>, sprite: Seq<u8>, vx: int, vy: int) -> bool {
    exists|p: int| 0 <= p < 2048 && display[p] && #[trigger] sprite_hits(sprite, vx, vy, p)
}

/// As `sprite_hits`, but counting only the first `done` sprite bits, taken
/// row by row and left to right.
spec fn hits_so_far(sprite: Seq<u8>, vx: int, vy: int, p: int, done: int) -> bool {
    sprite_hits(sprite, vx, vy, p) && 8 * row_in_sprite(p, vy) + column_in_sprite(p, vx) < done
}

spec fn collides_so_far(display: Seq<bool>, sprite: Seq<u8>, vx: int, vy: int, done: int) -> bool {
    exists|p: int|
        0 <= p < 2048 && display[p] && #[trigger] hits_so_far(sprite, vx, vy, p, done)
}

/// Adding `offset` to `v` modulo `m` and taking `v` away again gives
/// `offset` back, and no other residue does.
proof fn lemma_wrap_round_trip(v: int, offset: int, m: int)
    requires
        0 < m,
        0 <= offset < m,
    ensures
        ((v + offset) % m - v) % m == offset,
        forall|a: int| 0 <= a < m && #[trigger] ((a - v) % m) == offset ==> a == (v + offset) % m,
{
    let a = (v + offset) % m;
    let k = (v + offset) / m;
    lemma_fundamental_div_mod(v + offset, m);
    assert(a - v == (-k) * m + offset) by (nonlinear_arith)
        requires
            v + offset == m * k + a,
    ;
    lemma_fundamental_div_mod_converse(a - v, m, -k, offset);
    assert forall|b: int| 0 <= b < m && #[trigger] ((b - v) % m) == offset implies b == a by {
        let j = (b - v) / m;
        lemma_fundamental_div_mod(b - v, m);
        assert(v + offset == (-j) * m + b) by (nonlinear_arith)
            requires
                b - v == m * j + offset,
        ;
        lemma_fundamental_div_mod_converse(v + offset, m, -j, b);
    }
}

/// The sprite bit at `(row, col)` lands on exactly one display pixel.
proof fn lemma_landing(vx: int, vy: int, row: int, col: int)
    requires
        0 <= row < 32,
        0 <= col < 8,
    ensures
        0 <= pixel_index(vx + col, vy + row) < 2048,
        column_in_sprite(pixel_index(vx + col, vy + row), vx) == col,
        row_in_sprite(pixel_index(vx + col, vy + row), vy) == row,
        forall|p: int|
            0 <= p < 2048 && column_in_sprite(p, vx) == col && #[trigger] row_in_sprite(p, vy)
                == row ==> p == pixel_index(vx + col, vy + row),
{
    let a = (vx + col) % 64;
    let b = (vy + row) % 32;
    let q = pixel_index(vx + col, vy + row);
    lemma_wrap_round_trip(vx, col, 64);
    lemma_wrap_round_trip(vy, row, 32);
    lemma_fundamental_div_mod_converse(q, 64, b, a);
    assert forall|p: int|
        0 <= p < 2048 && column_in_sprite(p, vx) == col && #[trigger] row_in_sprite(p, vy)
            == row implies p == q by {
        assert(((p % 64) - vx) % 64 == col);
        assert(((p / 64) - vy) % 32 == row);
        assert(p % 64 == a);
        assert(p / 64 == b);
    }
}

/// Nothing drawn yet: no pixel is hit.
proof fn lemma_none_done(display: Seq<bool>, sprite: Seq<u8>, vx: int, vy: int)
    ensures
        !collides_so_far(display, sprite, vx, vy, 0),
        forall|p: int| !#[trigger] hits_so_far(sprite, vx, vy, p, 0),
{
}

/// All rows drawn: every hit has been counted.
proof fn lemma_all_done(display: Seq<bool>, sprite: Seq<u8>, vx: int, vy: int)
    ensures
        collides_so_far(display, sprite, vx, vy, 8 * (sprite.len() as int)) == collides(
            display,
            sprite,
            vx,
            vy,
        ),
        forall|p: int| #[trigger]
            hits_so_far(sprite, vx, vy, p, 8 * (sprite.len() as int)) == sprite_hits(
                sprite,
                vx,
                vy,
                p,
            ),
{
    let all = 8 * (sprite.len() as int);
    assert forall|p: int| #[trigger]
        hits_so_far(sprite, vx, vy, p, all) == sprite_hits(sprite, vx, vy, p) by {}
    if collides(display, sprite, vx, vy) {
        let p = choose|p: int|
            0 <= p < 2048 && display[p] && #[trigger] sprite_hits(sprite, vx, vy, p);
        assert(hits_so_far(sprite, vx, vy, p, all));
    }
    if collides_so_far(display, sprite, vx, vy, all) {
        let p = choose|p: int|
            0 <= p < 2048 && display[p] && #[trigger] hits_so_far(sprite, vx, vy, p, all);
        assert(sprite_hits(sprite, vx, vy, p));
    }
}

/// What one more sprite bit changes: only the pixel it lands on, and only
/// if it is set.
proof fn lemma_one_more(
    display: Seq<bool>,
    sprite: Seq<u8>,
    vx: int,
    vy: int,
    row: int,
    col: int,
)
    requires
        0 <= row < sprite.len() <= 32,
        0 <= col < 8,
    ensures
        ({
            let done = 8 * row + col;
            let q = pixel_index(vx + col, vy + row);
            let lit = bit_at(sprite[row], col);
            &&& !hits_so_far(sprite, vx, vy, q, done)
            &&& hits_so_far(sprite, vx, vy, q, done + 1) == lit
            &&& forall|p: int|
                0 <= p < 2048 && p != q ==> #[trigger] hits_so_far(sprite, vx, vy, p, done + 1)
                    == hits_so_far(sprite, vx, vy, p, done)
            &&& collides_so_far(display, sprite, vx, vy, done + 1) == (collides_so_far(
                display,
                sprite,
                vx,
                vy,
                done,
            ) || (lit && display[q]))
        }),
{
    let done = 8 * row + col;
    let q = pixel_index(vx + col, vy + row);
    let lit = bit_at(sprite[row], col);
    lemma_landing(vx, vy, row, col);
    assert forall|p: int| 0 <= p < 2048 && p != q implies #[trigger] hits_so_far(
        sprite,
        vx,
        vy,
        p,
        done + 1,
    ) == hits_so_far(sprite, vx, vy, p, done) by {
        if hits_so_far(sprite, vx, vy, p, done + 1) && !hits_so_far(sprite, vx, vy, p, done) {
            assert(8 * row_in_sprite(p, vy) + column_in_sprite(p, vx) == done);
            assert(row_in_sprite(p, vy) == row);
        }
    }
    if collides_so_far(display, sprite, vx, vy, done + 1) {
        let p = choose|p: int|
            0 <= p < 2048 && display[p] && #[trigger] hits_so_far(sprite, vx, vy, p, done + 1);
        if p != q {
            assert(hits_so_far(sprite, vx, vy, p, done));
        }
    }
    if collides_so_far(display, sprite, vx, vy, done) {
        let p = choose|p: int|
            0 <= p < 2048 && display[p] && #[trigger] hits_so_far(sprite, vx, vy, p, done);
        assert(hits_so_far(sprite, vx, vy, p, done + 1));
    }
    if lit && display[q] {
        assert(hits_so_far(sprite, vx, vy, q, done + 1));
    }
}

/// Where a sprite bit lands: the pixel in column `(vx + col) mod 64` and
/// row `(vy + row) mod 32` is toggled exactly if the bit is set. A sprite
/// that reaches past the right or bottom edge so comes back in at column
/// or row zero.
pub proof fn lemma_drawn_pixel(
    display: Seq<bool>,
    sprite: Seq<u8>,
    vx: int,
    vy: int,
    row: int,
    col: int,
)
    requires
        0 <= row < sprite.len() <= 32,
        0 <= col < 8,
    ensures
        0 <= pixel_index(vx + col, vy + row) < 2048,
        drawn(display, sprite, vx, vy)[pixel_index(vx + col, vy + row)] == (display[pixel_index(
            vx + col,
            vy + row,
        )] != bit_at(sprite[row], col)),
{
    lemma_landing(vx, vy, row, col);
}

/// A pixel that no set sprite bit lands on keeps its state.
pub proof fn lemma_drawn_elsewhere(display: Seq<bool>, sprite: Seq<u8>, vx: int, vy: int, p: int)
    requires
        0 <= p < 2048,
        !sprite_hits(sprite, vx, vy, p),
    ensures
        drawn(display, sprite, vx, vy)[p] == display[p],
{
}

/// A sprite collides exactly if one of its set bits, anywhere in it,
/// lands on a pixel that is on.
pub proof fn lemma_collides_iff_overlap(display: Seq<bool>, sprite: Seq<u8>, vx: int, vy: int)
    requires
        sprite.len() <= 32,
    ensures
        collides(display, sprite, vx, vy) <==> exists|row: int, col: int|
            0 <= row < sprite.len() && 0 <= col < 8 && bit_at(sprite[row], col)
                && #[trigger] display[pixel_index(vx + col, vy + row)],
{
    if collides(display, sprite, vx, vy) {
        let p = choose|p: int|
            0 <= p < 2048 && display[p] && #[trigger] sprite_hits(sprite, vx, vy, p);
        let row = row_in_sprite(p, vy);
        let col = column_in_sprite(p, vx);
        lemma_landing(vx, vy, row, col);
        assert(p == pixel_index(vx + col, vy + row));
        assert(display[pixel_index(vx + col, vy + row)]);
    }
    if exists|row: int, col: int|
        0 <= row < sprite.len() && 0 <= col < 8 && bit_at(sprite[row], col)
            && #[trigger] display[pixel_index(vx + col, vy + row)] {
        let (row, col) = choose|row: int, col: int|
            0 <= row < sprite.len() && 0 <= col < 8 && bit_at(sprite[row], col)
                && #[trigger] display[pixel_index(vx + col, vy + row)];
        lemma_landing(vx, vy, row, col);
        assert(sprite_hits(sprite, vx, vy, pixel_index(vx + col, vy + row)));
    }
}

/// Drawing the same sprite twice at the same place gives the display
/// back as it was.
pub proof fn lemma_draw_twice(display: Seq<bool>, sprite: Seq<u8>, vx: int, vy: int)
    requires
        display.len() == DISPLAY_SIZE,
    ensures
        drawn(drawn(display, sprite, vx, vy), sprite, vx, vy) == display,
{
    assert(drawn(drawn(display, sprite, vx, vy), sprite, vx, vy) =~= display);
}

/// The second of two draws of the same sprite at the same place collides
/// exactly where the first one switched a pixel on.
pub proof fn lemma_second_draw_collides(display: Seq<bool>, sprite: Seq<u8>, vx: int, vy: int)
    ensures
        collides(drawn(display, sprite, vx, vy), sprite, vx, vy) <==> exists|p: int|
            0 <= p < 2048 && !display[p] && #[trigger] sprite_hits(sprite, vx, vy, p),
{
    let once = drawn(display, sprite, vx, vy);
    if collides(once, sprite, vx, vy) {
        let p = choose|p: int| 0 <= p < 2048 && once[p] && #[trigger] sprite_hits(sprite, vx, vy, p);
        assert(!display[p]);
    }
    if exists|p: int| 0 <= p < 2048 && !display[p] && #[trigger] sprite_hits(sprite, vx, vy, p) {
        let p = choose|p: int|
            0 <= p < 2048 && !display[p] && #[trigger] sprite_hits(sprite, vx, vy, p);
        assert(once[p]);
    }
}

/// The sprite of `rows` bytes that starts at `start` in `memory`.
pub open spec fn sprite_at(memory: Seq<u8>, start: int, rows: int) -> Seq<u8> {
    Seq::new(rows as nat, |r: int| memory[start + r])
}

/// Draws the `rows`-byte sprite at `memory[start..]` onto `display` at
/// `(vx, vy)` and says whether it collided with a pixel that was on.
pub fn draw_sprite(
    display: &mut [bool; 2048],
    memory: &[u8; 4096],
    start: usize,
    rows: usize,
    vx: u8,
    vy: u8,
) -> (collision: bool)
    requires
        rows == 0 || start + rows <= 4096,
        rows <= 32,
    ensures
        final(display)@ == drawn(
            old(display)@,
            sprite_at(memory@, start as int, rows as int),
            vx as int,
            vy as int,
        ),
        collision == collides(
            old(display)@,
            sprite_at(memory@, start as int, rows as int),
            vx as int,
            vy as int,
        ),
{
    let ghost before = display@;
    let ghost sprite = sprite_at(memory@, start as int, rows as int);
    let mut collision = false;
    let mut row: usize = 0;
    proof {
        lemma_none_done(before, sprite, vx as int, vy as int);
    }
    while row < rows
        invariant
            row <= rows <= 32,
            rows == 0 || start + rows <= 4096,
            before.len() == DISPLAY_SIZE,
            sprite == sprite_at(memory@, start as int, rows as int),
            forall|p: int|
                0 <= p < 2048 ==> display@[p] == (before[p] != #[trigger] hits_so_far(
                    sprite,
                    vx as int,
                    vy as int,
                    p,
                    8 * row,
                )),
            collision == collides_so_far(before, sprite, vx as int, vy as int, 8 * row),
        decreases rows - row,
    {
        let byte = memory[start + row];
        let py = (vy as usize + row) % 32;
        let mut col: usize = 0;
        while col < 8
            invariant
                row < rows <= 32,
                col <= 8,
                before.len() == DISPLAY_SIZE,
                sprite.len() == rows,
                byte == sprite[row as int],
                py == (vy + row) % 32,
                forall|p: int|
                    0 <= p < 2048 ==> display@[p] == (before[p] != #[trigger] hits_so_far(
                        sprite,
                        vx as int,
                        vy as int,
                        p,
                        8 * row + col,
                    )),
                collision == collides_so_far(
                    before,
                    sprite,
                    vx as int,
                    vy as int,
                    8 * row + col,
                ),
            decreases 8 - col,
        {
            let lit = (byte >> ((7 - col) as u8)) & 1u8 == 1u8;
            let px = (vx as usize + col) % 64;
            let index = px + 64 * py;
            proof {
                lemma_one_more(before, sprite, vx as int, vy as int, row as int, col as int);
                assert(index == pixel_index(vx + col, vy + row));
                assert(lit == bit_at(byte, col as int));
            }
            if lit {
                if display[index] {
                    collision = true;
                }
                display[index] = !display[index];
            }
            col = col + 1;
        }
        row = row + 1;
    }
    proof {
        lemma_all_done(before, sprite, vx as int, vy as int);
        assert forall|p: int| 0 <= p < 2048 implies display@[p] == drawn(
            before,
            sprite,
            vx as int,
            vy as int,
        )[p] by {
            assert(hits_so_far(sprite, vx as int, vy as int, p, 8 * row) == sprite_hits(
                sprite,
                vx as int,
                vy as int,
                p,
            ));
        }
        assert(display@ =~= drawn(before, sprite, vx as int, vy as int));
    }
    collision
}

/// Switches every pixel off.
pub fn clear(display: &mut [bool; 2048])
    ensures
        final(display)@ == Seq::new(2048, |p: int| false),
{
    let mut p: usize = 0;
    while p < 2048
        invariant
            p <= 2048,
            forall|q: int| 0 <= q < p ==> !display@[q],
        decreases 2048 - p,
    {
        display[p] = false;
        p = p + 1;
    }
}

} // verus!
