//! The frame buffer: 64 by 32 pixels, one byte per pixel, row after row.
//!
//! The model of the frame buffer is the sequence of its 2048 bytes; the pixel in
//! column `px` of row `py` is the byte at `py * 64 + px`. A sprite is a sequence of
//! row bytes whose highest bit is the leftmost pixel. Drawing is stated pixel by
//! pixel: [`toggles`] says whether a sprite placed at a position reaches a given
//! pixel with a set bit, and [`drawn`] flips exactly those pixels. Both screen axes
//! wrap, each on its own. A sprite is at most fifteen rows tall, so no two of its
//! bits land on the same pixel.

use crate::chip8::ExecutionState;
use vstd::prelude::*;

verus! {

/// Pixels per row.
pub const SCREEN_WIDTH: usize = 64;

/// Rows of the screen.
pub const SCREEN_HEIGHT: usize = 32;

/// Bytes of the frame buffer.
pub const SCREEN_SIZE: usize = 2048;

/// Tallest sprite an instruction can ask for.
pub const MAX_SPRITE_ROWS: u8 = 15;

/// Whether the pixel `bit` places from the left is set in a sprite row.
pub open spec fn lit(line: u8, bit: u8) -> bool {
    line & (0x80u8 >> bit) != 0
}

/// Whether a sprite of `n` rows whose top left corner sits at column `x`, row `y`
/// has a set bit on the pixel in column `px` of row `py`. The sprite row and the bit
/// that could reach the pixel are found by going back from the pixel, around the
/// screen edges if need be.
pub open spec fn toggles(sprite: Seq<u8>, n: int, x: int, y: int, px: int, py: int) -> bool {
    let row = (py - y) % (SCREEN_HEIGHT as int);
    let bit = (px - x) % (SCREEN_WIDTH as int);
    row < n && bit < 8 && lit(sprite[row], bit as u8)
}

/// Whether the sprite reaches the pixel stored at offset `p` of the frame buffer.
pub open spec fn toggles_at(sprite: Seq<u8>, n: int, x: int, y: int, p: int) -> bool {
    toggles(sprite, n, x, y, p % (SCREEN_WIDTH as int), p / (SCREEN_WIDTH as int))
}

/// The frame buffer after the sprite has been XORed onto it.
pub open spec fn drawn(display: Seq<u8>, sprite: Seq<u8>, n: int, x: int, y: int) -> Seq<u8> {
    Seq::new(
        display.len(),
        |p: int|
            if toggles_at(sprite, n, x, y, p) {
                display[p] ^ 1u8
            } else {
                display[p]
            },
    )
}

/// Whether the sprite has a set bit on a pixel that is already set.
pub open spec fn collides(display: Seq<u8>, sprite: Seq<u8>, n: int, x: int, y: int) -> bool {
    exists|p: int|
        0 <= p < SCREEN_SIZE && #[trigger] toggles_at(sprite, n, x, y, p) && display[p] == 1
}

/// Whether the sprite has a set bit on a pixel that is clear.
pub open spec fn lights(display: Seq<u8>, sprite: Seq<u8>, n: int, x: int, y: int) -> bool {
    exists|p: int|
        0 <= p < SCREEN_SIZE && #[trigger] toggles_at(sprite, n, x, y, p) && display[p] == 0
}

/// A frame buffer with every pixel clear.
pub open spec fn blank_screen() -> Seq<u8> {
    Seq::new(SCREEN_SIZE as nat, |p: int| 0u8)
}

/// The frame buffer.
pub struct EmulatedGraphics {
    /// The pixels, row after row; a set pixel holds 1, a clear one 0.
    pub display: [u8; 2048],
}

impl Default for EmulatedGraphics {
    fn default() -> (graphics: EmulatedGraphics)
        ensures
            graphics.display@ == blank_screen(),
    {
        EmulatedGraphics { display: [0; 2048] }
    }
}

/// Clears every pixel of `display`.
pub fn clear_pixels(display: &mut [u8; 2048])
    ensures
        final(display)@ == blank_screen(),
{
    let mut p: usize = 0;
    while p < SCREEN_SIZE
        invariant
            p <= SCREEN_SIZE,
            forall|k: int| 0 <= k < p ==> display@[k] == 0,
        decreases SCREEN_SIZE - p,
    {
        display[p] = 0;
        p += 1;
    }
}

/// Offset in the frame buffer of the pixel that bit `bit` of sprite row `row` lands
/// on when the sprite sits at column `x`, row `y`.
spec fn landing(x: int, y: int, row: int, bit: int) -> int {
    SCREEN_WIDTH * ((y + row) % (SCREEN_HEIGHT as int)) + (x + bit) % (SCREEN_WIDTH as int)
}

/// [`toggles_at`] for a sprite drawn in part: its first `rows` rows in full and the
/// first `bits` pixels of the row after them.
spec fn toggles_upto_at(sprite: Seq<u8>, rows: int, bits: int, x: int, y: int, p: int) -> bool {
    let row = (p / (SCREEN_WIDTH as int) - y) % (SCREEN_HEIGHT as int);
    let bit = (p % (SCREEN_WIDTH as int) - x) % (SCREEN_WIDTH as int);
    &&& bit < 8
    &&& row < rows || (row == rows && bit < bits)
    &&& lit(sprite[row], bit as u8)
}

/// [`collides`] for a sprite drawn in part.
spec fn collides_upto(
    display: Seq<u8>,
    sprite: Seq<u8>,
    rows: int,
    bits: int,
    x: int,
    y: int,
) -> bool {
    exists|p: int|
        0 <= p < SCREEN_SIZE && #[trigger] toggles_upto_at(sprite, rows, bits, x, y, p)
            && display[p] == 1
}

/// [`drawn`] for a sprite drawn in part.
spec fn drawn_upto(
    display: Seq<u8>,
    sprite: Seq<u8>,
    rows: int,
    bits: int,
    x: int,
    y: int,
) -> Seq<u8> {
    Seq::new(
        display.len(),
        |p: int|
            if toggles_upto_at(sprite, rows, bits, x, y, p) {
                display[p] ^ 1u8
            } else {
                display[p]
            },
    )
}

/// One more bit of a sprite row reaches exactly one more pixel, the one it lands
/// on, and only if the bit is set.
proof fn lemma_next_bit(sprite: Seq<u8>, row: int, bit: int, x: int, y: int, p: int)
    requires
        0 <= row < SCREEN_HEIGHT,
        0 <= bit < 8,
        0 <= p < SCREEN_SIZE,
    ensures
        toggles_upto_at(sprite, row, bit + 1, x, y, p) == (toggles_upto_at(
            sprite,
            row,
            bit,
            x,
            y,
            p,
        ) || (p == landing(x, y, row, bit) && lit(sprite[row], bit as u8))),
        p == landing(x, y, row, bit) ==> !toggles_upto_at(sprite, row, bit, x, y, p),
        0 <= landing(x, y, row, bit) < SCREEN_SIZE,
{
    let px = p % 64;
    let py = p / 64;
    let t = landing(x, y, row, bit);
    assert(t % 64 == (x + bit) % 64 && t / 64 == (y + row) % 32);
    assert(((x + bit) % 64 - x) % 64 == bit);
    assert(((y + row) % 32 - y) % 32 == row);
    if (px - x) % 64 == bit && (py - y) % 32 == row {
        assert(px == (x + bit) % 64);
        assert(py == (y + row) % 32);
        assert(p == t);
    }
}

/// A row drawn in full is the start of the next row.
proof fn lemma_next_row(display: Seq<u8>, sprite: Seq<u8>, row: int, x: int, y: int)
    ensures
        drawn_upto(display, sprite, row, 8, x, y) == drawn_upto(display, sprite, row + 1, 0, x, y),
        collides_upto(display, sprite, row, 8, x, y) == collides_upto(
            display,
            sprite,
            row + 1,
            0,
            x,
            y,
        ),
{
    assert forall|p: int|
        toggles_upto_at(sprite, row, 8, x, y, p) == toggles_upto_at(sprite, row + 1, 0, x, y, p) by {}
    assert(drawn_upto(display, sprite, row, 8, x, y) =~= drawn_upto(
        display,
        sprite,
        row + 1,
        0,
        x,
        y,
    ));
    if collides_upto(display, sprite, row, 8, x, y) {
        let p = choose|p: int|
            0 <= p < SCREEN_SIZE && #[trigger] toggles_upto_at(sprite, row, 8, x, y, p)
                && display[p] == 1;
        assert(toggles_upto_at(sprite, row + 1, 0, x, y, p));
    }
    if collides_upto(display, sprite, row + 1, 0, x, y) {
        let p = choose|p: int|
            0 <= p < SCREEN_SIZE && #[trigger] toggles_upto_at(sprite, row + 1, 0, x, y, p)
                && display[p] == 1;
        assert(toggles_upto_at(sprite, row, 8, x, y, p));
    }
}

/// A sprite drawn up to its last row is a sprite drawn.
proof fn lemma_whole_sprite(display: Seq<u8>, sprite: Seq<u8>, n: int, x: int, y: int)
    ensures
        drawn_upto(display, sprite, n, 0, x, y) == drawn(display, sprite, n, x, y),
        collides_upto(display, sprite, n, 0, x, y) == collides(display, sprite, n, x, y),
{
    assert forall|p: int|
        toggles_upto_at(sprite, n, 0, x, y, p) == toggles_at(sprite, n, x, y, p) by {}
    assert(drawn_upto(display, sprite, n, 0, x, y) =~= drawn(display, sprite, n, x, y));
    if collides_upto(display, sprite, n, 0, x, y) {
        let p = choose|p: int|
            0 <= p < SCREEN_SIZE && #[trigger] toggles_upto_at(sprite, n, 0, x, y, p)
                && display[p] == 1;
        assert(toggles_at(sprite, n, x, y, p));
    }
    if collides(display, sprite, n, x, y) {
        let p = choose|p: int|
            0 <= p < SCREEN_SIZE && #[trigger] toggles_at(sprite, n, x, y, p) && display[p] == 1;
        assert(toggles_upto_at(sprite, n, 0, x, y, p));
    }
}

/// Handling one bit of a sprite row takes the partly drawn frame buffer and the
/// collision flag from that bit to the next.
proof fn lemma_blit_step(
    before: Seq<u8>,
    shown: Seq<u8>,
    after: Seq<u8>,
    hit: bool,
    hit_after: bool,
    sprite: Seq<u8>,
    row: int,
    bit: int,
    x: int,
    y: int,
)
    requires
        before.len() == SCREEN_SIZE,
        0 <= row < SCREEN_HEIGHT,
        0 <= bit < 8,
        shown == drawn_upto(before, sprite, row, bit, x, y),
        hit == collides_upto(before, sprite, row, bit, x, y),
        lit(sprite[row], bit as u8) ==> after == shown.update(
            landing(x, y, row, bit),
            shown[landing(x, y, row, bit)] ^ 1u8,
        ) && hit_after == (hit || shown[landing(x, y, row, bit)] == 1),
        !lit(sprite[row], bit as u8) ==> after == shown && hit_after == hit,
    ensures
        after == drawn_upto(before, sprite, row, bit + 1, x, y),
        hit_after == collides_upto(before, sprite, row, bit + 1, x, y),
{
    let t = landing(x, y, row, bit);
    let set = lit(sprite[row], bit as u8);
    assert forall|p: int| 0 <= p < SCREEN_SIZE implies toggles_upto_at(
        sprite,
        row,
        bit + 1,
        x,
        y,
        p,
    ) == (#[trigger] toggles_upto_at(sprite, row, bit, x, y, p) || (p == t && set)) by {
        lemma_next_bit(sprite, row, bit, x, y, p);
    }
    lemma_next_bit(sprite, row, bit, x, y, t);
    assert(after =~= drawn_upto(before, sprite, row, bit + 1, x, y)) by {
        assert forall|p: int| 0 <= p < SCREEN_SIZE implies after[p] == drawn_upto(
            before,
            sprite,
            row,
            bit + 1,
            x,
            y,
        )[p] by {
            lemma_next_bit(sprite, row, bit, x, y, p);
        }
    }
    if hit_after {
        if hit {
            let p = choose|p: int|
                0 <= p < SCREEN_SIZE && #[trigger] toggles_upto_at(sprite, row, bit, x, y, p)
                    && before[p] == 1;
            lemma_next_bit(sprite, row, bit, x, y, p);
            assert(toggles_upto_at(sprite, row, bit + 1, x, y, p));
        } else {
            assert(toggles_upto_at(sprite, row, bit + 1, x, y, t) && before[t] == 1);
        }
    }
    if collides_upto(before, sprite, row, bit + 1, x, y) {
        let p = choose|p: int|
            0 <= p < SCREEN_SIZE && #[trigger] toggles_upto_at(sprite, row, bit + 1, x, y, p)
                && before[p] == 1;
        lemma_next_bit(sprite, row, bit, x, y, p);
        if p != t || !set {
            assert(toggles_upto_at(sprite, row, bit, x, y, p));
        }
    }
}

/// XORs the first `n` rows of `sprite` onto `display` with the top left corner at
/// column `x_pos`, row `y_pos`, and tells whether a set pixel was hit.
pub fn blit(display: &mut [u8; 2048], x_pos: u8, y_pos: u8, n: u8, sprite: &[u8]) -> (collision:
    bool)
    requires
        n <= MAX_SPRITE_ROWS,
        n <= sprite@.len(),
    ensures
        final(display)@ == drawn(old(display)@, sprite@, n as int, x_pos as int, y_pos as int),
        collision == collides(old(display)@, sprite@, n as int, x_pos as int, y_pos as int),
{
    let ghost before = display@;
    let ghost x = x_pos as int;
    let ghost y = y_pos as int;
    let mut collision = false;
    let mut row: u8 = 0;
    assert(display@ =~= drawn_upto(before, sprite@, 0, 0, x, y));
    while row < n
        invariant
            row <= n <= MAX_SPRITE_ROWS,
            n <= sprite@.len(),
            before.len() == SCREEN_SIZE,
            x == x_pos,
            y == y_pos,
            display@ == drawn_upto(before, sprite@, row as int, 0, x, y),
            collision == collides_upto(before, sprite@, row as int, 0, x, y),
        decreases n - row,
    {
        let line = sprite[row as usize];
        let target_row = (y_pos as usize + row as usize) % SCREEN_HEIGHT;
        let mut bit: u8 = 0;
        while bit < 8
            invariant
                bit <= 8,
                row < n <= MAX_SPRITE_ROWS,
                n <= sprite@.len(),
                line == sprite@[row as int],
                target_row == (y + row) % (SCREEN_HEIGHT as int),
                before.len() == SCREEN_SIZE,
                x == x_pos,
                y == y_pos,
                display@ == drawn_upto(before, sprite@, row as int, bit as int, x, y),
                collision == collides_upto(before, sprite@, row as int, bit as int, x, y),
            decreases 8 - bit,
        {
            let target_column = (x_pos as usize + bit as usize) % SCREEN_WIDTH;
            let target = SCREEN_WIDTH * target_row + target_column;
            let ghost shown = display@;
            let ghost hit = collision;
            assert(target == landing(x, y, row as int, bit as int));
            if line & (0b1000_0000 >> bit) != 0 {
                if display[target] == 1 {
                    collision = true;
                }
                let flipped = display[target] ^ 1;
                display[target] = flipped;
            }
            proof {
                lemma_blit_step(
                    before,
                    shown,
                    display@,
                    hit,
                    collision,
                    sprite@,
                    row as int,
                    bit as int,
                    x,
                    y,
                );
            }
            bit += 1;
        }
        proof {
            lemma_next_row(before, sprite@, row as int, x, y);
        }
        row += 1;
    }
    proof {
        lemma_whole_sprite(before, sprite@, n as int, x, y);
    }
    collision
}

impl EmulatedGraphics {
    /// A frame buffer with every pixel clear.
    pub fn new() -> (graphics: Self)
        ensures
            graphics.display@ == blank_screen(),
    {
        EmulatedGraphics { display: [0; 2048] }
    }

    /// Clears every pixel.
    pub fn clear_display(&mut self) -> (state: ExecutionState)
        ensures
            state == ExecutionState::Continue,
            final(self).display@ == blank_screen(),
    {
        clear_pixels(&mut self.display);
        ExecutionState::Continue
    }

    /// XORs the first `n` rows of `sprite` onto the screen with the top left corner
    /// at column `x_pos`, row `y_pos`; both coordinates wrap around the screen. The
    /// result tells whether a pixel that was set got cleared.
    pub fn draw_sprite(&mut self, x_pos: u8, y_pos: u8, n: u8, sprite: &[u8]) -> (collision: bool)
        requires
            n <= MAX_SPRITE_ROWS,
            n <= sprite@.len(),
        ensures
            final(self).display@ == drawn(
                old(self).display@,
                sprite@,
                n as int,
                x_pos as int,
                y_pos as int,
            ),
            collision == collides(old(self).display@, sprite@, n as int, x_pos as int, y_pos as int),
    {
        blit(&mut self.display, x_pos, y_pos, n, sprite)
    }
}

/// Drawing the same sprite twice at the same place restores the frame buffer, and
/// the second drawing reports a collision exactly when the first one lit a pixel
/// that was clear.
pub proof fn lemma_draw_twice(display: Seq<u8>, sprite: Seq<u8>, n: int, x: int, y: int)
    requires
        display.len() == SCREEN_SIZE,
    ensures
        drawn(drawn(display, sprite, n, x, y), sprite, n, x, y) == display,
        collides(drawn(display, sprite, n, x, y), sprite, n, x, y) == lights(
            display,
            sprite,
            n,
            x,
            y,
        ),
{
    let once = drawn(display, sprite, n, x, y);
    assert forall|v: u8| (#[trigger] (v ^ 1u8)) ^ 1u8 == v && ((v ^ 1u8) == 1u8 <==> v == 0u8) by {
        assert((v ^ 1u8) ^ 1u8 == v && ((v ^ 1u8) == 1u8 <==> v == 0u8)) by (bit_vector);
    }
    assert(drawn(once, sprite, n, x, y) =~= display);
    if collides(once, sprite, n, x, y) {
        let p = choose|p: int|
            0 <= p < SCREEN_SIZE && #[trigger] toggles_at(sprite, n, x, y, p) && once[p] == 1;
        assert(toggles_at(sprite, n, x, y, p) && display[p] == 0);
    }
    if lights(display, sprite, n, x, y) {
        let p = choose|p: int|
            0 <= p < SCREEN_SIZE && #[trigger] toggles_at(sprite, n, x, y, p) && display[p] == 0;
        assert(toggles_at(sprite, n, x, y, p) && once[p] == 1);
    }
}

} // verus!
