use vstd::prelude::*;

verus! {

/// Number of pixels in a row of the screen.
pub const WIDTH: usize = 64;

/// Number of rows of the screen.
pub const HEIGHT: usize = 32;

/// Number of pixels of the screen.
pub const PIXELS: usize = 2048;

/// Number of pixels in a row of a sprite.
pub const SPRITE_WIDTH: usize = 8;

/// Place of the pixel in column `x` of row `y` within the screen, which is
/// laid out row after row.
pub open spec fn pixel_index(x: int, y: int) -> int {
    y * WIDTH + x
}

/// The screen with every pixel unlit.
pub open spec fn blank_screen() -> Seq<bool> {
    Seq::new(PIXELS as nat, |p: int| false)
}

/// Whether a sprite row `byte` has its pixel in column `col` set. The most
/// significant bit is the leftmost column.
pub open spec fn sprite_bit(byte: u8, col: int) -> bool {
    (byte >> ((7 - col) as u8)) & 1 == 1
}

/// Whether the sprite row `byte`, drawn with its left end at column `x` of
/// row `y`, covers the pixel at `(px, py)`. Columns wrap at the right edge
/// of the screen and rows at the bottom.
pub open spec fn row_hits(byte: u8, x: int, y: int, px: int, py: int) -> bool {
    let col = (px - x) % (WIDTH as int);
    py == y % (HEIGHT as int) && col < SPRITE_WIDTH && sprite_bit(byte, col)
}

/// The screen after the sprite row `byte` has been XORed in at `(x, y)`.
pub open spec fn draw_row(screen: Seq<bool>, byte: u8, x: int, y: int) -> Seq<bool> {
    Seq::new(
        PIXELS as nat,
        |p: int| screen[p] != row_hits(byte, x, y, p % (WIDTH as int), p / (WIDTH as int)),
    )
}

/// Whether XORing the sprite row `byte` in at `(x, y)` turns a lit pixel off.
pub open spec fn row_collides(screen: Seq<bool>, byte: u8, x: int, y: int) -> bool {
    exists|p: int|
        0 <= p < PIXELS && #[trigger] screen[p] && row_hits(
            byte,
            x,
            y,
            p % (WIDTH as int),
            p / (WIDTH as int),
        )
}

/// The screen after `sprite` has been drawn with its top left corner at
/// `(x, y)`: its rows XORed in one below the other.
pub open spec fn draw(screen: Seq<bool>, x: int, y: int, sprite: Seq<u8>) -> Seq<bool>
    decreases sprite.len(),
{
    if sprite.len() == 0 {
        screen
    } else {
        draw_row(draw(screen, x, y, sprite.drop_last()), sprite.last(), x, y + sprite.len() - 1)
    }
}

/// Whether drawing `sprite` at `(x, y)` turns a lit pixel off at any moment.
pub open spec fn collides(screen: Seq<bool>, x: int, y: int, sprite: Seq<u8>) -> bool
    decreases sprite.len(),
{
    if sprite.len() == 0 {
        false
    } else {
        collides(screen, x, y, sprite.drop_last()) || row_collides(
            draw(screen, x, y, sprite.drop_last()),
            sprite.last(),
            x,
            y + sprite.len() - 1,
        )
    }
}

/// The 64 by 32 monochrome framebuffer.
pub struct Display {
    data: [bool; 2048],
}

impl View for Display {
    type V = Seq<bool>;

    closed spec fn view(&self) -> Seq<bool> {
        self.data@
    }
}

impl Display {
    /// A screen with every pixel unlit.
    pub fn new() -> (display: Display)
        ensures
            display@ == blank_screen(),
    {
        Display { data: [false; 2048] }
    }

    /// Lights the pixel at `(x, y)` if `value` is not zero, and puts it out
    /// if it is.
    pub fn write(&mut self, x: usize, y: usize, value: u8)
        requires
            x < WIDTH,
            y < HEIGHT,
        ensures
            final(self)@ == old(self)@.update(pixel_index(x as int, y as int), value != 0),
    {
        self.data[y * WIDTH + x] = value != 0;
    }

    /// Whether the pixel at `(x, y)` is lit.
    pub fn pixel(&self, x: usize, y: usize) -> (lit: bool)
        requires
            x < WIDTH,
            y < HEIGHT,
        ensures
            lit == self@[pixel_index(x as int, y as int)],
            self@.len() == PIXELS,
    {
        self.data[y * WIDTH + x]
    }

    /// The whole grid, row after row, for a renderer to read.
    pub fn pixels(&self) -> (grid: &[bool; 2048])
        ensures
            grid@ == self@,
            grid@.len() == PIXELS,
    {
        &self.data
    }

    /// Puts every pixel out.
    pub fn clear(&mut self)
        ensures
            final(self)@ == blank_screen(),
    {
        let mut p: usize = 0;
        while p < PIXELS
            invariant
                p <= PIXELS,
                forall|q: int| 0 <= q < p ==> !self.data@[q],
            decreases PIXELS - p,
        {
            self.data[p] = false;
            p += 1;
        }
    }

    /// XORs one sprite row in at `(x, y)` and tells whether a lit pixel
    /// went out.
    fn draw_sprite_row(&mut self, x: usize, y: usize, byte: u8) -> (collision: bool)
        requires
            x < WIDTH,
            y < HEIGHT,
        ensures
            final(self)@ == draw_row(old(self)@, byte, x as int, y as int),
            collision == row_collides(old(self)@, byte, x as int, y as int),
    {
        let mut collision = false;
        let mut col: usize = 0;
        while col < SPRITE_WIDTH
            invariant
                col <= SPRITE_WIDTH,
                x < WIDTH,
                y < HEIGHT,
                forall|p: int|
                    0 <= p < PIXELS ==> self.data@[p] == (old(self).data@[p] != (row_hits(
                        byte,
                        x as int,
                        y as int,
                        p % (WIDTH as int),
                        p / (WIDTH as int),
                    ) && (p % (WIDTH as int) - x) % (WIDTH as int) < col)),
                collision == (exists|p: int|
                    0 <= p < PIXELS && #[trigger] old(self).data@[p] && row_hits(
                        byte,
                        x as int,
                        y as int,
                        p % (WIDTH as int),
                        p / (WIDTH as int),
                    ) && (p % (WIDTH as int) - x) % (WIDTH as int) < col),
            decreases SPRITE_WIDTH - col,
        {
            let shift: u8 = 7 - col as u8;
            if (byte >> shift) & 1 == 1 {
                let px: usize = (x + col) % WIDTH;
                let idx: usize = y * WIDTH + px;
                if self.data[idx] {
                    collision = true;
                    assert(old(self).data@[idx as int]);
                }
                self.data[idx] = !self.data[idx];
            }
            col += 1;
        }
        collision
    }

    /// Draws `sprite` with its top left corner at `(x, y)`: each byte is a
    /// row of eight pixels, XORed into the screen, wrapping at the edges.
    /// Tells whether any lit pixel went out while drawing.
    pub fn draw_sprite(&mut self, x: usize, y: usize, sprite: &Vec<u8>) -> (collision: bool)
        ensures
            final(self)@ == draw(old(self)@, x as int, y as int, sprite@),
            collision == collides(old(self)@, x as int, y as int, sprite@),
    {
        let x0: usize = x % WIDTH;
        let y0: usize = y % HEIGHT;
        let mut collision = false;
        let mut row: usize = 0;
        while row < sprite.len()
            invariant
                row <= sprite.len(),
                x0 == x % WIDTH,
                y0 == y % HEIGHT,
                self@ == draw(old(self)@, x as int, y as int, sprite@.take(row as int)),
                collision == collides(old(self)@, x as int, y as int, sprite@.take(row as int)),
            decreases sprite.len() - row,
        {
            let py: usize = (y0 + row % HEIGHT) % HEIGHT;
            let ghost before = self@;
            let ghost done = sprite@.take(row as int);
            let ghost next = sprite@.take(row + 1);
            proof {
                lemma_wrapped_sum(y as int, row as int);
            }
            let hit = self.draw_sprite_row(x0, py, sprite[row]);
            proof {
                assert(next.drop_last() =~= done);
                lemma_row_wraps(before, sprite@[row as int], x as int, y + row);
            }
            collision = collision || hit;
            row += 1;
        }
        assert(sprite@.take(sprite.len() as int) =~= sprite@);
        collision
    }
}

/// Reducing both terms of a row number to the screen before adding them
/// gives the same row as reducing their sum.
proof fn lemma_wrapped_sum(y: int, row: int)
    requires
        0 <= y,
        0 <= row,
    ensures
        (y % 32 + row % 32) % 32 == (y + row) % 32,
{
}

/// A sprite row lands where its coordinates, reduced to the screen, say.
pub proof fn lemma_row_wraps(screen: Seq<bool>, byte: u8, x: int, y: int)
    ensures
        draw_row(screen, byte, x, y) == draw_row(
            screen,
            byte,
            x % (WIDTH as int),
            y % (HEIGHT as int),
        ),
        row_collides(screen, byte, x, y) == row_collides(
            screen,
            byte,
            x % (WIDTH as int),
            y % (HEIGHT as int),
        ),
{
    assert(forall|px: int, py: int|
        #[trigger] row_hits(byte, x, y, px, py) == row_hits(
            byte,
            x % (WIDTH as int),
            y % (HEIGHT as int),
            px,
            py,
        ));
    assert(draw_row(screen, byte, x, y) =~= draw_row(
        screen,
        byte,
        x % (WIDTH as int),
        y % (HEIGHT as int),
    ));
}

/// Whether drawing `sprite` at `(x, y)` flips the pixel at `(px, py)`: that
/// is, whether an odd number of its rows cover that pixel.
pub open spec fn toggles(sprite: Seq<u8>, x: int, y: int, px: int, py: int) -> bool
    decreases sprite.len(),
{
    if sprite.len() == 0 {
        false
    } else {
        toggles(sprite.drop_last(), x, y, px, py) != row_hits(
            sprite.last(),
            x,
            y + sprite.len() - 1,
            px,
            py,
        )
    }
}

/// Drawing a sprite flips exactly the pixels that it toggles.
pub proof fn lemma_draw_pixel(screen: Seq<bool>, x: int, y: int, sprite: Seq<u8>, p: int)
    requires
        screen.len() == PIXELS,
        0 <= p < PIXELS,
    ensures
        draw(screen, x, y, sprite).len() == PIXELS,
        draw(screen, x, y, sprite)[p] == (screen[p] != toggles(
            sprite,
            x,
            y,
            p % (WIDTH as int),
            p / (WIDTH as int),
        )),
    decreases sprite.len(),
{
    if sprite.len() > 0 {
        lemma_draw_pixel(screen, x, y, sprite.drop_last(), p);
    }
}

/// A sprite leaves alone every pixel of a screen row that lies below its
/// last row and less than a screen's height below its first.
proof fn lemma_untouched_row(sprite: Seq<u8>, x: int, y: int, below: int, px: int, py: int)
    requires
        0 <= y,
        sprite.len() <= below < HEIGHT,
        py == (y + below) % (HEIGHT as int),
    ensures
        !toggles(sprite, x, y, px, py),
    decreases sprite.len(),
{
    if sprite.len() > 0 {
        lemma_untouched_row(sprite.drop_last(), x, y, below, px, py);
    }
}

/// Of a sprite no taller than the screen, only one row can land on a given
/// screen row, so that row alone decides which pixels flip there.
proof fn lemma_single_row(sprite: Seq<u8>, x: int, y: int, r: int, px: int, py: int)
    requires
        0 <= y,
        sprite.len() <= HEIGHT,
        0 <= r < sprite.len(),
        py == (y + r) % (HEIGHT as int),
    ensures
        toggles(sprite, x, y, px, py) == row_hits(sprite[r], x, y + r, px, py),
    decreases sprite.len(),
{
    let rest = sprite.drop_last();
    if r == sprite.len() - 1 {
        lemma_untouched_row(rest, x, y, r, px, py);
    } else {
        lemma_single_row(rest, x, y, r, px, py);
    }
}

/// If some row of a sprite turns a lit pixel off when its turn comes, the
/// sprite as a whole collides.
proof fn lemma_collides_from_row(screen: Seq<bool>, x: int, y: int, sprite: Seq<u8>, r: int)
    requires
        0 <= r < sprite.len(),
        row_collides(draw(screen, x, y, sprite.take(r)), sprite[r], x, y + r),
    ensures
        collides(screen, x, y, sprite),
    decreases sprite.len(),
{
    if r < sprite.len() - 1 {
        let rest = sprite.drop_last();
        assert(rest.take(r) =~= sprite.take(r));
        lemma_collides_from_row(screen, x, y, rest, r);
    }
}

/// A sprite row that is not zero has a pixel set.
proof fn lemma_set_bit(byte: u8) -> (col: int)
    requires
        byte != 0,
    ensures
        0 <= col < SPRITE_WIDTH,
        sprite_bit(byte, col),
{
    assert(byte != 0 ==> (byte >> 7u8) & 1 == 1 || (byte >> 6u8) & 1 == 1 || (byte >> 5u8) & 1 == 1
        || (byte >> 4u8) & 1 == 1 || (byte >> 3u8) & 1 == 1 || (byte >> 2u8) & 1 == 1 || (byte
        >> 1u8) & 1 == 1 || (byte >> 0u8) & 1 == 1) by (bit_vector);
    if (byte >> 7u8) & 1 == 1 {
        0
    } else if (byte >> 6u8) & 1 == 1 {
        1
    } else if (byte >> 5u8) & 1 == 1 {
        2
    } else if (byte >> 4u8) & 1 == 1 {
        3
    } else if (byte >> 3u8) & 1 == 1 {
        4
    } else if (byte >> 2u8) & 1 == 1 {
        5
    } else if (byte >> 1u8) & 1 == 1 {
        6
    } else {
        7
    }
}

/// Drawing a sprite twice at the same place gives back the screen that
/// was there before, whatever the sprite and the screen.
pub proof fn law_draw_twice_restores(screen: Seq<bool>, x: int, y: int, sprite: Seq<u8>)
    requires
        screen.len() == PIXELS,
    ensures
        draw(draw(screen, x, y, sprite), x, y, sprite) == screen,
{
    let once = draw(screen, x, y, sprite);
    let twice = draw(once, x, y, sprite);
    lemma_draw_pixel(screen, x, y, sprite, 0);
    lemma_draw_pixel(once, x, y, sprite, 0);
    assert forall|p: int| 0 <= p < PIXELS implies twice[p] == screen[p] by {
        lemma_draw_pixel(screen, x, y, sprite, p);
        lemma_draw_pixel(once, x, y, sprite, p);
    }
}

/// On a blank screen a sprite no taller than the screen draws without a
/// collision.
pub proof fn law_first_draw_no_collision(x: int, y: int, sprite: Seq<u8>)
    requires
        0 <= x,
        0 <= y,
        sprite.len() <= HEIGHT,
    ensures
        !collides(blank_screen(), x, y, sprite),
    decreases sprite.len(),
{
    if sprite.len() > 0 {
        let rest = sprite.drop_last();
        let row = y + sprite.len() - 1;
        law_first_draw_no_collision(x, y, rest);
        let before = draw(blank_screen(), x, y, rest);
        assert forall|p: int| 0 <= p < PIXELS && row_hits(
            sprite.last(),
            x,
            row,
            p % (WIDTH as int),
            p / (WIDTH as int),
        ) implies !#[trigger] before[p] by {
            lemma_draw_pixel(blank_screen(), x, y, rest, p);
            lemma_untouched_row(
                rest,
                x,
                y,
                sprite.len() - 1,
                p % (WIDTH as int),
                p / (WIDTH as int),
            );
        }
    }
}

/// A sprite no taller than the screen and with a pixel set, drawn a second
/// time at the place where it was drawn on a blank screen, collides.
pub proof fn law_second_draw_collides(x: int, y: int, sprite: Seq<u8>)
    requires
        0 <= x,
        0 <= y,
        sprite.len() <= HEIGHT,
        exists|r: int| 0 <= r < sprite.len() && sprite[r] != 0,
    ensures
        collides(draw(blank_screen(), x, y, sprite), x, y, sprite),
{
    let r = choose|r: int| 0 <= r < sprite.len() && sprite[r] != 0;
    let col = lemma_set_bit(sprite[r]);
    let px = (x + col) % (WIDTH as int);
    let py = (y + r) % (HEIGHT as int);
    let p = pixel_index(px, py);
    let once = draw(blank_screen(), x, y, sprite);
    lemma_draw_pixel(blank_screen(), x, y, sprite, p);
    lemma_single_row(sprite, x, y, r, px, py);
    lemma_draw_pixel(once, x, y, sprite.take(r), p);
    lemma_untouched_row(sprite.take(r), x, y, r, px, py);
    lemma_collides_from_row(once, x, y, sprite, r);
}

/// A sprite no taller than the screen, drawn twice at the same place on a
/// blank screen: the first draw reports no collision, the second leaves the
/// screen blank again and, if the sprite has any pixel set, reports one.
pub proof fn law_sprite_drawn_twice(x: int, y: int, sprite: Seq<u8>)
    requires
        0 <= x,
        0 <= y,
        sprite.len() <= HEIGHT,
    ensures
        !collides(blank_screen(), x, y, sprite),
        draw(draw(blank_screen(), x, y, sprite), x, y, sprite) == blank_screen(),
        collides(draw(blank_screen(), x, y, sprite), x, y, sprite) == (exists|r: int|
            0 <= r < sprite.len() && sprite[r] != 0),
{
    law_first_draw_no_collision(x, y, sprite);
    law_draw_twice_restores(blank_screen(), x, y, sprite);
    if exists|r: int| 0 <= r < sprite.len() && sprite[r] != 0 {
        law_second_draw_collides(x, y, sprite);
    } else {
        lemma_empty_sprite_never_collides(draw(blank_screen(), x, y, sprite), x, y, sprite);
    }
}

/// A sprite without any pixel set collides with nothing.
proof fn lemma_empty_sprite_never_collides(screen: Seq<bool>, x: int, y: int, sprite: Seq<u8>)
    requires
        forall|r: int| 0 <= r < sprite.len() ==> sprite[r] == 0,
    ensures
        !collides(screen, x, y, sprite),
    decreases sprite.len(),
{
    if sprite.len() > 0 {
        lemma_empty_sprite_never_collides(screen, x, y, sprite.drop_last());
        assert(forall|c: u8| c < 8 ==> (0u8 >> c) & 1 != 1) by (bit_vector);
    }
}

} // verus!
