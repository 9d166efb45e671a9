//! The 64×32 one-bit framebuffer.

use vstd::prelude::*;

verus! {

/// Rows of the screen.
pub const HEIGHT: usize = 32;

/// Columns of the screen.
pub const WIDTH: usize = 64;

/// The framebuffer, and whether it changed since it was last handed out for
/// rendering.
#[derive(Clone, Copy, Debug)]
pub struct Graphic {
    inner: [[bool; 64]; 32],
    rerender: bool,
}

impl View for Graphic {
    type V = Seq<Seq<bool>>;

    /// The pixels, row by row: `self@[y][x]` is the pixel of column `x` in
    /// row `y`. Whether the screen changed since it was last rendered is not
    /// part of the view: `dirty()` says it.
    closed spec fn view(&self) -> Seq<Seq<bool>> {
        Seq::new(32, |y: int| self.inner@[y]@)
    }
}

/// A screen has 32 rows of 64 pixels.
pub open spec fn is_screen(s: Seq<Seq<bool>>) -> bool {
    s.len() == 32 && forall|y: int| 0 <= y < 32 ==> (#[trigger] s[y]).len() == 64
}

/// The screen with every pixel off.
pub open spec fn blank() -> Seq<Seq<bool>> {
    Seq::new(32, |y: int| Seq::new(64, |x: int| false))
}

/// A bitmap as rows of eight entries each.
pub open spec fn rows_of(bitmap: Seq<[u8; 8]>) -> Seq<Seq<u8>> {
    Seq::new(bitmap.len(), |r: int| bitmap[r]@)
}

/// The bitmap, laid with its top left corner at column `lx` of row `ly`, has
/// a set bit over the pixel of column `x` in row `y`. An entry of the bitmap
/// is a set bit when it is 1.
pub open spec fn sprite_at(bitmap: Seq<Seq<u8>>, lx: int, ly: int, x: int, y: int) -> bool {
    &&& ly <= y < ly + bitmap.len()
    &&& lx <= x < lx + 8
    &&& bitmap[y - ly][x - lx] == 1
}

/// The screen after the bitmap is XORed onto it at (`vx` mod 64, `vy` mod
/// 32). What would fall beyond the right or the bottom edge is dropped.
pub open spec fn blitted(screen: Seq<Seq<bool>>, bitmap: Seq<Seq<u8>>, vx: int, vy: int) -> Seq<
    Seq<bool>,
> {
    Seq::new(
        32,
        |y: int| Seq::new(64, |x: int| toggled(screen, bitmap, vx % 64, vy % 32, x, y)),
    )
}

/// The pixel of column `x` in row `y` after the bitmap, laid at (`lx`, `ly`),
/// is XORed onto the screen.
pub open spec fn toggled(
    screen: Seq<Seq<bool>>,
    bitmap: Seq<Seq<u8>>,
    lx: int,
    ly: int,
    x: int,
    y: int,
) -> bool {
    screen[y][x] != sprite_at(bitmap, lx, ly, x, y)
}

/// The pixel of column `x` in row `y` is on and lies under a set bit of the
/// bitmap laid at (`lx`, `ly`).
pub open spec fn hit(
    screen: Seq<Seq<bool>>,
    bitmap: Seq<Seq<u8>>,
    lx: int,
    ly: int,
    x: int,
    y: int,
) -> bool {
    screen[y][x] && sprite_at(bitmap, lx, ly, x, y)
}

/// Some pixel that is on lies under a set bit of the bitmap laid at (`vx`
/// mod 64, `vy` mod 32): drawing turns it off.
pub open spec fn collides(screen: Seq<Seq<bool>>, bitmap: Seq<Seq<u8>>, vx: int, vy: int) -> bool {
    exists|x: int, y: int|
        0 <= x < 64 && 0 <= y < 32 && #[trigger] hit(screen, bitmap, vx % 64, vy % 32, x, y)
}

/// The coordinates `(x, y)` of all pixels, row by row from the top, each row
/// from the left.
pub open spec fn coordinates() -> Seq<(usize, usize)> {
    Seq::new(2048, |k: int| ((k % 64) as usize, (k / 64) as usize))
}

/// The coordinates `(x, y)` of the pixels that are on, in the order of
/// `coordinates`.
pub open spec fn lit_points(screen: Seq<Seq<bool>>) -> Seq<(usize, usize)> {
    coordinates().filter(|p: (usize, usize)| screen[p.1 as int][p.0 as int])
}

/// Among the first `k` coordinates the blank screen has no pixel that is on.
proof fn lemma_blank_prefix(k: int)
    requires
        0 <= k <= 2048,
    ensures
        coordinates().subrange(0, k).filter(|p: (usize, usize)| blank()[p.1 as int][p.0 as int])
            == Seq::<(usize, usize)>::empty(),
    decreases k,
{
    reveal(Seq::filter);
    if k > 0 {
        lemma_blank_prefix(k - 1);
        assert(coordinates().subrange(0, k).drop_last() =~= coordinates().subrange(0, k - 1));
    }
}

/// Rendering the blank screen finds no pixel that is on.
pub proof fn lemma_blank_is_dark()
    ensures
        lit_points(blank()) == Seq::<(usize, usize)>::empty(),
{
    lemma_blank_prefix(2048);
    assert(coordinates().subrange(0, 2048) =~= coordinates());
}

/// Drawing the same bitmap twice at the same place leaves the screen as it
/// was, and the second drawing turns a pixel off exactly when the first one
/// turned a pixel on.
pub proof fn lemma_draw_twice(screen: Seq<Seq<bool>>, bitmap: Seq<Seq<u8>>, vx: int, vy: int)
    requires
        is_screen(screen),
    ensures
        blitted(blitted(screen, bitmap, vx, vy), bitmap, vx, vy) == screen,
        collides(blitted(screen, bitmap, vx, vy), bitmap, vx, vy) <==> exists|x: int, y: int|
            0 <= x < 64 && 0 <= y < 32 && !screen[y][x] && #[trigger] sprite_at(
                bitmap,
                vx % 64,
                vy % 32,
                x,
                y,
            ),
{
    let once = blitted(screen, bitmap, vx, vy);
    assert(blitted(once, bitmap, vx, vy) =~~= screen);
    if collides(once, bitmap, vx, vy) {
        let (x, y) = choose|x: int, y: int|
            0 <= x < 64 && 0 <= y < 32 && #[trigger] hit(once, bitmap, vx % 64, vy % 32, x, y);
        assert(!screen[y][x] && sprite_at(bitmap, vx % 64, vy % 32, x, y));
    }
    if exists|x: int, y: int|
        0 <= x < 64 && 0 <= y < 32 && !screen[y][x] && #[trigger] sprite_at(
            bitmap,
            vx % 64,
            vy % 32,
            x,
            y,
        ) {
        let (x, y) = choose|x: int, y: int|
            0 <= x < 64 && 0 <= y < 32 && !screen[y][x] && #[trigger] sprite_at(
                bitmap,
                vx % 64,
                vy % 32,
                x,
                y,
            );
        assert(hit(once, bitmap, vx % 64, vy % 32, x, y));
    }
}

/// The view of a framebuffer has the shape of a screen.
pub broadcast proof fn lemma_screen_shape(g: Graphic)
    ensures
        is_screen(#[trigger] g@),
{
}

impl Default for Graphic {
    fn default() -> (g: Graphic)
        ensures
            g@ == blank(),
            !g.dirty(),
    {
        let g = Graphic { inner: [[false; 64]; 32], rerender: false };
        assert(g@ =~~= blank());
        g
    }
}

impl Graphic {
    /// Whether the screen changed since it was last rendered.
    pub closed spec fn dirty(&self) -> bool {
        self.rerender
    }

    /// Turns every pixel off and marks the screen as changed.
    pub fn clear(&mut self)
        ensures
            final(self)@ == blank(),
            final(self).dirty(),
    {
        self.inner = [[false; 64]; 32];
        self.rerender = true;
        assert(self@ =~~= blank());
    }

    /// Whether the pixel of column `x` in row `y` is on.
    pub fn pixel(&self, x: usize, y: usize) -> (on: bool)
        requires
            x < 64,
            y < 32,
        ensures
            on == self@[y as int][x as int],
    {
        self.inner[y][x]
    }

    /// XORs the bitmap onto the screen with its top left corner at (`vx` mod
    /// 64, `vy` mod 32), clipped at the right and bottom edges, and marks the
    /// screen as changed. Returns whether a pixel was turned off.
    pub fn draw(&mut self, vx: usize, vy: usize, bitmap: &[[u8; 8]]) -> (turn_off: bool)
        ensures
            final(self)@ == blitted(old(self)@, rows_of(bitmap@), vx as int, vy as int),
            turn_off == collides(old(self)@, rows_of(bitmap@), vx as int, vy as int),
            final(self).dirty(),
    {
        let lx: usize = vx % WIDTH;
        let ly: usize = vy % HEIGHT;
        let ghost before = self@;
        let ghost bits = rows_of(bitmap@);
        let mut turn_off = false;
        let mut r: usize = 0;
        while r < bitmap.len() && ly + r < HEIGHT
            invariant
                lx < 64,
                ly < 32,
                bits == rows_of(bitmap@),
                is_screen(before),
                r <= bitmap.len(),
                bits.len() == bitmap.len(),
                ly + r <= 32,
                forall|y: int, x: int|
                    0 <= y < 32 && 0 <= x < 64 ==> #[trigger] self.inner[y][x] == if y < ly + r {
                        toggled(before, bits, lx as int, ly as int, x, y)
                    } else {
                        before[y][x]
                    },
                turn_off == exists|x: int, y: int|
                    0 <= x < 64 && 0 <= y < ly + r && #[trigger] hit(
                        before,
                        bits,
                        lx as int,
                        ly as int,
                        x,
                        y,
                    ),
            decreases bitmap.len() - r,
        {
            let y: usize = ly + r;
            let row: [u8; 8] = bitmap[r];
            let ghost row_off = turn_off;
            let mut c: usize = 0;
            while c < 8 && lx + c < WIDTH
                invariant
                    lx < 64,
                    ly < 32,
                    is_screen(before),
                    r < bits.len(),
                    y == ly + r,
                    y < 32,
                    row@ == bits[r as int],
                    c <= 8,
                    lx + c <= 64,
                    forall|yy: int, x: int|
                        0 <= yy < 32 && 0 <= x < 64 ==> #[trigger] self.inner[yy][x] == if yy < y
                            || (yy == y && x < lx + c) {
                            toggled(before, bits, lx as int, ly as int, x, yy)
                        } else {
                            before[yy][x]
                        },
                    turn_off == (row_off || exists|x: int|
                        0 <= x < lx + c && #[trigger] hit(
                            before,
                            bits,
                            lx as int,
                            ly as int,
                            x,
                            y as int,
                        )),
                decreases 8 - c,
            {
                let x: usize = lx + c;
                let ghost pixels = self.inner;
                if row[c] == 1 {
                    if self.inner[y][x] {
                        turn_off = true;
                    }
                    self.inner[y][x] = !self.inner[y][x];
                }
                proof {
                    assert(pixels[y as int][x as int] == before[y as int][x as int]);
                    let set = row@[c as int] == 1;
                    assert(sprite_at(bits, lx as int, ly as int, x as int, y as int) == set);
                    assert(forall|yy: int, xx: int|
                        0 <= yy < 32 && 0 <= xx < 64 && !(yy == y && xx == x)
                            ==> #[trigger] self.inner[yy][xx] == pixels[yy][xx]);
                    if hit(before, bits, lx as int, ly as int, x as int, y as int) {
                        assert(turn_off);
                    }
                }
                c += 1;
            }
            proof {
                // Beyond the columns that the loop visited the sprite has no bit.
                assert forall|x: int| 0 <= x < 64 implies #[trigger] self.inner[y as int][x]
                    == toggled(before, bits, lx as int, ly as int, x, y as int) by {}
                assert forall|x: int|
                    0 <= x < 64 && #[trigger] hit(
                        before,
                        bits,
                        lx as int,
                        ly as int,
                        x,
                        y as int,
                    ) implies x < lx + c by {}
            }
            r += 1;
        }
        self.rerender = true;
        proof {
            assert forall|y: int, x: int|
                0 <= y < 32 && 0 <= x < 64 implies #[trigger] self.inner[y][x] == toggled(
                before,
                bits,
                lx as int,
                ly as int,
                x,
                y,
            ) by {}
            assert(self@ =~~= blitted(before, bits, vx as int, vy as int));
            assert forall|x: int, y: int|
                0 <= x < 64 && 0 <= y < 32 && #[trigger] hit(
                    before,
                    bits,
                    lx as int,
                    ly as int,
                    x,
                    y,
                ) implies y < ly + r by {}
        }
        turn_off
    }

    /// Hands out the screen for rendering if it changed since the last time:
    /// the coordinates `(x, y)` of the pixels that are on, row by row. The
    /// screen then counts as unchanged.
    pub fn render(&mut self) -> (points: Option<Vec<(usize, usize)>>)
        ensures
            final(self)@ == old(self)@,
            !final(self).dirty(),
            points is Some <==> old(self).dirty(),
            points matches Some(p) ==> p@ == lit_points(old(self)@),
    {
        if !self.rerender {
            return None;
        }
        let ghost lit = |p: (usize, usize)| self@[p.1 as int][p.0 as int];
        let mut points: Vec<(usize, usize)> = Vec::new();
        let mut y: usize = 0;
        proof {
            reveal(Seq::filter);
            assert(coordinates().subrange(0, 0) =~= Seq::empty());
        }
        while y < HEIGHT
            invariant
                y <= 32,
                lit == |p: (usize, usize)| self@[p.1 as int][p.0 as int],
                points@ == coordinates().subrange(0, y * 64).filter(lit),
            decreases 32 - y,
        {
            let mut x: usize = 0;
            while x < WIDTH
                invariant
                    y < 32,
                    x <= 64,
                    lit == |p: (usize, usize)| self@[p.1 as int][p.0 as int],
                    points@ == coordinates().subrange(0, y * 64 + x).filter(lit),
                decreases 64 - x,
            {
                proof {
                    let k = y * 64 + x;
                    let next = coordinates().subrange(0, k + 1);
                    reveal(Seq::filter);
                    assert(next.drop_last() =~= coordinates().subrange(0, k));
                    assert(next.last() == (x, y));
                    assert(lit((x, y)) == self.inner[y as int][x as int]);
                }
                if self.inner[y][x] {
                    points.push((x, y));
                }
                x += 1;
            }
            y += 1;
        }
        self.rerender = false;
        assert(coordinates().subrange(0, 2048) =~= coordinates());
        Some(points)
    }
}

} // verus!
