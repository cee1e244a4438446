//! A grid of pixels and its encoder to the plain-text PPM bitmap format.

use vstd::prelude::*;
use vstd::string::{StrSliceExecFns, StringExecFns};

use crate::color::{spec_channel_byte, Color};
use crate::decimal::{format_usize, lemma_dec_len3, spec_dec};
use crate::num::Num;

verus! {

/// The color every pixel of a fresh canvas starts out with: black.
pub open spec fn spec_black<N: Num>() -> Color<N> {
    Color { r: N::spec_zero(), g: N::spec_zero(), b: N::spec_zero() }
}

/// Grid of pixels, addressed by `(x, y)` with `x` increasing rightward and
/// `y` increasing downward, stored row-major.
#[derive(Debug)]
pub struct Canvas<N: Num> {
    width: usize,
    height: usize,
    pixels: Vec<Color<N>>,
}

/// A grid coordinate in range addresses a cell inside the row-major storage.
proof fn lemma_grid_index(x: int, y: int, w: int, h: int)
    requires
        0 <= x < w,
        0 <= y < h,
    ensures
        0 <= y * w + x < h * w,
{
    assert(y * w + x < h * w) by (nonlinear_arith)
        requires
            0 <= x < w,
            0 <= y < h,
    ;
    assert(y * w + x >= 0) by (nonlinear_arith)
        requires
            0 <= x,
            0 <= y,
            0 < w,
    ;
}

impl<N: Num> Canvas<N> {
    #[verifier::type_invariant]
    spec fn grid_filled(self) -> bool {
        self.pixels@.len() == self.width * self.height
    }

    /// The canvas's width.
    pub closed spec fn spec_width(&self) -> usize {
        self.width
    }

    /// The canvas's height.
    pub closed spec fn spec_height(&self) -> usize {
        self.height
    }

    /// The pixel colors, row-major: the pixel at `(x, y)` sits at index
    /// `y * width + x`.
    pub closed spec fn spec_pixels(&self) -> Seq<Color<N>> {
        self.pixels@
    }

    /// Creates a canvas of specified size `(width, height)`.
    ///
    /// Each pixel starts out with a black [`Color`].
    pub fn new(width: usize, height: usize) -> (r: Self)
        requires
            width * height <= usize::MAX,
        ensures
            r.spec_width() == width,
            r.spec_height() == height,
            r.spec_pixels() == Seq::new((width * height) as nat, |i: int| spec_black::<N>()),
    {
        let zero = N::zero();
        Self::with_color(width, height, Color::new(zero, zero, zero))
    }

    /// Creates a canvas of specified size `(width, height)`, every pixel
    /// filled with `color`.
    pub fn with_color(width: usize, height: usize, color: Color<N>) -> (r: Self)
        requires
            width * height <= usize::MAX,
        ensures
            r.spec_width() == width,
            r.spec_height() == height,
            r.spec_pixels() == Seq::new((width * height) as nat, |i: int| color),
    {
        let count: usize = width * height;
        let mut pixels: Vec<Color<N>> = Vec::new();
        let mut i: usize = 0;
        while i < count
            invariant
                i <= count,
                pixels@.len() == i,
                forall|j: int| 0 <= j < i ==> pixels@[j] == color,
            decreases count - i,
        {
            pixels.push(color);
            i = i + 1;
        }
        proof {
            assert(pixels@ =~= Seq::new((width * height) as nat, |i: int| color));
        }
        Canvas { width, height, pixels }
    }

    /// Get the canvas's width.
    #[must_use]
    pub fn width(&self) -> (r: usize)
        ensures
            r == self.spec_width(),
    {
        self.width
    }

    /// Get the canvas's height.
    #[must_use]
    pub fn height(&self) -> (r: usize)
        ensures
            r == self.spec_height(),
    {
        self.height
    }

    /// Returns the [`Color`] of the pixel at `(x, y)`, or nothing when the
    /// coordinate falls outside the grid — computed pixel coordinates land
    /// out of range routinely, so that is an absent value, never a fault.
    pub fn get(&self, x: usize, y: usize) -> (r: Option<&Color<N>>)
        ensures
            match r {
                Some(c) => x < self.spec_width() && y < self.spec_height() && *c
                    == self.spec_pixels()[y * self.spec_width() + x],
                None => !(x < self.spec_width() && y < self.spec_height()),
            },
    {
        proof {
            use_type_invariant(self);
        }
        if x < self.width && y < self.height {
            // an executable length always fits in usize, which bounds the
            // row-major index computed below
            let _count: usize = self.pixels.len();
            proof {
                lemma_grid_index(x as int, y as int, self.width as int, self.height as int);
                assert(self.height * self.width == self.width * self.height) by (nonlinear_arith);
            }
            let index: usize = y * self.width + x;
            Some(&self.pixels[index])
        } else {
            None
        }
    }

    /// Paints the pixel at `(x, y)` and reports whether it did: a coordinate
    /// outside the grid paints nothing and returns false.
    pub fn set(&mut self, x: usize, y: usize, color: Color<N>) -> (r: bool)
        ensures
            final(self).spec_width() == old(self).spec_width(),
            final(self).spec_height() == old(self).spec_height(),
            r == (x < old(self).spec_width() && y < old(self).spec_height()),
            r ==> final(self).spec_pixels() == old(self).spec_pixels().update(
                y * old(self).spec_width() + x,
                color,
            ),
            !r ==> final(self).spec_pixels() == old(self).spec_pixels(),
    {
        proof {
            use_type_invariant(&*self);
        }
        if x < self.width && y < self.height {
            // an executable length always fits in usize, which bounds the
            // row-major index computed below
            let _count: usize = self.pixels.len();
            proof {
                lemma_grid_index(x as int, y as int, self.width as int, self.height as int);
                assert(self.height * self.width == self.width * self.height) by (nonlinear_arith);
            }
            let index: usize = y * self.width + x;
            self.pixels[index] = color;
            true
        } else {
            false
        }
    }

    /// The pixel colors in row-major order: the position of each is implied
    /// by its index.
    pub fn pixels(&self) -> (r: &Vec<Color<N>>)
        ensures
            r@ == self.spec_pixels(),
    {
        &self.pixels
    }
}

/// The 8-bit value of channel `k` (red, green, blue in that order) of a
/// pixel, clamped and rounded as [`Color::as_bytes`] does.
pub open spec fn spec_pixel_channel<N: Num>(c: Color<N>, k: int) -> u8 {
    if k == 0 {
        spec_channel_byte(c.r)
    } else if k == 1 {
        spec_channel_byte(c.g)
    } else {
        spec_channel_byte(c.b)
    }
}

/// The value tokens of row `y`: three decimal numerals per pixel, left to
/// right.
pub open spec fn spec_row_tokens<N: Num>(pixels: Seq<Color<N>>, width: int, y: int) -> Seq<
    Seq<char>,
> {
    Seq::new(
        (3 * width) as nat,
        |i: int| spec_dec(spec_pixel_channel(pixels[y * width + i / 3], i % 3) as int),
    )
}

/// The line-wrapping rule of the encoder: tokens accumulate into the current
/// line, separated by single spaces; a token that would push the line length
/// to 70 or beyond instead closes the line and opens a new one; whatever is
/// left at the end becomes a final line. No line is ever continued across a
/// call, because every row starts with an empty current line.
pub open spec fn spec_wrap(tokens: Seq<Seq<char>>, cur: Seq<char>) -> Seq<Seq<char>>
    decreases tokens.len(),
{
    if tokens.len() == 0 {
        if cur.len() == 0 {
            Seq::empty()
        } else {
            seq![cur]
        }
    } else {
        let t = tokens[0];
        if cur.len() == 0 {
            spec_wrap(tokens.drop_first(), t)
        } else if cur.len() + 1 + t.len() >= 70 {
            seq![cur] + spec_wrap(tokens.drop_first(), t)
        } else {
            spec_wrap(tokens.drop_first(), cur + seq![' '] + t)
        }
    }
}

/// The lines of rows `0 .. y`, each row wrapped on its own.
pub open spec fn spec_body_lines<N: Num>(pixels: Seq<Color<N>>, width: int, y: int) -> Seq<
    Seq<char>,
>
    decreases y,
{
    if y <= 0 {
        Seq::empty()
    } else {
        spec_body_lines(pixels, width, y - 1) + spec_wrap(
            spec_row_tokens(pixels, width, y - 1),
            Seq::empty(),
        )
    }
}

/// Lines joined into one character sequence, every line followed by a
/// newline — the last one included.
pub open spec fn spec_join_lines(lines: Seq<Seq<char>>) -> Seq<char>
    decreases lines.len(),
{
    if lines.len() == 0 {
        Seq::empty()
    } else {
        spec_join_lines(lines.drop_last()) + lines.last() + seq!['\n']
    }
}

/// The PPM header: the magic `P3`, the dimensions, and the maximum channel
/// value 255, one line each.
pub open spec fn spec_header(width: int, height: int) -> Seq<char> {
    seq!['P', '3', '\n'] + spec_dec(width) + seq![' '] + spec_dec(height) + seq![
        '\n',
        '2',
        '5',
        '5',
        '\n',
    ]
}

/// The whole PPM text of a canvas: header, then every row's wrapped value
/// lines, terminated by a trailing newline (every line carries its own).
pub open spec fn spec_ppm<N: Num>(pixels: Seq<Color<N>>, width: int, height: int) -> Seq<char> {
    spec_header(width, height) + spec_join_lines(spec_body_lines(pixels, width, height))
}

/// Joining distributes over appending line blocks.
proof fn lemma_join_append(a: Seq<Seq<char>>, b: Seq<Seq<char>>)
    ensures
        spec_join_lines(a + b) == spec_join_lines(a) + spec_join_lines(b),
    decreases b.len(),
{
    if b.len() == 0 {
        assert(a + b =~= a);
        assert(spec_join_lines(a) + spec_join_lines(b) =~= spec_join_lines(a));
    } else {
        lemma_join_append(a, b.drop_last());
        assert((a + b).drop_last() =~= a + b.drop_last());
        assert((a + b).last() == b.last());
        assert(spec_join_lines(a) + (spec_join_lines(b.drop_last()) + b.last() + seq!['\n'])
            =~= (spec_join_lines(a) + spec_join_lines(b.drop_last())) + b.last() + seq!['\n']);
    }
}

/// Joining a line block that starts with `l` yields `l`, a newline, and the
/// joined rest.
proof fn lemma_join_prepend(l: Seq<char>, rest: Seq<Seq<char>>)
    ensures
        spec_join_lines(seq![l] + rest) == l + seq!['\n'] + spec_join_lines(rest),
{
    lemma_join_append(seq![l], rest);
    assert(spec_join_lines(seq![l].drop_last()) =~= Seq::<char>::empty());
    assert(spec_join_lines(seq![l]) == spec_join_lines(seq![l].drop_last()) + l + seq!['\n']);
    assert(Seq::<char>::empty() + l + seq!['\n'] + spec_join_lines(rest) =~= l + seq!['\n']
        + spec_join_lines(rest));
}

/// One step of the wrapping rule, read off the suffix of the tokens that
/// starts at `i`.
proof fn lemma_wrap_step(tokens: Seq<Seq<char>>, i: int, cur: Seq<char>)
    requires
        0 <= i < tokens.len(),
    ensures
        spec_wrap(tokens.skip(i), cur) == ({
            let t = tokens[i];
            if cur.len() == 0 {
                spec_wrap(tokens.skip(i + 1), t)
            } else if cur.len() + 1 + t.len() >= 70 {
                seq![cur] + spec_wrap(tokens.skip(i + 1), t)
            } else {
                spec_wrap(tokens.skip(i + 1), cur + seq![' '] + t)
            }
        }),
{
    assert(tokens.skip(i)[0] == tokens[i]);
    assert(tokens.skip(i).drop_first() =~= tokens.skip(i + 1));
}

/// Appends the channel value `value`, the token at position `i` of the
/// row's token sequence, to the current line, flushing a line that the token
/// would stretch to 70 characters or beyond; the book-keeping shows that the
/// text emitted so far plus the joined lines still owed always add up to the
/// same `target`.
fn emit_channel(
    out: &mut String,
    line: &mut String,
    value: u8,
    Ghost(tokens): Ghost<Seq<Seq<char>>>,
    Ghost(i): Ghost<int>,
    Ghost(target): Ghost<Seq<char>>,
)
    requires
        0 <= i < tokens.len(),
        tokens[i] == spec_dec(value as int),
        old(line)@.len() < 70,
        old(out)@ + spec_join_lines(spec_wrap(tokens.skip(i), old(line)@)) == target,
    ensures
        final(line)@.len() < 70,
        final(out)@ + spec_join_lines(spec_wrap(tokens.skip(i + 1), final(line)@)) == target,
{
    proof {
        lemma_wrap_step(tokens, i, old(line)@);
        lemma_join_prepend(old(line)@, spec_wrap(tokens.skip(i + 1), tokens[i]));
    }
    emit_token(out, line, value);
    proof {
        assert(out@ + spec_join_lines(spec_wrap(tokens.skip(i + 1), line@)) =~= target);
    }
}

/// Appends one channel value to the current line, flushing a line that the
/// token would stretch to 70 characters or beyond.
fn emit_token(out: &mut String, line: &mut String, value: u8)
    requires
        old(line)@.len() < 70,
    ensures
        ({
            let t = spec_dec(value as int);
            &&& (if old(line)@.len() == 0 {
                final(line)@ == t && final(out)@ == old(out)@
            } else if old(line)@.len() + 1 + t.len() >= 70 {
                final(line)@ == t && final(out)@ == old(out)@ + old(line)@ + seq!['\n']
            } else {
                final(out)@ == old(out)@ && final(line)@ == old(line)@ + seq![' '] + t
            })
            &&& final(line)@.len() < 70
        }),
{
    proof {
        reveal_strlit("\n");
        reveal_strlit(" ");
        assert("\n"@ =~= seq!['\n']);
        assert(" "@ =~= seq![' ']);
        lemma_dec_len3(value as int);
    }
    let token = format_usize(value as usize);
    let line_len: usize = line.as_str().unicode_len();
    let token_len: usize = token.as_str().unicode_len();
    if line_len == 0 {
        *line = token;
    } else if line_len + 1 + token_len >= 70 {
        out.append(line.as_str());
        out.append("\n");
        *line = token;
    } else {
        line.append(" ");
        line.append(token.as_str());
    }
}

impl<N: Num> Canvas<N> {
    /// Encodes the canvas as a plain-text PPM bitmap: the header `P3`, the
    /// dimensions and the maximum channel value 255 on one line each, then
    /// for every row, top to bottom, the three 8-bit channel values of its
    /// pixels, left to right, as space-separated decimal numerals, wrapped
    /// so that no value line reaches 70 characters; every line, the last
    /// included, ends with a newline.
    pub fn ppm(&self) -> (r: String)
        ensures
            r@ == spec_ppm(
                self.spec_pixels(),
                self.spec_width() as int,
                self.spec_height() as int,
            ),
    {
        proof {
            use_type_invariant(self);
            reveal_strlit("P3\n");
            reveal_strlit(" ");
            reveal_strlit("\n255\n");
        }
        let width: usize = self.width;
        let height: usize = self.height;
        let ghost pixels = self.spec_pixels();
        let mut out = String::from_str("P3\n");
        let width_str = format_usize(width);
        out.append(width_str.as_str());
        out.append(" ");
        let height_str = format_usize(height);
        out.append(height_str.as_str());
        out.append("\n255\n");
        proof {
            assert(out@ =~= spec_header(width as int, height as int));
        }
        let mut y: usize = 0;
        while y < height
            invariant
                y <= height,
                width == self.spec_width(),
                height == self.spec_height(),
                pixels == self.spec_pixels(),
                pixels.len() == width * height,
                out@ == spec_header(width as int, height as int) + spec_join_lines(
                    spec_body_lines(pixels, width as int, y as int),
                ),
            decreases height - y,
        {
            let ghost tokens = spec_row_tokens(pixels, width as int, y as int);
            let ghost target = spec_header(width as int, height as int) + spec_join_lines(
                spec_body_lines(pixels, width as int, y as int),
            ) + spec_join_lines(spec_wrap(tokens, Seq::empty()));
            let mut line = String::new();
            proof {
                assert(tokens.skip(0) =~= tokens);
                assert(out@ + spec_join_lines(spec_wrap(tokens, Seq::empty())) =~= target);
            }
            let mut x: usize = 0;
            while x < width
                invariant
                    x <= width,
                    y < height,
                    width == self.spec_width(),
                    height == self.spec_height(),
                    pixels == self.spec_pixels(),
                    pixels.len() == width * height,
                    tokens == spec_row_tokens(pixels, width as int, y as int),
                    line@.len() < 70,
                    out@ + spec_join_lines(spec_wrap(tokens.skip(3 * x as int), line@))
                        == target,
                decreases width - x,
            {
                proof {
                    use_type_invariant(self);
                    lemma_grid_index(x as int, y as int, width as int, height as int);
                    assert(height * width == width * height) by (nonlinear_arith);
                }
                // an executable length always fits in usize, which
                // bounds the row-major index computed below
                let _count: usize = self.pixels.len();
                let index: usize = y * width + x;
                let pixel = self.pixels[index];
                let bytes = pixel.as_bytes();
                let ghost i0 = 3 * x as int;
                proof {
                    assert(i0 / 3 == x as int && i0 % 3 == 0) by (nonlinear_arith)
                        requires
                            i0 == 3 * x as int,
                    ;
                    assert((i0 + 1) / 3 == x as int && (i0 + 1) % 3 == 1) by (nonlinear_arith)
                        requires
                            i0 == 3 * x as int,
                    ;
                    assert((i0 + 2) / 3 == x as int && (i0 + 2) % 3 == 2) by (nonlinear_arith)
                        requires
                            i0 == 3 * x as int,
                    ;
                    assert(tokens[i0] == spec_dec(bytes.0 as int));
                    assert(tokens[i0 + 1] == spec_dec(bytes.1 as int));
                    assert(tokens[i0 + 2] == spec_dec(bytes.2 as int));
                }
                emit_channel(&mut out, &mut line, bytes.0, Ghost(tokens), Ghost(i0), Ghost(target));
                emit_channel(
                    &mut out,
                    &mut line,
                    bytes.1,
                    Ghost(tokens),
                    Ghost(i0 + 1),
                    Ghost(target),
                );
                emit_channel(
                    &mut out,
                    &mut line,
                    bytes.2,
                    Ghost(tokens),
                    Ghost(i0 + 2),
                    Ghost(target),
                );
                proof {
                    assert(3 * (x as int + 1) == i0 + 3);
                }
                x = x + 1;
            }
            proof {
                assert(tokens.skip(3 * width as int) =~= Seq::<Seq<char>>::empty());
            }
            if !line.as_str().is_empty() {
                proof {
                    reveal_strlit("\n");
                    assert("\n"@ =~= seq!['\n']);
                    assert(spec_wrap(Seq::<Seq<char>>::empty(), line@) == seq![line@]);
                    lemma_join_prepend(line@, Seq::<Seq<char>>::empty());
                    assert(seq![line@] + Seq::<Seq<char>>::empty() =~= seq![line@]);
                    assert(spec_join_lines(Seq::<Seq<char>>::empty()) == Seq::<char>::empty());
                    assert(spec_join_lines(seq![line@]) =~= line@ + seq!['\n']);
                }
                out.append(line.as_str());
                out.append("\n");
            }
            proof {
                assert(out@ =~= target);
                lemma_join_append(
                    spec_body_lines(pixels, width as int, y as int),
                    spec_wrap(tokens, Seq::empty()),
                );
                assert(spec_body_lines(pixels, width as int, y as int + 1) == spec_body_lines(
                    pixels,
                    width as int,
                    y as int,
                ) + spec_wrap(tokens, Seq::empty()));
                assert(out@ =~= spec_header(width as int, height as int) + spec_join_lines(
                    spec_body_lines(pixels, width as int, y as int + 1),
                ));
            }
            y = y + 1;
        }
        out
    }
}

/// No token is longer than `bound` characters, so no wrapped line reaches 70
/// characters (the current line under construction being shorter than 70 to
/// begin with).
proof fn lemma_wrap_lines_short(tokens: Seq<Seq<char>>, cur: Seq<char>)
    requires
        forall|i: int| 0 <= i < tokens.len() ==> #[trigger] tokens[i].len() <= 3,
        cur.len() < 70,
    ensures
        forall|j: int| 0 <= j < spec_wrap(tokens, cur).len() ==> #[trigger] spec_wrap(
            tokens,
            cur,
        )[j].len() < 70,
    decreases tokens.len(),
{
    if tokens.len() == 0 {
    } else {
        let t = tokens[0];
        assert(t.len() <= 3);
        assert(forall|i: int|
            0 <= i < tokens.drop_first().len() ==> #[trigger] tokens.drop_first()[i].len() <= 3);
        if cur.len() == 0 {
            lemma_wrap_lines_short(tokens.drop_first(), t);
            assert forall|j: int|
                0 <= j < spec_wrap(tokens, cur).len() implies #[trigger] spec_wrap(
                tokens,
                cur,
            )[j].len() < 70 by {
                assert(spec_wrap(tokens, cur)[j] == spec_wrap(tokens.drop_first(), t)[j]);
            }
        } else if cur.len() + 1 + t.len() >= 70 {
            lemma_wrap_lines_short(tokens.drop_first(), t);
            let rest = spec_wrap(tokens.drop_first(), t);
            assert forall|j: int|
                0 <= j < spec_wrap(tokens, cur).len() implies #[trigger] spec_wrap(
                tokens,
                cur,
            )[j].len() < 70 by {
                assert(spec_wrap(tokens, cur)[j] == (seq![cur] + rest)[j]);
                if j > 0 {
                    assert((seq![cur] + rest)[j] == rest[j - 1]);
                }
            }
        } else {
            lemma_wrap_lines_short(tokens.drop_first(), cur + seq![' '] + t);
            assert forall|j: int|
                0 <= j < spec_wrap(tokens, cur).len() implies #[trigger] spec_wrap(
                tokens,
                cur,
            )[j].len() < 70 by {
                assert(spec_wrap(tokens, cur)[j] == spec_wrap(
                    tokens.drop_first(),
                    cur + seq![' '] + t,
                )[j]);
            }
        }
    }
}

/// Every value line the encoder emits is shorter than 70 characters: each
/// channel numeral has at most three digits, and the wrapping rule closes a
/// line before any token could stretch it to 70.
pub proof fn lemma_ppm_lines_short<N: Num>(pixels: Seq<Color<N>>, width: int, height: int)
    requires
        0 <= width,
        0 <= height,
    ensures
        forall|j: int|
            0 <= j < spec_body_lines(pixels, width, height).len() ==> #[trigger] spec_body_lines(
                pixels,
                width,
                height,
            )[j].len() < 70,
    decreases height,
{
    if height <= 0 {
    } else {
        lemma_ppm_lines_short(pixels, width, height - 1);
        let tokens = spec_row_tokens(pixels, width, height - 1);
        assert forall|i: int| 0 <= i < tokens.len() implies #[trigger] tokens[i].len() <= 3 by {
            lemma_dec_len3(spec_pixel_channel(pixels[(height - 1) * width + i / 3], i % 3) as int);
        }
        lemma_wrap_lines_short(tokens, Seq::empty());
        assert(spec_body_lines(pixels, width, height) == spec_body_lines(pixels, width, height - 1)
            + spec_wrap(tokens, Seq::empty()));
    }
}

} // verus!
