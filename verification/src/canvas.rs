//! A pixel canvas and its serialization to the plain-text image format.
//!
//! The canvas is a row-major grid of colors: the write and the read path
//! both address the pixel at `(x, y)` by `y * width + x`, so a written
//! pixel reads back at the same coordinates. A write beyond the bounds
//! silently lands on the last pixel, keeping the write path infallible;
//! a read beyond the bounds is absent.
//!
//! Serialization produces the ASCII `P3` format: a header with the
//! dimensions and the maximum channel value, then every pixel's three
//! channels in row-major order, wrapped so that no output line reaches 70
//! characters and no channel triad is split across lines.

use vstd::prelude::*;
use vstd::string::StrSliceExecFns;
use crate::color::Color;
use crate::scalar::VALUE_LIMIT;

verus! {

/// `v` clamped into the closed range from `lo` to `hi`.
pub open spec fn clamp_val(v: int, lo: int, hi: int) -> int {
    if v < lo {
        lo
    } else if v > hi {
        hi
    } else {
        v
    }
}

/// `input` clamped into the closed range from `min` to `max`.
pub fn clamp(input: i128, min: i128, max: i128) -> (r: i128)
    requires
        min <= max,
    ensures
        r == clamp_val(input as int, min as int, max as int),
{
    if input < min {
        min
    } else if input > max {
        max
    } else {
        input
    }
}

/// The rational `num / den` scaled by 256 and rounded to the nearest
/// integer, half away from zero.
pub open spec fn round_scaled(num: int, den: int) -> int {
    if num >= 0 {
        (512 * num + den) / (2 * den)
    } else {
        -((512 * (-num) + den) / (2 * den))
    }
}

/// The displayed value of one color channel `num / den`:
/// `clamp(round(256 * v), 0, 255)`.
pub open spec fn channel(num: int, den: int) -> int {
    clamp_val(round_scaled(num, den), 0, 255)
}

/// The decimal digit `d` as a character.
pub open spec fn dec_digit(d: int) -> char {
    if d == 0 {
        '0'
    } else if d == 1 {
        '1'
    } else if d == 2 {
        '2'
    } else if d == 3 {
        '3'
    } else if d == 4 {
        '4'
    } else if d == 5 {
        '5'
    } else if d == 6 {
        '6'
    } else if d == 7 {
        '7'
    } else if d == 8 {
        '8'
    } else {
        '9'
    }
}

/// The decimal digits of `n`, most significant first.
pub open spec fn dec_nat(n: nat) -> Seq<char>
    decreases n,
{
    if n < 10 {
        seq![dec_digit(n as int)]
    } else {
        dec_nat(n / 10) + seq![dec_digit((n % 10) as int)]
    }
}

/// A number below 1000 has one to three decimal digits.
pub proof fn lemma_dec_nat_len(n: nat)
    requires
        n < 1000,
    ensures
        1 <= dec_nat(n).len() <= 3,
        n < 10 ==> dec_nat(n).len() == 1,
        n < 100 ==> dec_nat(n).len() <= 2,
    decreases n,
{
    if n >= 10 {
        lemma_dec_nat_len(n / 10);
    }
}

/// The three displayed channels of a pixel, separated by single spaces,
/// with no trailing space.
pub open spec fn triad(c: Color) -> Seq<char> {
    dec_nat(channel(c.r as int, c.den as int) as nat) + seq![' '] + dec_nat(
        channel(c.g as int, c.den as int) as nat,
    ) + seq![' '] + dec_nat(channel(c.b as int, c.den as int) as nat)
}

/// A channel triad takes between five and eleven characters.
pub proof fn lemma_triad_len(c: Color)
    ensures
        5 <= triad(c).len() <= 11,
{
    lemma_dec_nat_len(channel(c.r as int, c.den as int) as nat);
    lemma_dec_nat_len(channel(c.g as int, c.den as int) as nat);
    lemma_dec_nat_len(channel(c.b as int, c.den as int) as nat);
}

/// The triads of every pixel, in row-major order.
pub open spec fn triads_of(pixels: Seq<Color>) -> Seq<Seq<char>> {
    pixels.map(|i: int, c: Color| triad(c))
}

/// The greedy line layout: `cur` is the line being filled. A triad whose
/// addition would bring the line, counted with its separating spaces and
/// one trailing space, to 70 characters or beyond starts a new line
/// instead; that running count reaches 70 exactly when the line content
/// and the bare triad reach 68.
pub open spec fn lines_of(ts: Seq<Seq<char>>, cur: Seq<char>) -> Seq<Seq<char>>
    decreases ts.len(),
{
    if ts.len() == 0 {
        seq![cur]
    } else if cur.len() + ts[0].len() >= 68 {
        seq![cur] + lines_of(ts.skip(1), ts[0])
    } else {
        lines_of(ts.skip(1), cur + seq![' '] + ts[0])
    }
}

/// The lines joined back together, each line closed by a newline.
pub open spec fn join_lines(ls: Seq<Seq<char>>) -> Seq<char>
    decreases ls.len(),
{
    if ls.len() == 0 {
        Seq::empty()
    } else {
        ls[0] + seq!['\n'] + join_lines(ls.skip(1))
    }
}

/// The whole pixel body: empty for an empty canvas, otherwise the joined
/// line layout seeded with the first triad.
pub open spec fn body_of(ts: Seq<Seq<char>>) -> Seq<char> {
    if ts.len() == 0 {
        Seq::empty()
    } else {
        join_lines(lines_of(ts.skip(1), ts[0]))
    }
}

/// The header: `P3`, the dimensions, and the maximum channel value 255.
pub open spec fn header_of(w: nat, h: nat) -> Seq<char> {
    seq!['P', '3', '\n'] + dec_nat(w) + seq![' '] + dec_nat(h) + seq!['\n', '2', '5', '5', '\n']
}

/// The complete serialized image of a canvas.
pub open spec fn ppm_of(c: Canvas) -> Seq<char> {
    header_of(c.width as nat, c.height as nat) + body_of(triads_of(c.pixels@))
}

/// Every line produced by the greedy layout stays within 68 characters,
/// provided no triad is longer than eleven characters and the seed line is
/// within 68 itself.
pub proof fn lemma_lines_bounded(ts: Seq<Seq<char>>, cur: Seq<char>)
    requires
        cur.len() <= 68,
        forall|k: int| 0 <= k < ts.len() ==> (#[trigger] ts[k]).len() <= 11,
    ensures
        forall|k: int|
            0 <= k < lines_of(ts, cur).len() ==> (#[trigger] lines_of(ts, cur)[k]).len() <= 68,
    decreases ts.len(),
{
    if ts.len() == 0 {
    } else if cur.len() + ts[0].len() >= 68 {
        assert(forall|k: int| 0 <= k < ts.skip(1).len() ==> (#[trigger] ts.skip(1)[k]).len() <= 11);
        lemma_lines_bounded(ts.skip(1), ts[0]);
        let rest = lines_of(ts.skip(1), ts[0]);
        assert(lines_of(ts, cur) == seq![cur] + rest);
        assert forall|k: int| 0 <= k < lines_of(ts, cur).len() implies (#[trigger] lines_of(
            ts,
            cur,
        )[k]).len() <= 68 by {
            if k == 0 {
                assert((seq![cur] + rest)[0] == cur);
            } else {
                assert((seq![cur] + rest)[k] == rest[k - 1]);
            }
        }
    } else {
        assert(forall|k: int| 0 <= k < ts.skip(1).len() ==> (#[trigger] ts.skip(1)[k]).len() <= 11);
        lemma_lines_bounded(ts.skip(1), cur + seq![' '] + ts[0]);
        let rest = lines_of(ts.skip(1), cur + seq![' '] + ts[0]);
        assert(lines_of(ts, cur) == rest);
        assert forall|k: int| 0 <= k < lines_of(ts, cur).len() implies (#[trigger] lines_of(
            ts,
            cur,
        )[k]).len() <= 68 by {
            assert(lines_of(ts, cur)[k] == rest[k]);
        }
    }
}

/// The decimal digits of a number are digit characters: never a newline.
pub proof fn lemma_dec_nat_no_newline(n: nat)
    ensures
        forall|k: int| 0 <= k < dec_nat(n).len() ==> dec_nat(n)[k] != '\n',
    decreases n,
{
    if n >= 10 {
        lemma_dec_nat_no_newline(n / 10);
        assert forall|k: int| 0 <= k < dec_nat(n).len() implies dec_nat(n)[k] != '\n' by {
            if k < dec_nat(n / 10).len() {
                assert(dec_nat(n)[k] == dec_nat(n / 10)[k]);
            } else {
                assert(dec_nat(n)[k] == dec_digit((n % 10) as int));
            }
        }
    }
}

/// A channel triad holds digits and spaces only: never a newline.
pub proof fn lemma_triad_no_newline(c: Color)
    ensures
        forall|k: int| 0 <= k < triad(c).len() ==> triad(c)[k] != '\n',
{
    lemma_dec_nat_no_newline(channel(c.r as int, c.den as int) as nat);
    lemma_dec_nat_no_newline(channel(c.g as int, c.den as int) as nat);
    lemma_dec_nat_no_newline(channel(c.b as int, c.den as int) as nat);
}

/// Every line produced by the greedy layout is newline-free, provided the
/// seed line and every triad are.
pub proof fn lemma_lines_no_newline(ts: Seq<Seq<char>>, cur: Seq<char>)
    requires
        forall|k: int| 0 <= k < cur.len() ==> cur[k] != '\n',
        forall|t: int, k: int|
            0 <= t < ts.len() && 0 <= k < ts[t].len() ==> #[trigger] ts[t][k] != '\n',
    ensures
        forall|l: int, k: int|
            0 <= l < lines_of(ts, cur).len() && 0 <= k < lines_of(ts, cur)[l].len()
                ==> #[trigger] lines_of(ts, cur)[l][k] != '\n',
    decreases ts.len(),
{
    if ts.len() == 0 {
    } else if cur.len() + ts[0].len() >= 68 {
        assert forall|t: int, k: int|
            0 <= t < ts.skip(1).len() && 0 <= k < ts.skip(1)[t].len() implies #[trigger] ts.skip(
            1,
        )[t][k] != '\n' by {
            assert(ts.skip(1)[t] == ts[t + 1]);
        }
        lemma_lines_no_newline(ts.skip(1), ts[0]);
        let rest = lines_of(ts.skip(1), ts[0]);
        assert(lines_of(ts, cur) == seq![cur] + rest);
        assert forall|l: int, k: int|
            0 <= l < lines_of(ts, cur).len() && 0 <= k < lines_of(ts, cur)[l].len() implies #[trigger] lines_of(
            ts,
            cur,
        )[l][k] != '\n' by {
            if l == 0 {
                assert((seq![cur] + rest)[0] == cur);
            } else {
                assert((seq![cur] + rest)[l] == rest[l - 1]);
            }
        }
    } else {
        assert forall|t: int, k: int|
            0 <= t < ts.skip(1).len() && 0 <= k < ts.skip(1)[t].len() implies #[trigger] ts.skip(
            1,
        )[t][k] != '\n' by {
            assert(ts.skip(1)[t] == ts[t + 1]);
        }
        let joined = cur + seq![' '] + ts[0];
        assert forall|k: int| 0 <= k < joined.len() implies joined[k] != '\n' by {
            if k < cur.len() {
                assert(joined[k] == cur[k]);
            } else if k == cur.len() {
                assert(joined[k] == ' ');
            } else {
                assert(joined[k] == ts[0][k - cur.len() - 1]);
            }
        }
        lemma_lines_no_newline(ts.skip(1), joined);
        let rest = lines_of(ts.skip(1), joined);
        assert(lines_of(ts, cur) == rest);
        assert forall|l: int, k: int|
            0 <= l < lines_of(ts, cur).len() && 0 <= k < lines_of(ts, cur)[l].len() implies #[trigger] lines_of(
            ts,
            cur,
        )[l][k] != '\n' by {
            assert(lines_of(ts, cur)[l] == rest[l]);
        }
    }
}

/// The body's line decomposition: whole triads laid out greedily, with the
/// first triad seeding the first line.
pub open spec fn ppm_body_lines(c: Canvas) -> Seq<Seq<char>> {
    lines_of(triads_of(c.pixels@).skip(1), triads_of(c.pixels@)[0])
}

/// No line of a serialized canvas's body exceeds 70 characters, and triads
/// are never split: the body is exactly the lines of whole triads joined
/// by newlines, and no line holds a newline of its own.
pub proof fn lemma_ppm_line_length(c: Canvas)
    requires
        c.wf(),
        c.pixels@.len() > 0,
    ensures
        body_of(triads_of(c.pixels@)) == join_lines(ppm_body_lines(c)),
        forall|k: int|
            0 <= k < ppm_body_lines(c).len() ==> (#[trigger] ppm_body_lines(c)[k]).len() <= 70,
        forall|l: int, k: int|
            0 <= l < ppm_body_lines(c).len() && 0 <= k < ppm_body_lines(c)[l].len()
                ==> #[trigger] ppm_body_lines(c)[l][k] != '\n',
{
    let ts = triads_of(c.pixels@);
    assert forall|k: int| 0 <= k < ts.len() implies (#[trigger] ts[k]).len() <= 11 by {
        lemma_triad_len(c.pixels@[k]);
    }
    lemma_triad_len(c.pixels@[0]);
    assert forall|k: int| 0 <= k < ts.skip(1).len() implies (#[trigger] ts.skip(1)[k]).len()
        <= 11 by {
        assert(ts.skip(1)[k] == ts[k + 1]);
    }
    lemma_lines_bounded(ts.skip(1), ts[0]);
    assert forall|t: int, k: int|
        0 <= t < ts.len() && 0 <= k < ts[t].len() implies #[trigger] ts[t][k] != '\n' by {
        lemma_triad_no_newline(c.pixels@[t]);
    }
    assert forall|t: int, k: int|
        0 <= t < ts.skip(1).len() && 0 <= k < ts.skip(1)[t].len() implies #[trigger] ts.skip(
        1,
    )[t][k] != '\n' by {
        assert(ts.skip(1)[t] == ts[t + 1]);
    }
    lemma_triad_no_newline(c.pixels@[0]);
    lemma_lines_no_newline(ts.skip(1), ts[0]);
}

/// The decimal digits of a machine word, as a string.
pub fn dec_str(n: usize) -> (r: String)
    ensures
        r@ == dec_nat(n as nat),
    decreases n,
{
    if n < 10 {
        let mut s = String::new();
        s.append(digit_str(n));
        proof {
            assert(s@ =~= dec_nat(n as nat));
        }
        s
    } else {
        let mut s = dec_str(n / 10);
        s.append(digit_str(n % 10));
        proof {
            assert(s@ =~= dec_nat(n as nat));
        }
        s
    }
}

/// One decimal digit as a string slice.
fn digit_str(d: usize) -> (r: &'static str)
    requires
        d < 10,
    ensures
        r@ == seq![dec_digit(d as int)],
{
    let s: &'static str = match d {
        0 => "0",
        1 => "1",
        2 => "2",
        3 => "3",
        4 => "4",
        5 => "5",
        6 => "6",
        7 => "7",
        8 => "8",
        _ => "9",
    };
    proof {
        reveal_strlit("0");
        reveal_strlit("1");
        reveal_strlit("2");
        reveal_strlit("3");
        reveal_strlit("4");
        reveal_strlit("5");
        reveal_strlit("6");
        reveal_strlit("7");
        reveal_strlit("8");
        reveal_strlit("9");
        assert(s@ =~= seq![dec_digit(d as int)]);
    }
    s
}

/// The displayed value of one channel, as an eight-bit integer.
fn channel_of(num: i128, den: i128) -> (r: u8)
    requires
        0 < den <= VALUE_LIMIT,
        -VALUE_LIMIT <= num <= VALUE_LIMIT,
    ensures
        r as int == channel(num as int, den as int),
{
    if num <= 0 {
        proof {
            if num < 0 {
                vstd::arithmetic::div_mod::lemma_div_pos_is_pos(
                    512 * (-num as int) + den as int,
                    2 * den as int,
                );
            } else {
                vstd::arithmetic::div_mod::lemma_basic_div(den as int, 2 * den as int);
            }
        }
        0
    } else {
        let n = num as u128;
        let d = den as u128;
        let q = (512 * n + d) / (2 * d);
        proof {
            vstd::arithmetic::div_mod::lemma_div_pos_is_pos(512 * num as int + den as int, 2 * den as int);
            assert(n == num as int && d == den as int);
            assert(q == (512 * num as int + den as int) / (2 * den as int));
        }
        if q > 255 {
            255
        } else {
            q as u8
        }
    }
}

/// The channel triad of one pixel, as a string.
fn triad_str(c: &Color) -> (r: String)
    requires
        c.wf(),
        c.bounded(VALUE_LIMIT as int),
    ensures
        r@ == triad(*c),
{
    let cr = channel_of(c.r, c.den);
    let cg = channel_of(c.g, c.den);
    let cb = channel_of(c.b, c.den);
    let mut s = dec_str(cr as usize);
    s.append(" ");
    let gs = dec_str(cg as usize);
    s.append(gs.as_str());
    s.append(" ");
    let bs = dec_str(cb as usize);
    s.append(bs.as_str());
    proof {
        reveal_strlit(" ");
        assert(s@ =~= triad(*c));
    }
    s
}

/// A 2-D grid of colors with row-major pixel addressing.
#[derive(Debug)]
pub struct Canvas {
    pub width: usize,
    pub height: usize,
    pub size: usize,
    pub pixels: Vec<Color>,
}

/// The color a canvas is filled with at creation: the given one, or black.
pub open spec fn init_color(initial: Option<Color>) -> Color {
    match initial {
        Some(c) => c,
        None => Color { r: 0, g: 0, b: 0, den: 1 },
    }
}

impl Canvas {
    /// A canvas is well formed when it holds exactly `width * height`
    /// pixels, each a well-formed bounded color.
    pub open spec fn wf(self) -> bool {
        &&& self.size == self.width * self.height
        &&& self.pixels@.len() == self.size
        &&& forall|i: int|
            0 <= i < self.pixels@.len() ==> (#[trigger] self.pixels@[i]).wf()
                && self.pixels@[i].bounded(VALUE_LIMIT as int)
    }

    /// Allocate a `width` by `height` canvas filled with `initial_color`,
    /// or with black when none is given.
    pub fn new(width: usize, height: usize, initial_color: Option<Color>) -> (r: Canvas)
        requires
            width * height <= usize::MAX,
            initial_color matches Some(c) ==> c.wf() && c.bounded(VALUE_LIMIT as int),
        ensures
            r.wf(),
            r.width == width,
            r.height == height,
            r.size == width * height,
            forall|i: int|
                0 <= i < r.pixels@.len() ==> #[trigger] r.pixels@[i] == init_color(initial_color),
    {
        let color = match initial_color {
            Some(c) => c,
            None => Color::new_black(),
        };
        let size = width * height;
        let mut pixels: Vec<Color> = Vec::new();
        let mut i: usize = 0;
        while i < size
            invariant
                0 <= i <= size,
                pixels@.len() == i,
                color == init_color(initial_color),
                color.wf(),
                color.bounded(VALUE_LIMIT as int),
                forall|j: int| 0 <= j < i ==> #[trigger] pixels@[j] == color,
            decreases size - i,
        {
            pixels.push(color);
            i += 1;
        }
        Canvas { width, height, size, pixels }
    }

    /// Store `color` at `(x, y)`. An out-of-range write does not fail: it
    /// lands on the last pixel, or does nothing on an empty canvas.
    pub fn write_pixel(&mut self, x: usize, y: usize, color: Color)
        requires
            old(self).wf(),
            color.wf(),
            color.bounded(VALUE_LIMIT as int),
        ensures
            final(self).wf(),
            final(self).width == old(self).width,
            final(self).height == old(self).height,
            final(self).size == old(self).size,
            x < old(self).width && y < old(self).height ==> final(self).pixels@ == old(self).pixels@
                .update(y * old(self).width + x, color),
            !(x < old(self).width && y < old(self).height) && old(self).size > 0
                ==> final(self).pixels@ == old(self).pixels@.update(old(self).size - 1, color),
            !(x < old(self).width && y < old(self).height) && old(self).size == 0
                ==> final(self).pixels@ == old(self).pixels@,
    {
        if x < self.width && y < self.height {
            proof {
                lemma_row_major_in_range(x as int, y as int, self.width as int, self.height as int);
            }
            let idx = y * self.width + x;
            self.pixels[idx] = color;
        } else if self.size > 0 {
            let idx = self.size - 1;
            self.pixels[idx] = color;
        }
    }

    /// The color at `(x, y)`, or absent when the coordinates lie outside
    /// the canvas.
    pub fn pixel_at(&self, x: usize, y: usize) -> (r: Option<Color>)
        requires
            self.wf(),
        ensures
            r is Some <==> x < self.width && y < self.height,
            r matches Some(c) ==> c == self.pixels@[y * self.width + x],
    {
        if x < self.width && y < self.height {
            proof {
                lemma_row_major_in_range(x as int, y as int, self.width as int, self.height as int);
            }
            let idx = y * self.width + x;
            Some(self.pixels[idx])
        } else {
            None
        }
    }

    /// Serialize to the plain-text `P3` format, byte for byte: the header,
    /// then every pixel's clamped channels in row-major order under the
    /// greedy 70-character line layout, ending with a newline.
    pub fn to_ppm(&self) -> (r: String)
        requires
            self.wf(),
        ensures
            r@ == ppm_of(*self),
    {
        let mut out = String::new();
        out.append("P3\n");
        let ws = dec_str(self.width);
        out.append(ws.as_str());
        out.append(" ");
        let hs = dec_str(self.height);
        out.append(hs.as_str());
        out.append("\n255\n");
        proof {
            reveal_strlit("P3\n");
            reveal_strlit(" ");
            reveal_strlit("\n255\n");
            assert(out@ =~= header_of(self.width as nat, self.height as nat));
        }
        let n = self.pixels.len();
        if n == 0 {
            proof {
                assert(out@ =~= ppm_of(*self));
            }
            return out;
        }
        let ghost ts = triads_of(self.pixels@);
        let mut line = triad_str(&self.pixels[0]);
        let mut body = String::new();
        let mut i: usize = 1;
        proof {
            lemma_triad_len(self.pixels@[0]);
            assert(ts.skip(1).skip(0) =~= ts.skip(1));
            assert(body@ + join_lines(lines_of(ts.skip(1 as int), line@)) =~= body_of(ts));
        }
        while i < n
            invariant
                1 <= i <= n,
                n == self.pixels@.len(),
                self.wf(),
                ts == triads_of(self.pixels@),
                line@.len() <= 68,
                body@ + join_lines(lines_of(ts.skip(i as int), line@)) == body_of(ts),
            decreases n - i,
        {
            let t = triad_str(&self.pixels[i]);
            proof {
                lemma_triad_len(self.pixels@[i as int]);
                assert(ts.skip(i as int)[0] == ts[i as int]);
                assert(ts.skip(i as int).skip(1) =~= ts.skip(i + 1 as int));
            }
            if line.as_str().unicode_len() + t.as_str().unicode_len() >= 68 {
                let ghost old_body = body@;
                let ghost old_line = line@;
                body.append(line.as_str());
                body.append("\n");
                line = t;
                proof {
                    reveal_strlit("\n");
                    assert(body@ =~= old_body + old_line + seq!['\n']);
                    assert(lines_of(ts.skip(i as int), old_line) == seq![old_line] + lines_of(
                        ts.skip(i + 1 as int),
                        ts[i as int],
                    ));
                    assert((seq![old_line] + lines_of(ts.skip(i + 1 as int), ts[i as int])).skip(1)
                        =~= lines_of(ts.skip(i + 1 as int), ts[i as int]));
                    assert(join_lines(seq![old_line] + lines_of(ts.skip(i + 1 as int), ts[i as int]))
                        == old_line + seq!['\n'] + join_lines(
                        lines_of(ts.skip(i + 1 as int), ts[i as int]),
                    ));
                    assert(body@ + join_lines(lines_of(ts.skip(i + 1 as int), line@)) =~= body_of(
                        ts,
                    ));
                }
            } else {
                let ghost old_line = line@;
                line.append(" ");
                line.append(t.as_str());
                proof {
                    reveal_strlit(" ");
                    assert(line@ =~= old_line + seq![' '] + ts[i as int]);
                    assert(body@ + join_lines(lines_of(ts.skip(i + 1 as int), line@)) =~= body_of(
                        ts,
                    ));
                }
            }
            i += 1;
        }
        body.append(line.as_str());
        body.append("\n");
        proof {
            reveal_strlit("\n");
            assert(ts.skip(n as int).len() == 0);
            let ghost fin = line@;
            assert(lines_of(ts.skip(n as int), fin) == seq![fin]);
            assert(seq![fin].skip(1) =~= Seq::<Seq<char>>::empty());
            assert(join_lines(seq![fin].skip(1)) == Seq::<char>::empty());
            assert(seq![fin][0] == fin);
            assert(join_lines(seq![fin]) =~= fin + seq!['\n']);
            assert(body@ =~= body_of(ts));
        }
        out.append(body.as_str());
        proof {
            assert(out@ =~= ppm_of(*self));
        }
        out
    }
}

/// A row-major index computed from in-range coordinates lies inside the
/// pixel buffer.
proof fn lemma_row_major_in_range(x: int, y: int, w: int, h: int)
    by (nonlinear_arith)
    requires
        0 <= x < w,
        0 <= y < h,
    ensures
        0 <= y * w + x < w * h,
{
}

} // verus!
