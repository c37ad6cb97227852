//! Reading the source fonts: the lines of the unscii hex font, the glyphs of the misaki font,
//! and putting the characters of a font in code point order.
use crate::font_builder::chars::{insert_in_order, ordered_by_ch, CharacterInfo, LEFT_HALF, RIGHT_HALF};
use vstd::prelude::*;

verus! {

/// Why a line of the unscii font cannot be read.
#[derive(Copy, Clone, Debug, PartialEq, Eq, Structural)]
pub enum UnsciiError {
    /// The line has no `:` between the code point and the glyph.
    MissingGlyph,
    /// The code point or the glyph is not a hexadecimal number of its size.
    BadNumber,
    /// The code point is not a character.
    NotAChar,
}

/// The value of a hexadecimal digit.
pub open spec fn hex_digit(b: u8) -> Option<int> {
    if 48 <= b <= 57 {
        Some(b - 48)
    } else if 97 <= b <= 102 {
        Some(b - 87)
    } else if 65 <= b <= 70 {
        Some(b - 55)
    } else {
        None
    }
}

/// Whether all bytes are hexadecimal digits.
pub open spec fn all_hex(s: Seq<u8>) -> bool {
    forall|i: int| 0 <= i < s.len() ==> (#[trigger] hex_digit(s[i])) is Some
}

/// The value of a sequence of hexadecimal digits.
pub open spec fn hex_value(s: Seq<u8>) -> int
    decreases s.len(),
{
    if s.len() == 0 {
        0
    } else {
        hex_value(s.drop_last()) * 16 + hex_digit(s.last())->0
    }
}

/// The digits of a number: a leading `+` is dropped.
pub open spec fn number_digits(s: Seq<u8>) -> Seq<u8> {
    if s.len() > 0 && s[0] == 43 {
        s.skip(1)
    } else {
        s
    }
}

/// The value of a hexadecimal number of at most `max`, as `from_str_radix` with radix 16
/// reads it: an optional `+`, then at least one digit; `None` where it fails.
pub open spec fn hex_number(s: Seq<u8>, max: int) -> Option<int> {
    let d = number_digits(s);
    if d.len() > 0 && all_hex(d) && hex_value(d) <= max {
        Some(hex_value(d))
    } else {
        None
    }
}

/// The position of the first byte `b`, or the length where there is none.
pub open spec fn find_byte(s: Seq<u8>, b: u8) -> nat
    decreases s.len(),
{
    if s.len() == 0 {
        0
    } else if s[0] == b {
        0
    } else {
        1 + find_byte(s.skip(1), b)
    }
}

/// Whether a number is a character: a Unicode scalar value.
pub open spec fn is_scalar(v: int) -> bool {
    (0 <= v <= 0xD7FF) || (0xE000 <= v <= 0x10FFFF)
}

/// A character with its glyph, half-width where the glyph only uses the left half of its rows
/// and uses it somewhere.
pub open spec fn char_info(ch: char, data: u64) -> CharacterInfo {
    CharacterInfo { ch, data, is_half_width: data & LEFT_HALF != 0 && data & RIGHT_HALF == 0 }
}

/// A line of the unscii font: the hexadecimal code point, `:`, and the hexadecimal glyph, up to
/// a further `:` if there is one. The null character is left out.
pub open spec fn unscii_line(line: Seq<u8>) -> Result<Option<CharacterInfo>, UnsciiError> {
    let c = find_byte(line, 58);
    if c == line.len() {
        Err(UnsciiError::MissingGlyph)
    } else {
        let rest = line.skip(c + 1 as int);
        let glyph = rest.take(find_byte(rest, 58) as int);
        match hex_number(line.take(c as int), 0xFFFF_FFFF) {
            None => Err(UnsciiError::BadNumber),
            Some(v) => if !is_scalar(v) {
                Err(UnsciiError::NotAChar)
            } else {
                match hex_number(glyph, 0xFFFF_FFFF_FFFF_FFFF) {
                    None => Err(UnsciiError::BadNumber),
                    Some(d) => if v == 0 {
                        Ok(None)
                    } else {
                        Ok(Some(char_info(v as char, d as u64)))
                    },
                }
            },
        }
    }
}

/// `r` with `prefix` before its characters, where it holds any.
pub open spec fn prepend(prefix: Seq<CharacterInfo>, r: Result<Seq<CharacterInfo>, UnsciiError>) -> Result<
    Seq<CharacterInfo>,
    UnsciiError,
> {
    match r {
        Ok(s) => Ok(prefix + s),
        Err(e) => Err(e),
    }
}

/// The characters of an unscii font file, line by line, skipping empty lines; the first line
/// that cannot be read gives the error.
pub open spec fn unscii_entries(s: Seq<u8>) -> Result<Seq<CharacterInfo>, UnsciiError>
    decreases s.len(),
{
    if s.len() == 0 {
        Ok(Seq::empty())
    } else {
        let n = find_byte(s, 10);
        let rest = if n < s.len() {
            s.skip(n + 1 as int)
        } else {
            Seq::empty()
        };
        let line = s.take(n as int);
        if line.len() == 0 {
            unscii_entries(rest)
        } else {
            match unscii_line(line) {
                Err(e) => Err(e),
                Ok(None) => unscii_entries(rest),
                Ok(Some(c)) => prepend(seq![c], unscii_entries(rest)),
            }
        }
    }
}

/// The first byte `b` is at `n`: no byte before it is `b`.
proof fn lemma_find_byte(s: Seq<u8>, b: u8, n: int)
    requires
        0 <= n <= s.len(),
        n < s.len() ==> s[n] == b,
        forall|k: int| 0 <= k < n ==> s[k] != b,
    ensures
        find_byte(s, b) == n,
    decreases n,
{
    if n > 0 {
        let t = s.skip(1);
        assert forall|k: int| 0 <= k < n - 1 implies t[k] != b by {
            assert(t[k] == s[k + 1]);
        }
        if n - 1 < t.len() {
            assert(t[n - 1] == s[n]);
        }
        lemma_find_byte(t, b, n - 1);
    }
}

/// Digits only add to the value: a prefix of hexadecimal digits has at most the value of the
/// whole.
proof fn lemma_hex_prefix(s: Seq<u8>, j: int)
    requires
        0 <= j <= s.len(),
        all_hex(s),
    ensures
        0 <= hex_value(s.take(j)) <= hex_value(s),
    decreases s.len(),
{
    if s.len() > 0 {
        let t = s.drop_last();
        assert forall|i: int| 0 <= i < t.len() implies (#[trigger] hex_digit(t[i])) is Some by {
            assert(t[i] == s[i]);
        }
        assert(hex_digit(s[s.len() - 1]) is Some);
        if j < s.len() {
            assert(t.take(j) =~= s.take(j));
            lemma_hex_prefix(t, j);
        } else {
            assert(s.take(j) =~= s);
            lemma_hex_prefix(t, 0);
        }
    } else {
        assert(s.take(j) =~= s);
    }
}

/// The value of a hexadecimal digit.
fn digit_value(b: u8) -> (r: Option<u64>)
    ensures
        match hex_digit(b) {
            Some(d) => r == Some(d as u64),
            None => r is None,
        },
{
    if 48 <= b && b <= 57 {
        Some((b - 48) as u64)
    } else if 97 <= b && b <= 102 {
        Some((b - 87) as u64)
    } else if 65 <= b && b <= 70 {
        Some((b - 55) as u64)
    } else {
        None
    }
}

/// Reads a hexadecimal number of at most `max` as `from_str_radix` does with radix 16.
fn parse_hex(s: &[u8], max: u64) -> (r: Option<u64>)
    ensures
        r matches Some(x) ==> hex_number(s@, max as int) == Some(x as int),
        r is None ==> hex_number(s@, max as int) is None,
{
    let start: usize = if s.len() > 0 && s[0] == 43 {
        1
    } else {
        0
    };
    let ghost d = number_digits(s@);
    assert(d =~= s@.subrange(start as int, s@.len() as int));
    if start == s.len() {
        return None;
    }
    let mut v: u64 = 0;
    let mut i: usize = start;
    while i < s.len()
        invariant
            start <= i <= s@.len(),
            d == number_digits(s@),
            d == s@.subrange(start as int, s@.len() as int),
            all_hex(d.take(i - start)),
            v == hex_value(d.take(i - start)),
            v <= max,
        decreases s@.len() - i,
    {
        let ghost k = i - start;
        assert(d.take(k + 1).drop_last() =~= d.take(k));
        assert(d[k] == s@[i as int]);
        let dv = match digit_value(s[i]) {
            Some(x) => x,
            None => {
                assert(hex_digit(d[k]) is None);
                assert(!all_hex(d));
                return None;
            },
        };
        if dv > max || v > (max - dv) / 16 {
            proof {
                assert(d.take(k + 1).last() == d[k]);
                assert(hex_value(d.take(k + 1)) == v * 16 + dv);
                assert(v * 16 + dv > max) by (nonlinear_arith)
                    requires
                        dv > max || v > (max - dv) / 16,
                        dv <= 15,
                ;
                assert(hex_value(d.take(k + 1)) > max);
                if all_hex(d) {
                    lemma_hex_prefix(d, k + 1);
                }
            }
            return None;
        }
        v = v * 16 + dv;
        i = i + 1;
        proof {
            assert forall|t: int| 0 <= t < d.take(k + 1).len() implies (#[trigger] hex_digit(
                d.take(k + 1)[t],
            )) is Some by {
                if t < k {
                    assert(d.take(k + 1)[t] == d.take(k)[t]);
                }
            }
        }
    }
    assert(d.take(d.len() as int) =~= d);
    Some(v)
}

/// The position of the first byte `b` in `s`, or its length.
fn find_in(s: &[u8], b: u8) -> (r: usize)
    ensures
        r == find_byte(s@, b),
        r <= s@.len(),
{
    let mut i: usize = 0;
    while i < s.len() && s[i] != b
        invariant
            i <= s@.len(),
            forall|k: int| 0 <= k < i ==> s@[k] != b,
        decreases s@.len() - i,
    {
        i = i + 1;
    }
    proof {
        lemma_find_byte(s@, b, i as int);
    }
    i
}

/// `char::from_u32`: the character with a code point, if the code point is a Unicode scalar
/// value; its documentation says it returns `None` for every other number.
#[verifier::external_body]
fn char_from_u32(v: u32) -> (r: Option<char>)
    ensures
        r is Some <==> is_scalar(v as int),
        r matches Some(c) ==> c as u32 == v && c == v as char,
{
    char::from_u32(v)
}

/// Reads a line of the unscii font: `None` for the null character.
pub fn parse_unscii_line(line: &[u8]) -> (r: Result<Option<CharacterInfo>, UnsciiError>)
    ensures
        r == unscii_line(line@),
{
    let c = find_in(line, 58);
    if c == line.len() {
        return Err(UnsciiError::MissingGlyph);
    }
    let head = vstd::slice::slice_subrange(line, 0, c);
    let rest = vstd::slice::slice_subrange(line, c + 1, line.len());
    assert(rest@ =~= line@.skip(c + 1));
    assert(head@ =~= line@.take(c as int));
    let g = find_in(rest, 58);
    let glyph = vstd::slice::slice_subrange(rest, 0, g);
    assert(glyph@ =~= rest@.take(g as int));
    let v = match parse_hex(head, 0xFFFF_FFFF) {
        None => return Err(UnsciiError::BadNumber),
        Some(v) => v,
    };
    let ch = match char_from_u32(v as u32) {
        None => return Err(UnsciiError::NotAChar),
        Some(ch) => ch,
    };
    let data = match parse_hex(glyph, 0xFFFF_FFFF_FFFF_FFFF) {
        None => return Err(UnsciiError::BadNumber),
        Some(d) => d,
    };
    if v == 0 {
        Ok(None)
    } else {
        Ok(Some(CharacterInfo::new(ch, data)))
    }
}

/// Reads an unscii font file: the characters of its lines in order, empty lines skipped and
/// the null character left out, or the error of the first line that cannot be read.
pub fn parse_unscii(data: &[u8]) -> (r: Result<Vec<CharacterInfo>, UnsciiError>)
    ensures
        match unscii_entries(data@) {
            Ok(s) => r matches Ok(v) && v@ == s,
            Err(e) => r == Err::<Vec<CharacterInfo>, UnsciiError>(e),
        },
{
    let mut out: Vec<CharacterInfo> = Vec::new();
    let mut start: usize = 0;
    assert(data@.skip(0) =~= data@);
    while start < data.len()
        invariant
            start <= data@.len(),
            unscii_entries(data@) == prepend(out@, unscii_entries(data@.skip(start as int))),
        decreases data@.len() - start,
    {
        let rest = vstd::slice::slice_subrange(data, start, data.len());
        assert(rest@ =~= data@.skip(start as int));
        let n = find_in(rest, 10);
        let line = vstd::slice::slice_subrange(rest, 0, n);
        assert(line@ =~= rest@.take(n as int));
        let next = if n < rest.len() {
            start + n + 1
        } else {
            data.len()
        };
        proof {
            if n < rest@.len() {
                assert(rest@.skip(n + 1) =~= data@.skip(next as int));
            } else {
                assert(data@.skip(next as int) =~= Seq::<u8>::empty());
            }
        }
        if n > 0 {
            match parse_unscii_line(line) {
                Err(e) => {
                    return Err(e);
                },
                Ok(None) => {},
                Ok(Some(c)) => {
                    let ghost before = out@;
                    out.push(c);
                    proof {
                        assert(out@ =~= before + seq![c]);
                        match unscii_entries(data@.skip(next as int)) {
                            Ok(t) => {
                                assert(before + (seq![c] + t) =~= out@ + t);
                            },
                            Err(_) => {},
                        }
                    }
                },
            }
        }
        start = next;
    }
    proof {
        assert(data@.skip(start as int) =~= Seq::<u8>::empty());
        assert(out@ + Seq::<CharacterInfo>::empty() =~= out@);
    }
    Ok(out)
}


/// Whether a character has a given code point.
pub open spec fn has_code_point(ch: char) -> spec_fn(CharacterInfo) -> bool {
    |x: CharacterInfo| x.ch == ch
}

/// The characters of a list with a given code point, in list order.
pub open spec fn with_code_point(s: Seq<CharacterInfo>, ch: char) -> Seq<CharacterInfo> {
    s.filter(has_code_point(ch))
}

/// Pushing a character adds it to the characters with its code point, and to no others.
proof fn lemma_with_code_point_push(s: Seq<CharacterInfo>, c: CharacterInfo, ch: char)
    ensures
        with_code_point(s.push(c), ch) == if c.ch == ch {
            with_code_point(s, ch).push(c)
        } else {
            with_code_point(s, ch)
        },
{
    reveal(Seq::filter);
    assert(s.push(c).drop_last() =~= s);
}

/// A list without a code point has no characters with it.
proof fn lemma_with_code_point_none(s: Seq<CharacterInfo>, ch: char)
    requires
        forall|k: int| 0 <= k < s.len() ==> (#[trigger] s[k]).ch != ch,
    ensures
        with_code_point(s, ch) == Seq::<CharacterInfo>::empty(),
    decreases s.len(),
{
    reveal(Seq::filter);
    if s.len() > 0 {
        lemma_with_code_point_none(s.drop_last(), ch);
    }
}

/// Inserting a character after all characters whose code point is not above its own, and
/// before all others, adds it last to the characters with its code point, and to no others.
proof fn lemma_with_code_point_insert(s: Seq<CharacterInfo>, p: int, c: CharacterInfo, ch: char)
    requires
        0 <= p <= s.len(),
        forall|k: int| p <= k < s.len() ==> (c.ch as u32) < (#[trigger] s[k].ch as u32),
    ensures
        with_code_point(s.insert(p, c), ch) == if c.ch == ch {
            with_code_point(s, ch).push(c)
        } else {
            with_code_point(s, ch)
        },
{
    let a = s.subrange(0, p);
    let b = s.subrange(p, s.len() as int);
    assert(s =~= a + b);
    assert(s.insert(p, c) =~= a.push(c) + b);
    Seq::filter_distributes_over_add(a, b, has_code_point(ch));
    Seq::filter_distributes_over_add(a.push(c), b, has_code_point(ch));
    lemma_with_code_point_push(a, c, ch);
    if c.ch == ch {
        assert forall|k: int| 0 <= k < b.len() implies (#[trigger] b[k]).ch != ch by {
            assert((c.ch as u32) < (s[p + k].ch as u32));
        }
        lemma_with_code_point_none(b, ch);
        assert(with_code_point(a, ch) + Seq::<CharacterInfo>::empty() =~= with_code_point(a, ch));
        assert(with_code_point(a, ch).push(c) + Seq::<CharacterInfo>::empty() =~= with_code_point(
            a,
            ch,
        ).push(c));
    }
}

/// Puts characters in code point order; characters with one code point keep their order.
pub fn sort_by_code_point(chars: Vec<CharacterInfo>) -> (r: Vec<CharacterInfo>)
    ensures
        ordered_by_ch(r@),
        forall|ch: char| #[trigger] with_code_point(r@, ch) == with_code_point(chars@, ch),
{
    let mut out: Vec<CharacterInfo> = Vec::new();
    let n = chars.len();
    let mut k: usize = 0;
    proof {
        assert forall|ch: char| #[trigger] with_code_point(out@, ch) == with_code_point(chars@.take(0), ch) by {
            assert(chars@.take(0) =~= out@);
        }
    }
    while k < n
        invariant
            n == chars@.len(),
            k <= n,
            ordered_by_ch(out@),
            forall|ch: char| #[trigger] with_code_point(out@, ch) == with_code_point(chars@.take(k as int), ch),
        decreases n - k,
    {
        let x = chars[k];
        let ghost before = out@;
        let p = insert_in_order(&mut out, x);
        proof {
            assert(chars@.take(k + 1) =~= chars@.take(k as int).push(x));
            assert forall|ch: char| #[trigger] with_code_point(out@, ch) == with_code_point(chars@.take(k + 1), ch) by {
                lemma_with_code_point_insert(before, p as int, x, ch);
                lemma_with_code_point_push(chars@.take(k as int), x, ch);
            }
        }
        k = k + 1;
    }
    proof {
        assert(chars@.take(n as int) =~= chars@);
    }
    out
}

/// A glyph of the misaki font: its size, its position in the 8x8 cell as the font gives it,
/// and its pixels row by row.
pub struct MisakiGlyph {
    /// The width in pixels.
    pub width: u32,
    /// The height in pixels.
    pub height: u32,
    /// The horizontal offset of the glyph's box.
    pub x: i32,
    /// The vertical offset of the glyph's box from the baseline.
    pub y: i32,
    /// The pixels, `width` per row: pixel `(x, y)` is `pixels[y * width + x]`.
    pub pixels: Vec<bool>,
}

/// The row of the cell where a glyph starts: a glyph shorter than the cell is placed by its
/// vertical offset.
pub open spec fn misaki_y_offset(height: u32, y: i32) -> int {
    if height != 8 {
        8 - height - 1 - (if y > 0 {
            y as int
        } else {
            0
        })
    } else {
        0
    }
}

/// The bit of the glyph data where pixel `(x, y)` of a glyph lands, the top-left pixel of the
/// cell being the highest bit.
pub open spec fn misaki_bit(x: int, y: int, x_off: int, y_off: int) -> int {
    63 - ((x + x_off) + (y + y_off) * 8)
}

/// Whether a glyph fits the cell as the font reader places it: at most 8 rows, a row offset
/// that is not negative and, where there is a pixel, every pixel on a bit of the data.
pub open spec fn misaki_fits(width: u32, height: u32, x: i32, y: i32) -> bool {
    &&& height <= 8
    &&& misaki_y_offset(height, y) >= 0
    &&& (width > 0 && height > 0) ==> x >= 0 && misaki_bit(
        width - 1,
        height - 1,
        x as int,
        misaki_y_offset(height, y),
    ) >= 0
}

/// Whether set pixel `(px, py)` of a glyph lands on bit `b`.
pub open spec fn lands_on(g: MisakiGlyph, px: int, py: int, b: int) -> bool {
    &&& 0 <= px < g.width
    &&& 0 <= py < g.height
    &&& g.pixels@[py * g.width + px]
    &&& misaki_bit(px, py, g.x as int, misaki_y_offset(g.height, g.y)) == b
}

/// Whether bit `b` of a 64-bit value is set.
pub open spec fn bit_set(v: u64, b: int) -> bool {
    (v >> (b as u64)) & 1 == 1
}

/// Setting a bit sets that bit and leaves the others.
proof fn lemma_or_bit(a: u64, s: u64, b: u64)
    by (bit_vector)
    requires
        s < 64,
        b < 64,
    ensures
        ((a | (1u64 << s)) >> b) & 1 == 1 <==> ((a >> b) & 1 == 1 || b == s),
        (0u64 >> b) & 1 == 0,
{
}

impl MisakiGlyph {
    /// Whether the glyph fits the cell as the font reader places it.
    pub fn fits(&self) -> (r: bool)
        ensures
            r == (self.pixels@.len() == self.width * self.height && misaki_fits(
                self.width,
                self.height,
                self.x,
                self.y,
            )),
    {
        if self.height > 8 {
            return false;
        }
        let ypos: i64 = if self.y > 0 {
            self.y as i64
        } else {
            0
        };
        let yoff: i64 = if self.height != 8 {
            8 - self.height as i64 - 1 - ypos
        } else {
            0
        };
        if yoff < 0 {
            return false;
        }
        if self.width > 0 && self.height > 0 {
            if self.x < 0 {
                return false;
            }
            let last: i64 = (self.width as i64 - 1 + self.x as i64) + (self.height as i64 - 1 + yoff) * 8;
            if last > 63 {
                return false;
            }
        }
        let w64 = self.width as u64;
        let h64 = self.height as u64;
        assert(w64 * h64 <= 8 * 0xFFFF_FFFF) by (nonlinear_arith)
            requires
                w64 <= 0xFFFF_FFFF,
                h64 <= 8,
        ;
        (self.pixels.len() as u64) == w64 * h64
    }

    /// The glyph as 8x8 glyph data: every set pixel sets the bit it lands on.
    pub fn data(&self) -> (r: u64)
        requires
            self.pixels@.len() == self.width * self.height,
            misaki_fits(self.width, self.height, self.x, self.y),
        ensures
            forall|b: int|
                0 <= b < 64 ==> (bit_set(r, b) <==> exists|px: int, py: int| #[trigger]
                    lands_on(*self, px, py, b)),
    {
        let ghost g = *self;
        let w = self.width;
        let h = self.height;
        let x_off: u32 = if w > 0 && h > 0 {
            self.x as u32
        } else {
            0
        };
        let y_off: u32 = if h != 8 {
            let ypos: u32 = if self.y > 0 {
                self.y as u32
            } else {
                0
            };
            (8 - h) - 1 - ypos
        } else {
            0
        };
        assert(w > 0 && h > 0 ==> (w - 1) + (h - 1) * 8 + x_off + y_off * 8 <= 63);
        assert((w * h) <= 512) by (nonlinear_arith)
            requires
                h <= 8,
                w > 0 && h > 0 ==> (w - 1) + (h - 1) * 8 + x_off + y_off * 8 <= 63,
        ;
        let mut data: u64 = 0;
        proof {
            lemma_or_bit(0, 0, 0);
            assert forall|b: int| 0 <= b < 64 implies !bit_set(data, b) by {
                lemma_or_bit(0, 0, b as u64);
            }
        }
        let mut px: u32 = 0;
        while px < w
            invariant
                g == *self,
                w == self.width,
                h == self.height,
                self.pixels@.len() == w * h,
                w * h <= 512,
                px <= w,
                w > 0 && h > 0 ==> x_off == self.x && y_off == misaki_y_offset(h, self.y),
                w > 0 && h > 0 ==> (w - 1) + (h - 1) * 8 + x_off + y_off * 8 <= 63,
                forall|b: int|
                    0 <= b < 64 ==> (bit_set(data, b) <==> exists|qx: int, qy: int|
                        #[trigger] lands_on(g, qx, qy, b) && qx < px),
            decreases w - px,
        {
            let mut py: u32 = 0;
            while py < h
                invariant
                    g == *self,
                    w == self.width,
                    h == self.height,
                    self.pixels@.len() == w * h,
                    w * h <= 512,
                    px < w,
                    py <= h,
                    w > 0 && h > 0 ==> x_off == self.x && y_off == misaki_y_offset(h, self.y),
                    w > 0 && h > 0 ==> (w - 1) + (h - 1) * 8 + x_off + y_off * 8 <= 63,
                    forall|b: int|
                        0 <= b < 64 ==> (bit_set(data, b) <==> exists|qx: int, qy: int|
                            #[trigger] lands_on(g, qx, qy, b) && (qx < px || (qx == px && qy < py))),
                decreases h - py,
            {
                assert(py * w + px < w * h) by (nonlinear_arith)
                    requires
                        px < w,
                        py < h,
                ;
                assert((px + x_off) + (py + y_off) * 8 <= 63) by (nonlinear_arith)
                    requires
                        px < w,
                        py < h,
                        (w - 1) + (h - 1) * 8 + x_off + y_off * 8 <= 63,
                ;
                let idx = (py * w + px) as usize;
                let shift: u64 = (63 - ((px + x_off) + (py + y_off) * 8)) as u64;
                let ghost old_data = data;
                let on = self.pixels[idx];
                if on {
                    data = data | (1u64 << shift);
                }
                proof {
                    assert(idx as int == py * g.width + px);
                    assert(on == g.pixels@[py * g.width + px]);
                    assert(shift as int == misaki_bit(px as int, py as int, g.x as int, misaki_y_offset(g.height, g.y)));
                    assert forall|b: int| 0 <= b < 64 implies (bit_set(data, b) <==> exists|
                        qx: int,
                        qy: int,
                    | #[trigger] lands_on(g, qx, qy, b) && (qx < px || (qx == px && qy < py + 1))) by {
                        lemma_or_bit(old_data, shift, b as u64);
                        if bit_set(data, b) {
                            if on && b == shift {
                                assert(lands_on(g, px as int, py as int, b));
                            } else {
                                assert(bit_set(old_data, b));
                                let (qx, qy) = choose|qx: int, qy: int|
                                    #[trigger] lands_on(g, qx, qy, b) && (qx < px || (qx == px && qy < py));
                                assert(lands_on(g, qx, qy, b) && (qx < px || (qx == px && qy < py + 1)));
                            }
                        }
                        if exists|qx: int, qy: int|
                            #[trigger] lands_on(g, qx, qy, b) && (qx < px || (qx == px && qy < py + 1)) {
                            let (qx, qy) = choose|qx: int, qy: int|
                                #[trigger] lands_on(g, qx, qy, b) && (qx < px || (qx == px && qy < py + 1));
                            if qx == px && qy == py {
                                assert(on && b == shift);
                            } else {
                                assert(lands_on(g, qx, qy, b) && (qx < px || (qx == px && qy < py)));
                                assert(bit_set(old_data, b));
                            }
                        }
                    }
                }
                py = py + 1;
            }
            proof {
                assert forall|b: int| 0 <= b < 64 implies (bit_set(data, b) <==> exists|qx: int, qy: int|
                    #[trigger] lands_on(g, qx, qy, b) && qx < px + 1) by {
                    if exists|qx: int, qy: int| #[trigger] lands_on(g, qx, qy, b) && qx < px + 1 {
                        let (qx, qy) = choose|qx: int, qy: int| #[trigger] lands_on(g, qx, qy, b) && qx < px + 1;
                        assert(lands_on(g, qx, qy, b) && (qx < px || (qx == px && qy < h)));
                    }
                }
            }
            px = px + 1;
        }
        proof {
            assert forall|b: int| 0 <= b < 64 implies (bit_set(data, b) <==> exists|qx: int, qy: int|
                #[trigger] lands_on(g, qx, qy, b)) by {
                if exists|qx: int, qy: int| #[trigger] lands_on(g, qx, qy, b) {
                    let (qx, qy) = choose|qx: int, qy: int| #[trigger] lands_on(g, qx, qy, b);
                    assert(lands_on(g, qx, qy, b) && qx < px);
                }
            }
        }
        data
    }
}

} // verus!
