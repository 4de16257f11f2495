//! The terminal's background: how it is classified from a colour, how the
//! terminal's answer to a colour query is read, and how an override or a
//! failed query settles it.
use vstd::prelude::*;
use vstd::utf8::valid_utf8;

use crate::text::{
    ascii_lowercase, contains_seq, find_bytes, first_occurrence, occurs_at, same_text,
    to_ascii_lowercase,
};
use crate::theme::{Background, Rgb};

verus! {

broadcast use vstd::string::group_string_axioms;

/// The perceived brightness of a colour, weighted 299/587/114 per channel.
pub open spec fn luminosity(rgb: Rgb) -> int {
    rgb.red * 299 + rgb.green * 587 + rgb.blue * 114
}

/// A colour is a light background when its weighted brightness reaches 150000.
pub open spec fn background_of(rgb: Rgb) -> Background {
    if luminosity(rgb) >= 150000 {
        Background::Light
    } else {
        Background::Dark
    }
}

/// Classifies a background colour as light or dark.
pub fn classify_background(rgb: Rgb) -> (r: Background)
    ensures
        r == background_of(rgb),
{
    let luminosity = (rgb.red as u32) * 299 + (rgb.green as u32) * 587 + (rgb.blue as u32) * 114;
    if luminosity >= 150_000 {
        Background::Light
    } else {
        Background::Dark
    }
}

/// The value of a hexadecimal digit (either case).
pub open spec fn hex_digit(b: u8) -> Option<int> {
    if 48 <= b <= 57 {
        Some(b - 48)
    } else if 97 <= b <= 102 {
        Some(b - 87)
    } else if 65 <= b <= 70 {
        Some(b - 55)
    } else {
        None
    }
}

/// The value of a string of hexadecimal digits (zero for none).
pub open spec fn hex_digits_value(s: Seq<u8>) -> Option<int>
    decreases s.len(),
{
    if s.len() == 0 {
        Some(0)
    } else {
        match (hex_digits_value(s.drop_last()), hex_digit(s.last())) {
            (Some(v), Some(d)) => Some(v * 16 + d),
            _ => None,
        }
    }
}

/// `u32::from_str_radix(s, 16)` on short input: an optional `+` and then one
/// or more hexadecimal digits.
pub open spec fn radix16_value(s: Seq<u8>) -> Option<int> {
    if s.len() == 0 {
        None
    } else if s[0] == 43 {
        if s.len() == 1 {
            None
        } else {
            hex_digits_value(s.skip(1))
        }
    } else {
        hex_digits_value(s)
    }
}

/// The largest value that `len` hexadecimal digits can hold, `2^(4 len) - 1`.
pub open spec fn channel_maximum(len: int) -> int {
    if len == 1 {
        15
    } else if len == 2 {
        255
    } else if len == 3 {
        4095
    } else {
        65535
    }
}

/// A colour channel of one to four hexadecimal digits, scaled to 0..=255
/// with rounding.
pub open spec fn color_component(c: Seq<u8>) -> Option<u8> {
    if c.len() == 0 || c.len() > 4 {
        None
    } else {
        match radix16_value(c) {
            Some(v) => Some(
                ((v * 255 + channel_maximum(c.len() as int) / 2) / channel_maximum(
                    c.len() as int,
                )) as u8,
            ),
            None => None,
        }
    }
}

pub open spec fn power16(k: int) -> int
    decreases k,
{
    if k <= 0 {
        1
    } else {
        16 * power16(k - 1)
    }
}

fn hex_digit_of(b: u8) -> (r: Option<u32>)
    ensures
        match r {
            Some(d) => hex_digit(b) == Some(d as int) && d < 16,
            None => hex_digit(b) is None,
        },
{
    if 48 <= b && b <= 57 {
        Some((b - 48) as u32)
    } else if 97 <= b && b <= 102 {
        Some((b - 87) as u32)
    } else if 65 <= b && b <= 70 {
        Some((b - 55) as u32)
    } else {
        None
    }
}

/// Reads one colour channel of a terminal's answer (`f5`, `1919`, ...).
pub fn parse_color_component(component: &[u8]) -> (r: Option<u8>)
    ensures
        r == color_component(component@),
{
    let n = component.len();
    if n == 0 || n > 4 {
        return None;
    }
    let mut start: usize = 0;
    if component[0] == 43 {
        if n == 1 {
            return None;
        }
        start = 1;
    }
    let ghost digits = component@.skip(start as int);
    assert(component@.skip(0) =~= component@);
    assert(radix16_value(component@) == hex_digits_value(digits));
    let mut value: u32 = 0;
    let mut i = start;
    assert(component@.subrange(start as int, start as int) =~= Seq::<u8>::empty());
    while i < n
        invariant
            n == component@.len(),
            1 <= n <= 4,
            start <= i <= n,
            start <= 1,
            digits == component@.skip(start as int),
            radix16_value(component@) == hex_digits_value(digits),
            hex_digits_value(component@.subrange(start as int, i as int)) == Some(value as int),
            value < power16(i - start),
            power16(i - start) <= 65536,
        decreases n - i,
    {
        let d = match hex_digit_of(component[i]) {
            Some(d) => d,
            None => {
                proof {
                    lemma_hex_digits_fail(digits, (i - start) as int);
                    assert(component@.subrange(start as int, i + 1) =~= digits.take(i - start + 1));
                }
                return None;
            },
        };
        let ghost prefix = component@.subrange(start as int, i + 1);
        assert(prefix.drop_last() =~= component@.subrange(start as int, i as int));
        proof {
            reveal_with_fuel(power16, 5);
        }
        value = value * 16 + d;
        i = i + 1;
    }
    assert(component@.subrange(start as int, n as int) =~= digits);
    let maximum: u32 = if n == 1 {
        15
    } else if n == 2 {
        255
    } else if n == 3 {
        4095
    } else {
        65535
    };
    proof {
        reveal_with_fuel(power16, 5);
        assert(value <= maximum);
    }
    let scaled = (value * 255 + maximum / 2) / maximum;
    assert(scaled <= 255) by (nonlinear_arith)
        requires
            value <= maximum,
            maximum >= 15,
            scaled as int == (value * 255 + maximum / 2) as int / maximum as int,
    ;
    Some(scaled as u8)
}

/// Whether the bytes are well-formed UTF-8, through `std::str::from_utf8`; the
/// contract claims what std documents of it: it succeeds exactly on valid UTF-8.
#[verifier::external_body]
fn is_utf8(bytes: &[u8]) -> (r: bool)
    ensures
        r == valid_utf8(bytes@),
{
    std::str::from_utf8(bytes).is_ok()
}

/// The bytes of `rgb:`, which precede the colour in a terminal's answer.
pub open spec fn rgb_marker() -> Seq<u8> {
    seq![114u8, 103u8, 98u8, 58u8]
}

/// BEL and ESC end the colour in a terminal's answer.
pub open spec fn is_terminator(b: u8) -> bool {
    b == 7 || b == 27
}

pub open spec fn is_first_terminator(s: Seq<u8>, k: int) -> bool {
    0 <= k < s.len() && is_terminator(s[k]) && forall|j: int|
        0 <= j < k ==> !is_terminator(#[trigger] s[j])
}

/// The text before the first BEL or ESC (all of it where there is none).
pub open spec fn colour_field(s: Seq<u8>) -> Seq<u8> {
    if exists|k: int| 0 <= k < s.len() && is_terminator(#[trigger] s[k]) {
        s.take(choose|k: int| is_first_terminator(s, k))
    } else {
        s
    }
}

/// `str::split`: the pieces of `s` between the separators, in order.
pub open spec fn split_bytes(s: Seq<u8>, sep: u8) -> Seq<Seq<u8>>
    decreases s.len(),
{
    if s.len() == 0 {
        seq![Seq::<u8>::empty()]
    } else {
        let front = split_bytes(s.drop_last(), sep);
        if s.last() == sep {
            front.push(Seq::<u8>::empty())
        } else {
            front.update(front.len() - 1, front.last().push(s.last()))
        }
    }
}

/// The background that a colour field `r/g/b` names: exactly three channels,
/// each of one to four hexadecimal digits.
pub open spec fn field_background(f: Seq<u8>) -> Option<Background> {
    let parts = split_bytes(f, 47u8);
    if parts.len() != 3 {
        None
    } else {
        match (color_component(parts[0]), color_component(parts[1]), color_component(parts[2])) {
            (Some(red), Some(green), Some(blue)) => Some(
                background_of(Rgb { red, green, blue }),
            ),
            _ => None,
        }
    }
}

/// The background that a terminal's answer reports: the answer must be UTF-8
/// and hold `rgb:`; the colour runs from there to the first BEL or ESC.
pub open spec fn report_background(r: Seq<u8>) -> Option<Background> {
    if !valid_utf8(r) {
        None
    } else {
        match first_occurrence(r, rgb_marker()) {
            None => None,
            Some(i) => field_background(colour_field(r.skip(i + 4))),
        }
    }
}

fn bytes_range(s: &[u8], from: usize, to: usize) -> (r: Vec<u8>)
    requires
        from <= to <= s@.len(),
    ensures
        r@ == s@.subrange(from as int, to as int),
{
    let mut r: Vec<u8> = Vec::new();
    let mut i = from;
    while i < to
        invariant
            from <= i <= to <= s@.len(),
            r@ == s@.subrange(from as int, i as int),
        decreases to - i,
    {
        r.push(s[i]);
        i = i + 1;
        assert(r@ =~= s@.subrange(from as int, i as int));
    }
    r
}

fn colour_field_of(s: &Vec<u8>) -> (r: Vec<u8>)
    ensures
        r@ == colour_field(s@),
{
    let mut k: usize = 0;
    while k < s.len()
        invariant
            k <= s.len(),
            forall|j: int| 0 <= j < k ==> !is_terminator(#[trigger] s@[j]),
        decreases s.len() - k,
    {
        if s[k] == 7 || s[k] == 27 {
            let ghost c = choose|m: int| is_first_terminator(s@, m);
            assert(is_first_terminator(s@, k as int));
            assert(is_first_terminator(s@, c));
            assert(c == k) by {
                if c < k {
                    assert(!is_terminator(s@[c]));
                } else if k < c {
                    assert(!is_terminator(s@[k as int]));
                }
            }
            return bytes_range(s.as_slice(), 0, k);
        }
        k = k + 1;
    }
    assert(s@.subrange(0, s@.len() as int) =~= s@);
    bytes_range(s.as_slice(), 0, s.len())
}

fn split_on_slash(f: &Vec<u8>) -> (r: (Vec<Vec<u8>>, Vec<u8>))
    ensures
        split_bytes(f@, 47u8) == r.0@.map_values(|v: Vec<u8>| v@).push(r.1@),
{
    let mut done: Vec<Vec<u8>> = Vec::new();
    let mut cur: Vec<u8> = Vec::new();
    let mut i: usize = 0;
    assert(f@.take(0) =~= Seq::<u8>::empty());
    assert(done@.map_values(|v: Vec<u8>| v@).push(cur@) =~= seq![Seq::<u8>::empty()]);
    while i < f.len()
        invariant
            i <= f.len(),
            split_bytes(f@.take(i as int), 47u8) == done@.map_values(|v: Vec<u8>| v@).push(cur@),
        decreases f.len() - i,
    {
        let b = f[i];
        let ghost before = done@.map_values(|v: Vec<u8>| v@);
        assert(f@.take(i + 1).drop_last() =~= f@.take(i as int));
        if b == 47 {
            done.push(cur);
            cur = Vec::new();
            assert(done@.map_values(|v: Vec<u8>| v@) =~= before.push(
                done@[done@.len() - 1]@,
            ));
        } else {
            cur.push(b);
            assert(done@.map_values(|v: Vec<u8>| v@) =~= before);
        }
        i = i + 1;
        assert(split_bytes(f@.take(i as int), 47u8) =~= done@.map_values(|v: Vec<u8>| v@).push(
            cur@,
        ));
    }
    assert(f@.take(f@.len() as int) =~= f@);
    (done, cur)
}

/// Reads a terminal's answer to the background colour query, such as
/// `ESC ]11;rgb:1919/1b1b/2424 ESC \\`, into the background it reports.
pub fn parse_background_response(response: &[u8]) -> (r: Option<Background>)
    ensures
        r == report_background(response@),
{
    if !is_utf8(response) {
        return None;
    }
    let marker: Vec<u8> = vec![114u8, 103u8, 98u8, 58u8];
    assert(marker@ =~= rgb_marker());
    let start = match find_bytes(response, marker.as_slice()) {
        Some(i) => i,
        None => return None,
    };
    assert(occurs_at(response@, marker@, start as int));
    let n = response.len();
    assert(start + 4 <= n);
    let rest = bytes_range(response, start + 4, n);
    assert(rest@ =~= response@.skip(start + 4));
    let field = colour_field_of(&rest);
    let (done, last) = split_on_slash(&field);
    if done.len() != 2 {
        return None;
    }
    let red = match parse_color_component(done[0].as_slice()) {
        Some(v) => v,
        None => return None,
    };
    let green = match parse_color_component(done[1].as_slice()) {
        Some(v) => v,
        None => return None,
    };
    let blue = match parse_color_component(last.as_slice()) {
        Some(v) => v,
        None => return None,
    };
    Some(classify_background(Rgb { red, green, blue }))
}

/// The background that `BELAY_BACKGROUND` asks for: `dark` or `light` in any
/// ASCII case, nothing otherwise.
pub open spec fn override_value(v: Seq<char>) -> Option<Background> {
    let l = ascii_lowercase(v);
    if l == "dark"@ {
        Some(Background::Dark)
    } else if l == "light"@ {
        Some(Background::Light)
    } else {
        None
    }
}

/// Reads the value of `BELAY_BACKGROUND`, if it is set.
pub fn background_override(value: Option<&str>) -> (r: Option<Background>)
    ensures
        match value {
            None => r is None,
            Some(v) => r == override_value(v@),
        },
{
    match value {
        None => None,
        Some(v) => {
            let l = to_ascii_lowercase(v);
            if same_text(l.as_str(), "dark") {
                Some(Background::Dark)
            } else if same_text(l.as_str(), "light") {
                Some(Background::Light)
            } else {
                None
            }
        },
    }
}

/// The background to style for: the override where there is one, else what
/// the terminal reported, else dark.
pub fn reported_terminal_background(
    override_background: Option<Background>,
    queried: Option<Background>,
) -> (r: Background)
    ensures
        r == match override_background {
            Some(b) => b,
            None => match queried {
                Some(b) => b,
                None => Background::Dark,
            },
        },
{
    match override_background {
        Some(b) => b,
        None => match queried {
            Some(b) => b,
            None => Background::Dark,
        },
    }
}

/// Whether a terminal's answer is complete: it holds BEL, or ESC followed by `\\`.
pub open spec fn answer_complete(r: Seq<u8>) -> bool {
    r.contains(7u8) || contains_seq(r, seq![27u8, 92u8])
}

/// The reading of a terminal's answer to the colour query: at most three
/// reads, stopping at an empty read or once the answer is complete.
pub struct BackgroundQuery {
    pub response: Vec<u8>,
    pub reads: usize,
    pub finished: bool,
}

impl BackgroundQuery {
    /// No read made yet.
    pub fn new() -> (r: Self)
        ensures
            r.response@ == Seq::<u8>::empty(),
            r.reads == 0,
            !r.finished,
    {
        BackgroundQuery { response: Vec::new(), reads: 0, finished: false }
    }

    /// Whether another read of the terminal is due.
    pub fn wants_read(&self) -> (r: bool)
        ensures
            r == (!self.finished && self.reads < 3),
    {
        !self.finished && self.reads < 3
    }

    /// Takes the bytes of one read: an empty read ends the reading; other
    /// bytes extend the answer, and a complete answer ends the reading.
    pub fn receive(&mut self, chunk: &[u8])
        requires
            !old(self).finished,
            old(self).reads < 3,
        ensures
            chunk@.len() == 0 ==> final(self).finished && final(self).response@ == old(
                self,
            ).response@ && final(self).reads == old(self).reads,
            chunk@.len() > 0 ==> {
                &&& final(self).response@ == old(self).response@ + chunk@
                &&& final(self).reads == old(self).reads + 1
                &&& final(self).finished == answer_complete(final(self).response@)
            },
    {
        if chunk.len() == 0 {
            self.finished = true;
            return;
        }
        let mut i: usize = 0;
        let ghost start = self.response@;
        while i < chunk.len()
            invariant
                i <= chunk@.len(),
                self.response@ == start + chunk@.take(i as int),
                self.reads == old(self).reads,
                self.reads < 3,
            decreases chunk@.len() - i,
        {
            self.response.push(chunk[i]);
            i = i + 1;
            assert(self.response@ =~= start + chunk@.take(i as int));
        }
        assert(chunk@.take(chunk@.len() as int) =~= chunk@);
        self.reads = self.reads + 1;
        self.finished = is_complete(&self.response);
    }

    /// The background that the answer read so far reports.
    pub fn background(&self) -> (r: Option<Background>)
        ensures
            r == report_background(self.response@),
    {
        parse_background_response(self.response.as_slice())
    }
}

fn is_complete(r: &Vec<u8>) -> (b: bool)
    ensures
        b == answer_complete(r@),
{
    let mut i: usize = 0;
    while i < r.len()
        invariant
            i <= r.len(),
            forall|j: int| 0 <= j < i ==> r@[j] != 7u8,
        decreases r.len() - i,
    {
        if r[i] == 7 {
            assert(r@[i as int] == 7u8);
            return true;
        }
        i = i + 1;
    }
    let pair: Vec<u8> = vec![27u8, 92u8];
    assert(pair@ =~= seq![27u8, 92u8]);
    match find_bytes(r.as_slice(), pair.as_slice()) {
        Some(k) => {
            assert(occurs_at(r@, pair@, k as int));
            true
        },
        None => false,
    }
}

/// A channel of two hexadecimal digits is read as exactly the byte it spells.
pub proof fn lemma_two_digit_channel_is_exact(c: Seq<u8>)
    requires
        c.len() == 2,
        hex_digit(c[0]) is Some,
        hex_digit(c[1]) is Some,
    ensures
        hex_digits_value(c) matches Some(v) && color_component(c) == Some(v as u8) && v <= 255,
{
    assert(c.drop_last().drop_last() =~= Seq::<u8>::empty());
    assert(c.drop_last().last() == c[0]);
    assert(c[0] != 43u8);
    let d0 = hex_digit(c[0])->0;
    let d1 = hex_digit(c[1])->0;
    let v = d0 * 16 + d1;
    let c1 = c.drop_last();
    assert(hex_digits_value(c1.drop_last()) == Some(0int));
    assert(hex_digits_value(c1) == Some(d0));
    assert(c.last() == c[1]);
    assert(hex_digits_value(c) == Some(v));
    assert((v * 255 + 127) / 255 == v) by (nonlinear_arith)
        requires
            0 <= v <= 255,
    ;
}

/// Where a digit fails to be hexadecimal, the whole string fails too.
proof fn lemma_hex_digits_fail(s: Seq<u8>, k: int)
    requires
        0 <= k < s.len(),
        hex_digit(s[k]) is None,
    ensures
        hex_digits_value(s) is None,
        hex_digits_value(s.take(k + 1)) is None,
    decreases s.len(),
{
    assert(s.take(k + 1).drop_last() =~= s.take(k));
    assert(s.take(k + 1).last() == s[k]);
    if k < s.len() - 1 {
        lemma_hex_digits_fail(s.drop_last(), k);
        assert(s.drop_last().take(k + 1) =~= s.take(k + 1));
    }
}

} // verus!
