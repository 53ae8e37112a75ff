//! The persisted field group of an equation object.
//!
//! A stored document keeps, for every equation object, its source text,
//! its full style configuration and its last successfully rendered vector
//! content, so that a reloaded document shows the last good render
//! without recompiling. This module defines that field group as a plain
//! text format — numbers in decimal, texts length-prefixed — with a
//! verified writer and reader: reading back what was written recovers
//! every field exactly, and triggers no compilation.

use vstd::prelude::*;

use crate::config::{EquationConfig, EquationProvider, LatexEquationProvider, LatexExecutableChecker};
use crate::decimal::{push_decimal, spec_decimal, spec_digit_char};
use crate::geometry::FxVector;
use crate::stroke::{EquationImage, Rectangle, VectorImage};
use vstd::string::StrSliceExecFns;

verus! {

/// Whether `c` is a decimal digit.
pub open spec fn is_digit(c: char) -> bool {
    '0' <= c <= '9'
}

/// The value of a digit character.
pub open spec fn digit_val(c: char) -> nat {
    (c as nat - '0' as nat) as nat
}

/// Every character is a decimal digit.
pub open spec fn all_digits(s: Seq<char>) -> bool {
    forall|i: int| 0 <= i < s.len() ==> is_digit(#[trigger] s[i])
}

/// The number a digit sequence denotes, most significant digit first.
pub open spec fn spec_parse_decimal(s: Seq<char>) -> nat
    decreases s.len(),
{
    if s.len() == 0 {
        0
    } else {
        spec_parse_decimal(s.drop_last()) * 10 + digit_val(s.last())
    }
}

/// Ten to the `k`.
pub open spec fn pow10(k: nat) -> nat
    decreases k,
{
    if k == 0 {
        1
    } else {
        10 * pow10((k - 1) as nat)
    }
}

/// The decimal rendering of `n` consists of digits only, parses back to
/// `n`, and is non-empty.
pub proof fn lemma_decimal_parses_back(n: nat)
    ensures
        all_digits(spec_decimal(n)),
        spec_parse_decimal(spec_decimal(n)) == n,
        spec_decimal(n).len() >= 1,
    decreases n,
{
    if n < 10 {
        assert(spec_decimal(n) == seq![spec_digit_char(n as int)]);
        assert(is_digit(spec_digit_char(n as int)));
        assert(digit_val(spec_digit_char(n as int)) == n);
        assert(spec_decimal(n).drop_last() =~= Seq::<char>::empty());
        assert(spec_parse_decimal(Seq::<char>::empty()) == 0);
    } else {
        lemma_decimal_parses_back(n / 10);
        assert(spec_decimal(n) == spec_decimal(n / 10).push(spec_digit_char((n % 10) as int)));
        assert(spec_decimal(n).drop_last() =~= spec_decimal(n / 10));
        assert(spec_decimal(n).last() == spec_digit_char((n % 10) as int));
        assert(digit_val(spec_digit_char((n % 10) as int)) == n % 10);
        assert forall|i: int| 0 <= i < spec_decimal(n).len() implies is_digit(
            #[trigger] spec_decimal(n)[i],
        ) by {
            if i < spec_decimal(n / 10).len() {
                assert(spec_decimal(n)[i] == spec_decimal(n / 10)[i]);
            }
        }
    }
}

/// A number below ten to the `k` renders in at most `k` digits.
pub proof fn lemma_decimal_len(n: nat, k: nat)
    requires
        1 <= k,
        n < pow10(k),
    ensures
        spec_decimal(n).len() <= k,
    decreases n,
{
    if n < 10 {
    } else {
        assert(n == 10 * (n / 10) + n % 10);
        if k == 1 {
            assert(pow10(0nat) == 1);
            assert(pow10(1nat) == 10);
        } else {
            assert(pow10(k) == 10 * pow10((k - 1) as nat));
            assert(n / 10 < pow10((k - 1) as nat)) by {
                let q = n / 10;
                assert(10 * q <= n);
                if q >= pow10((k - 1) as nat) {
                    assert(10 * q >= 10 * pow10((k - 1) as nat)) by (nonlinear_arith)
                        requires
                            q >= pow10((k - 1) as nat),
                    ;
                }
            }
            lemma_decimal_len(n / 10, (k - 1) as nat);
        }
    }
}

/// The text form of a signed coordinate: a minus sign for negative
/// values, then the magnitude in decimal.
pub open spec fn spec_i64_text(v: int) -> Seq<char> {
    if v >= 0 {
        spec_decimal(v as nat)
    } else {
        seq!['-'] + spec_decimal((-v) as nat)
    }
}

/// The persisted text of one equation object: font size and page width,
/// the length-prefixed source text, then either `N` (no rendered
/// content) or `S` with the placement, the transform axis and the
/// length-prefixed markup.
pub open spec fn spec_encode(img: EquationImage) -> Seq<char> {
    let head = spec_decimal(img.equation_config.font_size as nat) + seq![';']
        + spec_decimal(img.equation_config.page_width as nat) + seq![';'] + spec_decimal(
        img.equation_code@.len(),
    ) + seq![':'] + img.equation_code@;
    match img.vector_image {
        None => head + seq!['N'],
        Some(vi) => head + seq!['S'] + spec_i64_text(vi.rectangle.upper_left.x as int) + seq![';']
            + spec_i64_text(vi.rectangle.upper_left.y as int) + seq![';'] + spec_i64_text(
            vi.rectangle.x_axis.x as int,
        ) + seq![';'] + spec_i64_text(vi.rectangle.x_axis.y as int) + seq![';'] + spec_decimal(
            vi.svg_code@.len(),
        ) + seq![':'] + vi.svg_code@,
    }
}

/// Where the digit run beginning at `i` ends: the first position at or
/// after `i` that is past the end or holds a non-digit.
pub open spec fn spec_run_end(s: Seq<char>, i: int) -> int
    recommends
        0 <= i <= s.len(),
    decreases s.len() - i,
{
    if i < 0 || i >= s.len() || !is_digit(s[i]) {
        i
    } else {
        spec_run_end(s, i + 1)
    }
}

/// A digit run is where it says: everything before its end is a digit,
/// and it ends at the end of the text or at a non-digit.
pub proof fn lemma_run_end_facts(s: Seq<char>, i: int)
    requires
        0 <= i <= s.len(),
    ensures
        i <= spec_run_end(s, i) <= s.len(),
        forall|j: int| i <= j < spec_run_end(s, i) ==> is_digit(#[trigger] s[j]),
        spec_run_end(s, i) == s.len() || !is_digit(s[spec_run_end(s, i)]),
    decreases s.len() - i,
{
    if i < s.len() && is_digit(s[i]) {
        lemma_run_end_facts(s, i + 1);
    }
}

/// A text that continues, from `i`, with a known digit sequence followed
/// by a non-digit (or nothing) has its digit run end exactly after that
/// sequence.
pub proof fn lemma_run_end_of(s: Seq<char>, i: int, digits: Seq<char>)
    requires
        0 <= i,
        i + digits.len() <= s.len(),
        all_digits(digits),
        s.subrange(i, i + digits.len()) == digits,
        i + digits.len() == s.len() || !is_digit(s[i + digits.len()]),
    ensures
        spec_run_end(s, i) == i + digits.len(),
    decreases digits.len(),
{
    if digits.len() == 0 {
    } else {
        assert(s[i] == digits[0]);
        assert(is_digit(digits[0]));
        assert(s.subrange(i + 1, i + 1 + digits.drop_first().len()) =~= digits.drop_first());
        assert(all_digits(digits.drop_first())) by {
            assert forall|j: int| 0 <= j < digits.drop_first().len() implies is_digit(
                #[trigger] digits.drop_first()[j],
            ) by {
                assert(digits.drop_first()[j] == digits[j + 1]);
            }
        }
        lemma_run_end_of(s, i + 1, digits.drop_first());
    }
}

/// A digit sequence denotes a number below ten to its length.
pub proof fn lemma_parse_bound(s: Seq<char>)
    requires
        all_digits(s),
    ensures
        spec_parse_decimal(s) < pow10(s.len()),
    decreases s.len(),
{
    if s.len() == 0 {
    } else {
        assert(all_digits(s.drop_last())) by {
            assert forall|j: int| 0 <= j < s.drop_last().len() implies is_digit(
                #[trigger] s.drop_last()[j],
            ) by {
                assert(s.drop_last()[j] == s[j]);
            }
        }
        lemma_parse_bound(s.drop_last());
        assert(is_digit(s.last()));
        assert(digit_val(s.last()) <= 9);
    }
}

/// What reading one number at `i` yields: the value and the position
/// after it, or nothing when no digit is there or the run is longer than
/// nineteen digits (longer numbers are not written by the writer).
pub open spec fn spec_parse_num(s: Seq<char>, i: int) -> Option<(nat, int)> {
    let e = spec_run_end(s, i);
    if e == i || e - i > 19 {
        None
    } else {
        Some((spec_parse_decimal(s.subrange(i, e)), e))
    }
}

/// What reading one signed coordinate at `i` yields: an optional minus
/// sign, then a number no larger than the largest stored coordinate.
pub open spec fn spec_parse_signed(s: Seq<char>, i: int) -> Option<(int, int)> {
    if 0 <= i < s.len() && s[i] == '-' {
        match spec_parse_num(s, i + 1) {
            Some((m, e)) => if m <= i64::MAX as nat {
                Some((-(m as int), e))
            } else {
                None
            },
            None => None,
        }
    } else {
        match spec_parse_num(s, i) {
            Some((m, e)) => if m <= i64::MAX as nat {
                Some((m as int, e))
            } else {
                None
            },
            None => None,
        }
    }
}

/// The value of the digit at `i`, when there is one.
fn digit_value_at(s: &str, i: usize, len: usize) -> (r: Option<u64>)
    requires
        len == s@.len(),
        i <= len,
    ensures
        match r {
            Some(d) => i < len && is_digit(s@[i as int]) && d == digit_val(s@[i as int]) && d
                <= 9,
            None => i == len || !is_digit(s@[i as int]),
        },
{
    if i < len {
        let c = s.get_char(i);
        if '0' <= c && c <= '9' {
            Some(((c as u32) - 48) as u64)
        } else {
            None
        }
    } else {
        None
    }
}

/// Ten to the eighteenth, spelled out.
proof fn lemma_pow10_18()
    ensures
        pow10(18nat) == 1_000_000_000_000_000_000,
{
    assert(pow10(0nat) == 1);
    assert(pow10(1nat) == 10);
    assert(pow10(2nat) == 100);
    assert(pow10(3nat) == 1000);
    assert(pow10(4nat) == 10000);
    assert(pow10(5nat) == 100000);
    assert(pow10(6nat) == 1000000);
    assert(pow10(7nat) == 10000000);
    assert(pow10(8nat) == 100000000);
    assert(pow10(9nat) == 1000000000);
    assert(pow10(10nat) == 10000000000);
    assert(pow10(11nat) == 100000000000);
    assert(pow10(12nat) == 1000000000000);
    assert(pow10(13nat) == 10000000000000);
    assert(pow10(14nat) == 100000000000000);
    assert(pow10(15nat) == 1000000000000000);
    assert(pow10(16nat) == 10000000000000000);
    assert(pow10(17nat) == 100000000000000000);
    assert(pow10(18nat) == 1000000000000000000);
}

/// Ten to a smaller power is no larger.
proof fn lemma_pow10_increases(a: nat, b: nat)
    requires
        a <= b,
    ensures
        pow10(a) <= pow10(b),
    decreases b,
{
    if a < b {
        lemma_pow10_increases(a, (b - 1) as nat);
        assert(pow10(b) == 10 * pow10((b - 1) as nat));
    }
}

/// Reads one number (see [`spec_parse_num`]).
fn parse_decimal_at(s: &str, start: usize, len: usize) -> (r: Option<(u64, usize)>)
    requires
        start <= s@.len(),
        len == s@.len(),
    ensures
        match spec_parse_num(s@, start as int) {
            Some(p) => start < p.1 <= s@.len() && p.0 < 10_000_000_000_000_000_000 && r
                == Some((p.0 as u64, p.1 as usize)),
            None => r is None,
        },
{
    proof {
        lemma_run_end_facts(s@, start as int);
        lemma_parse_num_fits(s@, start as int);
    }
    let ghost run_end = spec_run_end(s@, start as int);
    let mut i: usize = start;
    let mut acc: u64 = 0;
    while i - start < 19 && digit_value_at(s, i, len).is_some()
        invariant
            start <= i <= len,
            len == s@.len(),
            i - start <= 19,
            run_end == spec_run_end(s@, start as int),
            i <= run_end <= len,
            acc == spec_parse_decimal(s@.subrange(start as int, i as int)),
            acc < pow10((i - start) as nat),
        decreases len - i,
    {
        let d = match digit_value_at(s, i, len) {
            Some(d) => d,
            None => unreached(),
        };
        proof {
            lemma_run_end_facts(s@, start as int);
            assert(i < run_end) by {
                if i >= run_end {
                    assert(run_end == s@.len() || !is_digit(s@[run_end]));
                    assert(i == run_end);
                }
            }
            lemma_pow10_increases((i - start) as nat, 18nat);
            lemma_pow10_18();
            assert(pow10((i + 1 - start) as nat) == 10 * pow10((i - start) as nat));
        }
        acc = acc * 10 + d;
        i = i + 1;
        proof {
            assert(s@.subrange(start as int, i as int).drop_last() =~= s@.subrange(
                start as int,
                i as int - 1,
            ));
        }
    }
    proof {
        lemma_run_end_facts(s@, start as int);
        if i < run_end {
            assert(is_digit(s@[i as int]));
            assert(i - start == 19);
            assert(run_end - start > 19);
        } else {
            assert(i == run_end);
        }
    }
    match digit_value_at(s, i, len) {
        Some(_) => None,
        None => {
            if i == start {
                None
            } else {
                Some((acc, i))
            }
        },
    }
}

/// A number that was read fits below ten to the nineteenth.
pub proof fn lemma_parse_num_fits(s: Seq<char>, i: int)
    requires
        0 <= i <= s.len(),
    ensures
        match spec_parse_num(s, i) {
            Some(p) => p.0 < 10_000_000_000_000_000_000,
            None => true,
        },
{
    let e = spec_run_end(s, i);
    if !(e == i || e - i > 19) {
        lemma_run_end_facts(s, i);
        let digits = s.subrange(i, e);
        assert(all_digits(digits)) by {
            assert forall|j: int| 0 <= j < digits.len() implies is_digit(
                #[trigger] digits[j],
            ) by {
                assert(digits[j] == s[i + j]);
            }
        }
        lemma_parse_bound(digits);
        lemma_pow10_increases(digits.len(), 19nat);
        lemma_pow10_18();
        assert(pow10(19nat) == 10 * pow10(18nat));
    }
}

/// Reads one signed coordinate (see [`spec_parse_signed`]).
fn parse_i64_at(s: &str, start: usize, len: usize) -> (r: Option<(i64, usize)>)
    requires
        start <= s@.len(),
        len == s@.len(),
    ensures
        match spec_parse_signed(s@, start as int) {
            Some(p) => start < p.1 <= s@.len() && -9_223_372_036_854_775_807 <= p.0
                <= 9_223_372_036_854_775_807 && r == Some((p.0 as i64, p.1 as usize)),
            None => r is None,
        },
{
    proof {
        lemma_parse_num_fits(s@, start as int);
        if start < s@.len() {
            lemma_parse_num_fits(s@, start as int + 1);
        }
    }
    if start < len {
        let c = s.get_char(start);
        if c == '-' {
            return match parse_decimal_at(s, start + 1, len) {
                Some((magnitude, end)) => {
                    if magnitude <= 9_223_372_036_854_775_807 {
                        Some((-(magnitude as i64), end))
                    } else {
                        None
                    }
                },
                None => None,
            };
        }
    }
    match parse_decimal_at(s, start, len) {
        Some((magnitude, end)) => {
            if magnitude <= 9_223_372_036_854_775_807 {
                Some((magnitude as i64, end))
            } else {
                None
            }
        },
        None => None,
    }
}

/// The rendered-content part of a read field group.
pub ghost struct PersistedVector {
    pub upper_left_x: int,
    pub upper_left_y: int,
    pub x_axis_x: int,
    pub x_axis_y: int,
    pub svg: Seq<char>,
}

/// A read field group: style values, source text and rendered content.
pub ghost struct PersistedFields {
    pub font_size: nat,
    pub page_width: nat,
    pub code: Seq<char>,
    pub vector: Option<PersistedVector>,
}

/// Reads the rendered-content part: four signed coordinates and the
/// length-prefixed markup, which must reach exactly the end of the text.
pub open spec fn spec_decode_vector(
    s: Seq<char>,
    i: int,
    font_size: nat,
    page_width: nat,
    code: Seq<char>,
) -> Option<PersistedFields> {
    match spec_parse_signed(s, i) {
        None => None,
        Some((upper_left_x, j1)) => if !(j1 < s.len() && s[j1] == ';') {
            None
        } else {
            match spec_parse_signed(s, j1 + 1) {
                None => None,
                Some((upper_left_y, j2)) => if !(j2 < s.len() && s[j2] == ';') {
                    None
                } else {
                    match spec_parse_signed(s, j2 + 1) {
                        None => None,
                        Some((x_axis_x, j3)) => if !(j3 < s.len() && s[j3] == ';') {
                            None
                        } else {
                            match spec_parse_signed(s, j3 + 1) {
                                None => None,
                                Some((x_axis_y, j4)) => if !(j4 < s.len() && s[j4] == ';') {
                                    None
                                } else {
                                    match spec_parse_num(s, j4 + 1) {
                                        None => None,
                                        Some((svg_len, j5)) => if !(j5 < s.len() && s[j5]
                                            == ':' && j5 + 1 + svg_len == s.len()) {
                                            None
                                        } else {
                                            Some(
                                                PersistedFields {
                                                    font_size,
                                                    page_width,
                                                    code,
                                                    vector: Some(
                                                        PersistedVector {
                                                            upper_left_x,
                                                            upper_left_y,
                                                            x_axis_x,
                                                            x_axis_y,
                                                            svg: s.subrange(
                                                                j5 + 1,
                                                                s.len() as int,
                                                            ),
                                                        },
                                                    ),
                                                },
                                            )
                                        },
                                    }
                                },
                            }
                        },
                    }
                },
            }
        },
    }
}

/// What a persisted text denotes, if it is well-formed: the exact
/// reading rules of the field group.
pub open spec fn spec_decode(s: Seq<char>) -> Option<PersistedFields> {
    match spec_parse_num(s, 0) {
        None => None,
        Some((font_size, i1)) => if !(font_size <= u32::MAX && i1 < s.len() && s[i1] == ';') {
            None
        } else {
            match spec_parse_num(s, i1 + 1) {
                None => None,
                Some((page_width, i2)) => if !(i2 < s.len() && s[i2] == ';') {
                    None
                } else {
                    match spec_parse_num(s, i2 + 1) {
                        None => None,
                        Some((code_len, i3)) => if !(i3 < s.len() && s[i3] == ':' && i3 + 1
                            + code_len <= s.len()) {
                            None
                        } else {
                            let code = s.subrange(i3 + 1, i3 + 1 + code_len);
                            let i4 = i3 + 1 + code_len;
                            if !(i4 < s.len()) {
                                None
                            } else if s[i4] == 'N' {
                                if i4 + 1 == s.len() {
                                    Some(
                                        PersistedFields {
                                            font_size,
                                            page_width,
                                            code,
                                            vector: None,
                                        },
                                    )
                                } else {
                                    None
                                }
                            } else if s[i4] == 'S' {
                                spec_decode_vector(s, i4 + 1, font_size, page_width, code)
                            } else {
                                None
                            }
                        },
                    }
                },
            }
        },
    }
}

/// Appends the text form of a signed coordinate.
fn push_i64(out: &mut String, v: i64)
    requires
        v > i64::MIN,
    ensures
        final(out)@ == old(out)@ + spec_i64_text(v as int),
{
    if v < 0 {
        proof {
            reveal_strlit("-");
        }
        out.append("-");
        push_decimal(out, (-v) as u64);
        proof {
            assert(out@ =~= old(out)@ + spec_i64_text(v as int));
        }
    } else {
        push_decimal(out, v as u64);
    }
}

/// Writes the persisted text of `img` (see [`spec_encode`]). The bounds
/// keep every number under twenty digits, which the reader relies on.
pub fn encode_equation_image(img: &EquationImage) -> (r: String)
    requires
        img.equation_config.page_width < 10_000_000_000_000_000_000,
        img.equation_code@.len() < 10_000_000_000_000_000_000,
        match img.vector_image {
            Some(vi) => {
                &&& vi.svg_code@.len() < 10_000_000_000_000_000_000
                &&& vi.rectangle.upper_left.x > i64::MIN
                &&& vi.rectangle.upper_left.y > i64::MIN
                &&& vi.rectangle.x_axis.x > i64::MIN
                &&& vi.rectangle.x_axis.y > i64::MIN
            },
            None => true,
        },
    ensures
        r@ == spec_encode(*img),
{
    proof {
        reveal_strlit(";");
        reveal_strlit(":");
        reveal_strlit("N");
        reveal_strlit("S");
    }
    let mut out = String::new();
    push_decimal(&mut out, img.equation_config.font_size as u64);
    out.append(";");
    push_decimal(&mut out, img.equation_config.page_width);
    out.append(";");
    let code_len = img.equation_code.as_str().unicode_len();
    push_decimal(&mut out, code_len as u64);
    out.append(":");
    out.append(img.equation_code.as_str());
    match &img.vector_image {
        None => {
            out.append("N");
        },
        Some(vi) => {
            out.append("S");
            push_i64(&mut out, vi.rectangle.upper_left.x);
            out.append(";");
            push_i64(&mut out, vi.rectangle.upper_left.y);
            out.append(";");
            push_i64(&mut out, vi.rectangle.x_axis.x);
            out.append(";");
            push_i64(&mut out, vi.rectangle.x_axis.y);
            out.append(";");
            let svg_len = vi.svg_code.as_str().unicode_len();
            push_decimal(&mut out, svg_len as u64);
            out.append(":");
            out.append(vi.svg_code.as_str());
        },
    }
    proof {
        assert(out@ =~= spec_encode(*img));
    }
    out
}

/// Ten to the nineteenth, spelled out.
proof fn lemma_pow10_19()
    ensures
        pow10(19nat) == 10_000_000_000_000_000_000,
{
    lemma_pow10_18();
    assert(pow10(19nat) == 10 * pow10(18nat));
}

/// Reads the persisted text of a field group back (the exact reading
/// rules are [`spec_decode`]). Together with
/// [`lemma_persist_round_trip`] this is the round trip: reading what
/// [`encode_equation_image`] wrote yields the object back, field for
/// field, and compiles nothing.
#[verifier::rlimit(100)]
pub fn decode_equation_image(s: &str) -> (r: Option<EquationImage>)
    ensures
        match spec_decode(s@) {
            None => r is None,
            Some(m) => {
                &&& r is Some
                &&& r->Some_0.equation_code@ == m.code
                &&& r->Some_0.equation_config.font_size as nat == m.font_size
                &&& r->Some_0.equation_config.page_width as nat == m.page_width
                &&& r->Some_0.equation_config.equation_provider is LatexEquationProvider
                &&& match (r->Some_0.vector_image, m.vector) {
                    (None, None) => true,
                    (Some(vi), Some(mv)) => vi.svg_code@ == mv.svg
                        && vi.rectangle.upper_left.x as int == mv.upper_left_x
                        && vi.rectangle.upper_left.y as int == mv.upper_left_y
                        && vi.rectangle.x_axis.x as int == mv.x_axis_x
                        && vi.rectangle.x_axis.y as int == mv.x_axis_y,
                    _ => false,
                }
            },
        },
{
    let len = s.unicode_len();
    proof {
        lemma_parse_num_fits(s@, 0);
    }
    let (font_size, i1) = match parse_decimal_at(s, 0, len) {
        Some(p) => p,
        None => {
            return None;
        },
    };
    if font_size > 4_294_967_295 {
        return None;
    }
    if i1 >= len {
        return None;
    }
    if s.get_char(i1) != ';' {
        return None;
    }
    proof {
        lemma_parse_num_fits(s@, i1 as int + 1);
    }
    let (page_width, i2) = match parse_decimal_at(s, i1 + 1, len) {
        Some(p) => p,
        None => {
            return None;
        },
    };
    if i2 >= len {
        return None;
    }
    if s.get_char(i2) != ';' {
        return None;
    }
    proof {
        lemma_parse_num_fits(s@, i2 as int + 1);
    }
    let (code_len, i3) = match parse_decimal_at(s, i2 + 1, len) {
        Some(p) => p,
        None => {
            return None;
        },
    };
    if i3 >= len {
        return None;
    }
    if s.get_char(i3) != ':' {
        return None;
    }
    if code_len > (len - (i3 + 1)) as u64 {
        return None;
    }
    let i4 = i3 + 1 + (code_len as usize);
    let code = s.substring_char(i3 + 1, i4).to_owned();
    if i4 >= len {
        return None;
    }
    let tag = s.get_char(i4);
    let equation_config = EquationConfig {
        equation_provider: EquationProvider::LatexEquationProvider(
            LatexEquationProvider {},
            LatexExecutableChecker {},
        ),
        font_size: font_size as u32,
        page_width,
    };
    if tag == 'N' {
        if i4 + 1 == len {
            return Some(
                EquationImage { equation_code: code, equation_config, vector_image: None },
            );
        } else {
            return None;
        }
    }
    if tag != 'S' {
        return None;
    }
    let (upper_left_x, j1) = match parse_i64_at(s, i4 + 1, len) {
        Some(p) => p,
        None => {
            return None;
        },
    };
    if j1 >= len {
        return None;
    }
    if s.get_char(j1) != ';' {
        return None;
    }
    let (upper_left_y, j2) = match parse_i64_at(s, j1 + 1, len) {
        Some(p) => p,
        None => {
            return None;
        },
    };
    if j2 >= len {
        return None;
    }
    if s.get_char(j2) != ';' {
        return None;
    }
    let (x_axis_x, j3) = match parse_i64_at(s, j2 + 1, len) {
        Some(p) => p,
        None => {
            return None;
        },
    };
    if j3 >= len {
        return None;
    }
    if s.get_char(j3) != ';' {
        return None;
    }
    let (x_axis_y, j4) = match parse_i64_at(s, j3 + 1, len) {
        Some(p) => p,
        None => {
            return None;
        },
    };
    if j4 >= len {
        return None;
    }
    if s.get_char(j4) != ';' {
        return None;
    }
    proof {
        lemma_parse_num_fits(s@, j4 as int + 1);
    }
    let (svg_len, j5) = match parse_decimal_at(s, j4 + 1, len) {
        Some(p) => p,
        None => {
            return None;
        },
    };
    if j5 >= len {
        return None;
    }
    if s.get_char(j5) != ':' {
        return None;
    }
    if svg_len != (len - (j5 + 1)) as u64 {
        return None;
    }
    let svg_code = s.substring_char(j5 + 1, len).to_owned();
    Some(
        EquationImage {
            equation_code: code,
            equation_config,
            vector_image: Some(
                VectorImage {
                    svg_code,
                    rectangle: Rectangle {
                        upper_left: FxVector { x: upper_left_x, y: upper_left_y },
                        x_axis: FxVector { x: x_axis_x, y: x_axis_y },
                    },
                },
            ),
        },
    )
}

/// The bounds under which a field group is written: every number below
/// twenty digits and no coordinate at the very bottom of its type.
pub open spec fn spec_encode_bounds(img: EquationImage) -> bool {
    &&& img.equation_config.page_width < 10_000_000_000_000_000_000
    &&& img.equation_code@.len() < 10_000_000_000_000_000_000
    &&& match img.vector_image {
        Some(vi) => {
            &&& vi.svg_code@.len() < 10_000_000_000_000_000_000
            &&& vi.rectangle.upper_left.x > i64::MIN
            &&& vi.rectangle.upper_left.y > i64::MIN
            &&& vi.rectangle.x_axis.x > i64::MIN
            &&& vi.rectangle.x_axis.y > i64::MIN
        },
        None => true,
    }
}

/// A number written at `i` reads back as itself.
proof fn lemma_number_at(s: Seq<char>, i: int, n: nat)
    requires
        0 <= i <= s.len(),
        n < 10_000_000_000_000_000_000,
        i + spec_decimal(n).len() <= s.len(),
        s.subrange(i, i + spec_decimal(n).len()) == spec_decimal(n),
        i + spec_decimal(n).len() == s.len() || !is_digit(s[i + spec_decimal(n).len()]),
    ensures
        spec_parse_num(s, i) == Some((n, i + spec_decimal(n).len())),
{
    lemma_decimal_parses_back(n);
    lemma_pow10_19();
    lemma_decimal_len(n, 19nat);
    lemma_run_end_of(s, i, spec_decimal(n));
}

/// A signed coordinate written at `i` reads back as itself.
proof fn lemma_signed_at(s: Seq<char>, i: int, v: int)
    requires
        0 <= i <= s.len(),
        -9_223_372_036_854_775_807 <= v <= 9_223_372_036_854_775_807,
        i + spec_i64_text(v).len() <= s.len(),
        s.subrange(i, i + spec_i64_text(v).len()) == spec_i64_text(v),
        i + spec_i64_text(v).len() == s.len() || !is_digit(s[i + spec_i64_text(v).len()]),
    ensures
        spec_parse_signed(s, i) == Some((v, i + spec_i64_text(v).len())),
{
    if v >= 0 {
        lemma_decimal_parses_back(v as nat);
        assert(s[i] == spec_decimal(v as nat)[0]);
        assert(is_digit(s[i]));
        assert(s[i] != '-');
        lemma_number_at(s, i, v as nat);
    } else {
        let magnitude = spec_decimal((-v) as nat);
        assert(s.subrange(i, i + spec_i64_text(v).len())[0] == s[i]);
        assert(spec_i64_text(v)[0] == '-');
        assert(s[i] == '-');
        assert(spec_i64_text(v).len() == 1 + magnitude.len());
        assert(s.subrange(i + 1, i + 1 + magnitude.len()) =~= magnitude) by {
            assert forall|j: int| 0 <= j < magnitude.len() implies s.subrange(
                i + 1,
                i + 1 + magnitude.len(),
            )[j] == magnitude[j] by {
                assert(s.subrange(i, i + spec_i64_text(v).len())[j + 1] == s[i + 1 + j]);
                assert(spec_i64_text(v)[j + 1] == magnitude[j]);
                assert(s.subrange(i + 1, i + 1 + magnitude.len())[j] == s[i + 1 + j]);
            }
        }
        lemma_number_at(s, i + 1, (-v) as nat);
    }
}

/// Round trip for an object without rendered content.
#[verifier::rlimit(100)]
proof fn lemma_round_trip_none(img: EquationImage)
    requires
        spec_encode_bounds(img),
        img.vector_image is None,
    ensures
        spec_decode(spec_encode(img)) == Some(
            PersistedFields {
                font_size: img.equation_config.font_size as nat,
                page_width: img.equation_config.page_width as nat,
                code: img.equation_code@,
                vector: None,
            },
        ),
{
    let s = spec_encode(img);
    let a = spec_decimal(img.equation_config.font_size as nat);
    let b = spec_decimal(img.equation_config.page_width as nat);
    let c = spec_decimal(img.equation_code@.len());
    let code = img.equation_code@;
    let i1 = a.len() as int;
    let i2 = i1 + 1 + b.len();
    let i3 = i2 + 1 + c.len();
    let i4 = i3 + 1 + code.len();
    lemma_decimal_parses_back(img.equation_config.font_size as nat);
    lemma_decimal_parses_back(img.equation_config.page_width as nat);
    lemma_decimal_parses_back(img.equation_code@.len());
    assert(s.subrange(0, i1) =~= a);
    assert(s[i1] == ';');
    lemma_number_at(s, 0, img.equation_config.font_size as nat);
    assert(s.subrange(i1 + 1, i1 + 1 + b.len()) =~= b);
    assert(s[i2] == ';');
    lemma_number_at(s, i1 + 1, img.equation_config.page_width as nat);
    assert(s.subrange(i2 + 1, i2 + 1 + c.len()) =~= c);
    assert(s[i3] == ':');
    lemma_number_at(s, i2 + 1, img.equation_code@.len());
    assert(s.subrange(i3 + 1, i4) =~= code);
    assert(s[i4] == 'N');
    assert(i4 + 1 == s.len());
}

/// Round trip for an object with rendered content.
#[verifier::rlimit(100)]
proof fn lemma_round_trip_some(img: EquationImage, vi: VectorImage)
    requires
        spec_encode_bounds(img),
        img.vector_image == Some(vi),
    ensures
        spec_decode(spec_encode(img)) == Some(
            PersistedFields {
                font_size: img.equation_config.font_size as nat,
                page_width: img.equation_config.page_width as nat,
                code: img.equation_code@,
                vector: Some(
                    PersistedVector {
                        upper_left_x: vi.rectangle.upper_left.x as int,
                        upper_left_y: vi.rectangle.upper_left.y as int,
                        x_axis_x: vi.rectangle.x_axis.x as int,
                        x_axis_y: vi.rectangle.x_axis.y as int,
                        svg: vi.svg_code@,
                    },
                ),
            },
        ),
{
    let s = spec_encode(img);
    let a = spec_decimal(img.equation_config.font_size as nat);
    let b = spec_decimal(img.equation_config.page_width as nat);
    let c = spec_decimal(img.equation_code@.len());
    let code = img.equation_code@;
    let i1 = a.len() as int;
    let i2 = i1 + 1 + b.len();
    let i3 = i2 + 1 + c.len();
    let i4 = i3 + 1 + code.len();
    lemma_decimal_parses_back(img.equation_config.font_size as nat);
    lemma_decimal_parses_back(img.equation_config.page_width as nat);
    lemma_decimal_parses_back(img.equation_code@.len());
    assert(s.subrange(0, i1) =~= a);
    assert(s[i1] == ';');
    lemma_number_at(s, 0, img.equation_config.font_size as nat);
    assert(s.subrange(i1 + 1, i1 + 1 + b.len()) =~= b);
    assert(s[i2] == ';');
    lemma_number_at(s, i1 + 1, img.equation_config.page_width as nat);
    assert(s.subrange(i2 + 1, i2 + 1 + c.len()) =~= c);
    assert(s[i3] == ':');
    lemma_number_at(s, i2 + 1, img.equation_code@.len());
    assert(s.subrange(i3 + 1, i4) =~= code);
    assert(s[i4] == 'S');
    let p = spec_i64_text(vi.rectangle.upper_left.x as int);
    let q = spec_i64_text(vi.rectangle.upper_left.y as int);
    let t = spec_i64_text(vi.rectangle.x_axis.x as int);
    let u = spec_i64_text(vi.rectangle.x_axis.y as int);
    let w = spec_decimal(vi.svg_code@.len());
    let j0 = i4 + 1;
    let j1 = j0 + p.len();
    let j2 = j1 + 1 + q.len();
    let j3 = j2 + 1 + t.len();
    let j4 = j3 + 1 + u.len();
    let j5 = j4 + 1 + w.len();
    lemma_decimal_parses_back(vi.svg_code@.len());
    assert(s.subrange(j0, j1) =~= p);
    assert(s[j1] == ';');
    lemma_signed_at(s, j0, vi.rectangle.upper_left.x as int);
    assert(s.subrange(j1 + 1, j1 + 1 + q.len()) =~= q);
    assert(s[j2] == ';');
    lemma_signed_at(s, j1 + 1, vi.rectangle.upper_left.y as int);
    assert(s.subrange(j2 + 1, j2 + 1 + t.len()) =~= t);
    assert(s[j3] == ';');
    lemma_signed_at(s, j2 + 1, vi.rectangle.x_axis.x as int);
    assert(s.subrange(j3 + 1, j3 + 1 + u.len()) =~= u);
    assert(s[j4] == ';');
    lemma_signed_at(s, j3 + 1, vi.rectangle.x_axis.y as int);
    assert(s.subrange(j4 + 1, j4 + 1 + w.len()) =~= w);
    assert(s[j5] == ':');
    lemma_number_at(s, j4 + 1, vi.svg_code@.len());
    assert(j5 + 1 + vi.svg_code@.len() == s.len());
    assert(s.subrange(j5 + 1, s.len() as int) =~= vi.svg_code@);
}

/// Round trip: a written field group always reads back, and what it
/// reads back is the object it was written from — source text, style
/// configuration, rendered markup and placement, all exactly. Reading
/// involves no compilation.
pub proof fn lemma_persist_round_trip(img: EquationImage)
    requires
        spec_encode_bounds(img),
    ensures
        match spec_decode(spec_encode(img)) {
            Some(m) => {
                &&& m.font_size == img.equation_config.font_size as nat
                &&& m.page_width == img.equation_config.page_width as nat
                &&& m.code == img.equation_code@
                &&& match (m.vector, img.vector_image) {
                    (None, None) => true,
                    (Some(mv), Some(vi)) => mv.svg == vi.svg_code@ && mv.upper_left_x
                        == vi.rectangle.upper_left.x as int && mv.upper_left_y
                        == vi.rectangle.upper_left.y as int && mv.x_axis_x
                        == vi.rectangle.x_axis.x as int && mv.x_axis_y
                        == vi.rectangle.x_axis.y as int,
                    _ => false,
                }
            },
            None => false,
        },
{
    match img.vector_image {
        None => {
            lemma_round_trip_none(img);
        },
        Some(vi) => {
            lemma_round_trip_some(img, vi);
        },
    }
}

} // verus!
