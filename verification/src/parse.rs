//! Plain-text helpers behind the settings layer: splitting a value on a
//! separator, reading decimal and hexadecimal integers, and rendering an
//! integer back to text.

use vstd::prelude::*;
use vstd::string::StrSliceExecFns;
use vstd::string::StringExecFns;

verus! {

/// Splitting a character sequence on a separator, keeping empty segments:
/// the empty input yields one empty segment, as `str::split` does.
pub open spec fn spec_split(s: Seq<char>, sep: char) -> Seq<Seq<char>>
    decreases s.len(),
{
    if s.len() == 0 {
        seq![Seq::<char>::empty()]
    } else if s[0] == sep {
        seq![Seq::<char>::empty()] + spec_split(s.drop_first(), sep)
    } else {
        let rest = spec_split(s.drop_first(), sep);
        seq![seq![s[0]] + rest[0]] + rest.drop_first()
    }
}

/// A split always has at least one segment.
pub proof fn lemma_split_len(s: Seq<char>, sep: char)
    ensures
        spec_split(s, sep).len() >= 1,
    decreases s.len(),
{
    if s.len() > 0 && s[0] != sep {
        lemma_split_len(s.drop_first(), sep);
    }
}

/// The segments of a vector of character vectors, as sequences.
pub open spec fn segs_model(v: Seq<Vec<char>>) -> Seq<Seq<char>> {
    v.map_values(|x: Vec<char>| x@)
}

/// The characters of a string, as an owned vector.
pub fn chars_of(s: &str) -> (r: Vec<char>)
    ensures
        r@ == s@,
{
    let n: usize = s.unicode_len();
    let mut r: Vec<char> = Vec::new();
    let mut i: usize = 0;
    while i < n
        invariant
            0 <= i <= n,
            n == s@.len(),
            r@ =~= s@.take(i as int),
        decreases n - i,
    {
        r.push(s.get_char(i));
        proof {
            assert(r@ =~= s@.take(i + 1 as int));
        }
        i += 1;
    }
    proof {
        assert(s@.take(n as int) =~= s@);
    }
    r
}

/// Split a character vector on a separator, keeping empty segments.
pub fn split_char(s: &Vec<char>, sep: char) -> (r: Vec<Vec<char>>)
    ensures
        segs_model(r@) == spec_split(s@, sep),
{
    let n: usize = s.len();
    let mut segments: Vec<Vec<char>> = Vec::new();
    let mut cur: Vec<char> = Vec::new();
    let mut i: usize = 0;
    proof {
        lemma_split_len(s@, sep);
        let q = spec_split(s@, sep);
        assert(s@.skip(0) =~= s@);
        assert(Seq::<char>::empty() + q[0] =~= q[0]);
        assert(segs_model(segments@) =~= Seq::<Seq<char>>::empty());
        assert(q =~= seq![q[0]] + q.drop_first());
    }
    while i < n
        invariant
            0 <= i <= n,
            n == s@.len(),
            spec_split(s@, sep) =~= segs_model(segments@) + seq![
                cur@ + spec_split(s@.skip(i as int), sep)[0],
            ] + spec_split(s@.skip(i as int), sep).drop_first(),
        decreases n - i,
    {
        proof {
            lemma_split_len(s@.skip(i as int), sep);
            lemma_split_len(s@.skip(i + 1 as int), sep);
            assert(s@.skip(i as int).drop_first() =~= s@.skip(i + 1 as int));
            assert(s@.skip(i as int)[0] == s@[i as int]);
        }
        let c = s[i];
        if c == sep {
            let ghost old_segments = segments@;
            let ghost old_cur = cur@;
            segments.push(cur);
            cur = Vec::new();
            proof {
                assert(segs_model(segments@) =~= segs_model(old_segments).push(old_cur));
                assert(spec_split(s@.skip(i as int), sep) =~= seq![Seq::<char>::empty()]
                    + spec_split(s@.skip(i + 1 as int), sep));
                assert(spec_split(s@, sep) =~= segs_model(segments@) + seq![
                    cur@ + spec_split(s@.skip(i + 1 as int), sep)[0],
                ] + spec_split(s@.skip(i + 1 as int), sep).drop_first());
            }
        } else {
            let ghost old_cur = cur@;
            cur.push(c);
            proof {
                let rest = spec_split(s@.skip(i + 1 as int), sep);
                assert(spec_split(s@.skip(i as int), sep) =~= seq![seq![s@[i as int]] + rest[0]]
                    + rest.drop_first());
                assert(cur@ + rest[0] =~= old_cur + spec_split(s@.skip(i as int), sep)[0]);
                assert(spec_split(s@, sep) =~= segs_model(segments@) + seq![cur@ + rest[0]]
                    + rest.drop_first());
            }
        }
        i += 1;
    }
    proof {
        assert(s@.skip(n as int) =~= Seq::<char>::empty());
        assert(spec_split(s@.skip(n as int), sep) =~= seq![Seq::<char>::empty()]);
    }
    let ghost old_segments = segments@;
    let ghost final_cur = cur@;
    segments.push(cur);
    proof {
        assert(segs_model(segments@) =~= segs_model(old_segments).push(final_cur));
        assert(segs_model(segments@) =~= spec_split(s@, sep));
    }
    segments
}

/// How many times a character occurs in a sequence.
pub open spec fn spec_count_char(s: Seq<char>, c: char) -> int
    decreases s.len(),
{
    if s.len() == 0 {
        0
    } else {
        spec_count_char(s.drop_first(), c) + if s[0] == c {
            1int
        } else {
            0int
        }
    }
}

/// Count how many times a character occurs.
pub fn count_char(s: &Vec<char>, c: char) -> (r: usize)
    ensures
        r == spec_count_char(s@, c),
{
    let mut r: usize = 0;
    let mut i: usize = 0;
    proof {
        assert(s@.skip(0) =~= s@);
    }
    while i < s.len()
        invariant
            0 <= i <= s@.len(),
            r <= i,
            r + spec_count_char(s@.skip(i as int), c) == spec_count_char(s@, c),
        decreases s@.len() - i,
    {
        proof {
            assert(s@.skip(i as int).drop_first() =~= s@.skip(i + 1 as int));
            assert(s@.skip(i as int)[0] == s@[i as int]);
        }
        if s[i] == c {
            r += 1;
        }
        i += 1;
    }
    proof {
        assert(s@.skip(s@.len() as int) =~= Seq::<char>::empty());
    }
    r
}

/// Whether a character is a decimal digit.
pub open spec fn spec_is_digit(c: char) -> bool {
    '0' <= c <= '9'
}

/// The value of a decimal digit.
pub open spec fn spec_digit(c: char) -> int {
    c as int - '0' as int
}

/// Whether every character of a sequence is a decimal digit.
pub open spec fn spec_all_digits(s: Seq<char>) -> bool {
    forall|i: int| 0 <= i < s.len() ==> spec_is_digit(s[i])
}

/// The numeric value of a digit sequence, most significant digit first.
pub open spec fn spec_dec_value(s: Seq<char>) -> int
    decreases s.len(),
{
    if s.len() == 0 {
        0
    } else {
        spec_dec_value(s.drop_last()) * 10 + spec_digit(s.last())
    }
}

/// What parsing an unsigned decimal integer yields: a value exactly when
/// the text is non-empty, all digits, and the value fits.
pub open spec fn spec_parse_u64(s: Seq<char>) -> Option<u64> {
    if s.len() > 0 && spec_all_digits(s) && spec_dec_value(s) <= u64::MAX as int {
        Some(spec_dec_value(s) as u64)
    } else {
        None
    }
}

/// The value of a digit sequence is never negative.
pub proof fn lemma_dec_value_nonneg(s: Seq<char>)
    requires
        spec_all_digits(s),
    ensures
        spec_dec_value(s) >= 0,
    decreases s.len(),
{
    if s.len() > 0 {
        assert(spec_all_digits(s.drop_last()));
        lemma_dec_value_nonneg(s.drop_last());
    }
}

/// A digit sequence is worth at least any of its prefixes.
pub proof fn lemma_dec_value_mono(s: Seq<char>, i: int)
    requires
        spec_all_digits(s),
        0 <= i <= s.len(),
    ensures
        spec_dec_value(s.take(i)) <= spec_dec_value(s),
    decreases s.len() - i,
{
    if i < s.len() {
        lemma_dec_value_mono(s, i + 1);
        assert(s.take(i + 1).drop_last() =~= s.take(i));
        assert(spec_all_digits(s.take(i)));
        lemma_dec_value_nonneg(s.take(i));
        assert(spec_is_digit(s.take(i + 1).last()));
    } else {
        assert(s.take(i) =~= s);
    }
}

/// Powers of ten.
pub open spec fn spec_pow10(n: nat) -> int
    decreases n,
{
    if n == 0 {
        1
    } else {
        10 * spec_pow10((n - 1) as nat)
    }
}

/// A digit sequence of n digits is worth less than ten to the n.
pub proof fn lemma_dec_value_bound(s: Seq<char>)
    requires
        spec_all_digits(s),
    ensures
        0 <= spec_dec_value(s) < spec_pow10(s.len()),
    decreases s.len(),
{
    if s.len() > 0 {
        assert(spec_all_digits(s.drop_last()));
        lemma_dec_value_bound(s.drop_last());
        assert(spec_is_digit(s.last()));
    }
}

/// Check that every character is a decimal digit.
pub fn all_digits_check(s: &Vec<char>) -> (r: bool)
    ensures
        r == spec_all_digits(s@),
{
    let mut i: usize = 0;
    while i < s.len()
        invariant
            0 <= i <= s@.len(),
            spec_all_digits(s@.take(i as int)),
        decreases s@.len() - i,
    {
        let c = s[i];
        if !('0' <= c && c <= '9') {
            proof {
                assert(!spec_is_digit(s@[i as int]));
            }
            return false;
        }
        proof {
            assert(spec_all_digits(s@.take(i + 1 as int)));
        }
        i += 1;
    }
    proof {
        assert(s@.take(s@.len() as int) =~= s@);
    }
    true
}

/// The value of a possibly empty digit run: `Some` exactly when the text
/// is all digits (the empty run is worth zero) and the value fits.
pub fn dec_value_opt(s: &Vec<char>) -> (r: Option<u64>)
    ensures
        r == (if spec_all_digits(s@) && spec_dec_value(s@) <= u64::MAX as int {
            Some(spec_dec_value(s@) as u64)
        } else {
            None::<u64>
        }),
{
    let mut value: u64 = 0;
    let mut i: usize = 0;
    while i < s.len()
        invariant
            0 <= i <= s@.len(),
            spec_all_digits(s@.take(i as int)),
            value == spec_dec_value(s@.take(i as int)),
        decreases s@.len() - i,
    {
        let c = s[i];
        if !('0' <= c && c <= '9') {
            proof {
                assert(!spec_is_digit(s@[i as int]));
            }
            return None;
        }
        let d: u64 = (c as u32 as u64) - 48;
        let next: Option<u64> = match value.checked_mul(10) {
            Some(v) => v.checked_add(d),
            None => None,
        };
        proof {
            assert(s@.take(i + 1 as int).drop_last() =~= s@.take(i as int));
            assert(spec_all_digits(s@.take(i + 1 as int)));
        }
        match next {
            Some(v) => {
                value = v;
            },
            None => {
                proof {
                    if spec_all_digits(s@) && spec_dec_value(s@) <= u64::MAX as int {
                        lemma_dec_value_mono(s@, i + 1);
                        assert(spec_dec_value(s@.take(i + 1 as int)) > u64::MAX as int);
                    }
                }
                return None;
            },
        }
        i += 1;
    }
    proof {
        assert(s@.take(s@.len() as int) =~= s@);
    }
    Some(value)
}

/// Parse an unsigned decimal integer: `Some` exactly for non-empty,
/// all-digit text whose value fits in a `u64`.  Digits only: no leading
/// sign is accepted, where std's readers would take a `+`; in the
/// settings layer such a value falls back to its default.
pub fn parse_u64(s: &Vec<char>) -> (r: Option<u64>)
    ensures
        r == spec_parse_u64(s@),
{
    if s.len() == 0 {
        return None;
    }
    dec_value_opt(s)
}

/// Parse an unsigned decimal integer into a `u32`: as [`parse_u64`], and
/// `None` when the value does not fit in a `u32`.
pub fn parse_u32(s: &Vec<char>) -> (r: Option<u32>)
    ensures
        r == (match spec_parse_u64(s@) {
            Some(v) => if v <= u32::MAX as u64 {
                Some(v as u32)
            } else {
                None::<u32>
            },
            None => None::<u32>,
        }),
{
    match parse_u64(s) {
        Some(v) => if v <= u32::MAX as u64 {
            Some(v as u32)
        } else {
            None
        },
        None => None,
    }
}

/// Whether a character is a hexadecimal digit.
pub open spec fn spec_is_hex_digit(c: char) -> bool {
    ('0' <= c <= '9') || ('a' <= c <= 'f') || ('A' <= c <= 'F')
}

/// The value of a hexadecimal digit.
pub open spec fn spec_hex_digit(c: char) -> int {
    if '0' <= c <= '9' {
        c as int - '0' as int
    } else if 'a' <= c <= 'f' {
        c as int - 'a' as int + 10
    } else {
        c as int - 'A' as int + 10
    }
}

/// Whether every character of a sequence is a hexadecimal digit.
pub open spec fn spec_all_hex_digits(s: Seq<char>) -> bool {
    forall|i: int| 0 <= i < s.len() ==> spec_is_hex_digit(s[i])
}

/// The numeric value of a hexadecimal digit sequence.
pub open spec fn spec_hex_value(s: Seq<char>) -> int
    decreases s.len(),
{
    if s.len() == 0 {
        0
    } else {
        spec_hex_value(s.drop_last()) * 16 + spec_hex_digit(s.last())
    }
}

/// What parsing base-16 text yields: a value exactly when the text is
/// non-empty, all hexadecimal digits, and the value fits.
pub open spec fn spec_parse_hex_u64(s: Seq<char>) -> Option<u64> {
    if s.len() > 0 && spec_all_hex_digits(s) && spec_hex_value(s) <= u64::MAX as int {
        Some(spec_hex_value(s) as u64)
    } else {
        None
    }
}

/// The value of a hexadecimal digit sequence is never negative.
pub proof fn lemma_hex_value_nonneg(s: Seq<char>)
    requires
        spec_all_hex_digits(s),
    ensures
        spec_hex_value(s) >= 0,
    decreases s.len(),
{
    if s.len() > 0 {
        assert(spec_all_hex_digits(s.drop_last()));
        lemma_hex_value_nonneg(s.drop_last());
    }
}

/// A hexadecimal digit sequence is worth at least any of its prefixes.
pub proof fn lemma_hex_value_mono(s: Seq<char>, i: int)
    requires
        spec_all_hex_digits(s),
        0 <= i <= s.len(),
    ensures
        spec_hex_value(s.take(i)) <= spec_hex_value(s),
    decreases s.len() - i,
{
    if i < s.len() {
        lemma_hex_value_mono(s, i + 1);
        assert(s.take(i + 1).drop_last() =~= s.take(i));
        assert(spec_all_hex_digits(s.take(i)));
        lemma_hex_value_nonneg(s.take(i));
        assert(spec_is_hex_digit(s.take(i + 1).last()));
    } else {
        assert(s.take(i) =~= s);
    }
}

/// Parse base-16 text: `Some` exactly for non-empty, all-hex-digit text
/// whose value fits in a `u64`.  Digits only: no leading sign is
/// accepted, where std's radix reader would take a `+`; in the settings
/// layer such a value falls back to its default.
pub fn parse_hex_u64(s: &Vec<char>) -> (r: Option<u64>)
    ensures
        r == spec_parse_hex_u64(s@),
{
    if s.len() == 0 {
        return None;
    }
    let mut value: u64 = 0;
    let mut i: usize = 0;
    while i < s.len()
        invariant
            0 <= i <= s@.len(),
            s@.len() > 0,
            spec_all_hex_digits(s@.take(i as int)),
            value == spec_hex_value(s@.take(i as int)),
        decreases s@.len() - i,
    {
        let c = s[i];
        let d: u64 = if '0' <= c && c <= '9' {
            (c as u32 as u64) - 48
        } else if 'a' <= c && c <= 'f' {
            (c as u32 as u64) - 97 + 10
        } else if 'A' <= c && c <= 'F' {
            (c as u32 as u64) - 65 + 10
        } else {
            proof {
                assert(!spec_is_hex_digit(s@[i as int]));
            }
            return None;
        };
        let next: Option<u64> = match value.checked_mul(16) {
            Some(v) => v.checked_add(d),
            None => None,
        };
        proof {
            assert(s@.take(i + 1 as int).drop_last() =~= s@.take(i as int));
            assert(spec_all_hex_digits(s@.take(i + 1 as int)));
        }
        match next {
            Some(v) => {
                value = v;
            },
            None => {
                proof {
                    if spec_all_hex_digits(s@) && spec_hex_value(s@) <= u64::MAX as int {
                        lemma_hex_value_mono(s@, i + 1);
                        assert(spec_hex_value(s@.take(i + 1 as int)) > u64::MAX as int);
                    }
                }
                return None;
            },
        }
        i += 1;
    }
    proof {
        assert(s@.take(s@.len() as int) =~= s@);
    }
    Some(value)
}

/// The digit character for a value below ten.
pub open spec fn spec_digit_char(d: int) -> char {
    if d == 0 {
        '0'
    } else if d == 1 {
        '1'
    } else if d == 2 {
        '2'
    } else if d == 3 {
        '3'
    } else if d == 4 {
        '4'
    } else if d == 5 {
        '5'
    } else if d == 6 {
        '6'
    } else if d == 7 {
        '7'
    } else if d == 8 {
        '8'
    } else {
        '9'
    }
}

/// The decimal text of an unsigned integer, most significant digit first.
pub open spec fn spec_u64_text(v: nat) -> Seq<char>
    decreases v,
{
    if v < 10 {
        seq![spec_digit_char(v as int)]
    } else {
        spec_u64_text(v / 10).push(spec_digit_char((v % 10) as int))
    }
}

/// The decimal text of a signed integer: a minus sign before the
/// magnitude for negative values.
pub open spec fn spec_i64_text(v: int) -> Seq<char> {
    if v < 0 {
        seq!['-'] + spec_u64_text((-v) as nat)
    } else {
        spec_u64_text(v as nat)
    }
}

/// One digit as static text.
fn digit_str(d: u64) -> (r: &'static str)
    requires
        d < 10,
    ensures
        r@ == seq![spec_digit_char(d as int)],
{
    proof {
        reveal_strlit("0");
        reveal_strlit("1");
        reveal_strlit("2");
        reveal_strlit("3");
        reveal_strlit("4");
        reveal_strlit("5");
        reveal_strlit("6");
        reveal_strlit("7");
        reveal_strlit("8");
        reveal_strlit("9");
    }
    if d == 0 {
        "0"
    } else if d == 1 {
        "1"
    } else if d == 2 {
        "2"
    } else if d == 3 {
        "3"
    } else if d == 4 {
        "4"
    } else if d == 5 {
        "5"
    } else if d == 6 {
        "6"
    } else if d == 7 {
        "7"
    } else if d == 8 {
        "8"
    } else {
        "9"
    }
}

/// Render an unsigned integer as decimal text.
pub fn u64_text(v: u64) -> (r: String)
    ensures
        r@ == spec_u64_text(v as nat),
    decreases v,
{
    if v < 10 {
        String::from_str(digit_str(v))
    } else {
        let mut s = u64_text(v / 10);
        s.append(digit_str(v % 10));
        proof {
            assert(s@ =~= spec_u64_text((v / 10) as nat).push(
                spec_digit_char((v % 10) as int),
            ));
        }
        s
    }
}

/// Render a signed integer as decimal text.
pub fn i64_text(v: i64) -> (r: String)
    ensures
        r@ == spec_i64_text(v as int),
{
    if v >= 0 {
        u64_text(v as u64)
    } else {
        let magnitude: u64 = ((-(v + 1)) as u64) + 1;
        proof {
            assert(magnitude == -(v as int));
        }
        let mut s = String::from_str("-");
        let rest = u64_text(magnitude);
        s.append(rest.as_str());
        proof {
            reveal_strlit("-");
            assert(s@ =~= spec_i64_text(v as int));
        }
        s
    }
}

} // verus!
