//! Text helpers: hexadecimal renderings, decimal parsing and topic handling.

use vstd::prelude::*;

verus! {

/// Appends one character to a `String` (std `String::push`).
#[verifier::external_body]
pub(crate) fn string_push(s: &mut String, c: char)
    ensures
        final(s)@ == old(s)@.push(c),
{
    s.push(c);
}

/// The UTF-8 bytes of a text.
pub open spec fn text_bytes(s: Seq<char>) -> Seq<u8> {
    vstd::utf8::encode_utf8(s)
}

/// Byte positions `from` and `to` of the text fall on character boundaries,
/// with `from <= to`: slicing the text there is defined.
pub open spec fn byte_range_ok(s: Seq<char>, from: int, to: int) -> bool {
    &&& 0 <= from <= to <= text_bytes(s).len()
    &&& vstd::utf8::is_char_boundary(text_bytes(s), from)
    &&& vstd::utf8::is_char_boundary(text_bytes(s), to)
}

/// The text made of bytes `from..to` of a text.
pub open spec fn byte_range_text(s: Seq<char>, from: int, to: int) -> Seq<char> {
    vstd::utf8::decode_utf8(text_bytes(s).subrange(from, to))
}

/// A position of valid UTF-8 bytes that falls on a character boundary stays one
/// in the bytes from `from` on, shifted by `from`.
proof fn lemma_boundary_shift(bytes: Seq<u8>, from: int, to: int)
    requires
        vstd::utf8::valid_utf8(bytes),
        0 <= from <= to <= bytes.len(),
        vstd::utf8::is_char_boundary(bytes, from),
        vstd::utf8::is_char_boundary(bytes, to),
    ensures
        vstd::utf8::valid_utf8(bytes.subrange(from, bytes.len() as int)),
        vstd::utf8::is_char_boundary(bytes.subrange(from, bytes.len() as int), to - from),
{
    let tail = bytes.subrange(from, bytes.len() as int);
    vstd::utf8::valid_utf8_split(bytes, from);
    if to == bytes.len() {
        vstd::utf8::is_char_boundary_start_end_of_seq(tail);
        assert(tail.len() == to - from);
    } else if to == from {
        vstd::utf8::is_char_boundary_start_end_of_seq(tail);
    } else {
        vstd::utf8::is_char_boundary_iff_not_is_continuation_byte(bytes, to);
        vstd::utf8::is_char_boundary_iff_not_is_continuation_byte(tail, to - from);
        assert(tail[to - from] == bytes[to]);
    }
}

/// The part of a text between two byte positions, as `&s[from..to]` slices it.
pub fn text_byte_range(s: &str, from: usize, to: usize) -> (r: &str)
    requires
        byte_range_ok(s@, from as int, to as int),
    ensures
        r@ == byte_range_text(s@, from as int, to as int),
        text_bytes(r@) == text_bytes(s@).subrange(from as int, to as int),
{
    proof {
        vstd::utf8::encode_utf8_valid_utf8(s@);
        lemma_boundary_shift(text_bytes(s@), from as int, to as int);
    }
    let (_, tail) = s.split_at(from);
    let (mid, _) = tail.split_at(to - from);
    proof {
        assert(text_bytes(mid@) =~= text_bytes(s@).subrange(from as int, to as int));
        vstd::utf8::encode_utf8_decode_utf8(mid@);
    }
    mid
}

/// The upper-case hexadecimal digit for a value below 16.
pub open spec fn hex_digit_upper(n: u8) -> char {
    if n < 10 {
        ((n + 48) as u8) as char
    } else {
        ((n + 55) as u8) as char
    }
}

/// The two upper-case hexadecimal digits of a byte, as `{:02X}` prints them.
pub open spec fn byte_hex_upper(b: u8) -> Seq<char> {
    seq![hex_digit_upper(b / 16), hex_digit_upper(b % 16)]
}

/// Every byte printed as two upper-case hexadecimal digits, in order.
pub open spec fn hex_upper(bytes: Seq<u8>) -> Seq<char>
    decreases bytes.len(),
{
    if bytes.len() == 0 {
        Seq::empty()
    } else {
        hex_upper(bytes.drop_last()) + byte_hex_upper(bytes.last())
    }
}

/// The lower-case hexadecimal digit for a value below 16.
pub open spec fn hex_digit_lower(n: u8) -> char {
    if n < 10 {
        ((n + 48) as u8) as char
    } else {
        ((n + 87) as u8) as char
    }
}

/// Every byte printed as two lower-case hexadecimal digits, in order.
pub open spec fn hex_lower(bytes: Seq<u8>) -> Seq<char>
    decreases bytes.len(),
{
    if bytes.len() == 0 {
        Seq::empty()
    } else {
        hex_lower(bytes.drop_last()) + seq![
            hex_digit_lower(bytes.last() / 16),
            hex_digit_lower(bytes.last() % 16),
        ]
    }
}

/// `hex::encode`: every byte as two lower-case hexadecimal digits.
#[verifier::external_body]
pub(crate) fn hex_encode(bytes: &[u8]) -> (s: String)
    ensures
        s@ == hex_lower(bytes@),
{
    hex::encode(bytes)
}

fn hex_digit_char(n: u8) -> (c: char)
    requires
        n < 16,
    ensures
        c == hex_digit_upper(n),
{
    if n < 10 {
        ((n + 48) as u8) as char
    } else {
        ((n + 55) as u8) as char
    }
}

/// Renders bytes as upper-case hexadecimal, two digits per byte.
pub fn to_hex_upper(bytes: &[u8]) -> (s: String)
    ensures
        s@ == hex_upper(bytes@),
{
    let mut s = String::new();
    let mut i: usize = 0;
    while i < bytes.len()
        invariant
            i <= bytes.len(),
            s@ == hex_upper(bytes@.take(i as int)),
        decreases bytes.len() - i,
    {
        let b = bytes[i];
        string_push(&mut s, hex_digit_char(b / 16));
        string_push(&mut s, hex_digit_char(b % 16));
        assert(bytes@.take(i + 1).drop_last() =~= bytes@.take(i as int));
        i = i + 1;
    }
    assert(bytes@.take(i as int) =~= bytes@);
    s
}

/// A decimal digit.
pub open spec fn is_decimal_digit(c: char) -> bool {
    '0' <= c <= '9'
}

/// The value of a sequence of decimal digits.
pub open spec fn decimal_value(s: Seq<char>) -> nat
    decreases s.len(),
{
    if s.len() == 0 {
        0
    } else {
        decimal_value(s.drop_last()) * 10 + ((s.last() as nat) - ('0' as nat)) as nat
    }
}

/// The text after an optional leading `+` sign.
pub open spec fn unsigned_digits(s: Seq<char>) -> Seq<char> {
    if s.len() > 0 && s[0] == '+' {
        s.drop_first()
    } else {
        s
    }
}

/// Every character is a decimal digit.
pub open spec fn all_decimal_digits(s: Seq<char>) -> bool {
    forall|i: int| 0 <= i < s.len() ==> is_decimal_digit(#[trigger] s[i])
}

/// What `str::parse::<u32>` gives: an optional `+` sign followed by at least one
/// decimal digit and nothing else, whose value fits in a `u32`.
pub open spec fn parse_u32_spec(s: Seq<char>) -> Option<u32> {
    let digits = unsigned_digits(s);
    if digits.len() > 0 && all_decimal_digits(digits) && decimal_value(digits) <= u32::MAX {
        Some(decimal_value(digits) as u32)
    } else {
        None
    }
}

/// The value of a longer run of digits is at least that of its prefix.
proof fn lemma_decimal_value_monotone(s: Seq<char>, j: int)
    requires
        0 <= j <= s.len(),
        all_decimal_digits(s),
    ensures
        decimal_value(s.take(j)) <= decimal_value(s),
    decreases s.len() - j,
{
    if j < s.len() {
        let t = s.take(j + 1);
        assert(t.drop_last() =~= s.take(j));
        assert(is_decimal_digit(s[j]));
        assert(decimal_value(t) == decimal_value(s.take(j)) * 10 + ((t.last() as nat) - ('0' as nat)) as nat);
        lemma_decimal_value_monotone(s, j + 1);
    } else {
        assert(s.take(j) =~= s);
    }
}

/// Parses a decimal `u32` as `str::parse::<u32>` does.
pub fn parse_u32(s: &str) -> (r: Option<u32>)
    ensures
        r == parse_u32_spec(s@),
{
    let n = s.unicode_len();
    let mut start: usize = 0;
    if n > 0 && s.get_char(0) == '+' {
        start = 1;
    }
    let ghost digits = unsigned_digits(s@);
    assert(digits =~= s@.subrange(start as int, n as int));
    if start == n {
        return None;
    }
    let mut value: u32 = 0;
    let mut i: usize = start;
    while i < n
        invariant
            start <= i <= n,
            n == s@.len(),
            digits =~= s@.subrange(start as int, n as int),
            digits == unsigned_digits(s@),
            forall|k: int| 0 <= k < i - start ==> is_decimal_digit(#[trigger] digits[k]),
            value == decimal_value(digits.take(i - start)),
        decreases n - i,
    {
        let c = s.get_char(i);
        assert(digits[i - start] == c);
        if !('0' <= c && c <= '9') {
            assert(!is_decimal_digit(digits[i - start]));
            assert(!all_decimal_digits(digits));
            return None;
        }
        let d = (c as u32) - ('0' as u32);
        let ghost t = digits.take(i - start + 1);
        assert(t.drop_last() =~= digits.take(i - start));
        assert(t.last() == c);
        assert(decimal_value(t) == value * 10 + d);
        match value.checked_mul(10) {
            Some(v10) => match v10.checked_add(d) {
                Some(v) => {
                    value = v;
                },
                None => {
                    proof {
                        if all_decimal_digits(digits) {
                            lemma_decimal_value_monotone(digits, i - start + 1);
                        }
                    }
                    return None;
                },
            },
            None => {
                proof {
                    if all_decimal_digits(digits) {
                        lemma_decimal_value_monotone(digits, i - start + 1);
                    }
                }
                return None;
            },
        }
        i = i + 1;
    }
    assert(digits.take(i - start) =~= digits);
    Some(value)
}

/// The text after the last `/` (all of it when there is none), as the last
/// piece of `split("/")` is.
pub open spec fn last_segment(s: Seq<char>) -> Seq<char>
    decreases s.len(),
{
    if s.len() == 0 {
        s
    } else if s.last() == '/' {
        Seq::empty()
    } else {
        last_segment(s.drop_last()).push(s.last())
    }
}

/// `pat` occurs in `s`.
pub open spec fn contains_text(s: Seq<char>, pat: Seq<char>) -> bool {
    exists|i: int| 0 <= i && i + pat.len() <= s.len() && #[trigger] s.subrange(i, i + pat.len()) == pat
}

/// The characters of a text.
fn chars_of(s: &str) -> (r: Vec<char>)
    ensures
        r@ == s@,
{
    let n = s.unicode_len();
    let mut r: Vec<char> = Vec::new();
    let mut i: usize = 0;
    while i < n
        invariant
            i <= n,
            n == s@.len(),
            r@ =~= s@.take(i as int),
        decreases n - i,
    {
        r.push(s.get_char(i));
        i = i + 1;
    }
    assert(s@.take(n as int) =~= s@);
    r
}

/// The last `/`-separated piece of a topic.
pub fn last_topic_segment(topic: &str) -> (r: String)
    ensures
        r@ == last_segment(topic@),
{
    let chars = chars_of(topic);
    let n = chars.len();
    let mut start: usize = n;
    assert(chars@.take(n as int) =~= chars@);
    assert(chars@.skip(n as int) =~= Seq::<char>::empty());
    assert(last_segment(chars@) =~= last_segment(chars@.take(n as int)) + chars@.skip(n as int));
    while start > 0 && chars[start - 1] != '/'
        invariant
            start <= n,
            n == chars@.len(),
            last_segment(chars@) == last_segment(chars@.take(start as int)) + chars@.skip(start as int),
        decreases start,
    {
        let ghost t = chars@.take(start as int);
        assert(t.drop_last() =~= chars@.take(start - 1));
        assert(chars@.skip(start - 1) =~= seq![t.last()] + chars@.skip(start as int));
        assert(last_segment(t) == last_segment(t.drop_last()).push(t.last()));
        assert(last_segment(t.drop_last()).push(t.last()) + chars@.skip(start as int) =~= last_segment(
            t.drop_last(),
        ) + chars@.skip(start - 1));
        start = start - 1;
    }
    let ghost t = chars@.take(start as int);
    if start > 0 {
        assert(t.last() == '/');
    }
    assert(last_segment(t) =~= Seq::<char>::empty());
    let mut r = String::new();
    let mut i: usize = start;
    while i < n
        invariant
            start <= i <= n,
            n == chars@.len(),
            r@ =~= chars@.subrange(start as int, i as int),
        decreases n - i,
    {
        crate::text::string_push(&mut r, chars[i]);
        i = i + 1;
    }
    assert(chars@.skip(start as int) =~= chars@.subrange(start as int, n as int));
    r
}

/// Whether `pat` occurs in `s`.
pub fn text_contains(s: &str, pat: &str) -> (r: bool)
    ensures
        r == contains_text(s@, pat@),
{
    let hay = chars_of(s);
    let needle = chars_of(pat);
    let n = hay.len();
    let m = needle.len();
    if m > n {
        assert forall|i: int| 0 <= i && i + m <= n implies #[trigger] s@.subrange(i, i + m) != pat@ by {}
        return false;
    }
    let mut i: usize = 0;
    while i <= n - m
        invariant
            m <= n,
            n == s@.len(),
            m == pat@.len(),
            hay@ == s@,
            needle@ == pat@,
            forall|k: int| 0 <= k < i ==> #[trigger] s@.subrange(k, k + m) != pat@,
        decreases n - m + 1 - i,
    {
        let mut j: usize = 0;
        let mut same = true;
        while j < m
            invariant
                j <= m,
                i + m <= n,
                m == needle@.len(),
                n == hay@.len(),
                same <==> (forall|q: int| 0 <= q < j ==> hay@[i + q] == needle@[q]),
            decreases m - j,
        {
            if hay[i + j] != needle[j] {
                same = false;
            }
            j = j + 1;
        }
        if same {
            assert(s@.subrange(i as int, i + m) =~= pat@);
            return true;
        }
        assert(s@.subrange(i as int, i + m) != pat@) by {
            let q = choose|q: int| 0 <= q < m && hay@[i + q] != needle@[q];
            assert(s@.subrange(i as int, i + m)[q] != pat@[q]);
        }
        i = i + 1;
    }
    assert forall|k: int| 0 <= k && k + m <= n implies #[trigger] s@.subrange(k, k + m) != pat@ by {
        assert(k < i);
    }
    false
}

} // verus!
