//! Text payloads of number entities: decimal formatting of a state value and
//! parsing of a command value.

use vstd::prelude::*;
use vstd::utf8::{decode_utf8, encode_utf8, valid_utf8};

verus! {

/// Collects the characters of `s` in order.
pub fn str_chars(s: &str) -> (chars: Vec<char>)
    ensures
        chars@ == s@,
{
    let mut chars: Vec<char> = Vec::new();
    for c in it: s.chars()
        invariant
            chars@ == it.seq().subrange(0, it.index()),
            it.seq() == s@,
    {
        chars.push(c);
    }
    chars
}


/// `c` has the Unicode `White_Space` property (the characters that `str::trim` removes).
pub open spec fn is_white_space(c: char) -> bool {
    ||| ('\u{9}' <= c && c <= '\u{d}')
    ||| c == ' '
    ||| c == '\u{85}'
    ||| c == '\u{a0}'
    ||| c == '\u{1680}'
    ||| ('\u{2000}' <= c && c <= '\u{200a}')
    ||| c == '\u{2028}'
    ||| c == '\u{2029}'
    ||| c == '\u{202f}'
    ||| c == '\u{205f}'
    ||| c == '\u{3000}'
}

/// `s` without its leading white space.
pub open spec fn trim_start(s: Seq<char>) -> Seq<char>
    decreases s.len(),
{
    if s.len() > 0 && is_white_space(s[0]) {
        trim_start(s.drop_first())
    } else {
        s
    }
}

/// `s` without its trailing white space.
pub open spec fn trim_end(s: Seq<char>) -> Seq<char>
    decreases s.len(),
{
    if s.len() > 0 && is_white_space(s.last()) {
        trim_end(s.drop_last())
    } else {
        s
    }
}

/// `s` without leading and trailing white space.
pub open spec fn trim(s: Seq<char>) -> Seq<char> {
    trim_end(trim_start(s))
}

/// An ASCII decimal digit.
pub open spec fn is_digit(c: char) -> bool {
    '0' <= c && c <= '9'
}

/// The value of a decimal digit.
pub open spec fn digit_value(c: char) -> int {
    (c as int) - ('0' as int)
}

/// The value of a sequence of decimal digits, most significant first.
pub open spec fn digits_value(s: Seq<char>) -> int
    decreases s.len(),
{
    if s.len() == 0 {
        0
    } else {
        digits_value(s.drop_last()) * 10 + digit_value(s.last())
    }
}

/// Every character of `s` is a decimal digit.
pub open spec fn all_digits(s: Seq<char>) -> bool {
    forall|i: int| 0 <= i < s.len() ==> is_digit(#[trigger] s[i])
}

/// The digits of `s` after an optional leading sign.
pub open spec fn unsigned_part(s: Seq<char>) -> Seq<char> {
    if s.len() > 0 && (s[0] == '-' || s[0] == '+') {
        s.drop_first()
    } else {
        s
    }
}

/// The value that `s` denotes as an `i32` in decimal: an optional `+` or `-`, then one or
/// more ASCII digits, and a value within the range of `i32`; `None` for anything else.
pub open spec fn spec_parse_i32(s: Seq<char>) -> Option<i32> {
    let body = unsigned_part(s);
    if s.len() == 0 || body.len() == 0 || !all_digits(body) {
        None
    } else {
        let v = if s[0] == '-' { -digits_value(body) } else { digits_value(body) };
        if i32::MIN <= v && v <= i32::MAX {
            Some(v as i32)
        } else {
            None
        }
    }
}

/// The value that a number command payload carries: the payload must be UTF-8, and once
/// white space is trimmed from both ends it must be an `i32` in decimal.
pub open spec fn spec_number_payload(payload: Seq<u8>) -> Option<i32> {
    if valid_utf8(payload) {
        spec_parse_i32(trim(decode_utf8(payload)))
    } else {
        None
    }
}

/// Index of the first character of `s` that is not white space, or `s.len()`.
fn first_non_white(s: &Vec<char>) -> (i: usize)
    ensures
        i <= s@.len(),
        trim_start(s@) == s@.subrange(i as int, s@.len() as int),
{
    let mut i: usize = 0;
    assert(s@.subrange(0, s@.len() as int) =~= s@);
    while i < s.len() && is_space_char(s[i])
        invariant
            i <= s@.len(),
            trim_start(s@) == trim_start(s@.subrange(i as int, s@.len() as int)),
        decreases s@.len() - i,
    {
        assert(s@.subrange(i as int, s@.len() as int).drop_first() =~= s@.subrange(i + 1, s@.len() as int));
        i = i + 1;
    }
    if i < s.len() {
        assert(s@.subrange(i as int, s@.len() as int)[0] == s@[i as int]);
    } else {
        assert(s@.subrange(i as int, s@.len() as int).len() == 0);
    }
    i
}

/// End (exclusive) of `s[lo..]` once trailing white space is removed.
fn last_non_white(s: &Vec<char>, lo: usize) -> (j: usize)
    requires
        lo <= s@.len(),
    ensures
        lo <= j <= s@.len(),
        trim_end(s@.subrange(lo as int, s@.len() as int)) == s@.subrange(lo as int, j as int),
{
    let mut j: usize = s.len();
    while j > lo && is_space_char(s[j - 1])
        invariant
            lo <= j <= s@.len(),
            trim_end(s@.subrange(lo as int, s@.len() as int)) == trim_end(s@.subrange(lo as int, j as int)),
        decreases j,
    {
        assert(s@.subrange(lo as int, j as int).drop_last() =~= s@.subrange(lo as int, j - 1));
        j = j - 1;
    }
    if j > lo {
        assert(s@.subrange(lo as int, j as int).last() == s@[j - 1]);
    } else {
        assert(s@.subrange(lo as int, j as int).len() == 0);
    }
    j
}

/// Whether `c` has the Unicode `White_Space` property.
pub fn is_space_char(c: char) -> (b: bool)
    ensures
        b == is_white_space(c),
{
    ('\u{9}' <= c && c <= '\u{d}') || c == ' ' || c == '\u{85}' || c == '\u{a0}' || c == '\u{1680}'
        || ('\u{2000}' <= c && c <= '\u{200a}') || c == '\u{2028}' || c == '\u{2029}' || c == '\u{202f}'
        || c == '\u{205f}' || c == '\u{3000}'
}

/// Parses `s[lo..hi]` as a decimal `i32`.
fn parse_i32_range(s: &Vec<char>, lo: usize, hi: usize) -> (r: Option<i32>)
    requires
        lo <= hi <= s@.len(),
    ensures
        r == spec_parse_i32(s@.subrange(lo as int, hi as int)),
{
    let ghost t = s@.subrange(lo as int, hi as int);
    if lo == hi {
        return None;
    }
    let first = s[lo];
    let neg = first == '-';
    let start: usize = if first == '-' || first == '+' { lo + 1 } else { lo };
    let ghost body = unsigned_part(t);
    assert(body =~= s@.subrange(start as int, hi as int));
    if start == hi {
        return None;
    }
    // Accumulates the magnitude; once it is past the range of `i32` it stays there.
    let mut acc: i64 = 0;
    let mut k: usize = start;
    assert(s@.subrange(start as int, start as int) =~= Seq::<char>::empty());
    while k < hi
        invariant
            start <= k <= hi <= s@.len(),
            body == s@.subrange(start as int, hi as int),
            body == unsigned_part(s@.subrange(lo as int, hi as int)),
            lo < hi,
            all_digits(s@.subrange(start as int, k as int)),
            0 <= acc <= 2147483649,
            acc <= 2147483648 ==> acc == digits_value(s@.subrange(start as int, k as int)),
            acc > 2147483648 ==> digits_value(s@.subrange(start as int, k as int)) > 2147483648,
        decreases hi - k,
    {
        let c = s[k];
        let ghost pre = s@.subrange(start as int, k as int);
        let ghost next = s@.subrange(start as int, k + 1);
        assert(next.drop_last() =~= pre);
        assert(next.last() == c);
        if !('0' <= c && c <= '9') {
            assert(body[k - start] == c);
            assert(!is_digit(body[k - start]));
            return None;
        }
        let d: i64 = (c as u32 - '0' as u32) as i64;
        assert(d == digit_value(c));
        proof {
            assert(digits_value(pre) >= 0) by {
                lemma_digits_value_nonneg(pre);
            }
        }
        if acc <= 2147483648 {
            acc = acc * 10 + d;
            if acc > 2147483648 {
                acc = 2147483649;
            }
        }
        k = k + 1;
        assert forall|i: int| 0 <= i < next.len() implies is_digit(#[trigger] next[i]) by {
            if i < pre.len() {
                assert(next[i] == pre[i]);
            }
        }
    }
    assert(all_digits(body));
    if neg {
        if acc <= 2147483648 {
            Some((-acc) as i32)
        } else {
            None
        }
    } else {
        if acc <= 2147483647 {
            Some(acc as i32)
        } else {
            None
        }
    }
}

/// A sequence of digits has a value of at least zero.
pub proof fn lemma_digits_value_nonneg(s: Seq<char>)
    requires
        all_digits(s),
    ensures
        digits_value(s) >= 0,
    decreases s.len(),
{
    if s.len() > 0 {
        assert(all_digits(s.drop_last())) by {
            assert forall|i: int| 0 <= i < s.drop_last().len() implies is_digit(#[trigger] s.drop_last()[i]) by {
                assert(s.drop_last()[i] == s[i]);
            }
        }
        lemma_digits_value_nonneg(s.drop_last());
        assert(is_digit(s[s.len() - 1]));
    }
}

/// Decodes `payload` as UTF-8 with `core::str::from_utf8`. The contract claims what its
/// documentation states: it succeeds exactly when the bytes are valid UTF-8, and the
/// string it gives holds exactly those bytes.
#[verifier::external_body]
fn utf8_str(payload: &[u8]) -> (s: Option<&str>)
    ensures
        s is Some <==> valid_utf8(payload@),
        s matches Some(t) ==> encode_utf8(t@) == payload@,
{
    core::str::from_utf8(payload).ok()
}

/// Parses the payload of a number command: UTF-8 text that, once white space is
/// trimmed from both ends, is an `i32` in decimal.
pub fn parse_number_payload(payload: &[u8]) -> (r: Option<i32>)
    ensures
        r == spec_number_payload(payload@),
{
    match utf8_str(payload) {
        None => None,
        Some(text) => {
            proof {
                vstd::utf8::encode_utf8_decode_utf8(text@);
            }
            let chars = str_chars(text);
            let lo = first_non_white(&chars);
            let hi = last_non_white(&chars, lo);
            parse_i32_range(&chars, lo, hi)
        },
    }
}


/// The magnitude of `v`.
pub open spec fn magnitude(v: i32) -> nat {
    if v < 0 { (-(v as int)) as nat } else { v as nat }
}

/// ASCII decimal digits of `n`, most significant first, without leading zeros.
pub open spec fn decimal_bytes(n: nat) -> Seq<u8>
    decreases n,
{
    if n < 10 {
        seq![(48 + n) as u8]
    } else {
        decimal_bytes(n / 10).push((48 + n % 10) as u8)
    }
}

/// The decimal text of `v` in ASCII: a `-` for a negative value, then its digits.
pub open spec fn i32_text(v: i32) -> Seq<u8> {
    if v < 0 {
        seq![45u8] + decimal_bytes(magnitude(v))
    } else {
        decimal_bytes(magnitude(v))
    }
}

/// How many bytes `format_i32` writes into a buffer of `cap` bytes: the sign and the
/// digits are written as two separate pieces, and a piece that does not fit in what is
/// left of the buffer is not written (nor anything after it).
pub open spec fn formatted_len(v: i32, cap: nat) -> nat {
    let digits = decimal_bytes(magnitude(v)).len();
    if v < 0 {
        if cap == 0 {
            0
        } else if 1 + digits <= cap {
            1 + digits
        } else {
            1
        }
    } else if digits <= cap {
        digits
    } else {
        0
    }
}

/// Appends the decimal digits of `n` to `out`.
fn push_decimal(n: u32, out: &mut Vec<u8>)
    ensures
        final(out)@ == old(out)@ + decimal_bytes(n as nat),
    decreases n,
{
    if n >= 10 {
        push_decimal(n / 10, out);
    }
    out.push((48 + n % 10) as u8);
    proof {
        if n < 10 {
            assert(n % 10 == n);
        }
    }
}

/// Length in bytes of the decimal text of `value`.
pub fn i32_text_len(value: i32) -> (n: usize)
    ensures
        n == i32_text(value).len(),
{
    let mut digits: Vec<u8> = Vec::new();
    let mag: u32 = if value < 0 { (0i64 - value as i64) as u32 } else { value as u32 };
    assert(mag as nat == magnitude(value));
    push_decimal(mag, &mut digits);
    assert(digits@ =~= decimal_bytes(magnitude(value)));
    if value < 0 {
        proof {
            lemma_decimal_len_bound(magnitude(value));
        }
        digits.len() + 1
    } else {
        digits.len()
    }
}

proof fn lemma_decimal_len_bound(n: nat)
    requires
        n <= 4294967295,
    ensures
        decimal_bytes(n).len() <= 10,
    decreases n,
{
    if n >= 10 {
        assert(n / 10 <= 429496729);
        assert(pow10(9) == 1000000000) by {
            reveal_with_fuel(pow10, 10);
        }
        lemma_decimal_len_small(n / 10, 9);
    }
}

proof fn lemma_decimal_len_small(n: nat, k: nat)
    requires
        n < pow10(k),
    ensures
        decimal_bytes(n).len() <= if k == 0 { 1 } else { k },
    decreases n,
{
    if n >= 10 {
        assert(k >= 2) by {
            if k < 2 {
                reveal_with_fuel(pow10, 2);
            }
        }
        assert(n / 10 < pow10((k - 1) as nat)) by {
            assert(pow10(k) == 10 * pow10((k - 1) as nat));
            assert(n / 10 < pow10((k - 1) as nat)) by (nonlinear_arith)
                requires
                    n < 10 * pow10((k - 1) as nat),
            ;
        }
        lemma_decimal_len_small(n / 10, (k - 1) as nat);
    }
}

/// Ten to the power `k`.
pub open spec fn pow10(k: nat) -> nat
    decreases k,
{
    if k == 0 { 1 } else { 10 * pow10((k - 1) as nat) }
}

/// Formats `value` in decimal into the start of `buf` and returns the number of bytes
/// written. The sign and the digits are written as separate pieces; a piece that does
/// not fit in the rest of `buf` is not written, and neither is anything after it.
/// Bytes of `buf` past the returned length are left as they were.
pub fn format_i32(value: i32, buf: &mut [u8]) -> (n: usize)
    ensures
        n == formatted_len(value, old(buf)@.len()),
        final(buf)@.len() == old(buf)@.len(),
        final(buf)@.subrange(0, n as int) == i32_text(value).subrange(0, n as int),
        final(buf)@.subrange(n as int, old(buf)@.len() as int) == old(buf)@.subrange(n as int, old(buf)@.len() as int),
{
    let mut digits: Vec<u8> = Vec::new();
    let mag: u32 = if value < 0 { (0i64 - value as i64) as u32 } else { value as u32 };
    assert(mag as nat == magnitude(value));
    push_decimal(mag, &mut digits);
    assert(digits@ =~= decimal_bytes(magnitude(value)));
    let ghost text = i32_text(value);
    let mut pos: usize = 0;
    if value < 0 {
        if buf.len() < 1 {
            assert(buf@.subrange(0, 0) =~= text.subrange(0, 0));
            assert(buf@.subrange(0, buf@.len() as int) =~= old(buf)@.subrange(0, buf@.len() as int));
            return 0;
        }
        buf[0] = 45u8;
        pos = 1;
    }
    let ghost off = pos as int;
    assert(text.subrange(off, off + digits@.len()) =~= digits@);
    if digits.len() <= buf.len() - pos {
        let mut k: usize = 0;
        let blen = buf.len();
        while k < digits.len()
            invariant
                k <= digits@.len(),
                blen == buf@.len(),
                pos == off,
                off + digits@.len() <= buf@.len(),
                buf@.len() == old(buf)@.len(),
                off == 1 ==> buf@[0] == 45u8,
                forall|i: int| 0 <= i < k ==> buf@[off + i] == digits@[i],
                forall|i: int| off + k <= i < buf@.len() ==> buf@[i] == old(buf)@[i],
            decreases digits@.len() - k,
        {
            buf[pos + k] = digits[k];
            k = k + 1;
        }
        pos = pos + digits.len();
    }
    assert(buf@.subrange(0, pos as int) =~= text.subrange(0, pos as int)) by {
        assert forall|i: int| 0 <= i < pos implies buf@[i] == text[i] by {
            if value < 0 && i == 0 {
            } else {
                assert(text[i] == digits@[i - off]);
            }
        }
    }
    assert(buf@.subrange(pos as int, buf@.len() as int) =~= old(buf)@.subrange(pos as int, buf@.len() as int));
    pos
}


/// The characters of the decimal text of `v`.
pub open spec fn i32_chars(v: i32) -> Seq<char> {
    i32_text(v).map_values(|b: u8| b as char)
}

/// The digits of `n` as characters.
pub open spec fn decimal_chars(n: nat) -> Seq<char> {
    decimal_bytes(n).map_values(|b: u8| b as char)
}

proof fn lemma_decimal_bytes_ascii(n: nat)
    ensures
        decimal_bytes(n).len() >= 1,
        forall|i: int| 0 <= i < decimal_bytes(n).len() ==> 48 <= #[trigger] decimal_bytes(n)[i] <= 57,
    decreases n,
{
    if n >= 10 {
        lemma_decimal_bytes_ascii(n / 10);
    }
}

proof fn lemma_decimal_chars_value(n: nat)
    ensures
        all_digits(decimal_chars(n)),
        digits_value(decimal_chars(n)) == n,
    decreases n,
{
    let s = decimal_chars(n);
    lemma_decimal_bytes_ascii(n);
    assert forall|i: int| 0 <= i < s.len() implies is_digit(#[trigger] s[i]) by {
        assert(48 <= decimal_bytes(n)[i] <= 57);
    }
    if n < 10 {
        assert(s.drop_last() =~= Seq::<char>::empty());
        assert(digits_value(s.drop_last()) == 0);
    } else {
        lemma_decimal_chars_value(n / 10);
        assert(s.drop_last() =~= decimal_chars(n / 10));
        assert(s.last() == ((48 + n % 10) as u8) as char);
    }
}

proof fn lemma_i32_chars(v: i32)
    ensures
        encode_utf8(i32_chars(v)) == i32_text(v),
        i32_chars(v).len() >= 1,
        v < 0 ==> i32_chars(v)[0] == '-' && i32_chars(v).drop_first() == decimal_chars(magnitude(v)),
        v >= 0 ==> i32_chars(v) == decimal_chars(magnitude(v)),
        all_digits(decimal_chars(magnitude(v))),
        digits_value(decimal_chars(magnitude(v))) == magnitude(v),
        decimal_chars(magnitude(v)).len() >= 1,
{
    let chars = i32_chars(v);
    let text = i32_text(v);
    lemma_decimal_bytes_ascii(magnitude(v));
    lemma_decimal_chars_value(magnitude(v));
    assert forall|i: int| 0 <= i < text.len() implies (#[trigger] text[i]) < 128 by {
        if v < 0 && i == 0 {
        } else if v < 0 {
            assert(text[i] == decimal_bytes(magnitude(v))[i - 1]);
        } else {
        }
    }
    assert(vstd::utf8::is_ascii_chars(chars));
    vstd::utf8::is_ascii_chars_encode_utf8(chars);
    assert(encode_utf8(chars) =~= text);
    if v < 0 {
        assert(chars.drop_first() =~= decimal_chars(magnitude(v)));
    } else {
        assert(chars =~= decimal_chars(magnitude(v)));
    }
}

/// Law: the decimal text of any `i32`, read as a number command payload, gives back
/// that value.
pub proof fn law_number_text_reads_back(v: i32)
    ensures
        spec_number_payload(i32_text(v)) == Some(v),
{
    let chars = i32_chars(v);
    lemma_i32_chars(v);
    vstd::utf8::encode_utf8_valid_utf8(chars);
    vstd::utf8::encode_utf8_decode_utf8(chars);
    assert(decode_utf8(i32_text(v)) == chars);
    let digits = decimal_chars(magnitude(v));
    assert(is_digit(digits[0]));
    assert(is_digit(digits.last()));
    assert(!is_white_space(chars[0]));
    assert(chars.last() == digits.last()) by {
        if v < 0 {
            assert(chars.last() == chars.drop_first().last());
        }
    }
    assert(trim_start(chars) == chars);
    assert(trim_end(chars) == chars);
    assert(trim(chars) == chars);
    if v < 0 {
        assert(unsigned_part(chars) == digits);
    } else {
        assert(unsigned_part(chars) == digits);
    }
}

/// Law: a number state formatted into a buffer with room for its text fills exactly that
/// text, and that text read back as a number command payload is the same value.
pub proof fn law_formatted_state_reads_back(v: i32, cap: nat)
    requires
        i32_text(v).len() <= cap,
    ensures
        formatted_len(v, cap) == i32_text(v).len(),
        spec_number_payload(i32_text(v).subrange(0, formatted_len(v, cap) as int)) == Some(v),
{
    assert(i32_text(v).subrange(0, i32_text(v).len() as int) =~= i32_text(v));
    law_number_text_reads_back(v);
}

} // verus!
