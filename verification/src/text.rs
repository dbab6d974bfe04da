//! Text building blocks: ASCII strings, decimal numbers, the body snippet
//! kept in error messages, trailing-slash trimming, and the percent
//! encoding of a path segment.

use vstd::prelude::*;
use vstd::string::StringSliceAdditionalSpecFns;
use vstd::utf8::*;

verus! {

broadcast use vstd::utf8::encode_utf8_valid_utf8, vstd::utf8::encode_utf8_decode_utf8;

/// How many bytes of a non-envelope body are kept in error messages.
pub const BODY_SNIPPET_LEN: usize = 512;

// ------------------------------------------------------------------ ASCII

/// The characters of a byte sequence read as ASCII.
pub open spec fn ascii_chars(bytes: Seq<u8>) -> Seq<char> {
    bytes.map_values(|b: u8| b as char)
}

/// Every byte is a 7-bit ASCII code.
pub open spec fn all_ascii(bytes: Seq<u8>) -> bool {
    forall|i: int| 0 <= i < bytes.len() ==> #[trigger] bytes[i] < 128
}

/// A string made of the given ASCII bytes.
///
/// Calls `String::from_utf8` from std. Claimed: on bytes that are all
/// below 128 (which are valid UTF-8) it returns the string whose
/// characters are those bytes, one for one.
#[verifier::external_body]
pub(crate) fn ascii_string(bytes: Vec<u8>) -> (s: String)
    requires
        all_ascii(bytes@),
    ensures
        s@ == ascii_chars(bytes@),
{
    match String::from_utf8(bytes) {
        Ok(s) => s,
        Err(_) => String::new(),
    }
}

pub proof fn lemma_ascii_chars_push(bytes: Seq<u8>, b: u8)
    ensures
        ascii_chars(bytes.push(b)) =~= ascii_chars(bytes).push(b as char),
{
}

// ---------------------------------------------------------------- decimal

/// The decimal digit character of `d` (for `d < 10`).
pub open spec fn digit_char(d: nat) -> char {
    (48 + d) as char
}

/// The decimal notation of a natural number, without leading zeros.
pub open spec fn decimal(n: nat) -> Seq<char>
    decreases n,
{
    if n < 10 {
        seq![digit_char(n)]
    } else {
        decimal(n / 10).push(digit_char(n % 10))
    }
}

/// The decimal notation of an integer, with a leading `-` when negative.
pub open spec fn signed_decimal(n: int) -> Seq<char> {
    if n < 0 {
        seq!['-'] + decimal((-n) as nat)
    } else {
        decimal(n as nat)
    }
}

fn push_decimal(out: &mut Vec<u8>, n: u64)
    requires
        all_ascii(old(out)@),
    ensures
        all_ascii(final(out)@),
        ascii_chars(final(out)@) == ascii_chars(old(out)@) + decimal(n as nat),
    decreases n,
{
    if n >= 10 {
        push_decimal(out, n / 10);
    }
    let ghost before = out@;
    let d: u8 = (n % 10) as u8;
    out.push(48 + d);
    proof {
        lemma_ascii_chars_push(before, (48 + d) as u8);
        assert(((48 + d) as u8) as char == digit_char((n % 10) as nat));
        if n < 10 {
            assert(decimal(n as nat) == seq![digit_char(n as nat)]);
            assert(ascii_chars(out@) =~= ascii_chars(old(out)@) + decimal(n as nat));
        } else {
            assert(ascii_chars(out@) =~= ascii_chars(old(out)@) + decimal(n as nat));
        }
    }
}

/// The decimal notation of `n`, as `{n}` formats it.
pub fn decimal_string(n: u64) -> (s: String)
    ensures
        s@ == decimal(n as nat),
{
    let mut out: Vec<u8> = Vec::new();
    assert(ascii_chars(out@) =~= Seq::<char>::empty());
    push_decimal(&mut out, n);
    assert(ascii_chars(out@) =~= decimal(n as nat));
    ascii_string(out)
}

/// The decimal notation of `n`, with a `-` for negative numbers, as
/// `{n}` formats an `i64`.
pub fn signed_decimal_string(n: i64) -> (s: String)
    ensures
        s@ == signed_decimal(n as int),
{
    let mut out: Vec<u8> = Vec::new();
    if n < 0 {
        out.push(45u8);
        let magnitude: u64 = if n == i64::MIN {
            9223372036854775808u64
        } else {
            (-n) as u64
        };
        proof {
            assert(ascii_chars(out@) =~= seq!['-']);
        }
        push_decimal(&mut out, magnitude);
        assert(ascii_chars(out@) =~= signed_decimal(n as int));
    } else {
        assert(ascii_chars(out@) =~= Seq::<char>::empty());
        push_decimal(&mut out, n as u64);
        assert(ascii_chars(out@) =~= signed_decimal(n as int));
    }
    ascii_string(out)
}

// ------------------------------------------------------------------ paths

/// `a` followed by `b` and `c`.
pub fn concat3(a: &str, b: &str, c: &str) -> (s: String)
    ensures
        s@ == a@ + b@ + c@,
{
    let mut s = a.to_owned();
    s.append(b);
    s.append(c);
    s
}

/// `prefix`, then the decimal notation of `id`, then `suffix`: the path
/// of a resource addressed by number.
pub fn id_path(prefix: &str, id: i64, suffix: &str) -> (s: String)
    ensures
        s@ == prefix@ + signed_decimal(id as int) + suffix@,
{
    concat3(prefix, signed_decimal_string(id).as_str(), suffix)
}

/// `prefix` followed by the decimal notation of `id`.
pub fn id_segment(prefix: &str, id: i64) -> (s: String)
    ensures
        s@ == prefix@ + signed_decimal(id as int),
{
    let mut s = prefix.to_owned();
    s.append(signed_decimal_string(id).as_str());
    s
}

// ---------------------------------------------------------------- snippet

/// The largest character boundary of `bytes` that is at most `k`.
pub open spec fn boundary_at_or_below(bytes: Seq<u8>, k: int) -> int
    decreases k,
{
    if k <= 0 {
        0
    } else if is_char_boundary(bytes, k) {
        k
    } else {
        boundary_at_or_below(bytes, k - 1)
    }
}

/// Where the snippet of a text with the given UTF-8 bytes ends: the last
/// character boundary within the first [`BODY_SNIPPET_LEN`] bytes.
pub open spec fn snippet_end(bytes: Seq<u8>) -> int {
    boundary_at_or_below(
        bytes,
        if bytes.len() < BODY_SNIPPET_LEN { bytes.len() as int } else { BODY_SNIPPET_LEN as int },
    )
}

proof fn lemma_boundary_at_or_below(bytes: Seq<u8>, k: int, j: int)
    requires
        valid_utf8(bytes),
        0 <= j <= k,
        is_char_boundary(bytes, j),
        forall|i: int| j < i <= k ==> !is_char_boundary(bytes, i),
    ensures
        boundary_at_or_below(bytes, k) == j,
    decreases k,
{
    if k > j {
        lemma_boundary_at_or_below(bytes, k - 1, j);
    }
}

/// The text that [`snippet`] keeps of `text`.
pub open spec fn snippet_of(text: Seq<char>) -> Seq<char> {
    decode_utf8(encode_utf8(text).subrange(0, snippet_end(encode_utf8(text))))
}

/// At most [`BODY_SNIPPET_LEN`] bytes of `text`, cut back to a character
/// boundary so that the result is still valid text.
pub fn snippet(text: &str) -> (s: String)
    ensures
        encode_utf8(s@) == text.spec_bytes().subrange(0, snippet_end(text.spec_bytes())),
        s@ == snippet_of(text@),
        s@.is_prefix_of(text@),
        encode_utf8(s@).len() <= BODY_SNIPPET_LEN,
        text.spec_bytes().len() <= BODY_SNIPPET_LEN ==> s@ == text@,
{
    let ghost bytes = text.spec_bytes();
    let len = text.as_bytes().len();
    let limit = if len < BODY_SNIPPET_LEN {
        len
    } else {
        BODY_SNIPPET_LEN
    };
    let mut end = limit;
    proof {
        is_char_boundary_start_end_of_seq(bytes);
    }
    while !text.is_char_boundary(end)
        invariant
            bytes == text.spec_bytes(),
            valid_utf8(bytes),
            is_char_boundary(bytes, 0),
            end <= limit,
            limit <= bytes.len(),
            forall|i: int| end < i <= limit ==> !is_char_boundary(bytes, i),
        decreases end,
    {
        end = end - 1;
    }
    proof {
        lemma_boundary_at_or_below(bytes, limit as int, end as int);
        assert(snippet_end(bytes) == end);
    }
    let (head, _tail) = text.split_at(end);
    proof {
        decode_utf8_split(bytes, end as int);
        vstd::utf8::decode_utf8_encode_utf8(head.spec_bytes());
        assert(bytes.subrange(0, bytes.len() as int) =~= bytes);
        assert(head@ == decode_utf8(head.spec_bytes()));
    }
    let s = head.to_owned();
    proof {
        assert(text@ == decode_utf8(bytes));
        assert(s@ =~= text@.subrange(0, s@.len() as int));
        if bytes.len() <= BODY_SNIPPET_LEN {
            assert(bytes.subrange(0, end as int) =~= bytes);
        }
    }
    s
}

// --------------------------------------------------------- trailing slash

/// `s` without any trailing `/` characters, as `trim_end_matches('/')`
/// leaves it.
pub open spec fn trim_trailing_slashes(s: Seq<char>) -> Seq<char>
    decreases s.len(),
{
    if s.len() > 0 && s.last() == '/' {
        trim_trailing_slashes(s.drop_last())
    } else {
        s
    }
}

/// A trimmed string is a prefix of the original and ends in no `/`.
pub proof fn lemma_trimmed_has_no_trailing_slash(s: Seq<char>)
    ensures
        trim_trailing_slashes(s).is_prefix_of(s),
        trim_trailing_slashes(s).len() > 0 ==> trim_trailing_slashes(s).last() != '/',
    decreases s.len(),
{
    if s.len() > 0 && s.last() == '/' {
        lemma_trimmed_has_no_trailing_slash(s.drop_last());
    }
}

// ------------------------------------------------------ percent encoding

/// The bytes a path segment carries unescaped: letters, digits and
/// `-`, `_`, `.`, `~`.
pub open spec fn is_unreserved(b: u8) -> bool {
    ||| 65 <= b <= 90
    ||| 97 <= b <= 122
    ||| 48 <= b <= 57
    ||| b == 45
    ||| b == 95
    ||| b == 46
    ||| b == 126
}

/// The upper-case hexadecimal digit of `d` (for `d < 16`).
pub open spec fn hex_digit(d: int) -> char {
    if d < 10 {
        (48 + d) as char
    } else {
        (55 + d) as char
    }
}

/// How one byte appears in an escaped path segment: itself when
/// unreserved, otherwise `%` and two upper-case hex digits.
pub open spec fn percent_byte(b: u8) -> Seq<char> {
    if is_unreserved(b) {
        seq![b as char]
    } else {
        seq!['%', hex_digit((b / 16) as int), hex_digit((b % 16) as int)]
    }
}

/// The escaped form of a byte sequence, byte by byte.
pub open spec fn percent_encode(bytes: Seq<u8>) -> Seq<char>
    decreases bytes.len(),
{
    if bytes.len() == 0 {
        seq![]
    } else {
        percent_byte(bytes[0]) + percent_encode(bytes.drop_first())
    }
}

pub proof fn lemma_percent_encode_push(bytes: Seq<u8>, b: u8)
    ensures
        percent_encode(bytes.push(b)) == percent_encode(bytes) + percent_byte(b),
    decreases bytes.len(),
{
    if bytes.len() == 0 {
        assert(bytes.push(b).drop_first() =~= Seq::<u8>::empty());
        assert(percent_encode(bytes.push(b).drop_first()) == Seq::<char>::empty());
        assert(percent_encode(bytes.push(b)) =~= percent_byte(b));
    } else {
        assert(bytes.push(b).drop_first() =~= bytes.drop_first().push(b));
        lemma_percent_encode_push(bytes.drop_first(), b);
        assert(percent_encode(bytes.push(b)) =~= percent_encode(bytes) + percent_byte(b));
    }
}

/// The value of an upper-case hexadecimal digit.
pub open spec fn hex_value(c: char) -> int {
    if (c as int) < 58 {
        c as int - 48
    } else {
        c as int - 55
    }
}

/// Undo [`percent_encode`]: `%XX` becomes the byte `XX`, any other
/// character the byte of its code.
pub open spec fn percent_decode(cs: Seq<char>) -> Seq<u8>
    decreases cs.len(),
{
    if cs.len() == 0 {
        seq![]
    } else if cs[0] == '%' && cs.len() >= 3 {
        seq![(hex_value(cs[1]) * 16 + hex_value(cs[2])) as u8] + percent_decode(cs.skip(3))
    } else {
        seq![cs[0] as u8] + percent_decode(cs.skip(1))
    }
}

/// Decoding an escaped segment gives back the bytes it was made from.
pub proof fn lemma_percent_decode_encode(bytes: Seq<u8>)
    ensures
        percent_decode(percent_encode(bytes)) == bytes,
    decreases bytes.len(),
{
    if bytes.len() > 0 {
        let b = bytes[0];
        let rest = percent_encode(bytes.drop_first());
        let all = percent_byte(b) + rest;
        lemma_percent_decode_encode(bytes.drop_first());
        if is_unreserved(b) {
            assert(all.skip(1) =~= rest);
            assert(all[0] == b as char);
            assert((b as char) as u8 == b);
        } else {
            assert(all.skip(3) =~= rest);
            let hi = (b / 16) as int;
            let lo = (b % 16) as int;
            assert(hex_value(hex_digit(hi)) == hi);
            assert(hex_value(hex_digit(lo)) == lo);
            assert(hi * 16 + lo == b);
        }
        assert(percent_decode(all) =~= seq![b] + bytes.drop_first());
        assert(seq![b] + bytes.drop_first() =~= bytes);
    }
}

/// Escaping is lossless: two different texts never escape to the same
/// path segment, so no request can reach another subscriber than the
/// one named.
pub proof fn lemma_percent_encoding_is_injective(a: Seq<char>, b: Seq<char>)
    requires
        percent_encode(encode_utf8(a)) == percent_encode(encode_utf8(b)),
    ensures
        a == b,
{
    lemma_percent_decode_encode(encode_utf8(a));
    lemma_percent_decode_encode(encode_utf8(b));
    assert(decode_utf8(encode_utf8(a)) == a);
    assert(decode_utf8(encode_utf8(b)) == b);
}

} // verus!
