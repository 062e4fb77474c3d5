use vstd::prelude::*;
use vstd::utf8::{
    decode_utf8, encode_utf8, encode_utf8_decode_utf8, is_ascii_chars, is_ascii_chars_encode_utf8,
};

verus! {

/// Bytes that percent-encoding leaves as they are: ASCII letters and digits,
/// and `-`, `.`, `_`, `~`.
pub open spec fn is_unreserved(b: u8) -> bool {
    ||| 48 <= b <= 57
    ||| 65 <= b <= 90
    ||| 97 <= b <= 122
    ||| b == 45
    ||| b == 46
    ||| b == 95
    ||| b == 126
}

/// Characters that percent-encoding leaves as they are.
pub open spec fn is_unreserved_char(c: char) -> bool {
    ||| '0' <= c <= '9'
    ||| 'A' <= c <= 'Z'
    ||| 'a' <= c <= 'z'
    ||| c == '-'
    ||| c == '.'
    ||| c == '_'
    ||| c == '~'
}

/// A character that can stand in a query value without changing the
/// structure of the URL: an unreserved character, or the `%` of an escape.
pub open spec fn is_url_safe_char(c: char) -> bool {
    is_unreserved_char(c) || c == '%'
}

/// The upper-case hexadecimal digit for `d` (for `0 <= d < 16`).
pub open spec fn hex_digit(d: int) -> char {
    if d < 10 {
        (48 + d) as char
    } else {
        (55 + d) as char
    }
}

/// One byte, percent-encoded.
pub open spec fn percent_encode_byte(b: u8) -> Seq<char> {
    if is_unreserved(b) {
        seq![b as char]
    } else {
        seq!['%', hex_digit(b as int / 16), hex_digit(b as int % 16)]
    }
}

/// A sequence of bytes, percent-encoded byte by byte.
pub open spec fn percent_encode(bytes: Seq<u8>) -> Seq<char>
    decreases bytes.len(),
{
    if bytes.len() == 0 {
        seq![]
    } else {
        percent_encode(bytes.drop_last()) + percent_encode_byte(bytes.last())
    }
}

/// A string, percent-encoded over its UTF-8 bytes.
pub open spec fn url_encoded(s: Seq<char>) -> Seq<char> {
    percent_encode(encode_utf8(s))
}

/// Percent-encodes a string for use in a URL query.
///
/// Calls `urlencoding::encode`, which percent-encodes every byte of the
/// UTF-8 form of `data` except ASCII letters, digits and `-`, `_`, `.`, `~`,
/// writing each escape as `%` and two upper-case hexadecimal digits. The
/// contract states exactly that.
#[verifier::external_body]
pub(crate) fn url_encode(data: &str) -> (res: String)
    ensures
        res@ == url_encoded(data@),
{
    urlencoding::encode(data)
}

proof fn lemma_byte_safe(b: u8)
    ensures
        forall|i: int|
            0 <= i < percent_encode_byte(b).len() ==> is_url_safe_char(
                #[trigger] percent_encode_byte(b)[i],
            ),
{
    let d1 = b as int / 16;
    let d2 = b as int % 16;
    assert(0 <= d1 < 16 && 0 <= d2 < 16);
}

/// Every character of a percent-encoded byte sequence is URL-safe.
pub proof fn lemma_percent_encode_safe(bytes: Seq<u8>)
    ensures
        forall|i: int|
            0 <= i < percent_encode(bytes).len() ==> is_url_safe_char(
                #[trigger] percent_encode(bytes)[i],
            ),
    decreases bytes.len(),
{
    if bytes.len() > 0 {
        lemma_percent_encode_safe(bytes.drop_last());
        lemma_byte_safe(bytes.last());
        let pre = percent_encode(bytes.drop_last());
        let last = percent_encode_byte(bytes.last());
        assert forall|i: int| 0 <= i < percent_encode(bytes).len() implies is_url_safe_char(
            #[trigger] percent_encode(bytes)[i],
        ) by {
            if i < pre.len() {
                assert(percent_encode(bytes)[i] == pre[i]);
            } else {
                assert(percent_encode(bytes)[i] == last[i - pre.len()]);
            }
        }
    }
}

/// The percent-encoding of any string holds URL-safe characters only: no
/// `&`, `=`, `#`, `?`, `/` or space can come out of it.
pub proof fn lemma_url_encoded_safe(s: Seq<char>)
    ensures
        forall|i: int|
            0 <= i < url_encoded(s).len() ==> is_url_safe_char(#[trigger] url_encoded(s)[i]),
{
    lemma_percent_encode_safe(encode_utf8(s));
}

/// Bytes that are all unreserved are percent-encoded to themselves.
proof fn lemma_percent_encode_unreserved(bytes: Seq<u8>)
    requires
        forall|i: int| 0 <= i < bytes.len() ==> is_unreserved(#[trigger] bytes[i]),
    ensures
        percent_encode(bytes) =~= bytes.map_values(|b: u8| b as char),
    decreases bytes.len(),
{
    if bytes.len() > 0 {
        lemma_percent_encode_unreserved(bytes.drop_last());
        assert(is_unreserved(bytes[bytes.len() - 1]));
    }
}

/// A string of unreserved characters is percent-encoded to itself.
pub proof fn lemma_url_encoded_unreserved(s: Seq<char>)
    requires
        forall|i: int| 0 <= i < s.len() ==> is_unreserved_char(#[trigger] s[i]),
    ensures
        url_encoded(s) == s,
{
    assert(is_ascii_chars(s));
    is_ascii_chars_encode_utf8(s);
    let bytes = encode_utf8(s);
    assert forall|i: int| 0 <= i < bytes.len() implies is_unreserved(#[trigger] bytes[i]) by {
        assert(s[i] as u8 == bytes[i]);
        assert(is_unreserved_char(s[i]));
    }
    lemma_percent_encode_unreserved(bytes);
    assert forall|i: int| 0 <= i < s.len() implies #[trigger] url_encoded(s)[i] == s[i] by {
        assert(s[i] as u8 == bytes[i]);
    }
    assert(url_encoded(s) =~= s);
}

/// The value of a hexadecimal digit character.
pub open spec fn hex_value(c: char) -> int {
    if '0' <= c <= '9' {
        c as int - 48
    } else {
        c as int - 55
    }
}

/// Percent-decoding: each `%` followed by two hexadecimal digits stands for
/// the byte they write, any other character for its own code.
pub open spec fn percent_decode(s: Seq<char>) -> Seq<u8>
    decreases s.len(),
{
    if s.len() == 0 {
        seq![]
    } else if s[0] == '%' && s.len() >= 3 {
        seq![(hex_value(s[1]) * 16 + hex_value(s[2])) as u8] + percent_decode(s.skip(3))
    } else {
        seq![s[0] as u8] + percent_decode(s.skip(1))
    }
}

proof fn lemma_percent_encode_concat(a: Seq<u8>, b: Seq<u8>)
    ensures
        percent_encode(a + b) == percent_encode(a) + percent_encode(b),
    decreases b.len(),
{
    if b.len() == 0 {
        assert(a + b =~= a);
        assert(percent_encode(a) + percent_encode(b) =~= percent_encode(a));
    } else {
        lemma_percent_encode_concat(a, b.drop_last());
        assert((a + b).drop_last() =~= a + b.drop_last());
        assert((a + b).last() == b.last());
        assert(percent_encode(a + b) =~= percent_encode(a) + percent_encode(b));
    }
}

proof fn lemma_hex_digit_value(d: int)
    requires
        0 <= d < 16,
    ensures
        hex_value(hex_digit(d)) == d,
        hex_digit(d) != '%',
{
}

proof fn lemma_decode_byte(b: u8, rest: Seq<char>)
    ensures
        percent_decode(percent_encode_byte(b) + rest) == seq![b] + percent_decode(rest),
{
    let e = percent_encode_byte(b) + rest;
    if is_unreserved(b) {
        assert((b as char) as u8 == b);
        assert(e[0] == b as char);
        assert(e.skip(1) =~= rest);
    } else {
        let d1 = b as int / 16;
        let d2 = b as int % 16;
        lemma_hex_digit_value(d1);
        lemma_hex_digit_value(d2);
        assert(e.skip(3) =~= rest);
        assert(e[1] == hex_digit(d1));
        assert(e[2] == hex_digit(d2));
        assert(d1 * 16 + d2 == b as int);
    }
}

/// Percent-decoding undoes percent-encoding.
pub proof fn lemma_percent_decode_encode(bytes: Seq<u8>)
    ensures
        percent_decode(percent_encode(bytes)) == bytes,
    decreases bytes.len(),
{
    if bytes.len() > 0 {
        let first = seq![bytes[0]];
        let tail = bytes.skip(1);
        assert(bytes =~= first + tail);
        lemma_percent_encode_concat(first, tail);
        assert(first.drop_last() =~= Seq::<u8>::empty());
        assert(percent_encode(Seq::<u8>::empty()) =~= Seq::<char>::empty());
        assert(first.last() == bytes[0]);
        assert(percent_encode(first) =~= percent_encode_byte(bytes[0]));
        lemma_decode_byte(bytes[0], percent_encode(tail));
        lemma_percent_decode_encode(tail);
        assert(seq![bytes[0]] + tail =~= bytes);
    }
}

/// Percent-encoding loses nothing: the string can be read back from its
/// encoding, so two different strings never have the same encoding.
pub proof fn lemma_url_encoded_injective(a: Seq<char>, b: Seq<char>)
    ensures
        decode_utf8(percent_decode(url_encoded(a))) == a,
        url_encoded(a) == url_encoded(b) ==> a == b,
{
    lemma_percent_decode_encode(encode_utf8(a));
    lemma_percent_decode_encode(encode_utf8(b));
    encode_utf8_decode_utf8(a);
    encode_utf8_decode_utf8(b);
}

} // verus!
