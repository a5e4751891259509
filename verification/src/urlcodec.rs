//! Percent-encoding and -decoding of URL components, by the `urlencoding`
//! crate, with what it computes stated over UTF-8 bytes.

use vstd::prelude::*;
use vstd::utf8::*;

verus! {

/// The value of an ASCII hexadecimal digit, either case.
pub open spec fn hex_value(b: u8) -> Option<u8> {
    if 0x30 <= b && b <= 0x39 {
        Some((b - 0x30) as u8)
    } else if 0x41 <= b && b <= 0x46 {
        Some((b - 0x41 + 10) as u8)
    } else if 0x61 <= b && b <= 0x66 {
        Some((b - 0x61 + 10) as u8)
    } else {
        None
    }
}

/// Replaces each `%` followed by two hex digits with the byte they spell;
/// every other byte, a `%` that does not begin such a triple included, is kept.
/// `+` is kept as it is.
pub open spec fn percent_decode(b: Seq<u8>) -> Seq<u8>
    decreases b.len(),
{
    if b.len() == 0 {
        Seq::empty()
    } else if b[0] == 0x25 && b.len() >= 3 && hex_value(b[1]) is Some && hex_value(b[2]) is Some {
        seq![(hex_value(b[1]).unwrap() * 16 + hex_value(b[2]).unwrap()) as u8] + percent_decode(b.skip(3))
    } else {
        seq![b[0]] + percent_decode(b.skip(1))
    }
}

/// The text that `s` percent-decodes to, or `None` where the decoded bytes
/// are not UTF-8.
pub open spec fn url_decoded(s: Seq<char>) -> Option<Seq<char>> {
    let bytes = percent_decode(encode_utf8(s));
    if valid_utf8(bytes) {
        Some(decode_utf8(bytes))
    } else {
        None
    }
}

/// Bytes that percent-encoding leaves as they are.
pub open spec fn is_unreserved(b: u8) -> bool {
    (0x30 <= b && b <= 0x39) || (0x41 <= b && b <= 0x5a) || (0x61 <= b && b <= 0x7a)
        || b == 0x2d || b == 0x2e || b == 0x5f || b == 0x7e
}

/// The upper-case hexadecimal digit for `d < 16`.
pub open spec fn hex_digit(d: u8) -> char {
    if d < 10 {
        (0x30 + d) as char
    } else {
        (0x41 + d - 10) as char
    }
}

/// Every byte but ASCII letters, digits and `-._~` written as `%XX`.
pub open spec fn percent_encode(b: Seq<u8>) -> Seq<char>
    decreases b.len(),
{
    if b.len() == 0 {
        Seq::empty()
    } else {
        (if is_unreserved(b[0]) {
            seq![b[0] as char]
        } else {
            seq!['%', hex_digit(b[0] / 16), hex_digit(b[0] % 16)]
        }) + percent_encode(b.skip(1))
    }
}

/// `urlencoding::decode`: percent-decodes the UTF-8 bytes of `s` and reads the
/// result as UTF-8 (`String::from_utf8`), failing where it is not UTF-8.
#[verifier::external_body]
fn url_decode(s: &str) -> (r: Option<String>)
    ensures
        match r {
            Some(d) => url_decoded(s@) == Some(d@),
            None => url_decoded(s@) is None,
        },
{
    urlencoding::decode(s).ok().map(|c| c.into_owned())
}

/// `urlencoding::encode`: writes every byte of the UTF-8 encoding of `s` but
/// ASCII letters, digits and `-._~` as `%XX` with upper-case hex digits.
#[verifier::external_body]
pub(crate) fn url_encode(s: &str) -> (r: String)
    ensures
        r@ == percent_encode(encode_utf8(s@)),
{
    urlencoding::encode(s).into_owned()
}

/// The decoded text of `s`, or `s` itself where it does not decode.
pub open spec fn decode_or_keep(s: Seq<char>) -> Seq<char> {
    match url_decoded(s) {
        Some(d) => d,
        None => s,
    }
}

/// Percent-decodes `s`, keeping it unchanged where the result is not UTF-8.
pub fn decode_or_keep_str(s: &str) -> (r: String)
    ensures
        r@ == decode_or_keep(s@),
{
    match url_decode(s) {
        Some(d) => d,
        None => s.to_owned(),
    }
}

/// Bytes without `%` percent-decode to themselves.
pub proof fn lemma_percent_decode_plain(b: Seq<u8>)
    requires
        !b.contains(0x25u8),
    ensures
        percent_decode(b) == b,
    decreases b.len(),
{
    if b.len() > 0 {
        assert(!b.skip(1).contains(0x25u8)) by {
            if b.skip(1).contains(0x25u8) {
                let k = choose|k: int| 0 <= k < b.skip(1).len() && b.skip(1)[k] == 0x25u8;
                assert(b[k + 1] == 0x25u8);
            }
        }
        lemma_percent_decode_plain(b.skip(1));
        assert(b =~= seq![b[0]] + b.skip(1));
    }
}

/// The UTF-8 encoding of text without `%` holds no `%` byte.
pub proof fn lemma_encode_without_percent(s: Seq<char>)
    requires
        !s.contains('%'),
    ensures
        !encode_utf8(s).contains(0x25u8),
    decreases s.len(),
{
    if s.len() > 0 {
        assert(!s.drop_first().contains('%')) by {
            if s.drop_first().contains('%') {
                let k = choose|k: int| 0 <= k < s.drop_first().len() && s.drop_first()[k] == '%';
                assert(s[k + 1] == '%');
            }
        }
        lemma_encode_without_percent(s.drop_first());
        let c = s[0] as u32;
        assert(c != 0x25) by {
            char_u32_cast(s[0], c);
            char_u32_cast('%', 0x25u32);
            assert(s[0] != '%');
        }
        let e = encode_scalar(c);
        assert(!e.contains(0x25u8)) by {
            assert(has_width_1_encoding(c) ==> leading_byte_width_1(c) != 0x25) by (bit_vector)
                requires c != 0x25;
            assert(leading_byte_width_2(c) != 0x25) by (bit_vector);
            assert(leading_byte_width_3(c) != 0x25) by (bit_vector);
            assert(leading_byte_width_4(c) != 0x25) by (bit_vector);
            assert(last_continuation_byte(c) != 0x25) by (bit_vector);
            assert(second_last_continuation_byte(c) != 0x25) by (bit_vector);
            assert(third_last_continuation_byte(c) != 0x25) by (bit_vector);
        }
        let rest = encode_utf8(s.drop_first());
        assert(encode_utf8(s) == e + rest);
        if (e + rest).contains(0x25u8) {
            let k = choose|k: int| 0 <= k < (e + rest).len() && (e + rest)[k] == 0x25u8;
            if k < e.len() {
                assert(e[k] == 0x25u8);
            } else {
                assert(rest[k - e.len()] == 0x25u8);
            }
        }
    }
}

/// Text without `%` decodes to itself.
pub proof fn lemma_decode_plain(s: Seq<char>)
    requires
        !s.contains('%'),
    ensures
        url_decoded(s) == Some(s),
        decode_or_keep(s) == s,
{
    broadcast use encode_utf8_valid_utf8, encode_utf8_decode_utf8;

    lemma_encode_without_percent(s);
    lemma_percent_decode_plain(encode_utf8(s));
}

/// The bytes of a UTF-8 encoding follow those of its parts.
pub proof fn lemma_encode_utf8_concat(a: Seq<char>, b: Seq<char>)
    ensures
        encode_utf8(a + b) == encode_utf8(a) + encode_utf8(b),
    decreases a.len(),
{
    if a.len() == 0 {
        assert(a + b =~= b);
        assert(encode_utf8(a) + encode_utf8(b) =~= encode_utf8(b));
    } else {
        lemma_encode_utf8_concat(a.drop_first(), b);
        assert((a + b).drop_first() =~= a.drop_first() + b);
        assert((a + b)[0] == a[0]);
        assert(encode_utf8(a + b) =~= encode_utf8(a) + encode_utf8(b));
    }
}

/// What percent-encoding writes for one byte.
pub open spec fn encoded_byte(b: u8) -> Seq<char> {
    if is_unreserved(b) {
        seq![b as char]
    } else {
        seq!['%', hex_digit(b / 16), hex_digit(b % 16)]
    }
}

/// The bytes of what percent-encoding writes for one byte.
pub open spec fn encoded_byte_bytes(b: u8) -> Seq<u8> {
    if is_unreserved(b) {
        seq![b]
    } else {
        seq![0x25u8, (if b / 16 < 10 { 0x30 + b / 16 } else { 0x41 + b / 16 - 10 }) as u8,
            (if b % 16 < 10 { 0x30 + b % 16 } else { 0x41 + b % 16 - 10 }) as u8]
    }
}

proof fn lemma_encode_ascii_char(c: char)
    requires
        (c as u32) < 128,
    ensures
        encode_utf8(seq![c]) == seq![c as u8],
{
    let s = seq![c];
    assert(is_ascii_chars(s)) by {
        assert forall|i| 0 <= i < s.len() implies '\0' <= #[trigger] s[i] <= '\u{7f}' by {
            assert(s[i] == c);
        }
    }
    is_ascii_chars_encode_utf8(s);
    assert(encode_utf8(s) =~= seq![c as u8]);
}

proof fn lemma_encoded_byte_utf8(b: u8)
    ensures
        encode_utf8(encoded_byte(b)) == encoded_byte_bytes(b),
{
    if is_unreserved(b) {
        let c = b as char;
        assert((c as u32) < 128);
        lemma_encode_ascii_char(c);
        assert(c as u8 == b);
    } else {
        let hi = b / 16;
        let lo = b % 16;
        let c1 = hex_digit(hi);
        let c2 = hex_digit(lo);
        assert((c1 as u32) < 128 && (c2 as u32) < 128);
        lemma_encode_ascii_char('%');
        lemma_encode_ascii_char(c1);
        lemma_encode_ascii_char(c2);
        assert(seq!['%', c1, c2] =~= seq!['%'] + seq![c1] + seq![c2]);
        lemma_encode_utf8_concat(seq!['%'] + seq![c1], seq![c2]);
        lemma_encode_utf8_concat(seq!['%'], seq![c1]);
        assert(encoded_byte_bytes(b) =~= seq![0x25u8] + seq![c1 as u8] + seq![c2 as u8]);
    }
}

proof fn lemma_decode_encoded_byte(b: u8, rest: Seq<u8>)
    ensures
        percent_decode(encoded_byte_bytes(b) + rest) == seq![b] + percent_decode(rest),
{
    let e = encoded_byte_bytes(b) + rest;
    if is_unreserved(b) {
        assert(e[0] == b);
        assert(b != 0x25);
        assert(e.skip(1) =~= rest);
    } else {
        let hi = b / 16;
        let lo = b % 16;
        assert(e[0] == 0x25u8);
        assert(e.skip(3) =~= rest);
        assert(hex_value(e[1]) == Some(hi));
        assert(hex_value(e[2]) == Some(lo));
        assert((hi * 16 + lo) as u8 == b);
    }
}

proof fn lemma_decode_encoded_bytes(b: Seq<u8>)
    ensures
        percent_decode(encode_utf8(percent_encode(b))) == b,
    decreases b.len(),
{
    if b.len() == 0 {
        assert(percent_encode(b) =~= Seq::<char>::empty());
        assert(encode_utf8(Seq::<char>::empty()) =~= Seq::<u8>::empty());
    } else {
        let rest = b.skip(1);
        lemma_decode_encoded_bytes(rest);
        assert(percent_encode(b) == encoded_byte(b[0]) + percent_encode(rest));
        lemma_encode_utf8_concat(encoded_byte(b[0]), percent_encode(rest));
        lemma_encoded_byte_utf8(b[0]);
        lemma_decode_encoded_byte(b[0], encode_utf8(percent_encode(rest)));
        assert(b =~= seq![b[0]] + rest);
    }
}

/// Percent-decoding undoes percent-encoding: the encoded text decodes to the
/// text it was made from.
pub proof fn law_decode_undoes_encode(s: Seq<char>)
    ensures
        url_decoded(percent_encode(encode_utf8(s))) == Some(s),
        decode_or_keep(percent_encode(encode_utf8(s))) == s,
{
    broadcast use encode_utf8_valid_utf8, encode_utf8_decode_utf8;

    lemma_decode_encoded_bytes(encode_utf8(s));
}

/// Percent-encoded text holds none of `&`, `=`, `?`, which separate the
/// parts of a URL.
pub proof fn law_encoded_has_no_separator(b: Seq<u8>)
    ensures
        !percent_encode(b).contains('&'),
        !percent_encode(b).contains('='),
        !percent_encode(b).contains('?'),
    decreases b.len(),
{
    if b.len() > 0 {
        let rest = b.skip(1);
        law_encoded_has_no_separator(rest);
        let h = encoded_byte(b[0]);
        let t = percent_encode(rest);
        assert(percent_encode(b) == h + t);
        assert forall|i: int| 0 <= i < h.len() implies h[i] != '&' && h[i] != '=' && h[i] != '?' by {
            if is_unreserved(b[0]) {
                assert(h[i] == b[0] as char);
            }
        }
        assert forall|c: char| c == '&' || c == '=' || c == '?' implies !(h + t).contains(c) by {
            if (h + t).contains(c) {
                let k = choose|k: int| 0 <= k < (h + t).len() && (h + t)[k] == c;
                if k < h.len() {
                    assert(h[k] == c);
                } else {
                    assert(t[k - h.len()] == c);
                }
            }
        }
    }
}

} // verus!
