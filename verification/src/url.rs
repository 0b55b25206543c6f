//! Percent-encoding of text, as the OAuth refresh request needs it.
use vstd::prelude::*;
use vstd::utf8::{encode_utf8, is_ascii_chars, is_ascii_chars_encode_utf8};

verus! {

/// Bytes left as they are: ASCII letters and digits, `-`, `.`, `_` and `~`.
pub open spec fn is_unreserved_byte(b: u8) -> bool {
    (48 <= b <= 57) || (65 <= b <= 90) || (97 <= b <= 122) || b == 45 || b == 46 || b == 95
        || b == 126
}

/// Characters left as they are.
pub open spec fn is_unreserved_char(c: char) -> bool {
    (c as u32) < 128 && is_unreserved_byte(c as u8)
}

/// The upper-case hexadecimal digit of `d` (below 16).
pub open spec fn hex_upper(d: u8) -> char {
    if d < 10 {
        (48 + d) as char
    } else {
        (55 + d) as char
    }
}

/// One byte, encoded: itself if unreserved, else `%` and two upper-case hex digits.
pub open spec fn percent_encode_byte(b: u8) -> Seq<char> {
    if is_unreserved_byte(b) {
        seq![b as char]
    } else {
        seq!['%', hex_upper(b / 16), hex_upper(b % 16)]
    }
}

/// Bytes, encoded one after another.
pub open spec fn percent_encode_bytes(bytes: Seq<u8>) -> Seq<char>
    decreases bytes.len(),
{
    if bytes.len() == 0 {
        Seq::empty()
    } else {
        percent_encode_byte(bytes[0]) + percent_encode_bytes(bytes.drop_first())
    }
}

/// Text, encoded: the bytes of its UTF-8 form, encoded.
pub open spec fn percent_encoded(s: Seq<char>) -> Seq<char> {
    percent_encode_bytes(encode_utf8(s))
}

/// Calls `urlencoding::encode`. Its contract claims what that function's source
/// does: each byte of the UTF-8 form of `data` in turn, an unreserved byte kept
/// as its character, any other written as `%` and two upper-case hex digits.
#[verifier::external_body]
pub(crate) fn url_encode(data: &str) -> (r: String)
    ensures
        r@ == percent_encoded(data@),
{
    urlencoding::encode(data).into_owned()
}

proof fn lemma_unreserved_bytes_unchanged(bytes: Seq<u8>)
    requires
        forall|i: int| 0 <= i < bytes.len() ==> is_unreserved_byte(#[trigger] bytes[i]),
    ensures
        percent_encode_bytes(bytes) == bytes.map_values(|b: u8| b as char),
    decreases bytes.len(),
{
    if bytes.len() > 0 {
        let rest = bytes.drop_first();
        assert forall|i: int| 0 <= i < rest.len() implies is_unreserved_byte(#[trigger] rest[i]) by {
            assert(rest[i] == bytes[i + 1]);
        }
        lemma_unreserved_bytes_unchanged(rest);
        assert(bytes.map_values(|b: u8| b as char) =~= seq![bytes[0] as char] + rest.map_values(
            |b: u8| b as char,
        ));
    }
}

proof fn lemma_ascii_char_bound(c: char)
    requires
        (c as u32) < 128,
    ensures
        '\0' <= c <= '\u{7f}',
{
}

/// Text made only of unreserved characters is left unchanged.
pub proof fn lemma_unreserved_text_unchanged(s: Seq<char>)
    requires
        forall|i: int| 0 <= i < s.len() ==> is_unreserved_char(#[trigger] s[i]),
    ensures
        percent_encoded(s) == s,
{
    assert forall|i: int| 0 <= i < s.len() implies '\0' <= #[trigger] s[i] <= '\u{7f}' by {
        let c = s[i];
        assert(is_unreserved_char(c));
        lemma_ascii_char_bound(c);
    }
    assert(is_ascii_chars(s));
    is_ascii_chars_encode_utf8(s);
    let bytes = encode_utf8(s);
    assert forall|i: int| 0 <= i < bytes.len() implies is_unreserved_byte(#[trigger] bytes[i]) by {
        assert(s[i] as u8 == bytes[i]);
        assert(is_unreserved_char(s[i]));
    }
    lemma_unreserved_bytes_unchanged(bytes);
    assert forall|i: int| 0 <= i < s.len() implies bytes.map_values(|b: u8| b as char)[i] == s[i] by {
        assert(s[i] as u8 == bytes[i]);
        assert(is_unreserved_char(s[i]));
        let x = s[i] as u32;
        assert((x as u8) as u32 == x) by (bit_vector)
            requires
                x < 128,
        ;
    }
    assert(bytes.map_values(|b: u8| b as char) =~= s);
}

/// Encoded text holds only unreserved characters and `%`.
pub proof fn lemma_encoded_bytes_plain(bytes: Seq<u8>)
    ensures
        forall|i: int|
            0 <= i < percent_encode_bytes(bytes).len() ==> is_unreserved_char(
                #[trigger] percent_encode_bytes(bytes)[i],
            ) || percent_encode_bytes(bytes)[i] == '%',
    decreases bytes.len(),
{
    if bytes.len() > 0 {
        lemma_encoded_bytes_plain(bytes.drop_first());
        let b = bytes[0];
        let head = percent_encode_byte(b);
        if !is_unreserved_byte(b) {
            let hi = b / 16;
            let lo = b % 16;
            assert(hi < 16 && lo < 16);
            assert(is_unreserved_char(hex_upper(hi)));
            assert(is_unreserved_char(hex_upper(lo)));
        } else {
            assert(is_unreserved_char(b as char));
        }
        let all = percent_encode_bytes(bytes);
        assert forall|i: int| 0 <= i < all.len() implies is_unreserved_char(#[trigger] all[i])
            || all[i] == '%' by {
            if i >= head.len() {
                assert(all[i] == percent_encode_bytes(bytes.drop_first())[i - head.len()]);
            }
        }
    }
}

/// The encoding of any text holds only unreserved characters and `%`.
pub proof fn lemma_encoded_text_plain(s: Seq<char>)
    ensures
        forall|i: int|
            0 <= i < percent_encoded(s).len() ==> is_unreserved_char(#[trigger] percent_encoded(s)[i])
                || percent_encoded(s)[i] == '%',
{
    lemma_encoded_bytes_plain(encode_utf8(s));
}

} // verus!
