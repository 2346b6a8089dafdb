//! Reading the path parameters of a request: percent-decoding, then UTF-8.
use vstd::prelude::*;
use vstd::utf8::{
    valid_utf8, decode_utf8, encode_utf8, encode_scalar, has_width_1_encoding, has_width_2_encoding,
    has_width_3_encoding, char_is_scalar, char_u32_cast, encode_utf8_valid_utf8, encode_utf8_decode_utf8,
};
use vstd::string::StringExecFns;

verus! {

/// A hexadecimal digit, in either case.
pub open spec fn is_hex_digit(b: u8) -> bool {
    (48 <= b <= 57) || (65 <= b <= 70) || (97 <= b <= 102)
}

/// The value of a hexadecimal digit.
pub open spec fn hex_value(b: u8) -> u8 {
    if b <= 57 {
        (b - 48) as u8
    } else if b <= 70 {
        (b - 55) as u8
    } else {
        (b - 87) as u8
    }
}

/// Percent-decoding: each `%` followed by two hexadecimal digits stands for
/// the byte they spell; every other byte, a lone `%` among them, stands for itself.
pub open spec fn percent_decoded(s: Seq<u8>) -> Seq<u8>
    decreases s.len(),
{
    if s.len() == 0 {
        Seq::empty()
    } else if s[0] == 37 && s.len() >= 3 && is_hex_digit(s[1]) && is_hex_digit(s[2]) {
        seq![(hex_value(s[1]) * 16 + hex_value(s[2])) as u8] + percent_decoded(s.skip(3))
    } else {
        seq![s[0]] + percent_decoded(s.drop_first())
    }
}

/// `percent_encoding::percent_decode` and then `PercentDecode::decode_utf8`:
/// the bytes of `input` percent-decoded as `percent_decoded` states (the
/// crate's `after_percent_sign` takes two hex digits, else the `%` stays),
/// then read as UTF-8, which fails exactly on bytes that are not valid UTF-8
/// (`str::from_utf8` / `String::from_utf8`).
#[verifier::external_body]
fn percent_decode_utf8(input: &[u8]) -> (r: Option<String>)
    ensures
        r is Some <==> valid_utf8(percent_decoded(input@)),
        r matches Some(s) ==> s@ == decode_utf8(percent_decoded(input@)),
{
    percent_encoding::percent_decode(input).decode_utf8().ok().map(|s| s.into_owned())
}

/// The text of the 400 answer to a path parameter that does not decode.
pub open spec fn undecodable_message(raw: Seq<char>) -> Seq<char> {
    "Couldn't percent-decode path parameter as UTF-8: "@ + raw
}

/// What a raw path parameter decodes to: its bytes percent-decoded and read
/// as UTF-8, or the text of the 400 answer.
pub open spec fn decoded_param(raw: Seq<char>) -> Result<Seq<char>, Seq<char>> {
    let bytes = percent_decoded(encode_utf8(raw));
    if valid_utf8(bytes) {
        Ok(decode_utf8(bytes))
    } else {
        Err(undecodable_message(raw))
    }
}

/// Decodes the raw path parameters in order; the first that does not decode gives the answer.
pub open spec fn decoded_params(raws: Seq<Seq<char>>) -> Result<Seq<Seq<char>>, Seq<char>>
    decreases raws.len(),
{
    if raws.len() == 0 {
        Ok(Seq::empty())
    } else {
        match decoded_param(raws[0]) {
            Err(m) => Err(m),
            Ok(v) => match decoded_params(raws.drop_first()) {
                Err(m) => Err(m),
                Ok(vs) => Ok(seq![v] + vs),
            },
        }
    }
}

/// Decoding keeps the parameters apart: where all decode, there is one value
/// for each raw parameter, in order, and it is what that parameter decodes to.
pub proof fn law_decoded_params_pointwise(raws: Seq<Seq<char>>)
    ensures
        decoded_params(raws) matches Ok(vs) ==> {
            &&& vs.len() == raws.len()
            &&& forall|i: int| 0 <= i < raws.len() ==> decoded_param(raws[i]) == Ok::<Seq<char>, Seq<char>>(#[trigger] vs[i])
        },
        decoded_params(raws) is Err <==> exists|i: int| 0 <= i < raws.len() && (#[trigger] decoded_param(raws[i])) is Err,
    decreases raws.len(),
{
    if raws.len() > 0 {
        let rest = raws.drop_first();
        law_decoded_params_pointwise(rest);
        if let Ok(vs) = decoded_params(raws) {
            assert forall|i: int| 0 <= i < raws.len() implies decoded_param(raws[i]) == Ok::<Seq<char>, Seq<char>>(#[trigger] vs[i]) by {
                if i > 0 {
                    assert(raws[i] == rest[i - 1]);
                    assert(vs[i] == vs.drop_first()[i - 1]);
                    assert(vs.drop_first() == decoded_params(rest)->Ok_0);
                }
            }
        }
        if exists|i: int| 0 <= i < raws.len() && (#[trigger] decoded_param(raws[i])) is Err {
            let i = choose|i: int| 0 <= i < raws.len() && (#[trigger] decoded_param(raws[i])) is Err;
            if i > 0 {
                assert(raws[i] == rest[i - 1]);
            }
        }
        if decoded_params(raws) is Err && decoded_param(raws[0]) is Ok {
            let j = choose|j: int| 0 <= j < rest.len() && (#[trigger] decoded_param(rest[j])) is Err;
            assert(rest[j] == raws[j + 1]);
        }
    }
}

/// Decodes one raw path parameter.
pub fn decode_path_param(raw: &str) -> (r: Result<String, String>)
    ensures
        match r {
            Ok(s) => decoded_param(raw@) == Ok::<Seq<char>, Seq<char>>(s@),
            Err(m) => decoded_param(raw@) == Err::<Seq<char>, Seq<char>>(m@),
        },
{
    let bytes = raw.as_bytes();
    match percent_decode_utf8(bytes) {
        Some(s) => Ok(s),
        None => {
            let mut msg = String::from_str("Couldn't percent-decode path parameter as UTF-8: ");
            msg.append(raw);
            Err(msg)
        },
    }
}

proof fn lemma_high_bit_not_percent(x: u8)
    by (bit_vector)
    ensures
        (0x80u8 | x) != 37u8,
        (0xC0u8 | x) != 37u8,
        (0xE0u8 | x) != 37u8,
        (0xF0u8 | x) != 37u8,
{
}

proof fn lemma_ascii_byte(c: u32)
    by (bit_vector)
    requires
        c <= 0x7F,
    ensures
        ((c & 0x7F) as u8) as u32 == c,
{
}

/// No byte of the UTF-8 encoding of a text without `%` is a `%`.
proof fn lemma_encoding_has_no_percent(chars: Seq<char>)
    requires
        forall|i: int| 0 <= i < chars.len() ==> chars[i] != '%',
    ensures
        forall|j: int| 0 <= j < encode_utf8(chars).len() ==> encode_utf8(chars)[j] != 37u8,
    decreases chars.len(),
{
    if chars.len() > 0 {
        let rest = chars.drop_first();
        lemma_encoding_has_no_percent(rest);
        let c = chars[0] as u32;
        let e = encode_scalar(c);
        char_is_scalar(chars[0]);
        if has_width_1_encoding(c) {
            lemma_ascii_byte(c);
            assert(c != 37) by {
                if c == 37 {
                    char_u32_cast(chars[0], c);
                    assert(chars[0] == (37u32 as char));
                    assert((37u32 as char) == '%');
                }
            }
            assert(e[0] != 37u8);
        } else if has_width_2_encoding(c) {
            lemma_high_bit_not_percent(((c >> 6) & 0x1F) as u8);
            lemma_high_bit_not_percent((c & 0x3F) as u8);
        } else if has_width_3_encoding(c) {
            lemma_high_bit_not_percent(((c >> 12) & 0x0F) as u8);
            lemma_high_bit_not_percent(((c >> 6) & 0x3F) as u8);
            lemma_high_bit_not_percent((c & 0x3F) as u8);
        } else {
            lemma_high_bit_not_percent(((c >> 18) & 0x7) as u8);
            lemma_high_bit_not_percent(((c >> 12) & 0x3F) as u8);
            lemma_high_bit_not_percent(((c >> 6) & 0x3F) as u8);
            lemma_high_bit_not_percent((c & 0x3F) as u8);
        }
        assert forall|j: int| 0 <= j < e.len() implies e[j] != 37u8 by {}
        let all = encode_utf8(chars);
        assert(all == e + encode_utf8(rest));
        assert forall|j: int| 0 <= j < all.len() implies all[j] != 37u8 by {
            if j < e.len() {
                assert(all[j] == e[j]);
            } else {
                assert(all[j] == encode_utf8(rest)[j - e.len()]);
            }
        }
    }
}

/// Percent-decoding leaves bytes without `%` as they are.
pub proof fn law_percent_decoding_without_percent(s: Seq<u8>)
    requires
        forall|i: int| 0 <= i < s.len() ==> s[i] != 37u8,
    ensures
        percent_decoded(s) == s,
    decreases s.len(),
{
    if s.len() > 0 {
        let t = s.drop_first();
        assert forall|i: int| 0 <= i < t.len() implies t[i] != 37u8 by {
            assert(t[i] == s[i + 1]);
        }
        law_percent_decoding_without_percent(t);
        assert(seq![s[0]] + t =~= s);
    }
}

/// A path parameter without `%` decodes to itself.
pub proof fn law_plain_param_decodes_to_itself(raw: Seq<char>)
    requires
        forall|i: int| 0 <= i < raw.len() ==> raw[i] != '%',
    ensures
        decoded_param(raw) == Ok::<Seq<char>, Seq<char>>(raw),
{
    lemma_encoding_has_no_percent(raw);
    law_percent_decoding_without_percent(encode_utf8(raw));
    encode_utf8_valid_utf8(raw);
    encode_utf8_decode_utf8(raw);
}

} // verus!
