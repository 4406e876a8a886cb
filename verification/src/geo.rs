//! Geolocation extraction: turning the raw bytes of the edge network's
//! viewer-country header into the response's `geo` field.
//!
//! The HTTP layer exposes a header value as text only when every byte is
//! visible ASCII (or horizontal tab). The same rule is applied here, on
//! the raw bytes, so that the substitution policy for undecodable values
//! is part of the verified logic: a header that decodes is taken
//! verbatim, one that does not becomes the placeholder `"Unknown"`, and
//! an absent header yields no `geo` field at all.

use vstd::prelude::*;

use crate::model::GeoInfo;

verus! {

/// A byte a header value may hold while still decoding as text:
/// visible ASCII, or horizontal tab.
pub open spec fn byte_is_header_text(b: u8) -> bool {
    (32 <= b && b < 127) || b == 9
}

/// Whether a whole header value decodes as text.
pub open spec fn header_is_text(bytes: Seq<u8>) -> bool {
    forall|i: int| 0 <= i < bytes.len() ==> byte_is_header_text(#[trigger] bytes[i])
}

/// The text of a header value that decodes: one character per byte,
/// since every admissible byte is ASCII.
pub open spec fn decoded_text(bytes: Seq<u8>) -> Seq<char> {
    bytes.map_values(|b: u8| b as char)
}

/// The country recorded for a request whose geolocation header held
/// `bytes`: the header text verbatim, or `"Unknown"` when the bytes do
/// not decode.
pub open spec fn country_of_header(bytes: Seq<u8>) -> Seq<char> {
    if header_is_text(bytes) {
        decoded_text(bytes)
    } else {
        "Unknown"@
    }
}

/// Relies on std's `String::push`: appends exactly the given character.
pub assume_specification[ String::push ](s: &mut String, c: char)
    ensures
        final(s)@ == old(s)@.push(c),
;

/// Decode a header value the way the HTTP layer would: `Some` of its
/// text when every byte is visible ASCII or tab, `None` otherwise.
pub fn decode_header_value(bytes: &Vec<u8>) -> (r: Option<String>)
    ensures
        header_is_text(bytes@) ==> (r matches Some(s) && s@ == decoded_text(bytes@)),
        !header_is_text(bytes@) ==> r is None,
{
    let mut out = String::new();
    let mut i: usize = 0;
    while i < bytes.len()
        invariant
            0 <= i <= bytes@.len(),
            header_is_text(bytes@.take(i as int)),
            out@ == decoded_text(bytes@.take(i as int)),
        decreases bytes@.len() - i,
    {
        let b = bytes[i];
        if !((32 <= b && b < 127) || b == 9) {
            assert(!byte_is_header_text(bytes@[i as int]));
            return None;
        }
        out.push(b as char);
        proof {
            assert(bytes@.take(i + 1) =~= bytes@.take(i as int).push(b));
            assert(decoded_text(bytes@.take(i + 1)) =~= decoded_text(
                bytes@.take(i as int),
            ).push(b as char));
        }
        i = i + 1;
    }
    proof {
        assert(bytes@.take(i as int) =~= bytes@);
    }
    Some(out)
}

/// Geolocation policy for one request: no header, no `geo` field; a
/// header that decodes as text is taken verbatim as the country; a
/// header whose bytes do not decode becomes the country `"Unknown"`
/// rather than failing the request.
pub fn country_from_header(header: &Option<Vec<u8>>) -> (r: Option<GeoInfo>)
    ensures
        r is Some <==> header is Some,
        header matches Some(bytes) ==> (r matches Some(g) && g@.country == country_of_header(
            bytes@,
        )),
{
    match header {
        None => None,
        Some(bytes) => match decode_header_value(bytes) {
            Some(text) => Some(GeoInfo { country: text }),
            None => Some(GeoInfo { country: "Unknown".to_owned() }),
        },
    }
}

} // verus!
