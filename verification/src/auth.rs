//! Authentication of a request: the `Authorization` header is parsed into a credential, and the
//! credential is held against the accepted tokens.

use crate::error::Error;
use vstd::prelude::*;
use vstd::slice::*;
use vstd::utf8::*;

verus! {

/// The scheme word and the separator that open an accepted header value: `Token` and a space,
/// in ASCII.
pub open spec fn scheme_prefix() -> Seq<u8> {
    seq![84u8, 111u8, 107u8, 101u8, 110u8, 32u8]
}

/// Whether `header` opens with the scheme word and the separator.
pub open spec fn has_scheme(header: Seq<u8>) -> bool {
    header.len() >= 6 && header.subrange(0, 6) == scheme_prefix()
}

/// What follows the scheme word and the separator.
pub open spec fn credential_bytes(header: Seq<u8>) -> Seq<u8> {
    header.subrange(6, header.len() as int)
}

/// Whether `header` carries a credential: the scheme opens it and the rest is text.
pub open spec fn well_formed(header: Seq<u8>) -> bool {
    has_scheme(header) && valid_utf8(credential_bytes(header))
}

/// The credential that a well-formed `header` carries.
pub open spec fn credential_of(header: Seq<u8>) -> Seq<char> {
    decode_utf8(credential_bytes(header))
}

/// `String::from_utf8` of the standard library: the bytes become a string exactly when they
/// are valid UTF-8, and the string then encodes to those same bytes.
#[verifier::external_body]
fn string_from_utf8(bytes: Vec<u8>) -> (text: Option<String>)
    ensures
        text is Some <==> valid_utf8(bytes@),
        text matches Some(s) ==> encode_utf8(s@) == bytes@,
{
    String::from_utf8(bytes).ok()
}

/// Extracts the credential from the raw value of the `Authorization` header.
///
/// The value must open with `Token` and one space; whatever follows, even nothing, is the
/// credential, provided that it is valid UTF-8.
pub fn token_authorization(header: &[u8]) -> (r: Result<String, Error>)
    ensures
        match r {
            Ok(credential) => well_formed(header@) && credential@ == credential_of(header@),
            Err(e) => e == Error::MalformedHeader && !well_formed(header@),
        },
{
    if header.len() >= 6 && header[0] == 84 && header[1] == 111 && header[2] == 107 && header[3]
        == 101 && header[4] == 110 && header[5] == 32 {
        assert(header@.subrange(0, 6) =~= scheme_prefix());
        let rest = slice_to_vec(slice_subrange(header, 6, header.len()));
        match string_from_utf8(rest) {
            Some(credential) => {
                proof {
                    encode_utf8_decode_utf8(credential@);
                }
                Ok(credential)
            },
            None => Err(Error::MalformedHeader),
        }
    } else {
        assert(!has_scheme(header@)) by {
            if has_scheme(header@) {
                let p = header@.subrange(0, 6);
                assert(p[0] == 84 && p[1] == 111 && p[2] == 107 && p[3] == 101 && p[4] == 110
                    && p[5] == 32);
            }
        }
        Err(Error::MalformedHeader)
    }
}

/// Whether `credential` is, character for character, one of the `accepted` tokens.
pub open spec fn accepts(accepted: Seq<String>, credential: Seq<char>) -> bool {
    exists|i: int| 0 <= i < accepted.len() && (#[trigger] accepted[i])@ == credential
}

/// Decides whether `credential` is one of the accepted tokens.
///
/// The match is exact: case counts, and nothing is trimmed.
pub fn authorize(credential: &String, accepted: &Vec<String>) -> (ok: bool)
    ensures
        ok <==> accepts(accepted@, credential@),
{
    let mut i: usize = 0;
    while i < accepted.len()
        invariant
            i <= accepted.len(),
            forall|j: int| 0 <= j < i ==> (#[trigger] accepted@[j])@ != credential@,
        decreases accepted.len() - i,
    {
        if accepted[i] == *credential {
            return true;
        }
        i += 1;
    }
    false
}

} // verus!
