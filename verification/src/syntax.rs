//! The grammar of the supported identifiers, over sequences of characters.
//!
//! An identifier reads `did:` + method token + body. The method token is
//! `web:` or `plc:`; the body is one or more characters out of ASCII letters,
//! ASCII digits, `.`, `_`, `:` and `-`, and does not end in `:`.

use vstd::prelude::*;

verus! {

/// The scheme prefix that every identifier starts with.
pub open spec fn scheme_prefix() -> Seq<char> {
    seq!['d', 'i', 'd', ':']
}

/// The method token of `did:web:` identifiers, its colon included.
pub open spec fn web_token() -> Seq<char> {
    seq!['w', 'e', 'b', ':']
}

/// The method token of `did:plc:` identifiers, its colon included.
pub open spec fn plc_token() -> Seq<char> {
    seq!['p', 'l', 'c', ':']
}

/// Characters that may occur in the body of an identifier.
pub open spec fn is_body_char(c: char) -> bool {
    ||| 'a' <= c <= 'z'
    ||| 'A' <= c <= 'Z'
    ||| '0' <= c <= '9'
    ||| c == '.'
    ||| c == '_'
    ||| c == ':'
    ||| c == '-'
}

/// The first four characters of a candidate: where the scheme prefix stands.
pub open spec fn scheme_of(s: Seq<char>) -> Seq<char>
    recommends
        s.len() >= 4,
{
    s.subrange(0, 4)
}

/// The fifth to eighth character of a candidate: where the method token stands.
pub open spec fn token_of(s: Seq<char>) -> Seq<char>
    recommends
        s.len() >= 8,
{
    s.subrange(4, 8)
}

/// The candidate from its ninth character on: the method-specific identifier.
pub open spec fn body_of(s: Seq<char>) -> Seq<char>
    recommends
        s.len() >= 8,
{
    s.subrange(8, s.len() as int)
}

/// A candidate has room for the prefix, a method token and one more character.
pub open spec fn long_enough(s: Seq<char>) -> bool {
    s.len() >= 9
}

/// The candidate starts with `did:`.
pub open spec fn has_scheme(s: Seq<char>) -> bool {
    scheme_of(s) == scheme_prefix()
}

/// The candidate names one of the two supported methods.
pub open spec fn has_supported_method(s: Seq<char>) -> bool {
    token_of(s) == web_token() || token_of(s) == plc_token()
}

/// Every character of the body is allowed there, and the candidate does not
/// end in a colon.
pub open spec fn has_wellformed_body(s: Seq<char>) -> bool {
    &&& forall|i: int| 8 <= i < s.len() ==> is_body_char(#[trigger] s[i])
    &&& s.last() != ':'
}

/// The candidate is an identifier of a supported method.
pub open spec fn is_valid_did(s: Seq<char>) -> bool {
    &&& long_enough(s)
    &&& has_scheme(s)
    &&& has_supported_method(s)
    &&& has_wellformed_body(s)
}

/// Why a candidate is not an identifier, with the offending characters.
pub enum Rejection {
    /// Fewer than nine characters.
    TooShort,
    /// The first four characters are not `did:`.
    InvalidPrefix { found: Seq<char> },
    /// The method token is neither `web:` nor `plc:`.
    InvalidMethod { found: Seq<char> },
    /// The body holds a character that is not allowed, or ends in a colon.
    InvalidIdentifier { found: Seq<char> },
}

/// The outcome of validation. The checks run in the order length, prefix,
/// method, body, and the first that the candidate fails gives the rejection;
/// a candidate that passes all four is accepted as it stands.
pub open spec fn validate(s: Seq<char>) -> Result<Seq<char>, Rejection> {
    if !long_enough(s) {
        Err(Rejection::TooShort)
    } else if !has_scheme(s) {
        Err(Rejection::InvalidPrefix { found: scheme_of(s) })
    } else if !has_supported_method(s) {
        Err(Rejection::InvalidMethod { found: token_of(s) })
    } else if !has_wellformed_body(s) {
        Err(Rejection::InvalidIdentifier { found: body_of(s) })
    } else {
        Ok(s)
    }
}

} // verus!
