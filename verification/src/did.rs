//! The validated identifier and its accessors.

use crate::laws::lemma_valid_is_ascii;
use crate::syntax::{
    body_of, has_wellformed_body, is_body_char, is_valid_did, plc_token, scheme_prefix, token_of,
    validate, web_token, Rejection,
};
use vstd::prelude::*;
use vstd::std_specs::cmp::PartialEqSpecImpl;

verus! {

/// The two methods that an identifier can name.
#[derive(Debug, Clone, Copy, PartialEq, Eq, Structural)]
pub enum DidMethod {
    Web,
    Plc,
}

impl DidMethod {
    /// The token that names the method inside an identifier, its colon
    /// included.
    pub open spec fn token(self) -> Seq<char> {
        match self {
            DidMethod::Web => web_token(),
            DidMethod::Plc => plc_token(),
        }
    }
}

/// The method that an identifier names: `Web` behind `web:`, `Plc` behind
/// `plc:`.
pub open spec fn method_of(s: Seq<char>) -> DidMethod
    recommends
        is_valid_did(s),
{
    if token_of(s) == web_token() {
        DidMethod::Web
    } else {
        DidMethod::Plc
    }
}

/// Why a candidate string was refused.
#[derive(Debug)]
pub enum DidValidationError {
    /// The candidate has fewer than nine characters.
    TooShort,
    /// The candidate does not start with `did:`; `found` is what stands there.
    InvalidPrefix { found: String },
    /// The method token is neither `web:` nor `plc:`; `found` is what stands
    /// there.
    InvalidMethod { found: String },
    /// The body holds a character that is not allowed, or ends in a colon;
    /// `found` is the body.
    InvalidIdentifier { found: String },
}

impl View for DidValidationError {
    type V = Rejection;

    open spec fn view(&self) -> Rejection {
        match self {
            DidValidationError::TooShort => Rejection::TooShort,
            DidValidationError::InvalidPrefix { found } => Rejection::InvalidPrefix {
                found: found@,
            },
            DidValidationError::InvalidMethod { found } => Rejection::InvalidMethod {
                found: found@,
            },
            DidValidationError::InvalidIdentifier { found } => Rejection::InvalidIdentifier {
                found: found@,
            },
        }
    }
}

impl PartialEq for DidValidationError {
    /// Two errors are equal where they are of one kind and report the same
    /// characters.
    fn eq(&self, other: &Self) -> (equal: bool) {
        match (self, other) {
            (DidValidationError::TooShort, DidValidationError::TooShort) => true,
            (
                DidValidationError::InvalidPrefix { found: a },
                DidValidationError::InvalidPrefix { found: b },
            ) => *a == *b,
            (
                DidValidationError::InvalidMethod { found: a },
                DidValidationError::InvalidMethod { found: b },
            ) => *a == *b,
            (
                DidValidationError::InvalidIdentifier { found: a },
                DidValidationError::InvalidIdentifier { found: b },
            ) => *a == *b,
            _ => false,
        }
    }
}

impl PartialEqSpecImpl for DidValidationError {
    open spec fn obeys_eq_spec() -> bool {
        true
    }

    open spec fn eq_spec(&self, other: &Self) -> bool {
        self@ == other@
    }
}

/// An identifier of one of the two supported methods.
///
/// A value is made by [`Did::try_create`] alone, holds the accepted string
/// unchanged, and is never modified: every value is a valid identifier.
#[derive(Debug)]
pub struct Did {
    inner: String,
}

impl View for Did {
    type V = Seq<char>;

    closed spec fn view(&self) -> Seq<char> {
        self.inner@
    }
}

impl PartialEq for Did {
    /// Two identifiers are equal where they hold the same characters.
    fn eq(&self, other: &Self) -> (equal: bool) {
        self.inner == other.inner
    }
}

impl PartialEqSpecImpl for Did {
    open spec fn obeys_eq_spec() -> bool {
        true
    }

    open spec fn eq_spec(&self, other: &Self) -> bool {
        self@ == other@
    }
}

/// What a result of validation stands for: the characters of the accepted
/// identifier, or the rejection.
pub open spec fn outcome(r: Result<Did, DidValidationError>) -> Result<Seq<char>, Rejection> {
    match r {
        Ok(did) => Ok(did@),
        Err(e) => Err(e@),
    }
}

impl Did {
    #[verifier::type_invariant]
    spec fn well_formed(self) -> bool {
        is_valid_did(self.inner@)
    }

    /// Validates `id` and wraps it.
    ///
    /// The checks run in the order length, prefix, method, body, and the
    /// first that fails gives the error. An accepted string is kept as it is.
    pub fn try_create(id: String) -> (r: Result<Did, DidValidationError>)
        ensures
            outcome(r) == validate(id@),
    {
        let s = id.as_str();
        let n = s.unicode_len();
        if n <= 8 {
            return Err(DidValidationError::TooShort);
        }
        let scheme = s.substring_char(0, 4);
        proof {
            reveal_strlit("did:");
            assert("did:"@ =~= scheme_prefix());
        }
        if !same_chars(scheme, "did:") {
            return Err(DidValidationError::InvalidPrefix { found: scheme.to_owned() });
        }
        let token = s.substring_char(4, 8);
        proof {
            reveal_strlit("web:");
            reveal_strlit("plc:");
            assert("web:"@ =~= web_token());
            assert("plc:"@ =~= plc_token());
        }
        if !same_chars(token, "web:") && !same_chars(token, "plc:") {
            return Err(DidValidationError::InvalidMethod { found: token.to_owned() });
        }
        let body = s.substring_char(8, n);
        if !is_wellformed_body(body) {
            return Err(DidValidationError::InvalidIdentifier { found: body.to_owned() });
        }
        proof {
            assert(has_wellformed_body(id@)) by {
                assert forall|i: int| 8 <= i < id@.len() implies is_body_char(
                    #[trigger] id@[i],
                ) by {
                    assert(id@[i] == body@[i - 8]);
                }
                assert(id@.last() == body@.last());
            }
        }
        Ok(Did { inner: id })
    }

    /// The whole identifier, as it was given to [`Did::try_create`].
    pub fn as_str(&self) -> (s: &str)
        ensures
            s@ == self@,
            is_valid_did(self@),
    {
        proof {
            use_type_invariant(self);
        }
        self.inner.as_str()
    }

    /// The method that the identifier names, read from the three characters
    /// behind `did:`.
    pub fn method(&self) -> (m: DidMethod)
        ensures
            is_valid_did(self@),
            m == method_of(self@),
            token_of(self@) == m.token(),
    {
        proof {
            use_type_invariant(self);
            lemma_valid_is_ascii(self.inner@);
        }
        let name = self.inner.as_str().substring_ascii(4, 7);
        proof {
            reveal_strlit("web");
            reveal_strlit("plc");
            assert(name@ =~= token_of(self@).subrange(0, 3));
            assert("web"@ =~= web_token().subrange(0, 3));
            assert("plc"@ =~= plc_token().subrange(0, 3));
            assert(web_token()[0] != plc_token()[0]);
        }
        if same_chars(name, "web") {
            DidMethod::Web
        } else if same_chars(name, "plc") {
            DidMethod::Plc
        } else {
            // No valid identifier names a third method.
            unreached()
        }
    }

    /// The method-specific identifier: what follows the method token.
    pub fn identifier<'a>(&'a self) -> (body: &'a str)
        ensures
            is_valid_did(self@),
            body@ == body_of(self@),
    {
        proof {
            use_type_invariant(self);
            lemma_valid_is_ascii(self.inner@);
        }
        let s = self.inner.as_str();
        proof {
            vstd::string::is_ascii_spec_bytes(s);
        }
        s.substring_ascii(8, s.as_bytes().len())
    }
}

/// Tells whether `s` and `expected` hold the same characters.
fn same_chars(s: &str, expected: &str) -> (same: bool)
    ensures
        same == (s@ == expected@),
{
    let n = s.unicode_len();
    if n != expected.unicode_len() {
        return false;
    }
    for i in 0..n
        invariant
            n == s@.len(),
            n == expected@.len(),
            forall|j: int| 0 <= j < i ==> s@[j] == expected@[j],
    {
        if s.get_char(i) != expected.get_char(i) {
            return false;
        }
    }
    assert(s@ =~= expected@);
    true
}

/// Tells whether `c` may occur in the body of an identifier.
fn is_allowed_in_body(c: char) -> (allowed: bool)
    ensures
        allowed == is_body_char(c),
{
    ('a' <= c && c <= 'z') || ('A' <= c && c <= 'Z') || ('0' <= c && c <= '9') || c == '.'
        || c == '_' || c == ':' || c == '-'
}

/// Tells whether every character of `body` is allowed in a body and the last
/// one is no colon.
fn is_wellformed_body(body: &str) -> (b: bool)
    requires
        body@.len() >= 1,
    ensures
        b == ((forall|i: int| 0 <= i < body@.len() ==> is_body_char(#[trigger] body@[i]))
            && body@.last() != ':'),
{
    let mut last: char = ':';
    let mut allowed: bool = true;
    for c in iter: body.chars()
        invariant
            iter.seq() == body@,
            allowed == (forall|i: int| 0 <= i < iter.index() ==> is_body_char(#[trigger] body@[i])),
            iter.index() > 0 ==> last == body@[iter.index() - 1],
    {
        allowed = allowed && is_allowed_in_body(c);
        last = c;
    }
    allowed && last != ':'
}

} // verus!
