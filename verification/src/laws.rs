//! Theorems about the grammar and about validation.

use crate::did::{method_of, outcome, Did, DidMethod, DidValidationError};
use crate::syntax::{
    body_of, has_scheme, has_supported_method, has_wellformed_body, is_body_char, is_valid_did,
    long_enough, plc_token, scheme_of, scheme_prefix, token_of, validate, web_token, Rejection,
};
use vstd::prelude::*;
use vstd::std_specs::cmp::PartialEqSpec;

verus! {

/// Validation accepts exactly the valid identifiers, and hands an accepted
/// candidate back unchanged.
pub proof fn lemma_accepts_valid_unchanged(s: Seq<char>)
    ensures
        validate(s) is Ok <==> is_valid_did(s),
        validate(s) is Ok ==> validate(s) == Ok::<Seq<char>, Rejection>(s),
{
}

/// Validation is a function of the candidate's characters: two results for
/// one candidate are both acceptances or both errors, and are equal under
/// `==`.
pub proof fn lemma_result_determined(
    s: Seq<char>,
    first: Result<Did, DidValidationError>,
    second: Result<Did, DidValidationError>,
)
    requires
        outcome(first) == validate(s),
        outcome(second) == validate(s),
    ensures
        outcome(first) == outcome(second),
        first is Ok <==> second is Ok,
        first is Ok ==> first->Ok_0.eq_spec(&second->Ok_0) && first->Ok_0@ == s,
        first is Err ==> first->Err_0.eq_spec(&second->Err_0),
{
}

/// Each rejection is reported exactly where its check fails and every check
/// before it, in the order length, prefix, method, body, has passed.
pub proof fn lemma_first_failure_reported(s: Seq<char>)
    ensures
        validate(s) == Err::<Seq<char>, Rejection>(Rejection::TooShort) <==> !long_enough(s),
        validate(s) == Err::<Seq<char>, Rejection>(Rejection::InvalidPrefix { found: scheme_of(s) })
            <==> long_enough(s) && !has_scheme(s),
        validate(s) == Err::<Seq<char>, Rejection>(Rejection::InvalidMethod { found: token_of(s) })
            <==> long_enough(s) && has_scheme(s) && !has_supported_method(s),
        validate(s) == Err::<Seq<char>, Rejection>(
            Rejection::InvalidIdentifier { found: body_of(s) },
        ) <==> long_enough(s) && has_scheme(s) && has_supported_method(s) && !has_wellformed_body(
            s,
        ),
        validate(s) is Err ==> {
            ||| validate(s)->Err_0 == Rejection::TooShort
            ||| validate(s)->Err_0 == Rejection::InvalidPrefix { found: scheme_of(s) }
            ||| validate(s)->Err_0 == Rejection::InvalidMethod { found: token_of(s) }
            ||| validate(s)->Err_0 == Rejection::InvalidIdentifier { found: body_of(s) }
        },
{
}

/// A candidate of eight characters or fewer is too short, whatever it holds.
pub proof fn lemma_short_is_too_short(s: Seq<char>)
    requires
        s.len() <= 8,
    ensures
        validate(s) == Err::<Seq<char>, Rejection>(Rejection::TooShort),
{
}

/// The two method tokens differ, so an identifier names one method only.
pub proof fn lemma_tokens_differ()
    ensures
        web_token() != plc_token(),
        forall|a: DidMethod, b: DidMethod| a.token() == b.token() ==> a == b,
{
    assert(web_token()[0] != plc_token()[0]);
}

/// A valid identifier is the prefix `did:`, the token of its method and its
/// body, one after the other; the body is not empty.
pub proof fn lemma_valid_decomposes(s: Seq<char>)
    requires
        is_valid_did(s),
    ensures
        s == scheme_prefix() + method_of(s).token() + body_of(s),
        token_of(s) == method_of(s).token(),
        method_of(s) == DidMethod::Web <==> token_of(s) == web_token(),
        method_of(s) == DidMethod::Plc <==> token_of(s) == plc_token(),
        body_of(s).len() >= 1,
{
    lemma_tokens_differ();
    assert(s =~= scheme_of(s) + token_of(s) + body_of(s));
}

/// The prefix `did:`, the token of a method and a body make a valid
/// identifier of that method with that body, where the body is not empty,
/// holds allowed characters only and does not end in a colon.
pub proof fn lemma_composed_is_valid(m: DidMethod, body: Seq<char>)
    requires
        body.len() >= 1,
        forall|i: int| 0 <= i < body.len() ==> is_body_char(#[trigger] body[i]),
        body.last() != ':',
    ensures
        is_valid_did(scheme_prefix() + m.token() + body),
        validate(scheme_prefix() + m.token() + body) == Ok::<Seq<char>, Rejection>(
            scheme_prefix() + m.token() + body,
        ),
        method_of(scheme_prefix() + m.token() + body) == m,
        body_of(scheme_prefix() + m.token() + body) == body,
{
    let s = scheme_prefix() + m.token() + body;
    lemma_tokens_differ();
    assert(m.token().len() == 4);
    assert(scheme_of(s) =~= scheme_prefix());
    assert(token_of(s) =~= m.token());
    assert(body_of(s) =~= body);
    assert forall|i: int| 8 <= i < s.len() implies is_body_char(#[trigger] s[i]) by {
        assert(s[i] == body[i - 8]);
    }
    assert(s.last() == body.last());
}

/// The shortest identifiers have nine characters: the prefix, a method token
/// and one allowed character that is no colon.
pub proof fn lemma_nine_characters_accepted(m: DidMethod, c: char)
    requires
        is_body_char(c),
        c != ':',
    ensures
        (scheme_prefix() + m.token() + seq![c]).len() == 9,
        validate(scheme_prefix() + m.token() + seq![c]) == Ok::<Seq<char>, Rejection>(
            scheme_prefix() + m.token() + seq![c],
        ),
{
    lemma_composed_is_valid(m, seq![c]);
}

/// A candidate that ends in a colon behind a good prefix and method token is
/// rejected for its body, although a colon may stand elsewhere in a body.
pub proof fn lemma_trailing_colon_rejected(s: Seq<char>)
    requires
        long_enough(s),
        has_scheme(s),
        has_supported_method(s),
        s.last() == ':',
    ensures
        validate(s) == Err::<Seq<char>, Rejection>(
            Rejection::InvalidIdentifier { found: body_of(s) },
        ),
        body_of(s).last() == ':',
{
}

/// A valid identifier holds ASCII characters only.
pub proof fn lemma_valid_is_ascii(s: Seq<char>)
    requires
        is_valid_did(s),
    ensures
        vstd::utf8::is_ascii_chars(s),
{
    assert forall|i: int| 0 <= i < s.len() implies '\0' <= #[trigger] s[i] <= '\u{7f}' by {
        if i < 4 {
            assert(s[i] == scheme_of(s)[i]);
        } else if i < 8 {
            assert(s[i] == token_of(s)[i - 4]);
        } else {
            assert(is_body_char(s[i]));
        }
    }
}

} // verus!
