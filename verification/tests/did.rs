use atproto::{Did, DidMethod, DidValidationError};

fn create(candidate: &str) -> Result<Did, DidValidationError> {
    Did::try_create(candidate.to_string())
}

fn err_too_short() -> Result<String, DidValidationError> {
    Err(DidValidationError::TooShort)
}

fn err_prefix(found: &str) -> Result<String, DidValidationError> {
    Err(DidValidationError::InvalidPrefix { found: found.to_string() })
}

fn err_method(found: &str) -> Result<String, DidValidationError> {
    Err(DidValidationError::InvalidMethod { found: found.to_string() })
}

fn err_identifier(found: &str) -> Result<String, DidValidationError> {
    Err(DidValidationError::InvalidIdentifier { found: found.to_string() })
}

/// The result of validation with the accepted identifier as a plain string.
fn checked(candidate: &str) -> Result<String, DidValidationError> {
    create(candidate).map(|did| did.as_str().to_string())
}

#[test]
fn valid_web() {
    let did = "did:web:localhost";
    assert_eq!(Did::try_create(did.to_string()).as_ref().map(Did::as_str), Ok(did));
    assert_eq!(checked(did), Ok(did.to_string()));
}

#[test]
fn valid_plc() {
    let did = "did:plc:z72i7hdynmk6r22z27h6tvur";
    assert_eq!(Did::try_create(did.to_string()).as_ref().map(Did::as_str), Ok(did));
    assert_eq!(checked(did), Ok(did.to_string()));
}

#[test]
fn invalid_method() {
    let did = "did:key:zQ3shZc2QzApp2oymGvQbzP8eKheVshBHbU4ZYjeXqwSKEn6N";
    assert_eq!(
        Did::try_create(did.to_string()),
        Err(DidValidationError::InvalidMethod { found: "key:".to_string() })
    )
}

#[test]
fn invalid_syntax() {
    let did = "did:method:val#two";
    assert!(Did::try_create(did.to_string()).is_err())
}

#[test]
fn invalid_empty_id() {
    let did = "did:web:";
    assert_eq!(Did::try_create(did.to_string()), Err(DidValidationError::TooShort))
}

#[test]
fn web_method_and_identifier() {
    let did = create("did:web:localhost").unwrap();
    assert_eq!(did.method(), DidMethod::Web);
    assert_eq!(did.identifier(), "localhost");
    assert_eq!(did.as_str(), "did:web:localhost");
}

#[test]
fn plc_method_and_identifier() {
    let did = create("did:plc:z72i7hdynmk6r22z27h6tvur").unwrap();
    assert_eq!(did.method(), DidMethod::Plc);
    assert_eq!(did.identifier(), "z72i7hdynmk6r22z27h6tvur");
    assert_eq!(did.as_str(), "did:plc:z72i7hdynmk6r22z27h6tvur");
}

#[test]
fn unsupported_method_is_reported_before_body() {
    assert_eq!(checked("did:method:val#two"), err_method("meth"));
}

#[test]
fn trailing_colon_rejected() {
    assert_eq!(checked("did:web:abc:"), err_identifier("abc:"));
    assert_eq!(checked("did:plc:a:b:"), err_identifier("a:b:"));
}

#[test]
fn colon_inside_body_accepted() {
    let did = create("did:web:example.com:user:alice").unwrap();
    assert_eq!(did.method(), DidMethod::Web);
    assert_eq!(did.identifier(), "example.com:user:alice");
}

#[test]
fn accepted_string_is_kept_unchanged() {
    for candidate in ["did:web:LocalHost", "did:plc:A-b_c.D:9", "did:web:0"] {
        let did = create(candidate).unwrap();
        assert_eq!(did.as_str(), candidate);
        assert_eq!(did.identifier(), &candidate[8..]);
    }
}

#[test]
fn same_candidate_same_result() {
    for candidate in [
        "did:web:localhost",
        "did:plc:z72i7hdynmk6r22z27h6tvur",
        "did:key:zQ3sh",
        "dod:web:abc",
        "did:web:abc:",
        "did",
    ] {
        assert_eq!(create(candidate), create(candidate));
        assert!(create(candidate) == create(candidate));
    }
}

#[test]
fn first_failing_check_is_reported() {
    // Fails every check: the length comes first.
    assert_eq!(checked("xid:key#"), err_too_short());
    // Long enough; fails prefix, method and body.
    assert_eq!(checked("xid:key:a#"), err_prefix("xid:"));
    // Good prefix; fails method and body.
    assert_eq!(checked("did:key:a#"), err_method("key:"));
    // Good prefix and method; fails the body alone.
    assert_eq!(checked("did:web:a#"), err_identifier("a#"));
}

#[test]
fn nine_characters_accepted() {
    let web = create("did:web:a").unwrap();
    assert_eq!(web.method(), DidMethod::Web);
    assert_eq!(web.identifier(), "a");
    let plc = create("did:plc:9").unwrap();
    assert_eq!(plc.method(), DidMethod::Plc);
    assert_eq!(plc.identifier(), "9");
    assert_eq!(checked("did:web:-"), Ok("did:web:-".to_string()));
    assert_eq!(checked("did:web:."), Ok("did:web:.".to_string()));
    assert_eq!(checked("did:web:_"), Ok("did:web:_".to_string()));
}

#[test]
fn nine_characters_ending_in_colon_rejected() {
    assert_eq!(checked("did:web::"), err_identifier(":"));
}

#[test]
fn eight_characters_or_fewer_too_short() {
    for candidate in ["", "d", "did:", "did:web", "did:web:", "did:plc:", "abcdefgh", "########"] {
        assert_eq!(checked(candidate), err_too_short());
    }
}

#[test]
fn length_is_counted_in_characters() {
    // Eight characters, nine bytes.
    assert_eq!(checked("did:w\u{e9}b:"), err_too_short());
    // Nine characters.
    assert_eq!(checked("did:w\u{e9}b:a"), err_method("w\u{e9}b:"));
}

#[test]
fn prefix_is_case_sensitive() {
    assert_eq!(checked("DID:web:abc"), err_prefix("DID:"));
    assert_eq!(checked("Did:web:abc"), err_prefix("Did:"));
    assert_eq!(checked("did;web:abc"), err_prefix("did;"));
}

#[test]
fn prefix_found_holds_four_characters() {
    assert_eq!(checked("d\u{ef}d:web:abc"), err_prefix("d\u{ef}d:"));
    assert_eq!(checked("\u{1f600}id:web:abc"), err_prefix("\u{1f600}id:"));
}

#[test]
fn method_is_case_sensitive() {
    assert_eq!(checked("did:WEB:abc"), err_method("WEB:"));
    assert_eq!(checked("did:Plc:abc"), err_method("Plc:"));
}

#[test]
fn method_token_needs_its_colon() {
    assert_eq!(checked("did:webx:abc"), err_method("webx"));
    assert_eq!(checked("did:plc.abc"), err_method("plc."));
    assert_eq!(checked("did:pl:cabc"), err_method("pl:c"));
}

#[test]
fn every_allowed_character_accepted() {
    let body = "abcdefghijklmnopqrstuvwxyzABCDEFGHIJKLMNOPQRSTUVWXYZ0123456789._:-x";
    let candidate = format!("did:plc:{}", body);
    let did = create(&candidate).unwrap();
    assert_eq!(did.identifier(), body);
    assert_eq!(did.method(), DidMethod::Plc);
}

#[test]
fn characters_outside_the_class_rejected() {
    for bad in [
        '#', ' ', '/', '%', '@', '[', '`', '{', '+', ',', ';', '?', '\0', '\u{7f}', '\u{e9}',
        '\u{ff10}',
    ] {
        let body = format!("a{}b", bad);
        let candidate = format!("did:web:{}", body);
        assert_eq!(checked(&candidate), err_identifier(&body));
    }
}

#[test]
fn bad_character_anywhere_in_body_rejected() {
    assert_eq!(checked("did:web:#ab"), err_identifier("#ab"));
    assert_eq!(checked("did:web:a#b"), err_identifier("a#b"));
    assert_eq!(checked("did:web:ab#"), err_identifier("ab#"));
    assert_eq!(checked("did:web:val#two"), err_identifier("val#two"));
}

#[test]
fn no_trimming_or_folding() {
    assert_eq!(checked(" did:web:abc"), err_prefix(" did"));
    assert_eq!(checked("did:web:abc "), err_identifier("abc "));
    assert_eq!(checked("did:web:abc\n"), err_identifier("abc\n"));
}

#[test]
fn errors_compare_by_kind_and_found() {
    assert_eq!(DidValidationError::TooShort, DidValidationError::TooShort);
    assert_eq!(
        DidValidationError::InvalidPrefix { found: "abc:".to_string() },
        DidValidationError::InvalidPrefix { found: "abc:".to_string() }
    );
    assert_ne!(
        DidValidationError::InvalidPrefix { found: "abc:".to_string() },
        DidValidationError::InvalidPrefix { found: "abd:".to_string() }
    );
    assert_ne!(
        DidValidationError::InvalidPrefix { found: "abc:".to_string() },
        DidValidationError::InvalidMethod { found: "abc:".to_string() }
    );
    assert_ne!(
        DidValidationError::InvalidMethod { found: "abc:".to_string() },
        DidValidationError::InvalidIdentifier { found: "abc:".to_string() }
    );
    assert_ne!(
        DidValidationError::TooShort,
        DidValidationError::InvalidIdentifier { found: String::new() }
    );
}

#[test]
fn identifiers_compare_by_their_string() {
    assert_eq!(create("did:web:localhost"), create("did:web:localhost"));
    assert_ne!(create("did:web:localhost"), create("did:plc:localhost"));
    assert_ne!(create("did:web:localhost"), create("did:web:localhosu"));
    assert_ne!(create("did:web:localhost"), create("did:web:"));
}

#[test]
fn methods_compare() {
    assert_eq!(DidMethod::Web, DidMethod::Web);
    assert_ne!(DidMethod::Web, DidMethod::Plc);
    let copy = DidMethod::Plc;
    assert_eq!(copy, DidMethod::Plc);
}
