use augeas::error::{translate, wrap};
use augeas::{AugeasError, Error, ErrorCode};

#[test]
fn from_raw_decodes_every_known_code() {
    assert_eq!(ErrorCode::from_raw(0), None);
    assert_eq!(ErrorCode::from_raw(1), Some(ErrorCode::NoMem));
    assert_eq!(ErrorCode::from_raw(2), Some(ErrorCode::Internal));
    assert_eq!(ErrorCode::from_raw(3), Some(ErrorCode::PathExpr));
    assert_eq!(ErrorCode::from_raw(4), Some(ErrorCode::NoMatch));
    assert_eq!(ErrorCode::from_raw(5), Some(ErrorCode::ManyMatches));
    assert_eq!(ErrorCode::from_raw(6), Some(ErrorCode::Syntax));
    assert_eq!(ErrorCode::from_raw(7), Some(ErrorCode::NoLens));
    assert_eq!(ErrorCode::from_raw(8), Some(ErrorCode::MultipleTransforms));
    assert_eq!(ErrorCode::from_raw(9), Some(ErrorCode::NoSpan));
    assert_eq!(ErrorCode::from_raw(10), Some(ErrorCode::MoveDescendant));
    assert_eq!(ErrorCode::from_raw(11), Some(ErrorCode::CMDRun));
    assert_eq!(ErrorCode::from_raw(12), Some(ErrorCode::BadArg));
    assert_eq!(ErrorCode::from_raw(13), Some(ErrorCode::Label));
    assert_eq!(ErrorCode::from_raw(14), Some(ErrorCode::CopyDescendant));
}

#[test]
fn from_raw_keeps_unknown_codes() {
    // Codes a newer engine may introduce decode to the catch-all
    // variant instead of failing.
    assert_eq!(ErrorCode::from_raw(15), Some(ErrorCode::Unknown));
    assert_eq!(ErrorCode::from_raw(42), Some(ErrorCode::Unknown));
    assert_eq!(ErrorCode::from_raw(u32::MAX), Some(ErrorCode::Unknown));
}

#[test]
fn new_no_mem_holds_only_the_message() {
    let e = AugeasError::new_no_mem("Failed to initialize Augeas");
    assert_eq!(e.code, ErrorCode::NoMem);
    assert_eq!(e.message.as_deref(), Some("Failed to initialize Augeas"));
    assert_eq!(e.minor_message, None);
    assert_eq!(e.details, None);
}

#[test]
fn description_is_message_or_placeholder() {
    let e = AugeasError::new_no_mem("boom");
    assert_eq!(e.description(), "boom");
    let bare = AugeasError::bare(ErrorCode::Internal);
    assert_eq!(bare.description(), "No description");
}

#[test]
fn render_full_error() {
    let e = AugeasError {
        code: ErrorCode::PathExpr,
        message: Some(String::from("Invalid path expression")),
        minor_message: Some(String::from("illegal string literal")),
        details: Some(String::from("/invalid[|=|")),
    };
    assert_eq!(
        e.render(),
        "augeas error:PathExpr:Invalid path expression\n      illegal string literal\n      /invalid[|=|\n"
    );
}

#[test]
fn render_skips_absent_strings() {
    let e = AugeasError::bare(ErrorCode::ManyMatches);
    assert_eq!(e.render(), "augeas error:ManyMatches:\n");

    let with_details = AugeasError {
        code: ErrorCode::Syntax,
        message: Some(String::from("m")),
        minor_message: None,
        details: Some(String::from("d")),
    };
    assert_eq!(with_details.render(), "augeas error:Syntax:m\n      d\n");
}

#[test]
fn translate_silent_channel_is_no_error() {
    assert_eq!(translate(0, None, None, None), None);
    // The strings are not even looked at when the sentinel is read.
    assert_eq!(
        translate(0, Some(String::from("stale")), None, None),
        None
    );
}

#[test]
fn translate_carries_the_three_strings() {
    let e = translate(
        4,
        Some(String::from("m")),
        Some(String::from("mm")),
        Some(String::from("d")),
    )
    .unwrap();
    assert_eq!(e.code, ErrorCode::NoMatch);
    assert_eq!(e.message.as_deref(), Some("m"));
    assert_eq!(e.minor_message.as_deref(), Some("mm"));
    assert_eq!(e.details.as_deref(), Some("d"));
}

#[test]
fn unbalanced_bracket_expression_reports_path_error_with_message() {
    // The engine rejects an expression such as "/invalid[" on its side
    // channel with the path-expression code and a description; the
    // translation must surface exactly that as a typed error.
    let err = translate(
        3,
        Some(String::from("Invalid path expression")),
        Some(String::from("illegal string literal")),
        Some(String::from("/invalid[|=|")),
    );
    let r: Result<Vec<String>, Error> = wrap(Vec::new(), err);
    match r {
        Err(Error::Augeas(e)) => {
            assert_eq!(e.code, ErrorCode::PathExpr);
            assert!(!e.message.as_deref().unwrap().is_empty());
            assert_eq!(e.minor_message.as_deref(), Some("illegal string literal"));
            assert_eq!(e.details.as_deref(), Some("/invalid[|=|"));
        }
        other => panic!("unexpected value: {:?}", other),
    }
}

#[test]
fn wrap_passes_the_value_through_a_silent_channel() {
    let r: Result<Option<String>, Error> = wrap(Some(String::from("0")), None);
    assert_eq!(r, Ok(Some(String::from("0"))));
    let none: Result<Option<String>, Error> = wrap(None, None);
    assert_eq!(none, Ok(None));
}

#[test]
fn wrap_surfaces_a_reported_error() {
    let e = AugeasError::bare(ErrorCode::ManyMatches);
    let r: Result<Option<String>, Error> = wrap(Some(String::from("v")), Some(e.clone()));
    assert_eq!(r, Err(Error::Augeas(e)));
}

#[test]
fn descendant_move_code_translates_to_descendant_move_error() {
    let e = translate(10, None, None, None).unwrap();
    assert_eq!(e.code, ErrorCode::MoveDescendant);
    let r: Result<(), Error> = wrap((), Some(e));
    assert!(matches!(
        r,
        Err(Error::Augeas(AugeasError { code: ErrorCode::MoveDescendant, .. }))
    ));
}

#[test]
fn error_from_conversions() {
    let a = AugeasError::bare(ErrorCode::Label);
    assert_eq!(Error::from(a.clone()), Error::Augeas(a));
    let n = augeas::NulError { position: 3 };
    assert_eq!(Error::from(n), Error::Nul(n));
}
