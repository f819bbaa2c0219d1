use wikijs::asset::AssetError;
use wikijs::common::{
    classify_response_error, classify_response_status_error, ExceptionCode, KnownErrorCodes,
    ResponseError, ResponseStatus, UnknownError,
};
use wikijs::group::GroupError;
use wikijs::page::PageError;
use wikijs::user::UserError;

#[test]
fn codes_name_their_variants() {
    assert_eq!(PageError::from(6001), PageError::PageGenericError);
    assert_eq!(PageError::from(6013), PageError::PageViewForbidden);
    assert_eq!(AssetError::from(2005), AssetError::AssetRenameCollision);
    assert_eq!(UserError::from(1009), UserError::UserCreationFailed);
    assert_eq!(UserError::from(1020), UserError::AuthPasswordInvalid);
}

#[test]
fn unnamed_codes_become_unknown_error_codes() {
    assert_eq!(
        PageError::from(6014),
        PageError::UnknownErrorCode { code: 6014, message: "Unknown error".to_string() }
    );
    assert_eq!(
        GroupError::from(1),
        GroupError::UnknownErrorCode { code: 1, message: "Unknown error".to_string() }
    );
}

#[test]
fn known_error_code_lists() {
    assert_eq!(AssetError::known_error_codes(), vec![2001, 2002, 2003, 2004, 2005, 2006, 2007, 2008, 2009]);
    assert!(AssetError::is_known_error_code(2009));
    assert!(!AssetError::is_known_error_code(2010));
    assert!(GroupError::known_error_codes().is_empty());
    assert!(!GroupError::is_known_error_code(1));
    // The user endpoints name code 1009 and count it as known, but leave it
    // out of their list.
    assert!(UserError::is_known_error_code(1009));
    assert!(!UserError::known_error_codes().contains(&1009));
    assert_eq!(UserError::known_error_codes().len(), 19);
}

#[test]
fn error_texts() {
    assert_eq!(PageError::PageNotFound.to_string(), "This page does not exist.");
    assert_eq!(
        PageError::UnknownErrorCode { code: -42, message: "odd".to_string() }.to_string(),
        "Unknown response error code: -42: odd"
    );
    assert_eq!(
        AssetError::UnknownErrorCode { code: 2020, message: "m".to_string() }.to_string(),
        "Unknown response error code: 2020: m"
    );
    assert_eq!(
        AssetError::UnknownErrorMessage { message: "boom".to_string() }.to_string(),
        "Unknown response error: boom"
    );
    assert_eq!(GroupError::UnknownError.to_string(), "Unknown response error.");
}

#[test]
fn classify_first_error_only() {
    let errors = Some(vec![
        ResponseError { message: "first".to_string(), exception_code: ExceptionCode::Integer(6010) },
        ResponseError { message: "second".to_string(), exception_code: ExceptionCode::Integer(6003) },
    ]);
    let err: PageError = classify_response_error(errors);
    assert_eq!(err, PageError::PageDeleteForbidden);
    let none: PageError = classify_response_error(Some(Vec::new()));
    assert_eq!(none, PageError::UnknownError);
    let absent: PageError = classify_response_error(None);
    assert_eq!(absent, PageError::UnknownError);
}

#[test]
fn classify_status_errors() {
    let status = |code: i64, message: Option<&str>| ResponseStatus {
        succeeded: false,
        error_code: code,
        slug: "s".to_string(),
        message: message.map(|m| m.to_string()),
    };
    let unknown: AssetError = classify_response_status_error(status(4242, Some("server says")));
    assert_eq!(unknown, AssetError::UnknownErrorCode { code: 4242, message: "server says".to_string() });
    let unknown_silent: AssetError = classify_response_status_error(status(4242, None));
    assert_eq!(unknown_silent, AssetError::UnknownErrorCode { code: 4242, message: "Unknown error".to_string() });
    let known: AssetError = classify_response_status_error(status(2003, Some("ignored")));
    assert_eq!(known, AssetError::AssetDeleteForbidden);
}

#[test]
fn unknown_error_constructors() {
    assert_eq!(
        <PageError as UnknownError>::unknown_error_code(7, "x".to_string()),
        PageError::UnknownErrorCode { code: 7, message: "x".to_string() }
    );
    assert_eq!(<PageError as UnknownError>::unknown_error(), PageError::UnknownError);
}

#[test]
fn known_codes_are_listed_and_named() {
    for code in 1990..2020 {
        assert_eq!(AssetError::known_error_codes().contains(&code), AssetError::is_known_error_code(code));
        let named = !matches!(AssetError::from(code), AssetError::UnknownErrorCode { .. });
        assert_eq!(named, AssetError::is_known_error_code(code));
    }
    for code in 995..1025 {
        if code != 1009 {
            assert_eq!(UserError::known_error_codes().contains(&code), UserError::is_known_error_code(code));
        }
        let named = !matches!(UserError::from(code), UserError::UnknownErrorCode { .. });
        assert_eq!(named, UserError::is_known_error_code(code));
    }
}

#[test]
fn unreadable_error_codes_are_told() {
    let error = |exception_code| ResponseError { message: "oops".to_string(), exception_code };
    assert!(wikijs::common::error_code_readable(&None));
    assert!(wikijs::common::error_code_readable(&Some(Vec::new())));
    assert!(wikijs::common::error_code_readable(&Some(vec![error(ExceptionCode::Integer(6003))])));
    assert!(wikijs::common::error_code_readable(&Some(vec![error(ExceptionCode::Absent)])));
    assert!(!wikijs::common::error_code_readable(&Some(vec![error(ExceptionCode::NotAnInteger)])));
    assert!(wikijs::common::error_code_readable(&Some(vec![
        error(ExceptionCode::Integer(1)),
        error(ExceptionCode::NotAnInteger)
    ])));
}

#[test]
fn from_gives_the_error_of_a_code() {
    assert_eq!(PageError::from(6001), PageError::PageGenericError);
    assert_eq!(PageError::from(6003), PageError::PageNotFound);
    assert_eq!(PageError::from(6013), PageError::PageViewForbidden);
    assert_eq!(
        PageError::from(6014),
        PageError::UnknownErrorCode { code: 6014, message: "Unknown error".to_string() }
    );
    assert_eq!(AssetError::from(2002), AssetError::AssetFolderExists);
    assert_eq!(
        AssetError::from(2010),
        AssetError::UnknownErrorCode { code: 2010, message: "Unknown error".to_string() }
    );
}

#[test]
fn error_codes_are_written_in_decimal() {
    for code in [0i64, 7, 10, 6003, -1, -42, i64::MAX, i64::MIN] {
        let text = PageError::UnknownErrorCode { code, message: "m".to_string() }.to_string();
        assert_eq!(text, format!("Unknown response error code: {}: m", code));
    }
}
