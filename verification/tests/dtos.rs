use shorten_rs::dtos::{
    validate_password, ErrorCode, ExpirationOptions, Field, FieldError, LoginDto, RegisterDto,
    ShortenUrlDto,
};
use shorten_rs::time::TimeSpan;

fn dto(url: &str) -> ShortenUrlDto {
    ShortenUrlDto {
        url: url.to_string(),
        expire_in: None,
    }
}

#[test]
fn lib_accepts_http_and_https_urls() {
    assert!(dto("http://example.com").validate().is_ok());
    assert!(dto("https://example.com/path?q=1").validate().is_ok());
}

#[test]
fn lib_rejects_urls_without_http_scheme() {
    // Valid URL but wrong scheme (regex requires http/https).
    assert!(dto("ftp://example.com").validate().is_err());
    // Missing scheme entirely.
    assert!(dto("example.com").validate().is_err());
}

#[test]
fn lib_rejects_non_url_input() {
    assert!(dto("not a url").validate().is_err());
    assert!(dto("").validate().is_err());
}

#[test]
fn shorten_dto_reports_the_scheme_rule_alone_for_an_ftp_url() {
    let errors = dto("ftp://example.com").validate().unwrap_err();
    assert_eq!(
        errors,
        vec![FieldError {
            field: Field::Url,
            code: ErrorCode::Regex
        }]
    );
}

#[test]
fn shorten_dto_reports_both_rules_for_a_non_url() {
    let errors = dto("not a url").validate().unwrap_err();
    assert_eq!(
        errors,
        vec![
            FieldError {
                field: Field::Url,
                code: ErrorCode::Url
            },
            FieldError {
                field: Field::Url,
                code: ErrorCode::Regex
            },
        ]
    );
}

#[test]
fn shorten_dto_scheme_needs_something_after_the_slashes() {
    let errors = dto("http://").validate().unwrap_err();
    assert!(errors.contains(&FieldError {
        field: Field::Url,
        code: ErrorCode::Regex
    }));
}

#[test]
fn password_rules_are_checked_in_order() {
    assert_eq!(validate_password("Password!"), Err(ErrorCode::NoNumber));
    assert_eq!(validate_password("Password1"), Err(ErrorCode::NoSpecial));
    assert_eq!(validate_password("password1!"), Err(ErrorCode::NoUppercase));
    assert_eq!(validate_password("Password1!"), Ok(()));
    assert_eq!(validate_password("A1-"), Ok(()));
}

fn register(name: &str, email: &str, password: &str, confirmed: &str) -> RegisterDto {
    RegisterDto {
        name: name.to_string(),
        email: email.to_string(),
        password: password.to_string(),
        confirmed_password: confirmed.to_string(),
    }
}

#[test]
fn register_dto_accepts_a_well_formed_registration() {
    assert!(register("Alice", "alice@example.com", "Hunter2!x", "Hunter2!x")
        .validate()
        .is_ok());
}

#[test]
fn register_dto_lists_every_broken_rule() {
    let errors = register("A", "not-an-email", "short", "other")
        .validate()
        .unwrap_err();
    assert_eq!(
        errors,
        vec![
            FieldError {
                field: Field::Name,
                code: ErrorCode::Length
            },
            FieldError {
                field: Field::Email,
                code: ErrorCode::Email
            },
            FieldError {
                field: Field::Password,
                code: ErrorCode::NoNumber
            },
            FieldError {
                field: Field::Password,
                code: ErrorCode::MustMatch
            },
            FieldError {
                field: Field::Password,
                code: ErrorCode::Length
            },
            FieldError {
                field: Field::ConfirmedPassword,
                code: ErrorCode::MustMatch
            },
        ]
    );
}

#[test]
fn register_dto_counts_characters_not_bytes() {
    // Two characters, four bytes: long enough for a name.
    assert!(register("éé", "a@b.co", "Hunter2!x", "Hunter2!x")
        .validate()
        .is_ok());
    let long_name = "x".repeat(256);
    let errors = register(&long_name, "a@b.co", "Hunter2!x", "Hunter2!x")
        .validate()
        .unwrap_err();
    assert_eq!(
        errors,
        vec![FieldError {
            field: Field::Name,
            code: ErrorCode::Length
        }]
    );
}

#[test]
fn login_dto_checks_the_email() {
    let ok = LoginDto {
        email: "alice@example.com".to_string(),
        password: String::new(),
    };
    assert!(ok.validate().is_ok());
    let bad = LoginDto {
        email: "alice".to_string(),
        password: "whatever".to_string(),
    };
    assert_eq!(
        bad.validate().unwrap_err(),
        vec![FieldError {
            field: Field::Email,
            code: ErrorCode::Email
        }]
    );
}

#[test]
fn error_codes_and_field_names() {
    assert_eq!(ErrorCode::MustMatch.code(), "must_match");
    assert_eq!(ErrorCode::NoUppercase.code(), "no_uppercase");
    assert_eq!(Field::ConfirmedPassword.name(), "confirmed_password");
}

#[test]
fn expiration_options_map_to_their_spans() {
    assert_eq!(ExpirationOptions::Hour.into_time_span(), TimeSpan::from_secs(3600));
    assert_eq!(ExpirationOptions::Day.into_time_span(), TimeSpan::from_secs(24 * 3600));
    assert_eq!(
        ExpirationOptions::Week.into_time_span(),
        TimeSpan::from_secs(7 * 24 * 3600)
    );
    assert_eq!(ExpirationOptions::Never.into_time_span(), TimeSpan::max());
    let custom = TimeSpan { secs: 90, nanos: 5 };
    assert_eq!(ExpirationOptions::Custom(custom).into_time_span(), custom);
    assert_eq!(ExpirationOptions::default(), ExpirationOptions::Hour);
}
