//! The request payloads of the service and the rules that validate them.
use vstd::prelude::*;

use crate::time::TimeSpan;

verus! {

/// Pattern a url to shorten must match: an `http` or `https` scheme followed
/// by at least one more character.
pub const RE_HTTP_SCHEME: &'static str = r"^https?://.+";

/// A password must contain a digit.
pub const RE_PASSWORD_NUMBER: &'static str = r"[0-9]";

/// A password must contain one of the special characters `#?!@$%^&*-`.
pub const RE_PASSWORD_SPECIAL: &'static str = r"[#?!@$%^&*-]";

/// A password must contain an upper-case letter.
pub const RE_PASSWORD_UPPERCASE: &'static str = r"[A-Z]";

// ---------------------------------------------------------------------------
// Calls into `validator` and `regex`
// ---------------------------------------------------------------------------

/// Name for what `validator::ValidateUrl::validate_url` answers for a string.
pub uninterp spec fn validator_accepts_url(s: Seq<char>) -> bool;

/// Name for what `validator::ValidateEmail::validate_email` answers for a string.
pub uninterp spec fn validator_accepts_email(s: Seq<char>) -> bool;

/// Name for what `regex::Regex::new(pattern)` followed by `is_match(haystack)`
/// gives: `None` when the pattern does not compile, otherwise whether the
/// compiled regex matches somewhere in `haystack`.
pub uninterp spec fn regex_search(pattern: Seq<char>, haystack: Seq<char>) -> Option<bool>;

/// Calls `validator::ValidateUrl::validate_url` on a `str`; the result is
/// `validator_accepts_url` of the string (the crate parses it with `url::Url`).
#[verifier::external_body]
fn url_is_valid(s: &str) -> (b: bool)
    ensures
        b == validator_accepts_url(s@),
{
    validator::ValidateUrl::validate_url(s)
}

/// Calls `validator::ValidateEmail::validate_email` on a `str`; the result is
/// `validator_accepts_email` of the string (HTML5 e-mail grammar plus
/// length limits on its two parts).
#[verifier::external_body]
fn email_is_valid(s: &str) -> (b: bool)
    ensures
        b == validator_accepts_email(s@),
{
    validator::ValidateEmail::validate_email(&s)
}

/// Calls `validator::ValidateLength::<u64>::validate_length` on a `str` with
/// no `equal` bound: the crate counts the string's chars and checks them
/// against `min` and `max` where given.
#[verifier::external_body]
fn length_is_valid(s: &str, min: Option<u64>, max: Option<u64>) -> (b: bool)
    ensures
        b == ((min matches Some(m) ==> s@.len() >= m) && (max matches Some(m) ==> s@.len() <= m)),
{
    validator::ValidateLength::<u64>::validate_length(s, min, max, None)
}

/// Calls `validator::validate_must_match` on two strings: they are equal.
#[verifier::external_body]
fn strings_match(a: &String, b: &String) -> (r: bool)
    ensures
        r == (a@ == b@),
{
    validator::validate_must_match(a, b)
}

/// `s` holds a decimal digit `0`-`9`.
pub open spec fn has_digit(s: Seq<char>) -> bool {
    exists|i: int| 0 <= i < s.len() && '0' <= #[trigger] s[i] && s[i] <= '9'
}

/// `c` is one of the special characters `#?!@$%^&*-`.
pub open spec fn is_special(c: char) -> bool {
    c == '#' || c == '?' || c == '!' || c == '@' || c == '$' || c == '%' || c == '^' || c == '&'
        || c == '*' || c == '-'
}

/// `s` holds one of the special characters `#?!@$%^&*-`.
pub open spec fn has_special(s: Seq<char>) -> bool {
    exists|i: int| 0 <= i < s.len() && is_special(#[trigger] s[i])
}

/// `s` holds an upper-case ASCII letter `A`-`Z`.
pub open spec fn has_uppercase(s: Seq<char>) -> bool {
    exists|i: int| 0 <= i < s.len() && 'A' <= #[trigger] s[i] && s[i] <= 'Z'
}

/// `s` starts with `http://` or `https://` followed by a character other
/// than a line feed.
pub open spec fn has_http_scheme(s: Seq<char>) -> bool {
    ||| s.len() > 7 && s.subrange(0, 7) == seq!['h', 't', 't', 'p', ':', '/', '/'] && s[7] != '\n'
    ||| s.len() > 8 && s.subrange(0, 8) == seq!['h', 't', 't', 'p', 's', ':', '/', '/'] && s[8]
        != '\n'
}

/// Compiles `pattern` with `regex::Regex::new` and, when it compiles, asks
/// `Regex::is_match` whether it matches somewhere in `haystack` (which is
/// what `Regex::find(..).is_some()` answers too). The result is
/// `regex_search` of the two strings. For the four patterns of this module
/// the result is also stated, as the crate's syntax documentation defines
/// them (`[..]` a class of characters, `^` the start of the haystack, `?`
/// an optional item, `.` any character but a line feed, `+` one or more)
/// and `is_match` searches anywhere in the haystack.
#[verifier::external_body]
fn regex_is_match(pattern: &str, haystack: &str) -> (r: Option<bool>)
    ensures
        r == regex_search(pattern@, haystack@),
        pattern@ == RE_HTTP_SCHEME@ ==> r == Some(has_http_scheme(haystack@)),
        pattern@ == RE_PASSWORD_NUMBER@ ==> r == Some(has_digit(haystack@)),
        pattern@ == RE_PASSWORD_SPECIAL@ ==> r == Some(has_special(haystack@)),
        pattern@ == RE_PASSWORD_UPPERCASE@ ==> r == Some(has_uppercase(haystack@)),
{
    match regex::Regex::new(pattern) {
        Ok(re) => Some(re.is_match(haystack)),
        Err(_) => None,
    }
}

/// `pattern` compiles and matches somewhere in `haystack`.
pub open spec fn pattern_matches(pattern: Seq<char>, haystack: Seq<char>) -> bool {
    regex_search(pattern, haystack) == Some(true)
}

fn matches_pattern(pattern: &str, haystack: &str) -> (b: bool)
    ensures
        b == pattern_matches(pattern@, haystack@),
        pattern@ == RE_HTTP_SCHEME@ ==> b == has_http_scheme(haystack@),
        pattern@ == RE_PASSWORD_NUMBER@ ==> b == has_digit(haystack@),
        pattern@ == RE_PASSWORD_SPECIAL@ ==> b == has_special(haystack@),
        pattern@ == RE_PASSWORD_UPPERCASE@ ==> b == has_uppercase(haystack@),
{
    match regex_is_match(pattern, haystack) {
        Some(found) => found,
        None => false,
    }
}

// ---------------------------------------------------------------------------
// Validation errors
// ---------------------------------------------------------------------------

/// A field of a request payload.
#[derive(Clone, Copy, Debug, PartialEq, Eq, Structural)]
pub enum Field {
    Url,
    Name,
    Email,
    Password,
    ConfirmedPassword,
}

/// Why a field was refused.
#[derive(Clone, Copy, Debug, PartialEq, Eq, Structural)]
pub enum ErrorCode {
    /// Not a url.
    Url,
    /// Does not match the field's pattern.
    Regex,
    /// Too short or too long.
    Length,
    /// Not an e-mail address.
    Email,
    /// Differs from the field it must repeat.
    MustMatch,
    /// A password without a digit.
    NoNumber,
    /// A password without a special character.
    NoSpecial,
    /// A password without an upper-case letter.
    NoUppercase,
}

impl ErrorCode {
    pub open spec fn spec_code(self) -> Seq<char> {
        match self {
            ErrorCode::Url => "url"@,
            ErrorCode::Regex => "regex"@,
            ErrorCode::Length => "length"@,
            ErrorCode::Email => "email"@,
            ErrorCode::MustMatch => "must_match"@,
            ErrorCode::NoNumber => "no_number"@,
            ErrorCode::NoSpecial => "no_special"@,
            ErrorCode::NoUppercase => "no_uppercase"@,
        }
    }

    /// The code under which the error is reported.
    pub fn code(&self) -> (c: &'static str)
        ensures
            c@ == self.spec_code(),
    {
        match self {
            ErrorCode::Url => "url",
            ErrorCode::Regex => "regex",
            ErrorCode::Length => "length",
            ErrorCode::Email => "email",
            ErrorCode::MustMatch => "must_match",
            ErrorCode::NoNumber => "no_number",
            ErrorCode::NoSpecial => "no_special",
            ErrorCode::NoUppercase => "no_uppercase",
        }
    }
}

impl Field {
    pub open spec fn spec_name(self) -> Seq<char> {
        match self {
            Field::Url => "url"@,
            Field::Name => "name"@,
            Field::Email => "email"@,
            Field::Password => "password"@,
            Field::ConfirmedPassword => "confirmed_password"@,
        }
    }

    /// The field's name in the payload.
    pub fn name(&self) -> (n: &'static str)
        ensures
            n@ == self.spec_name(),
    {
        match self {
            Field::Url => "url",
            Field::Name => "name",
            Field::Email => "email",
            Field::Password => "password",
            Field::ConfirmedPassword => "confirmed_password",
        }
    }
}

/// One refused field and the reason.
#[derive(Clone, Copy, Debug, PartialEq, Eq, Structural)]
pub struct FieldError {
    pub field: Field,
    pub code: ErrorCode,
}

/// `seq![FieldError { field, code }]` when `failed`, else nothing.
pub open spec fn error_if(failed: bool, field: Field, code: ErrorCode) -> Seq<FieldError> {
    if failed {
        seq![FieldError { field, code }]
    } else {
        Seq::empty()
    }
}

/// The outcome of a validation that found `errors`: `Ok` exactly when there
/// are none.
pub open spec fn validation_outcome(
    r: Result<(), Vec<FieldError>>,
    errors: Seq<FieldError>,
) -> bool {
    &&& r is Ok <==> errors.len() == 0
    &&& r matches Err(v) ==> v@ == errors
}

fn push_if(errors: &mut Vec<FieldError>, failed: bool, field: Field, code: ErrorCode)
    ensures
        final(errors)@ == old(errors)@ + error_if(failed, field, code),
{
    if failed {
        errors.push(FieldError { field, code });
    }
    assert(final(errors)@ =~= old(errors)@ + error_if(failed, field, code));
}

fn finish(errors: Vec<FieldError>) -> (r: Result<(), Vec<FieldError>>)
    ensures
        validation_outcome(r, errors@),
{
    if errors.len() == 0 {
        Ok(())
    } else {
        Err(errors)
    }
}

// ---------------------------------------------------------------------------
// Expiration options
// ---------------------------------------------------------------------------

/// How long a shortened url stays reachable.
#[derive(Clone, Copy, Debug, PartialEq, Eq, Structural)]
pub enum ExpirationOptions {
    Hour,
    Day,
    Week,
    Never,
    Custom(TimeSpan),
}

impl ExpirationOptions {
    /// The span each option stands for.
    pub open spec fn spec_span(self) -> TimeSpan {
        match self {
            ExpirationOptions::Hour => TimeSpan { secs: 3600, nanos: 0 },
            ExpirationOptions::Day => TimeSpan { secs: 86400, nanos: 0 },
            ExpirationOptions::Week => TimeSpan { secs: 604800, nanos: 0 },
            ExpirationOptions::Never => TimeSpan::spec_max(),
            ExpirationOptions::Custom(span) => span,
        }
    }

    /// The span of time this option stands for: one hour, one day, one
    /// week, the largest span for `Never`, or the custom span itself.
    pub fn into_time_span(self) -> (span: TimeSpan)
        ensures
            span == self.spec_span(),
    {
        match self {
            ExpirationOptions::Hour => TimeSpan { secs: 3600, nanos: 0 },
            ExpirationOptions::Day => TimeSpan { secs: 24 * 3600, nanos: 0 },
            ExpirationOptions::Week => TimeSpan { secs: 7 * 24 * 3600, nanos: 0 },
            ExpirationOptions::Never => TimeSpan::max(),
            ExpirationOptions::Custom(span) => span,
        }
    }
}

impl Default for ExpirationOptions {
    /// One hour.
    fn default() -> (e: ExpirationOptions)
        ensures
            e == ExpirationOptions::Hour,
    {
        ExpirationOptions::Hour
    }
}

// ---------------------------------------------------------------------------
// Payloads
// ---------------------------------------------------------------------------

/// A request to shorten `url`, optionally with a lifetime.
#[derive(Clone, Debug)]
pub struct ShortenUrlDto {
    pub url: String,
    pub expire_in: Option<ExpirationOptions>,
}

/// The errors found in a url to shorten: not a url, and not of the
/// `http`/`https` scheme, in that order.
pub open spec fn shorten_url_errors(url: Seq<char>) -> Seq<FieldError> {
    error_if(!validator_accepts_url(url), Field::Url, ErrorCode::Url)
        + error_if(!has_http_scheme(url), Field::Url, ErrorCode::Regex)
}

impl ShortenUrlDto {
    /// Accepts the payload when its url is a url with an `http` or `https`
    /// scheme; otherwise lists what is wrong with it.
    pub fn validate(&self) -> (r: Result<(), Vec<FieldError>>)
        ensures
            validation_outcome(r, shorten_url_errors(self.url@)),
    {
        let mut errors: Vec<FieldError> = Vec::new();
        let url = self.url.as_str();
        push_if(&mut errors, !url_is_valid(url), Field::Url, ErrorCode::Url);
        push_if(&mut errors, !matches_pattern(RE_HTTP_SCHEME, url), Field::Url, ErrorCode::Regex);
        assert(errors@ =~= shorten_url_errors(self.url@));
        finish(errors)
    }
}

/// A url to shorten is accepted exactly when the url validator accepts it
/// and it has an `http` or `https` scheme, whatever its length; each of the
/// two failures is reported, and only when it occurs.
pub proof fn lemma_shorten_url_rules(url: Seq<char>)
    ensures
        shorten_url_errors(url).len() == 0 <==> (validator_accepts_url(url) && has_http_scheme(
            url,
        )),
        shorten_url_errors(url).contains(FieldError { field: Field::Url, code: ErrorCode::Url })
            <==> !validator_accepts_url(url),
        shorten_url_errors(url).contains(FieldError { field: Field::Url, code: ErrorCode::Regex })
            <==> !has_http_scheme(url),
        forall|i: int|
            0 <= i < shorten_url_errors(url).len() ==> (#[trigger] shorten_url_errors(url)[i]).field
                == Field::Url,
{
    let e = shorten_url_errors(url);
    let a = error_if(!validator_accepts_url(url), Field::Url, ErrorCode::Url);
    let b = error_if(!has_http_scheme(url), Field::Url, ErrorCode::Regex);
    assert(e == a + b);
    let eu = FieldError { field: Field::Url, code: ErrorCode::Url };
    let er = FieldError { field: Field::Url, code: ErrorCode::Regex };
    if !validator_accepts_url(url) {
        assert(e[0] == eu);
    }
    if !has_http_scheme(url) {
        assert(e[a.len() as int] == er);
    }
    if e.contains(eu) {
        let i = choose|i: int| 0 <= i < e.len() && e[i] == eu;
        if i >= a.len() {
            assert(e[i] == b[i - a.len()]);
        }
    }
    if e.contains(er) {
        let i = choose|i: int| 0 <= i < e.len() && e[i] == er;
        if i < a.len() {
            assert(e[i] == a[i]);
        }
    }
    assert forall|i: int| 0 <= i < e.len() implies (#[trigger] e[i]).field == Field::Url by {
        if i < a.len() {
            assert(e[i] == a[i]);
        } else {
            assert(e[i] == b[i - a.len()]);
        }
    }
}

/// The first rule a password breaks: no digit, then no special character,
/// then no upper-case letter.
pub open spec fn password_rule_broken(password: Seq<char>) -> Option<ErrorCode> {
    if !has_digit(password) {
        Some(ErrorCode::NoNumber)
    } else if !has_special(password) {
        Some(ErrorCode::NoSpecial)
    } else if !has_uppercase(password) {
        Some(ErrorCode::NoUppercase)
    } else {
        None
    }
}

/// Checks that a password holds a digit, a special character of
/// `#?!@$%^&*-` and an upper-case letter, and reports the first that is
/// missing.
pub fn validate_password(password: &str) -> (r: Result<(), ErrorCode>)
    ensures
        r is Ok <==> password_rule_broken(password@) is None,
        r matches Err(code) ==> password_rule_broken(password@) == Some(code),
{
    if !matches_pattern(RE_PASSWORD_NUMBER, password) {
        return Err(ErrorCode::NoNumber);
    }
    if !matches_pattern(RE_PASSWORD_SPECIAL, password) {
        return Err(ErrorCode::NoSpecial);
    }
    if !matches_pattern(RE_PASSWORD_UPPERCASE, password) {
        return Err(ErrorCode::NoUppercase);
    }
    Ok(())
}

/// A password is accepted exactly when it holds a digit, a special
/// character of `#?!@$%^&*-` and an upper-case letter `A`-`Z`, whatever its
/// length; a refused password is refused for the first of these it lacks,
/// in that order, and a registration with such a password is refused.
pub proof fn lemma_password_rules(
    name: Seq<char>,
    email: Seq<char>,
    password: Seq<char>,
    confirmed_password: Seq<char>,
)
    ensures
        password_rule_broken(password) is None <==> (has_digit(password) && has_special(password)
            && has_uppercase(password)),
        !has_digit(password) ==> password_rule_broken(password) == Some(ErrorCode::NoNumber),
        has_digit(password) && !has_special(password) ==> password_rule_broken(password) == Some(
            ErrorCode::NoSpecial,
        ),
        has_digit(password) && has_special(password) && !has_uppercase(password)
            ==> password_rule_broken(password) == Some(ErrorCode::NoUppercase),
        password_rule_broken(password) matches Some(code) ==> register_errors(
            name,
            email,
            password,
            confirmed_password,
        ).contains(FieldError { field: Field::Password, code }),
{
    if password_rule_broken(password) is Some {
        let code = password_rule_broken(password)->Some_0;
        let pre = error_if(!length_within(name, Some(2), Some(255)), Field::Name, ErrorCode::Length)
            + error_if(!length_within(email, None, Some(255)), Field::Email, ErrorCode::Length)
            + error_if(!validator_accepts_email(email), Field::Email, ErrorCode::Email);
        let mid = seq![FieldError { field: Field::Password, code }];
        let post = error_if(password != confirmed_password, Field::Password, ErrorCode::MustMatch)
            + error_if(!length_within(password, Some(8), None), Field::Password, ErrorCode::Length)
            + error_if(confirmed_password != password, Field::ConfirmedPassword, ErrorCode::MustMatch);
        let all = register_errors(name, email, password, confirmed_password);
        assert(all =~= pre + mid + post);
        assert(all[pre.len() as int] == FieldError { field: Field::Password, code });
    }
}

/// A request to register a user.
#[derive(Clone, Debug)]
pub struct RegisterDto {
    pub name: String,
    pub email: String,
    pub password: String,
    pub confirmed_password: String,
}

pub open spec fn length_within(s: Seq<char>, min: Option<u64>, max: Option<u64>) -> bool {
    (min matches Some(m) ==> s.len() >= m) && (max matches Some(m) ==> s.len() <= m)
}

/// The errors found in a registration, field by field: the name's length
/// (2 to 255 chars); the e-mail's length (at most 255) and form; the
/// password's rules, its match with the confirmation and its length (at
/// least 8); the confirmation's match with the password.
pub open spec fn register_errors(
    name: Seq<char>,
    email: Seq<char>,
    password: Seq<char>,
    confirmed_password: Seq<char>,
) -> Seq<FieldError> {
    error_if(!length_within(name, Some(2), Some(255)), Field::Name, ErrorCode::Length)
        + error_if(!length_within(email, None, Some(255)), Field::Email, ErrorCode::Length)
        + error_if(!validator_accepts_email(email), Field::Email, ErrorCode::Email)
        + (match password_rule_broken(password) {
        Some(code) => seq![FieldError { field: Field::Password, code }],
        None => Seq::empty(),
    }) + error_if(password != confirmed_password, Field::Password, ErrorCode::MustMatch)
        + error_if(!length_within(password, Some(8), None), Field::Password, ErrorCode::Length)
        + error_if(confirmed_password != password, Field::ConfirmedPassword, ErrorCode::MustMatch)
}

impl RegisterDto {
    /// Checks every field and lists every refusal.
    pub fn validate(&self) -> (r: Result<(), Vec<FieldError>>)
        ensures
            validation_outcome(
                r,
                register_errors(self.name@, self.email@, self.password@, self.confirmed_password@),
            ),
    {
        let mut errors: Vec<FieldError> = Vec::new();
        push_if(
            &mut errors,
            !length_is_valid(self.name.as_str(), Some(2), Some(255)),
            Field::Name,
            ErrorCode::Length,
        );
        push_if(
            &mut errors,
            !length_is_valid(self.email.as_str(), None, Some(255)),
            Field::Email,
            ErrorCode::Length,
        );
        push_if(&mut errors, !email_is_valid(self.email.as_str()), Field::Email, ErrorCode::Email);
        match validate_password(self.password.as_str()) {
            Ok(()) => {},
            Err(code) => {
                errors.push(FieldError { field: Field::Password, code });
            },
        }
        push_if(
            &mut errors,
            !strings_match(&self.password, &self.confirmed_password),
            Field::Password,
            ErrorCode::MustMatch,
        );
        push_if(
            &mut errors,
            !length_is_valid(self.password.as_str(), Some(8), None),
            Field::Password,
            ErrorCode::Length,
        );
        push_if(
            &mut errors,
            !strings_match(&self.confirmed_password, &self.password),
            Field::ConfirmedPassword,
            ErrorCode::MustMatch,
        );
        assert(errors@ =~= register_errors(
            self.name@,
            self.email@,
            self.password@,
            self.confirmed_password@,
        ));
        finish(errors)
    }
}

/// A request to log in.
#[derive(Clone, Debug)]
pub struct LoginDto {
    pub email: String,
    pub password: String,
}

/// The errors found in a login: the e-mail's form, then its length (at most
/// 255 chars).
pub open spec fn login_errors(email: Seq<char>) -> Seq<FieldError> {
    error_if(!validator_accepts_email(email), Field::Email, ErrorCode::Email)
        + error_if(!length_within(email, None, Some(255)), Field::Email, ErrorCode::Length)
}

impl LoginDto {
    /// Checks the e-mail; the password is not checked here.
    pub fn validate(&self) -> (r: Result<(), Vec<FieldError>>)
        ensures
            validation_outcome(r, login_errors(self.email@)),
    {
        let mut errors: Vec<FieldError> = Vec::new();
        push_if(&mut errors, !email_is_valid(self.email.as_str()), Field::Email, ErrorCode::Email);
        push_if(
            &mut errors,
            !length_is_valid(self.email.as_str(), None, Some(255)),
            Field::Email,
            ErrorCode::Length,
        );
        assert(errors@ =~= login_errors(self.email@));
        finish(errors)
    }
}

} // verus!
