//! HTTP status codes as the probe reads them off a response.

use vstd::prelude::*;

verus! {

/// A value that an HTTP status line can carry: three digits, 100 through 999.
pub open spec fn is_status_code(code: int) -> bool {
    100 <= code <= 999
}

/// A status in the success class, 200 through 299.
pub open spec fn is_success_code(code: int) -> bool {
    200 <= code <= 299
}

/// The decimal digit `d` (0 through 9) as a character.
pub open spec fn digit_char(d: int) -> char {
    (d + 48) as char
}

/// The three decimal digits of a status code, most significant first.
pub open spec fn status_digits(code: int) -> Seq<char> {
    seq![digit_char(code / 100), digit_char((code / 10) % 10), digit_char(code % 10)]
}

/// The reason phrase that `reqwest::StatusCode::canonical_reason` gives for `code`,
/// if the registry of status codes that it carries knows one.
pub uninterp spec fn canonical_reason_of(code: u16) -> Option<Seq<char>>;

/// The text that stands for a status code with no known reason phrase.
pub open spec fn unknown_reason_text() -> Seq<char> {
    seq!['<', 'u', 'n', 'k', 'n', 'o', 'w', 'n', ' ', 's', 't', 'a', 't', 'u', 's', ' ', 'c', 'o', 'd', 'e', '>']
}

/// How a status code reads in text: its three digits, a space, then its reason
/// phrase, or the unknown-reason text where it has none.
pub open spec fn status_text_of(code: u16) -> Seq<char> {
    status_digits(code as int) + seq![' '] + match canonical_reason_of(code) {
        Some(phrase) => phrase,
        None => unknown_reason_text(),
    }
}

/// Asks `reqwest::StatusCode::from_u16` whether it accepts `code`. Its source
/// accepts exactly 100 through 999, which is what the contract claims.
#[verifier::external_body]
fn status_code_accepted(code: u16) -> (accepted: bool)
    ensures
        accepted == is_status_code(code as int),
{
    reqwest::StatusCode::from_u16(code).is_ok()
}

/// Calls `reqwest::StatusCode::is_success` on the status made from `code`. Its
/// source tests `200..300`, which is what the contract claims.
#[verifier::external_body]
fn status_code_is_success(code: u16) -> (success: bool)
    requires
        is_status_code(code as int),
    ensures
        success == is_success_code(code as int),
{
    match reqwest::StatusCode::from_u16(code) {
        Ok(status) => status.is_success(),
        Err(_) => false,
    }
}

/// Renders the status made from `code` with its `Display` impl
/// (`reqwest::StatusCode`, that is `http::StatusCode`). Its source writes the
/// number, a space, and `canonical_reason()` or "<unknown status code>". The
/// contract states that shape; the table of reason phrases is left to the name
/// `canonical_reason_of`, of which nothing more is claimed.
#[verifier::external_body]
fn status_code_text(code: u16) -> (text: String)
    requires
        is_status_code(code as int),
    ensures
        canonical_reason_of(code) matches Some(phrase) ==> text@ == status_digits(code as int)
            + seq![' '] + phrase,
        canonical_reason_of(code) is None ==> text@ == status_digits(code as int) + seq![' ']
            + unknown_reason_text(),
{
    match reqwest::StatusCode::from_u16(code) {
        Ok(status) => status.to_string(),
        Err(_) => String::new(),
    }
}

/// The status code of an HTTP response; always within 100 through 999.
pub struct HttpStatus {
    code: u16,
}

impl View for HttpStatus {
    type V = u16;

    closed spec fn view(&self) -> u16 {
        self.code
    }
}

impl HttpStatus {
    #[verifier::type_invariant]
    spec fn holds_status_code(self) -> bool {
        is_status_code(self.code as int)
    }

    /// The status with the given code; `None` where the code is outside
    /// 100 through 999.
    pub fn from_code(code: u16) -> (status: Option<HttpStatus>)
        ensures
            status is Some <==> is_status_code(code as int),
            status matches Some(s) ==> s@ == code,
    {
        if status_code_accepted(code) {
            Some(HttpStatus { code })
        } else {
            None
        }
    }

    /// The numeric code.
    pub fn code(&self) -> (code: u16)
        ensures
            code == self@,
            is_status_code(code as int),
    {
        proof {
            use_type_invariant(self);
        }
        self.code
    }

    /// Whether the status is in the success class, 200 through 299.
    pub fn is_success(&self) -> (success: bool)
        ensures
            success == is_success_code(self@ as int),
    {
        proof {
            use_type_invariant(self);
        }
        status_code_is_success(self.code)
    }

    /// The status as text: its number, a space and its reason phrase.
    pub fn text(&self) -> (text: String)
        ensures
            text@ == status_text_of(self@),
    {
        proof {
            use_type_invariant(self);
        }
        status_code_text(self.code)
    }
}

} // verus!
