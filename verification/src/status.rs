//! HTTP status codes.

use vstd::prelude::*;

verus! {

/// The line that stands for a status code in messages: the number, a space
/// and the reason phrase registered for it.
pub uninterp spec fn status_line(code: u16) -> Seq<char>;

/// An HTTP status code: a number of three digits.
#[derive(Clone, Copy, Debug, PartialEq, Eq)]
pub struct HttpStatus {
    code: u16,
}

impl HttpStatus {
    /// Every status holds a code from 100 to 999.
    #[verifier::type_invariant]
    pub closed spec fn in_range(self) -> bool {
        100 <= self.code <= 999
    }

    /// The number this status stands for, in contracts.
    pub closed spec fn code(self) -> u16 {
        self.code
    }

    /// Accepts the codes from 100 to 999 and no others.
    pub fn from_u16(code: u16) -> (status: Option<HttpStatus>)
        ensures
            status is Some <==> 100 <= code <= 999,
            status is Some ==> status->0.code() == code,
    {
        if 100 <= code && code <= 999 {
            Some(HttpStatus { code })
        } else {
            None
        }
    }

    /// The number this status stands for.
    pub fn as_u16(&self) -> (code: u16)
        ensures
            code == self.code(),
            100 <= code <= 999,
    {
        proof {
            use_type_invariant(self);
        }
        self.code
    }

    /// Whether the code is one of the 5xx family.
    pub fn is_server_error(&self) -> (yes: bool)
        ensures
            yes == (500 <= self.code() < 600),
    {
        500 <= self.code && self.code < 600
    }

    /// The status as it is written into messages, for instance
    /// `404 Not Found`.
    pub fn line(&self) -> (text: String)
        ensures
            text@ == status_line(self.code()),
    {
        let code = self.as_u16();
        display_status(code)
    }
}

/// Formats a code through `reqwest::StatusCode`: `from_u16` accepts exactly
/// the codes from 100 to 999, and the `Display` impl of the resulting value
/// writes the number, a space and the canonical reason phrase, or
/// `<unknown status code>` where none is registered. The text depends on the
/// code alone; the contract gives it the name [`status_line`] and claims
/// nothing else. Not verified: the contract is taken on trust.
#[verifier::external_body]
fn display_status(code: u16) -> (text: String)
    requires
        100 <= code <= 999,
    ensures
        text@ == status_line(code),
{
    match reqwest::StatusCode::from_u16(code) {
        Ok(status) => status.to_string(),
        Err(_) => String::new(),
    }
}

} // verus!
