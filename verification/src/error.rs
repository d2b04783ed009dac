//! The failures of a lookup, and their messages.

use vstd::prelude::*;
use vstd::string::*;

verus! {

/// Why a body could not be decoded.
#[derive(Clone, Copy, Debug, PartialEq, Eq, Structural)]
pub enum DecodeCause {
    /// The body is not a JSON document.
    Syntax,
    /// The body is a JSON document that does not describe a repository: a
    /// member is missing or has another type, or the owner's kind is not a
    /// known one.
    Schema,
}

/// Why a lookup failed.
#[derive(Clone, Debug, PartialEq, Eq)]
pub enum GhRepoInfoError {
    /// The request could not be sent, or the answer could not be received in
    /// full. Holds the message of the transport's own error.
    SendRequest(String),
    /// The server answered with a status code outside 200..=299.
    ResponseNonSuccess(u16),
    /// The body of the answer could not be decoded.
    DeserializeFailed(DecodeCause),
}

/// The decimal digit of a value below 10.
pub open spec fn digit(d: nat) -> char {
    (0x30 + d) as u8 as char
}

/// The decimal numeral of a number, without leading zeros.
pub open spec fn decimal(n: nat) -> Seq<char>
    decreases n,
{
    if n < 10 {
        seq![digit(n)]
    } else {
        decimal(n / 10).push(digit(n % 10))
    }
}

fn digit_text(d: u16) -> (r: &'static str)
    requires
        d < 10,
    ensures
        r@ == seq![digit(d as nat)],
{
    proof {
        reveal_strlit("0");
        reveal_strlit("1");
        reveal_strlit("2");
        reveal_strlit("3");
        reveal_strlit("4");
        reveal_strlit("5");
        reveal_strlit("6");
        reveal_strlit("7");
        reveal_strlit("8");
        reveal_strlit("9");
    }
    let r = match d {
        0 => "0",
        1 => "1",
        2 => "2",
        3 => "3",
        4 => "4",
        5 => "5",
        6 => "6",
        7 => "7",
        8 => "8",
        _ => "9",
    };
    assert(r@ =~= seq![digit(d as nat)]);
    r
}

/// Writes a number as its decimal numeral.
pub fn decimal_text(n: u16) -> (r: String)
    ensures
        r@ == decimal(n as nat),
    decreases n,
{
    if n < 10 {
        String::from_str(digit_text(n))
    } else {
        let mut text = decimal_text(n / 10);
        text.append(digit_text(n % 10));
        text
    }
}

impl DecodeCause {
    /// The message of this cause.
    pub open spec fn spec_message(self) -> Seq<char> {
        match self {
            DecodeCause::Syntax => "the body is not a JSON document"@,
            DecodeCause::Schema => "the body does not describe a repository"@,
        }
    }

    /// A message for a reader.
    pub fn message(&self) -> (r: String)
        ensures
            r@ == self.spec_message(),
    {
        match self {
            DecodeCause::Syntax => String::from_str("the body is not a JSON document"),
            DecodeCause::Schema => String::from_str("the body does not describe a repository"),
        }
    }
}

impl GhRepoInfoError {
    /// The message of this failure: what failed, then the cause's message
    /// or the status code.
    pub open spec fn spec_message(self) -> Seq<char> {
        match self {
            GhRepoInfoError::SendRequest(cause) => "send request failed: "@ + cause@,
            GhRepoInfoError::ResponseNonSuccess(code) => "response non-successful: "@ + decimal(
                code as nat,
            ),
            GhRepoInfoError::DeserializeFailed(cause) => "deserialization failed: "@
                + cause.spec_message(),
        }
    }

    /// The message of the underlying cause, for the two kinds that have one.
    pub open spec fn spec_source(self) -> Option<Seq<char>> {
        match self {
            GhRepoInfoError::SendRequest(cause) => Some(cause@),
            GhRepoInfoError::ResponseNonSuccess(_) => None,
            GhRepoInfoError::DeserializeFailed(cause) => Some(cause.spec_message()),
        }
    }

    /// A message for a reader.
    pub fn message(&self) -> (r: String)
        ensures
            r@ == self.spec_message(),
    {
        match self {
            GhRepoInfoError::SendRequest(cause) => {
                String::from_str("send request failed: ").concat(cause.as_str())
            },
            GhRepoInfoError::ResponseNonSuccess(code) => {
                String::from_str("response non-successful: ").concat(decimal_text(*code).as_str())
            },
            GhRepoInfoError::DeserializeFailed(cause) => {
                String::from_str("deserialization failed: ").concat(cause.message().as_str())
            },
        }
    }

    /// The message of the underlying cause. A status code outside the
    /// success range has no cause behind it.
    pub fn source(&self) -> (r: Option<String>)
        ensures
            r.is_some() == self.spec_source().is_some(),
            r matches Some(text) ==> self.spec_source() == Some(text@),
    {
        match self {
            GhRepoInfoError::SendRequest(cause) => Some(cause.clone()),
            GhRepoInfoError::ResponseNonSuccess(_) => None,
            GhRepoInfoError::DeserializeFailed(cause) => Some(cause.message()),
        }
    }
}

} // verus!
