//! The error taxonomy of the client.
//!
//! Every failure on the fetch path is returned to the immediate caller of a
//! single-page or single-resource operation. The one place an error is
//! absorbed instead of surfaced is the cross-page iterator, which downgrades
//! a mid-iteration failure to end-of-sequence; see the `pagination` module.

use vstd::prelude::*;
use vstd::string::StringExecFns;

verus! {

/// Errors that can be returned by the API client.
#[derive(Debug, PartialEq)]
pub enum Error {
    /// The text built for the request could not be parsed as a URL.
    InvalidUrl {
        /// url that was requested
        url: String,
    },
    /// The transport failed before a status and body came back: connection,
    /// name resolution, or the body could not be read.
    Http {
        /// url that was requested
        url: String,
        /// what the transport reported
        detail: String,
    },
    /// The server answered the request with a non-success status.
    ErrorResponse {
        /// url that was requested
        url: String,
        /// status code of the response
        status_code: u16,
        /// message carried by the response body, or a fixed sentinel
        message: String,
    },
    /// The response body did not have the expected shape.
    Deserialization {
        /// what went wrong while reading the body
        detail: String,
    },
}

/// The character for one decimal digit.
pub open spec fn digit_char(d: nat) -> char {
    if d == 0 {
        '0'
    } else if d == 1 {
        '1'
    } else if d == 2 {
        '2'
    } else if d == 3 {
        '3'
    } else if d == 4 {
        '4'
    } else if d == 5 {
        '5'
    } else if d == 6 {
        '6'
    } else if d == 7 {
        '7'
    } else if d == 8 {
        '8'
    } else {
        '9'
    }
}

/// The decimal rendering of `n`, most significant digit first.
pub open spec fn decimal_digits(n: nat) -> Seq<char>
    decreases n,
{
    if n < 10 {
        seq![digit_char(n)]
    } else {
        decimal_digits(n / 10).push(digit_char(n % 10))
    }
}

/// One decimal digit as text.
fn digit_str(d: u16) -> (r: &'static str)
    requires
        d < 10,
    ensures
        r@ == seq![digit_char(d as nat)],
{
    if d == 0 {
        let s = "0";
        proof {
            reveal_strlit("0");
            assert(s@ =~= seq![digit_char(0)]);
        }
        s
    } else if d == 1 {
        let s = "1";
        proof {
            reveal_strlit("1");
            assert(s@ =~= seq![digit_char(1)]);
        }
        s
    } else if d == 2 {
        let s = "2";
        proof {
            reveal_strlit("2");
            assert(s@ =~= seq![digit_char(2)]);
        }
        s
    } else if d == 3 {
        let s = "3";
        proof {
            reveal_strlit("3");
            assert(s@ =~= seq![digit_char(3)]);
        }
        s
    } else if d == 4 {
        let s = "4";
        proof {
            reveal_strlit("4");
            assert(s@ =~= seq![digit_char(4)]);
        }
        s
    } else if d == 5 {
        let s = "5";
        proof {
            reveal_strlit("5");
            assert(s@ =~= seq![digit_char(5)]);
        }
        s
    } else if d == 6 {
        let s = "6";
        proof {
            reveal_strlit("6");
            assert(s@ =~= seq![digit_char(6)]);
        }
        s
    } else if d == 7 {
        let s = "7";
        proof {
            reveal_strlit("7");
            assert(s@ =~= seq![digit_char(7)]);
        }
        s
    } else if d == 8 {
        let s = "8";
        proof {
            reveal_strlit("8");
            assert(s@ =~= seq![digit_char(8)]);
        }
        s
    } else {
        let s = "9";
        proof {
            reveal_strlit("9");
            assert(s@ =~= seq![digit_char(9)]);
        }
        s
    }
}

/// The decimal rendering of `n` as an owned string.
pub fn decimal_string(n: u16) -> (r: String)
    ensures
        r@ == decimal_digits(n as nat),
    decreases n,
{
    if n < 10 {
        let r = String::from_str(digit_str(n));
        proof {
            assert(r@ =~= decimal_digits(n as nat));
        }
        r
    } else {
        let r = decimal_string(n / 10).concat(digit_str(n % 10));
        proof {
            assert(r@ =~= decimal_digits(n as nat));
        }
        r
    }
}

/// What `describe` renders for each error.
pub open spec fn description_of(e: Error) -> Seq<char> {
    match e {
        Error::InvalidUrl { url } => "Error converting to url '"@ + url@ + "'"@,
        Error::Http { url, detail } => "HTTP error on '"@ + url@ + "': "@ + detail@,
        Error::ErrorResponse { url, status_code, message } => "Error on '"@ + url@ + "': "@
            + decimal_digits(status_code as nat) + " - "@ + message@,
        Error::Deserialization { detail } => "Deserialization error: "@ + detail@,
    }
}

impl Error {
    /// A readable, single-line account of the error.
    pub fn describe(&self) -> (r: String)
        ensures
            r@ == description_of(*self),
    {
        match self {
            Error::InvalidUrl { url } => String::from_str("Error converting to url '").concat(
                url.as_str(),
            ).concat("'"),
            Error::Http { url, detail } => String::from_str("HTTP error on '").concat(
                url.as_str(),
            ).concat("': ").concat(detail.as_str()),
            Error::ErrorResponse { url, status_code, message } => String::from_str("Error on '")
                .concat(url.as_str()).concat("': ").concat(decimal_string(*status_code).as_str())
                .concat(" - ").concat(message.as_str()),
            Error::Deserialization { detail } => String::from_str("Deserialization error: ")
                .concat(detail.as_str()),
        }
    }
}

} // verus!
