//! The error kinds a request can end in, and the human-readable message
//! each one carries to the caller. No kind is silently swallowed; a request
//! either fully succeeds or fully fails with one of these.

use vstd::prelude::*;

verus! {

/// Why a request failed: a configured directory that is missing, a
/// selection with nothing to offer, a file that could not be read, or one
/// of the three backend failures - unreachable, a non-success status, or a
/// transport payload that does not decode.
#[derive(Debug)]
pub enum ApiError {
    CategoryNotFound { directory: String },
    NoRelevantFiles,
    DocumentReadFailure { file: String },
    BackendUnreachable,
    BackendError { status: u16, body: String },
    MalformedBackendResponse,
}

/// The character of a single decimal digit.
pub open spec fn digit_char(d: nat) -> char
    recommends
        d < 10,
{
    if d == 0 {
        '0'
    } else if d == 1 {
        '1'
    } else if d == 2 {
        '2'
    } else if d == 3 {
        '3'
    } else if d == 4 {
        '4'
    } else if d == 5 {
        '5'
    } else if d == 6 {
        '6'
    } else if d == 7 {
        '7'
    } else if d == 8 {
        '8'
    } else {
        '9'
    }
}

/// The decimal rendering of a number, most significant digit first, with no
/// leading zeroes except for zero itself.
pub open spec fn decimal_of(n: nat) -> Seq<char>
    decreases n,
{
    if n < 10 {
        seq![digit_char(n)]
    } else {
        decimal_of(n / 10).push(digit_char(n % 10))
    }
}

fn digit_str(d: u16) -> (r: &'static str)
    requires
        d < 10,
    ensures
        r@ == seq![digit_char(d as nat)],
{
    let r: &'static str = if d == 0 {
        "0"
    } else if d == 1 {
        "1"
    } else if d == 2 {
        "2"
    } else if d == 3 {
        "3"
    } else if d == 4 {
        "4"
    } else if d == 5 {
        "5"
    } else if d == 6 {
        "6"
    } else if d == 7 {
        "7"
    } else if d == 8 {
        "8"
    } else {
        "9"
    };
    proof {
        reveal_strlit("0");
        reveal_strlit("1");
        reveal_strlit("2");
        reveal_strlit("3");
        reveal_strlit("4");
        reveal_strlit("5");
        reveal_strlit("6");
        reveal_strlit("7");
        reveal_strlit("8");
        reveal_strlit("9");
        assert(r@ =~= seq![digit_char(d as nat)]);
    }
    r
}

/// Renders a status code in decimal.
pub fn u16_to_decimal(n: u16) -> (r: String)
    ensures
        r@ == decimal_of(n as nat),
    decreases n,
{
    if n < 10 {
        digit_str(n).to_owned()
    } else {
        let mut s = u16_to_decimal(n / 10);
        s.append(digit_str(n % 10));
        proof {
            assert(s@ =~= decimal_of((n / 10) as nat).push(digit_char((n % 10) as nat)));
        }
        s
    }
}

/// The message each error kind carries.
pub open spec fn error_message_of(e: ApiError) -> Seq<char> {
    match e {
        ApiError::CategoryNotFound { directory } => "Data folder not found: "@ + directory@,
        ApiError::NoRelevantFiles => "No relevant files found"@,
        ApiError::DocumentReadFailure { file } => "Failed to read "@ + file@,
        ApiError::BackendUnreachable => "Cannot reach Ollama"@,
        ApiError::BackendError { status, body } => "Ollama error "@ + decimal_of(status as nat)
            + ": "@ + body@,
        ApiError::MalformedBackendResponse => "Invalid Ollama response"@,
    }
}

/// Renders the message for an error, exactly as `error_message_of` states
/// it: the failing directory or file by name, and for a backend error the
/// status code and the body the backend sent.
pub fn error_message(e: &ApiError) -> (r: String)
    ensures
        r@ == error_message_of(*e),
{
    match e {
        ApiError::CategoryNotFound { directory } => {
            let mut s: String = "Data folder not found: ".to_owned();
            s.append(directory.as_str());
            s
        },
        ApiError::NoRelevantFiles => "No relevant files found".to_owned(),
        ApiError::DocumentReadFailure { file } => {
            let mut s: String = "Failed to read ".to_owned();
            s.append(file.as_str());
            s
        },
        ApiError::BackendUnreachable => "Cannot reach Ollama".to_owned(),
        ApiError::BackendError { status, body } => {
            let mut s: String = "Ollama error ".to_owned();
            let digits = u16_to_decimal(*status);
            s.append(digits.as_str());
            s.append(": ");
            s.append(body.as_str());
            proof {
                assert(s@ =~= error_message_of(*e));
            }
            s
        },
        ApiError::MalformedBackendResponse => "Invalid Ollama response".to_owned(),
    }
}

} // verus!
