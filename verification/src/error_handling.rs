//! The library's error type and the validation of user-entered values.
use vstd::prelude::*;
use vstd::string::StringSliceAdditionalSpecFns;
use crate::text::{trim, trimmed, is_control, char_is_control, str_chars, parse_u8_spec, parse_u8,
    decimal, push_decimal};

verus! {

#[verifier::external_type_specification]
#[verifier::external_body]
pub struct ExIoError(std::io::Error);

/// What can go wrong while reading, parsing or validating user data.
#[derive(Debug)]
pub enum AppError {
    IoError(std::io::Error),
    ParseError(String),
    ValidationError(String),
    FileError(String),
}

/// Results whose error is an [`AppError`].
pub type AppResult<T> = Result<T, AppError>;

impl From<std::io::Error> for AppError {
    fn from(error: std::io::Error) -> (res: Self) {
        AppError::IoError(error)
    }
}

impl vstd::std_specs::convert::FromSpecImpl<std::io::Error> for AppError {
    open spec fn obeys_from_spec() -> bool {
        true
    }

    open spec fn from_spec(v: std::io::Error) -> AppError {
        AppError::IoError(v)
    }
}

/// The text of an I/O error (its `Display`), as the operating system
/// reports it. What the text says depends on the error and the platform and
/// is not stated.
#[verifier::external_body]
fn io_error_text(e: &std::io::Error) -> (res: String) {
    e.to_string()
}

/// The message shown for an error other than an I/O one.
pub open spec fn error_text(e: AppError) -> Seq<char> {
    match e {
        AppError::IoError(_) => seq![],
        AppError::ParseError(m) => "Parse Error: "@ + m@,
        AppError::ValidationError(m) => "Validation Error: "@ + m@,
        AppError::FileError(m) => "File Error: "@ + m@,
    }
}

impl AppError {
    /// The error as a message: its kind, a colon, and its details. An I/O
    /// error reads `IO Error: ` followed by the system's description.
    pub fn describe(&self) -> (res: String)
        ensures
            !(self is IoError) ==> res@ == error_text(*self),
            self is IoError ==> res@.take(10) == "IO Error: "@,
    {
        let (prefix, detail): (&str, String) = match self {
            AppError::IoError(e) => ("IO Error: ", io_error_text(e)),
            AppError::ParseError(m) => ("Parse Error: ", m.clone()),
            AppError::ValidationError(m) => ("Validation Error: ", m.clone()),
            AppError::FileError(m) => ("File Error: ", m.clone()),
        };
        let mut s = String::from_str(prefix);
        s.append(detail.as_str());
        proof {
            reveal_strlit("IO Error: ");
            if self is IoError {
                assert(s@.take(10) =~= "IO Error: "@);
            }
        }
        s
    }
}

/// Whether a character may not stand in a character's name.
pub open spec fn forbidden_name_char(c: char) -> bool {
    is_control(c) || c == '/' || c == '\\'
}

/// The outcome of validating a character's name: not blank, at most 50 bytes
/// long, and free of control characters and path separators.
pub open spec fn name_check(name: &str) -> Result<(), Seq<char>> {
    if trim(name@).len() == 0 {
        Err("Character name cannot be empty"@)
    } else if name.len() > 50 {
        Err("Character name too long (max 50 characters)"@)
    } else if exists|i: int| 0 <= i < name@.len() && #[trigger] forbidden_name_char(name@[i]) {
        Err("Character name contains invalid characters"@)
    } else {
        Ok(())
    }
}

/// Checks a character's name; a refusal is a validation error whose message
/// says why.
pub fn validate_character_name(name: &str) -> (res: AppResult<()>)
    ensures
        name_check(name) is Ok <==> res is Ok,
        name_check(name) matches Err(m) ==> (res matches Err(AppError::ValidationError(e)) && e@ == m),
{
    let t = trimmed(name);
    if t.as_str().is_empty() {
        return Err(AppError::ValidationError(String::from_str("Character name cannot be empty")));
    }
    if name.len() > 50 {
        return Err(AppError::ValidationError(String::from_str("Character name too long (max 50 characters)")));
    }
    let v = str_chars(name);
    let mut i: usize = 0;
    while i < v.len()
        invariant
            v@ == name@,
            i <= v@.len(),
            forall|k: int| 0 <= k < i ==> !#[trigger] forbidden_name_char(name@[k]),
            trim(name@).len() != 0,
            !(name.len() > 50),
        decreases v@.len() - i,
    {
        let c = v[i];
        if char_is_control(c) || c == '/' || c == '\\' {
            assert(forbidden_name_char(name@[i as int]));
            assert(exists|j: int| 0 <= j < name@.len() && #[trigger] forbidden_name_char(name@[j]));
            return Err(AppError::ValidationError(String::from_str("Character name contains invalid characters")));
        }
        i = i + 1;
    }
    Ok(())
}

/// What validating a number typed for `field` gives: the value when it
/// parses as a `u8` within the optional bounds; otherwise whether the refusal
/// is a parse error (`true`) or a validation error (`false`), and its message.
pub open spec fn numeric_check(input: Seq<char>, field: Seq<char>, min: Option<u8>, max: Option<u8>) -> Result<u8, (bool, Seq<char>)> {
    match parse_u8_spec(input) {
        None => Err((true, "Invalid number for "@ + field)),
        Some(v) => if min is Some && v < min->0 {
            Err((false, field + " must be at least "@ + decimal(min->0 as nat)))
        } else if max is Some && v > max->0 {
            Err((false, field + " must be at most "@ + decimal(max->0 as nat)))
        } else {
            Ok(v)
        },
    }
}

/// Parses a `u8` typed for `field` and checks it against the optional
/// bounds: a parse failure is a parse error, a value out of bounds a
/// validation error, each with its message.
pub fn validate_numeric_input(input: &str, field_name: &str, min: Option<u8>, max: Option<u8>) -> (res: AppResult<u8>)
    ensures
        match numeric_check(input@, field_name@, min, max) {
            Ok(v) => res matches Ok(w) && w == v,
            Err((true, m)) => res matches Err(AppError::ParseError(e)) && e@ == m,
            Err((false, m)) => res matches Err(AppError::ValidationError(e)) && e@ == m,
        },
{
    match parse_u8(input) {
        None => {
            let mut m = String::from_str("Invalid number for ");
            m.append(field_name);
            Err(AppError::ParseError(m))
        },
        Some(value) => {
            if let Some(lo) = min {
                if value < lo {
                    let mut m = String::from_str(field_name);
                    m.append(" must be at least ");
                    push_decimal(&mut m, lo as u64);
                    return Err(AppError::ValidationError(m));
                }
            }
            if let Some(hi) = max {
                if value > hi {
                    let mut m = String::from_str(field_name);
                    m.append(" must be at most ");
                    push_decimal(&mut m, hi as u64);
                    return Err(AppError::ValidationError(m));
                }
            }
            Ok(value)
        },
    }
}

} // verus!
