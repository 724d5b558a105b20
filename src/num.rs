//! Checks on numeric command-line arguments.
//!
//! The text itself is parsed by the C library's `strtol`, which reports the
//! value, the error code it set, and how much text it left unparsed. What
//! follows that call is decided here.

use vstd::prelude::*;

verus! {

/// The value must not be negative.
pub const GN_NONNEG: u32 = 0o01;
/// The value must be greater than zero.
pub const GN_GT_0: u32 = 0o02;

/// The base is taken from the text, as C does (`0x`, leading `0`).
pub const GN_ANY_BASE: u32 = 0o100;
/// The text is octal.
pub const GN_BASE_8: u32 = 0o200;
/// The text is hexadecimal.
pub const GN_BASE_16: u32 = 0o400;

/// Why a numeric argument was refused.
#[derive(Debug, Clone, Copy, PartialEq, Eq, Structural)]
pub enum NumError {
    /// The parse itself set an error code (the value is out of range).
    ParseFailed,
    /// Text is left over after the number.
    Nonnumeric,
    /// A negative value where none is allowed.
    Negative,
    /// A value that is not greater than zero where one must be.
    NotPositive,
    /// A value that does not fit an `i32`.
    OutOfRange,
}

impl NumError {
    /// The text that reports this error.
    pub fn message(&self) -> (r: &'static str)
        ensures
            r@ == match *self {
                NumError::ParseFailed => "strtol() failed"@,
                NumError::Nonnumeric => "nonnumeric characters"@,
                NumError::Negative => "negative value not allowed"@,
                NumError::NotPositive => "value must be > 0"@,
                NumError::OutOfRange => "integer out of range"@,
            },
    {
        match *self {
            NumError::ParseFailed => "strtol() failed",
            NumError::Nonnumeric => "nonnumeric characters",
            NumError::Negative => "negative value not allowed",
            NumError::NotPositive => "value must be > 0",
            NumError::OutOfRange => "integer out of range",
        }
    }
}

/// The base `strtol` is to parse with under `flags`; zero lets the text
/// choose.
pub open spec fn base_for(flags: u32) -> i32 {
    if flags & GN_ANY_BASE > 0 {
        0
    } else if flags & GN_BASE_8 > 0 {
        8
    } else if flags & GN_BASE_16 > 0 {
        16
    } else {
        10
    }
}

/// What the parse of an argument amounts to under `flags`, given the value
/// `strtol` returned, the error code it set and the number of bytes it left
/// unparsed. The checks come in this order.
pub open spec fn long_outcome(value: i64, errno: i32, unparsed: usize, flags: u32) -> Result<
    i64,
    NumError,
> {
    if errno != 0 {
        Err(NumError::ParseFailed)
    } else if unparsed != 0 {
        Err(NumError::Nonnumeric)
    } else if flags & GN_NONNEG > 0 && value < 0 {
        Err(NumError::Negative)
    } else if flags & GN_GT_0 > 0 && value <= 0 {
        Err(NumError::NotPositive)
    } else {
        Ok(value)
    }
}

/// As `long_outcome`, and then the value must fit an `i32`.
pub open spec fn int_outcome(value: i64, errno: i32, unparsed: usize, flags: u32) -> Result<
    i32,
    NumError,
> {
    match long_outcome(value, errno, unparsed, flags) {
        Err(e) => Err(e),
        Ok(v) => if i32::MIN <= v <= i32::MAX {
            Ok(v as i32)
        } else {
            Err(NumError::OutOfRange)
        },
    }
}

/// The base to hand to `strtol` for `flags`.
pub fn num_base(flags: u32) -> (r: i32)
    ensures
        r == base_for(flags),
{
    if flags & GN_ANY_BASE > 0 {
        0
    } else if flags & GN_BASE_8 > 0 {
        8
    } else if flags & GN_BASE_16 > 0 {
        16
    } else {
        10
    }
}

fn get_num(value: i64, errno: i32, unparsed: usize, flags: u32) -> (r: Result<i64, NumError>)
    ensures
        r == long_outcome(value, errno, unparsed, flags),
{
    if errno != 0 {
        return Err(NumError::ParseFailed);
    }
    if unparsed != 0 {
        return Err(NumError::Nonnumeric);
    }
    if flags & GN_NONNEG > 0 && value < 0 {
        return Err(NumError::Negative);
    }
    if flags & GN_GT_0 > 0 && value <= 0 {
        return Err(NumError::NotPositive);
    }
    Ok(value)
}

/// Checks a parsed `long` argument against `flags`.
pub fn get_long(value: i64, errno: i32, unparsed: usize, flags: u32) -> (r: Result<i64, NumError>)
    ensures
        r == long_outcome(value, errno, unparsed, flags),
{
    get_num(value, errno, unparsed, flags)
}

/// Checks a parsed `int` argument against `flags` and the range of `i32`.
pub fn get_int(value: i64, errno: i32, unparsed: usize, flags: u32) -> (r: Result<i32, NumError>)
    ensures
        r == int_outcome(value, errno, unparsed, flags),
{
    let v = match get_num(value, errno, unparsed, flags) {
        Ok(v) => v,
        Err(e) => return Err(e),
    };
    if v > i32::MAX as i64 || v < i32::MIN as i64 {
        return Err(NumError::OutOfRange);
    }
    Ok(v as i32)
}

/// The report of a refused argument: which function refused it, for which
/// named argument if a name is given, why, and the text if there is any.
pub open spec fn failure_report(fname: Seq<char>, msg: Seq<char>, arg: Seq<char>, name: Seq<char>) -> Seq<char> {
    fname + " error"@ + (if name.len() > 0 { " (in "@ + name + ")"@ } else { Seq::empty() }) + ": "@
        + msg + "\n"@ + (if arg.len() > 0 { "        offending text: "@ + arg + "\n"@ } else { Seq::empty() })
}

/// Builds the report of a refused argument; see `failure_report`.
pub fn failure_text(fname: &str, msg: &str, arg: &str, name: &str) -> (r: String)
    ensures
        r@ == failure_report(fname@, msg@, arg@, name@),
{
    let mut out = String::from_str(fname);
    out.append(" error");
    if !name.is_empty() {
        out.append(" (in ");
        out.append(name);
        out.append(")");
    }
    out.append(": ");
    out.append(msg);
    out.append("\n");
    if !arg.is_empty() {
        out.append("        offending text: ");
        out.append(arg);
        out.append("\n");
    }
    out
}

} // verus!
