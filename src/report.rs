//! The text of error reports for command-line programs.

use vstd::prelude::*;

verus! {

/// The report line for `text`: with an error code, given as its symbolic
/// name and its description, `ERROR [NAME description] text`; without one,
/// `ERROR: text`. The line ends with a newline.
pub open spec fn error_line(code: Option<(Seq<char>, Seq<char>)>, text: Seq<char>) -> Seq<char> {
    let head = match code {
        Some((name, desc)) => " ["@ + name + " "@ + desc + "]"@,
        None => ":"@,
    };
    "ERROR"@ + head + " "@ + text + "\n"@
}

/// The symbolic name to report for the error code `err`, given the table
/// `names` of names by code: the code's entry when `0 < err` and the table
/// has one, else `?UNKNOWN?`.
pub fn error_name(err: i32, names: &[&'static str]) -> (r: &'static str)
    ensures
        0 < err < names@.len() ==> r == names@[err as int],
        !(0 < err < names@.len()) ==> r@ == "?UNKNOWN?"@,
{
    if 0 < err && (err as usize) < names.len() {
        names[err as usize]
    } else {
        "?UNKNOWN?"
    }
}

/// Builds the report line; see `error_line`.
pub fn error_text(code: Option<(&str, &str)>, text: &str) -> (r: String)
    ensures
        r@ == error_line(
            match code {
                Some((n, d)) => Some((n@, d@)),
                None => None,
            },
            text@,
        ),
{
    let mut out = String::from_str("ERROR");
    match code {
        Some((name, desc)) => {
            out.append(" [");
            out.append(name);
            out.append(" ");
            out.append(desc);
            out.append("]");
        },
        None => {
            out.append(":");
        },
    }
    out.append(" ");
    out.append(text);
    out.append("\n");
    out
}

/// The text that reports a misuse of a program: `Usage: text`.
pub fn usage_text(text: &str) -> (r: String)
    ensures
        r@ == "Usage: "@ + text@,
{
    let mut out = String::from_str("Usage: ");
    out.append(text);
    out
}

/// The text that reports a bad command-line argument.
pub fn cmd_line_text(text: &str) -> (r: String)
    ensures
        r@ == "Command-line usage error: "@ + text@,
{
    let mut out = String::from_str("Command-line usage error: ");
    out.append(text);
    out
}

} // verus!
