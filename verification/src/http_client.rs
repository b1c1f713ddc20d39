use vstd::prelude::*;

use crate::text::{append_decimal, decimal};

verus! {

/// The line printed for the response's status code.
pub fn status_line(status: u16) -> (line: String)
    ensures
        line@ == "<- "@ + decimal(status as nat),
{
    let mut line = String::from_str("<- ");
    append_decimal(&mut line, status as u32);
    line
}

/// The line printed for a response header: its value when the response has
/// it, or a note that it is missing.
pub fn header_line(name: &str, value: Option<&str>) -> (line: String)
    ensures
        line@ == (match value {
            Some(v) => name@ + ": "@ + v@,
            None => "No "@ + name@ + " Header"@,
        }),
{
    match value {
        Some(v) => {
            let mut line = String::from_str(name);
            line.append(": ");
            line.append(v);
            line
        },
        None => {
            let mut line = String::from_str("No ");
            line.append(name);
            line.append(" Header");
            line
        },
    }
}

} // verus!
