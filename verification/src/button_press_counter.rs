use vstd::prelude::*;

use crate::text::{append_decimal, decimal};

verus! {

/// The button interrupt's whole work: raise the flag that a press happened.
pub fn gpio_int_callback(flag: &mut bool)
    ensures
        *final(flag),
{
    *flag = true;
}

/// Counts one more press, wrapping at `u32::MAX`, and returns the line that
/// reports the new count.
pub fn record_press(count: &mut u32) -> (line: String)
    ensures
        *final(count) == (if *old(count) == u32::MAX { 0 } else { (*old(count) + 1) as u32 }),
        line@ == "Press Count "@ + decimal(*final(count) as nat),
{
    *count = count.wrapping_add(1);
    let mut line = String::from_str("Press Count ");
    append_decimal(&mut line, *count);
    line
}

} // verus!
