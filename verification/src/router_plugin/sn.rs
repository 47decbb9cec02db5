//! The router's serial number.
use vstd::prelude::*;
use crate::text::{chars_of, replace_all, replace_str, split_by, split_on, string_of, views};

verus! {

/// The serial number in the output of `artmtd -r sn`: its first line
/// without `sn:`.
pub open spec fn sn_of(output: Seq<char>) -> Seq<char> {
    replace_all(split_on(output, "\n"@)[0], "sn:"@, ""@)
}

/// Reads the serial number from the output of `artmtd -r sn`.  The first
/// line always exists, so a serial number is always found.
pub fn get_sn(output: &str) -> (r: Option<String>)
    ensures
        r matches Some(s) && s@ == sn_of(output@),
{
    proof {
        reveal_strlit("\n");
        reveal_strlit("sn:");
    }
    let v = chars_of(output);
    let nl = chars_of("\n");
    let lines = split_by(&v, &nl);
    assert(views(lines@)[0] == lines@[0]@);
    let first = replace_str(&lines[0], "sn:", "");
    Some(string_of(&first))
}

} // verus!
