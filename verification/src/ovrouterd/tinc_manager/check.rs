//! Checks of the tinc installation.
use vstd::prelude::*;
use crate::text::{chars_of, extend_str, string_of};

verus! {

/// Seconds in thirty days.
pub const PUB_KEY_MAX_AGE_SECS: u64 = 2592000;

/// Where the tinc daemon's binary is under tinc's home.
pub fn tincd_path(tinc_home: &str) -> (r: String)
    ensures
        r@ == tinc_home@ + "/tincd"@,
{
    let mut v = chars_of(tinc_home);
    extend_str(&mut v, "/tincd");
    string_of(&v)
}

/// Whether the public key is fresh, given the seconds since its file was
/// last modified (`None` when that is unknown): it is when it is less than
/// thirty days old.
pub fn check_pub_key(age_secs: Option<u64>) -> (fresh: bool)
    ensures
        fresh == (age_secs matches Some(a) && a < PUB_KEY_MAX_AGE_SECS),
{
    match age_secs {
        Some(sec) => sec / 60 / 60 / 24 < 30,
        None => false,
    }
}

} // verus!
