//! Joining file-system paths.
use vstd::prelude::*;
use crate::text::{chars_of, string_of, extend_chars};

verus! {

/// `base` joined with `comp` as `PathBuf::push` does it on Unix: an
/// absolute `comp` replaces `base`; otherwise `comp` is added after a `/`,
/// unless `base` is empty or already ends with one.
pub open spec fn path_join(base: Seq<char>, comp: Seq<char>) -> Seq<char> {
    if comp.len() > 0 && comp[0] == '/' {
        comp
    } else if base.len() == 0 || base.last() == '/' {
        base + comp
    } else {
        base + seq!['/'] + comp
    }
}

/// Joins two paths.
pub fn join(base: &str, comp: &str) -> (r: String)
    ensures
        r@ == path_join(base@, comp@),
{
    let b = chars_of(base);
    let c = chars_of(comp);
    if c.len() > 0 && c[0] == '/' {
        return string_of(&c);
    }
    let mut v = b;
    if !(v.len() == 0 || v[v.len() - 1] == '/') {
        v.push('/');
    }
    extend_chars(&mut v, &c);
    string_of(&v)
}

} // verus!
