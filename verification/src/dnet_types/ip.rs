//! IP addresses as the library sees them.
use vstd::prelude::*;
use crate::text::chars_of;

verus! {

/// A character of the text std writes for an address: a hexadecimal digit,
/// a dot or a colon.
pub open spec fn address_char(c: char) -> bool {
    ('0' <= c && c <= '9') || ('a' <= c && c <= 'f') || ('A' <= c && c <= 'F') || c == '.' || c
        == ':'
}

/// Text in which an address is written: not empty, and made of address
/// characters only.
pub open spec fn address_text(t: Seq<char>) -> bool {
    t.len() > 0 && forall|i: int| 0 <= i < t.len() ==> address_char(#[trigger] t[i])
}

/// Whether a text is address text.
pub fn is_address_text(text: &str) -> (b: bool)
    ensures
        b == address_text(text@),
{
    let v = chars_of(text);
    if v.len() == 0 {
        return false;
    }
    let mut i: usize = 0;
    while i < v.len()
        invariant
            i <= v.len(),
            v@ == text@,
            forall|k: int| 0 <= k < i ==> address_char(#[trigger] v@[k]),
        decreases v.len() - i,
    {
        let c = v[i];
        if !(('0' <= c && c <= '9') || ('a' <= c && c <= 'f') || ('A' <= c && c <= 'F') || c == '.'
            || c == ':') {
            assert(!address_char(text@[i as int]));
            return false;
        }
        i = i + 1;
    }
    true
}

/// An IP address (version 4 or 6), held as the canonical text that its
/// `Display` implementation writes, e.g. `10.255.255.254`.  The library only
/// ever compares addresses and writes them into configuration text; the
/// text form is what that logic reads.
pub struct IpAddr {
    pub text: String,
}

impl IpAddr {
    /// Well formed: the text is address text.
    pub open spec fn wf(&self) -> bool {
        address_text(self.text@)
    }

    /// An address from its canonical text.
    pub fn from_text(text: &str) -> (r: IpAddr)
        requires
            address_text(text@),
        ensures
            r.text@ == text@,
            r.wf(),
    {
        IpAddr { text: text.to_string() }
    }

    /// The canonical text of the address (`to_string`).
    pub fn to_string(&self) -> (r: String)
        ensures
            r@ == self.text@,
    {
        self.text.clone()
    }
}

impl Clone for IpAddr {
    fn clone(&self) -> (r: IpAddr)
        ensures
            r.text@ == self.text@,
            self.wf() ==> r.wf(),
    {
        IpAddr { text: self.text.clone() }
    }
}

} // verus!
