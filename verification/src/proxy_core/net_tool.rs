//! The shell commands that find the outgoing interface and its MAC
//! address, the reading of their output, and the conversion of JSON to a
//! form body.
use vstd::prelude::*;
use crate::dnet_types::ip::IpAddr;
use crate::text::{
    chars_of,
    extend_str,
    lemma_replace_absent,
    lemma_replace_chars,
    replace_all,
    replace_str,
    split_by,
    split_on,
    string_of,
    views,
};

verus! {

/// This machine's interface, address and MAC address.
pub struct Device {
    pub if_name: String,
    pub ip: IpAddr,
    pub mac: String,
}

impl Device {
    /// A device not yet looked up: no name, address 0.0.0.0, no MAC.
    pub fn new() -> (d: Device)
        ensures
            d.if_name@ == Seq::<char>::empty(),
            d.ip.text@ == "0.0.0.0"@,
            d.mac@ == Seq::<char>::empty(),
    {
        proof {
            reveal_strlit("0.0.0.0");
        }
        Device { if_name: String::new(), ip: IpAddr::from_text("0.0.0.0"), mac: String::new() }
    }
}

/// The shell command that prints the interface holding an address.
pub fn wan_name_command(local_ip: &IpAddr) -> (r: String)
    ensures
        r@ == "ip address|grep "@ + local_ip.text@ + " | awk '{print $(7)}'"@,
{
    let mut v = chars_of("ip address|grep ");
    extend_str(&mut v, local_ip.text.as_str());
    extend_str(&mut v, " | awk '{print $(7)}'");
    string_of(&v)
}

/// The shell command that prints the MAC address of an interface.
pub fn mac_command(if_name: &str) -> (r: String)
    ensures
        r@ == "ifconfig|grep "@ + if_name@ + "| awk '{print $5}'"@,
{
    let mut v = chars_of("ifconfig|grep ");
    extend_str(&mut v, if_name);
    extend_str(&mut v, "| awk '{print $5}'");
    string_of(&v)
}

/// The outgoing interface from the run of `wan_name_command`: its output
/// when it exited with 0.
pub fn get_wan_name(code: i32, output: String) -> (r: Option<String>)
    ensures
        code == 0 ==> (r matches Some(x) && x@ == output@),
        code != 0 ==> r is None,
{
    if code != 0 {
        return None;
    }
    Some(output)
}

/// The MAC address from the run of `mac_command`: its output when it
/// exited with 0.
pub fn get_mac(code: i32, output: String) -> (r: Option<String>)
    ensures
        code == 0 ==> (r matches Some(x) && x@ == output@),
        code != 0 ==> r is None,
{
    if code != 0 {
        return None;
    }
    Some(output)
}

/// The shell command that prints the second `inet` address of the machine.
pub fn local_ip_command() -> (r: String)
    ensures
        r@ == "ip address|grep -w inet | awk 'NR == 2' | awk '{print $(2)}'"@,
{
    "ip address|grep -w inet | awk 'NR == 2' | awk '{print $(2)}'".to_string()
}

/// The address text from the run of `local_ip_command` (the part before the
/// first `/`).  The run is taken as failed only when the bitwise negation of
/// its exit code is 0, that is when the code is -1.
pub fn local_ip_fallback(code: i32, output: &str) -> (r: Option<String>)
    ensures
        code == -1 ==> r is None,
        code != -1 ==> (r matches Some(x) && x@ == split_on(output@, "/"@)[0]),
{
    let neg: i32 = !code;
    assert(neg == 0 <==> code == -1) by (bit_vector)
        requires
            neg == !code,
    ;
    if neg == 0 {
        return None;
    }
    let v = chars_of(output);
    let slash = chars_of("/");
    proof {
        reveal_strlit("/");
    }
    let parts = split_by(&v, &slash);
    assert(views(parts@)[0] == parts@[0]@);
    Some(string_of(&parts[0]))
}

/// JSON text turned into a form body: escaped quotes and quotes removed,
/// `:` turned into `=`, `,` into `&`, braces removed.
pub open spec fn http_json_of(s: Seq<char>) -> Seq<char> {
    replace_all(
        replace_all(
            replace_all(
                replace_all(
                    replace_all(replace_all(s, "\\\""@, ""@), "\""@, ""@),
                    ":"@,
                    "="@,
                ),
                ","@,
                "&"@,
            ),
            "{"@,
            ""@,
        ),
        "}"@,
        ""@,
    )
}

/// Turns JSON text into a form body (`{"a":1,"b":2}` gives `a=1&b=2`).
pub fn http_json(json_str: String) -> (r: String)
    ensures
        r@ == http_json_of(json_str@),
{
    proof {
        reveal_strlit("\\\"");
        reveal_strlit("\"");
        reveal_strlit(":");
        reveal_strlit(",");
        reveal_strlit("{");
        reveal_strlit("}");
    }
    let v = chars_of(json_str.as_str());
    let a = replace_str(&v, "\\\"", "");
    let b = replace_str(&a, "\"", "");
    let c = replace_str(&b, ":", "=");
    let d = replace_str(&c, ",", "&");
    let e = replace_str(&d, "{", "");
    let f = replace_str(&e, "}", "");
    string_of(&f)
}

/// A form body holds no quote, colon, comma or brace.
pub proof fn lemma_http_json_clean(s: Seq<char>)
    ensures
        !http_json_of(s).contains('"'),
        !http_json_of(s).contains(':'),
        !http_json_of(s).contains(','),
        !http_json_of(s).contains('{'),
        !http_json_of(s).contains('}'),
{
    reveal_strlit("\\\"");
    reveal_strlit("\"");
    reveal_strlit(":");
    reveal_strlit(",");
    reveal_strlit("{");
    reveal_strlit("}");
    reveal_strlit("");
    reveal_strlit("=");
    reveal_strlit("&");
    let e: Seq<char> = ""@;
    assert(!e.contains('"'));
    let s1 = replace_all(s, "\\\""@, ""@);
    let s2 = replace_all(s1, "\""@, ""@);
    let s3 = replace_all(s2, ":"@, "="@);
    let s4 = replace_all(s3, ","@, "&"@);
    let s5 = replace_all(s4, "{"@, ""@);
    let s6 = replace_all(s5, "}"@, ""@);
    assert("\""@ =~= seq!['"']);
    assert(":"@ =~= seq![':']);
    assert(","@ =~= seq![',']);
    assert("{"@ =~= seq!['{']);
    assert("}"@ =~= seq!['}']);
    let eq: Seq<char> = "="@;
    let amp: Seq<char> = "&"@;
    assert(!eq.contains('"') && !eq.contains(':'));
    assert(!amp.contains('"') && !amp.contains(':') && !amp.contains(','));
    // quotes
    lemma_replace_chars(s1, "\""@, ""@, '"');
    lemma_replace_chars(s2, ":"@, "="@, '"');
    lemma_replace_chars(s3, ","@, "&"@, '"');
    lemma_replace_chars(s4, "{"@, ""@, '"');
    lemma_replace_chars(s5, "}"@, ""@, '"');
    // colons
    lemma_replace_chars(s2, ":"@, "="@, ':');
    lemma_replace_chars(s3, ","@, "&"@, ':');
    lemma_replace_chars(s4, "{"@, ""@, ':');
    lemma_replace_chars(s5, "}"@, ""@, ':');
    // commas
    lemma_replace_chars(s3, ","@, "&"@, ',');
    lemma_replace_chars(s4, "{"@, ""@, ',');
    lemma_replace_chars(s5, "}"@, ""@, ',');
    // braces
    lemma_replace_chars(s4, "{"@, ""@, '{');
    lemma_replace_chars(s5, "}"@, ""@, '{');
    lemma_replace_chars(s5, "}"@, ""@, '}');
}

/// `http_json` changes nothing more when applied again.
pub proof fn lemma_http_json_idempotent(s: Seq<char>)
    ensures
        http_json_of(http_json_of(s)) == http_json_of(s),
{
    let t = http_json_of(s);
    lemma_http_json_clean(s);
    reveal_strlit("\\\"");
    reveal_strlit("\"");
    reveal_strlit(":");
    reveal_strlit(",");
    reveal_strlit("{");
    reveal_strlit("}");
    reveal_strlit("");
    reveal_strlit("=");
    reveal_strlit("&");
    let bq: Seq<char> = "\\\""@;
    let q: Seq<char> = "\""@;
    let c: Seq<char> = ":"@;
    let m: Seq<char> = ","@;
    let l: Seq<char> = "{"@;
    let rb: Seq<char> = "}"@;
    assert(bq[1] == '"');
    assert(q[0] == '"');
    assert(c[0] == ':');
    assert(m[0] == ',');
    assert(l[0] == '{');
    assert(rb[0] == '}');
    lemma_replace_absent(t, bq, ""@, 1);
    lemma_replace_absent(t, q, ""@, 0);
    lemma_replace_absent(t, c, "="@, 0);
    lemma_replace_absent(t, m, "&"@, 0);
    lemma_replace_absent(t, l, ""@, 0);
    lemma_replace_absent(t, rb, ""@, 0);
}

} // verus!
