//! iptables: the arguments of its invocations and the reading of one line
//! of `iptables -L -v` output.
use vstd::prelude::*;
use super::string_views;
use crate::text::{ascii_ws_tokens, chars_of, dec_int, push_dec_signed, split_ws, string_of, views};

verus! {

/// One rule as a listing shows it.
pub struct IptablesRule {
    pub in_: String,
    pub out: String,
    pub src: String,
    pub dst: String,
    pub target: String,
}

/// The rule a listing line describes: a line of at least nine fields holds
/// the target in its third field and the input interface, output
/// interface, source and destination in its sixth to ninth.
pub open spec fn rule_fields(line: Seq<char>) -> Option<(Seq<char>, Seq<char>, Seq<char>, Seq<char>, Seq<char>)> {
    let t = ascii_ws_tokens(line);
    if t.len() < 9 {
        None
    } else {
        Some((t[5], t[6], t[7], t[8], t[2]))
    }
}

/// Reads one line of an iptables listing.
pub fn parse_on_rule(rule: &str) -> (r: Option<IptablesRule>)
    ensures
        match rule_fields(rule@) {
            None => r is None,
            Some((i, o, s, d, t)) => r matches Some(x) && x.in_@ == i && x.out@ == o && x.src@ == s
                && x.dst@ == d && x.target@ == t,
        },
{
    let line = chars_of(rule);
    let segs = split_ws(&line, false);
    if segs.len() < 9 {
        return None;
    }
    assert(forall|k: int| 0 <= k < segs.len() ==> views(segs@)[k] == #[trigger] segs@[k]@);
    Some(
        IptablesRule {
            in_: string_of(&segs[5]),
            out: string_of(&segs[6]),
            src: string_of(&segs[7]),
            dst: string_of(&segs[8]),
            target: string_of(&segs[2]),
        },
    )
}

/// Arguments of `iptables -t <table> -N <chain>`.
pub fn iptabels_create_chain_args(table: &str, chain: &str) -> (a: Vec<String>)
    ensures
        string_views(a@) == seq!["-t"@, table@, "-N"@, chain@],
{
    let a = vec!["-t".to_string(), table.to_string(), "-N".to_string(), chain.to_string()];
    assert(string_views(a@) =~= seq!["-t"@, table@, "-N"@, chain@]);
    a
}

/// Arguments of `iptables -t <table> -A <chain> <rule>`; the rule is one
/// argument.
pub fn iptables_append_rule_args(table: &str, chain: &str, rule_str: &str) -> (a: Vec<String>)
    ensures
        string_views(a@) == seq!["-t"@, table@, "-A"@, chain@, rule_str@],
{
    let a = vec![
        "-t".to_string(),
        table.to_string(),
        "-A".to_string(),
        chain.to_string(),
        rule_str.to_string(),
    ];
    assert(string_views(a@) =~= seq!["-t"@, table@, "-A"@, chain@, rule_str@]);
    a
}

/// Arguments of `iptables -t <table> -I <chain> [<position>] <rule>`; the
/// position is given only when it is not 0.
pub fn iptables_insert_rule_args(table: &str, chain: &str, rule_str: &str, position: i32) -> (a:
    Vec<String>)
    ensures
        position != 0 ==> string_views(a@) == seq![
            "-t"@,
            table@,
            "-I"@,
            chain@,
            dec_int(position as int),
            rule_str@,
        ],
        position == 0 ==> string_views(a@) == seq!["-t"@, table@, "-I"@, chain@, rule_str@],
{
    if position != 0 {
        let mut p: Vec<char> = Vec::new();
        push_dec_signed(&mut p, position as i64);
        assert(p@ =~= dec_int(position as int));
        let a = vec![
            "-t".to_string(),
            table.to_string(),
            "-I".to_string(),
            chain.to_string(),
            string_of(&p),
            rule_str.to_string(),
        ];
        assert(string_views(a@) =~= seq![
            "-t"@,
            table@,
            "-I"@,
            chain@,
            dec_int(position as int),
            rule_str@,
        ]);
        a
    } else {
        let a = vec![
            "-t".to_string(),
            table.to_string(),
            "-I".to_string(),
            chain.to_string(),
            rule_str.to_string(),
        ];
        assert(string_views(a@) =~= seq!["-t"@, table@, "-I"@, chain@, rule_str@]);
        a
    }
}

/// Arguments of `iptables -t <table> -D <chain> <rule>`.
pub fn iptables_delete_rule_args(table: &str, chain: &str, rule_str: &str) -> (a: Vec<String>)
    ensures
        string_views(a@) == seq!["-t"@, table@, "-D"@, chain@, rule_str@],
{
    let a = vec![
        "-t".to_string(),
        table.to_string(),
        "-D".to_string(),
        chain.to_string(),
        rule_str.to_string(),
    ];
    assert(string_views(a@) =~= seq!["-t"@, table@, "-D"@, chain@, rule_str@]);
    a
}

} // verus!
