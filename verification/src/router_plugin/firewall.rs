//! The router's firewall: the scripts it writes and the iptables rules it
//! makes sure of for the tunnel.
use vstd::prelude::*;
use crate::dnet_types::ip::IpAddr;
use crate::text::{chars_of, dec, extend_chars, extend_str, push_dec, string_of};

verus! {

/// Where the firewall script of the VPN goes.
pub const FIREWALL_SCRIPT_PATH: &'static str = "/etc/scripts/firewall/vppn.rule";

/// Where the firewall script of the tunnel address goes.
pub const TUNNEL_FIREWALL_SCRIPT_PATH: &'static str = "/etc/scripts/firewall/vppn_tunnel.rule";

/// A rule as the scripts write it: the options before the operation (the
/// table, when it is not `filter`), and the chain with the rule's matches
/// and target.
pub type ScriptRule = (Seq<char>, Seq<char>);

/// The line of a script that applies an operation (`-I` inserts, `-D`
/// deletes) to a rule.
pub open spec fn rule_line(rule: ScriptRule, op: Seq<char>) -> Seq<char> {
    "\t/usr/sbin/iptables "@ + rule.0 + op + " "@ + rule.1 + "\n"@
}

/// A section of a script: the operation applied to each rule in order,
/// each line after the first preceded by `sep`.
pub open spec fn section(rules: Seq<ScriptRule>, op: Seq<char>, sep: Seq<char>) -> Seq<char>
    decreases rules.len(),
{
    if rules.len() == 0 {
        Seq::empty()
    } else if rules.len() == 1 {
        rule_line(rules[0], op)
    } else {
        section(rules.drop_last(), op, sep) + sep + rule_line(rules.last(), op)
    }
}

/// A script that, run with `start`, inserts the rules, and run with
/// `stop`, deletes the same rules in the same order.
pub open spec fn start_stop_script(rules: Seq<ScriptRule>, sep: Seq<char>) -> Seq<char> {
    "#! /bin/sh\nif [ \"$1\" == \"start\" ]; then\n"@ + section(rules, "-I"@, sep)
        + "fi;\nif [ \"$1\" == \"stop\" ]; then\n"@ + section(rules, "-D"@, sep) + "fi;\n"@
}

/// The rules that open the firewall for the tinc interface and the tinc
/// port.
pub open spec fn firewall_rules(port: Seq<char>) -> Seq<ScriptRule> {
    seq![
        (""@, "INPUT -i dnet -j ACCEPT"@),
        (""@, "OUTPUT -o dnet -j ACCEPT"@),
        (""@, "INPUT -i brwan -p udp --dport "@ + port + " -j ACCEPT"@),
        (""@, "INPUT -i ppp0 -p udp --dport "@ + port + " -j ACCEPT"@),
        (""@, "INPUT -i brwan -p tcp --dport "@ + port + " -j ACCEPT"@),
        (""@, "INPUT -i ppp0 -p tcp --dport "@ + port + " -j ACCEPT"@),
        (""@, "FORWARD -i dnet -j ACCEPT"@),
        (""@, "FORWARD -o dnet -j ACCEPT"@),
        ("-t nat "@, "POSTROUTING -o dnet -j MASQUERADE"@),
    ]
}

/// The rules that masquerade the traffic of a tunnel address on every
/// outgoing interface.
pub open spec fn tunnel_rules_of(vip: Seq<char>) -> Seq<ScriptRule> {
    seq![
        ("-t nat "@, "br0_masq -s "@ + vip + "/32 -j MASQUERADE"@),
        ("-t nat "@, "POSTROUTING -o br1 -s "@ + vip + "/32 -j MASQUERADE"@),
        ("-t nat "@, "POSTROUTING -o br2 -s "@ + vip + "/32 -j MASQUERADE"@),
        ("-t nat "@, "POSTROUTING -o br3 -s "@ + vip + "/32 -j MASQUERADE"@),
        ("-t nat "@, "brwan_masq -s "@ + vip + "/32 -j MASQUERADE"@),
        ("-t nat "@, "ppp0_masq -s "@ + vip + "/32 -j MASQUERADE"@),
    ]
}

/// The script that opens (`start`) or closes (`stop`) the firewall for the
/// tinc interface and the tinc port.
pub open spec fn firewall_script(port: Seq<char>) -> Seq<char> {
    start_stop_script(firewall_rules(port), ""@)
}

/// The line break between the rules of the tunnel script: a line end and
/// the indentation that the script keeps.
pub open spec fn tunnel_separator() -> Seq<char> {
    "\n                "@
}

/// The script that masquerades (`start`) or stops masquerading (`stop`)
/// the traffic of a tunnel address on every outgoing interface.
pub open spec fn tunnel_firewall_script(vip: Seq<char>) -> Seq<char> {
    start_stop_script(tunnel_rules_of(vip), tunnel_separator())
}

/// The rules as text.
pub open spec fn rule_views(v: Seq<(String, String)>) -> Seq<ScriptRule> {
    v.map_values(|r: (String, String)| (r.0@, r.1@))
}

fn push_section(v: &mut Vec<char>, rules: &Vec<(String, String)>, op: &str, sep: &str)
    ensures
        final(v)@ == old(v)@ + section(rule_views(rules@), op@, sep@),
{
    let ghost start = v@;
    let ghost views = rule_views(rules@);
    let mut i: usize = 0;
    assert(views.take(0) =~= Seq::<ScriptRule>::empty());
    while i < rules.len()
        invariant
            i <= rules.len(),
            views == rule_views(rules@),
            v@ == start + section(views.take(i as int), op@, sep@),
        decreases rules.len() - i,
    {
        let ghost before = v@;
        if i > 0 {
            extend_str(v, sep);
        }
        extend_str(v, "\t/usr/sbin/iptables ");
        extend_str(v, rules[i].0.as_str());
        extend_str(v, op);
        extend_str(v, " ");
        extend_str(v, rules[i].1.as_str());
        extend_str(v, "\n");
        let ghost t = views.take(i + 1);
        assert(t.last() == views[i as int]);
        assert(t.drop_last() =~= views.take(i as int));
        if i == 0 {
            assert(t.len() == 1);
            assert(v@ =~= start + section(t, op@, sep@));
        } else {
            assert(v@ =~= start + section(t, op@, sep@));
        }
        i = i + 1;
    }
    assert(views.take(i as int) =~= views);
}

fn start_stop_text(rules: &Vec<(String, String)>, sep: &str) -> (r: String)
    ensures
        r@ == start_stop_script(rule_views(rules@), sep@),
{
    let mut v = chars_of("#! /bin/sh\nif [ \"$1\" == \"start\" ]; then\n");
    push_section(&mut v, rules, "-I", sep);
    extend_str(&mut v, "fi;\nif [ \"$1\" == \"stop\" ]; then\n");
    push_section(&mut v, rules, "-D", sep);
    extend_str(&mut v, "fi;\n");
    string_of(&v)
}

fn rule(head: &str, a: &str, b: &Vec<char>, c: &str) -> (r: (String, String))
    ensures
        r.0@ == head@,
        r.1@ == a@ + b@ + c@,
{
    let mut v = chars_of(a);
    extend_chars(&mut v, b);
    extend_str(&mut v, c);
    (head.to_string(), string_of(&v))
}

fn plain_rule(head: &str, a: &str) -> (r: (String, String))
    ensures
        r.0@ == head@,
        r.1@ == a@,
{
    (head.to_string(), a.to_string())
}

/// The firewall script for a tinc port (`firewall_script_write`).
pub fn firewall_script_text(port: u16) -> (r: String)
    ensures
        r@ == firewall_script(dec(port as nat)),
{
    let mut p: Vec<char> = Vec::new();
    push_dec(&mut p, port as u64);
    assert(p@ =~= dec(port as nat));
    let rules = vec![
        plain_rule("", "INPUT -i dnet -j ACCEPT"),
        plain_rule("", "OUTPUT -o dnet -j ACCEPT"),
        rule("", "INPUT -i brwan -p udp --dport ", &p, " -j ACCEPT"),
        rule("", "INPUT -i ppp0 -p udp --dport ", &p, " -j ACCEPT"),
        rule("", "INPUT -i brwan -p tcp --dport ", &p, " -j ACCEPT"),
        rule("", "INPUT -i ppp0 -p tcp --dport ", &p, " -j ACCEPT"),
        plain_rule("", "FORWARD -i dnet -j ACCEPT"),
        plain_rule("", "FORWARD -o dnet -j ACCEPT"),
        plain_rule("-t nat ", "POSTROUTING -o dnet -j MASQUERADE"),
    ];
    assert(rule_views(rules@) =~= firewall_rules(p@));
    start_stop_text(&rules, "")
}

/// The firewall script for a tunnel address (`tunnel_firewall_write`).
pub fn tunnel_firewall_text(vip: &IpAddr) -> (r: String)
    ensures
        r@ == tunnel_firewall_script(vip.text@),
{
    let v = chars_of(vip.text.as_str());
    let rules = vec![
        rule("-t nat ", "br0_masq -s ", &v, "/32 -j MASQUERADE"),
        rule("-t nat ", "POSTROUTING -o br1 -s ", &v, "/32 -j MASQUERADE"),
        rule("-t nat ", "POSTROUTING -o br2 -s ", &v, "/32 -j MASQUERADE"),
        rule("-t nat ", "POSTROUTING -o br3 -s ", &v, "/32 -j MASQUERADE"),
        rule("-t nat ", "brwan_masq -s ", &v, "/32 -j MASQUERADE"),
        rule("-t nat ", "ppp0_masq -s ", &v, "/32 -j MASQUERADE"),
    ];
    assert(rule_views(rules@) =~= tunnel_rules_of(v@));
    start_stop_text(&rules, "\n                ")
}

/// A rule to look for in a table: the interfaces, addresses and target it
/// has.
pub struct RuleQuery {
    pub table: String,
    pub chain: String,
    pub in_: String,
    pub out: String,
    pub src: String,
    pub dst: String,
    pub target: String,
}

/// A step of a firewall change.
pub enum FirewallStep {
    /// Write an executable script.
    WriteScript { path: String, content: String },
    /// Run a script with one argument.
    RunScript { path: String, arg: String },
    /// Look for a rule, and insert `rule_str` at the head of the rule's
    /// chain when the rule was found (`insert_if_found`) or was not found
    /// (otherwise).
    EnsureRule { query: RuleQuery, rule_str: String, insert_if_found: bool },
}

/// A rule query, with its fields as text:
/// (table, chain, in, out, src, dst, target).
pub type QueryView = (Seq<char>, Seq<char>, Seq<char>, Seq<char>, Seq<char>, Seq<char>, Seq<char>);

pub enum FirewallStepView {
    WriteScript { path: Seq<char>, content: Seq<char> },
    RunScript { path: Seq<char>, arg: Seq<char> },
    EnsureRule { query: QueryView, rule_str: Seq<char>, insert_if_found: bool },
}

impl View for RuleQuery {
    type V = QueryView;

    open spec fn view(&self) -> QueryView {
        (self.table@, self.chain@, self.in_@, self.out@, self.src@, self.dst@, self.target@)
    }
}

impl View for FirewallStep {
    type V = FirewallStepView;

    open spec fn view(&self) -> FirewallStepView {
        match self {
            FirewallStep::WriteScript { path, content } => FirewallStepView::WriteScript {
                path: path@,
                content: content@,
            },
            FirewallStep::RunScript { path, arg } => FirewallStepView::RunScript {
                path: path@,
                arg: arg@,
            },
            FirewallStep::EnsureRule { query, rule_str, insert_if_found } =>
                FirewallStepView::EnsureRule {
                query: query@,
                rule_str: rule_str@,
                insert_if_found: *insert_if_found,
            },
        }
    }
}

/// The steps' texts.
pub open spec fn step_views(v: Seq<FirewallStep>) -> Seq<FirewallStepView> {
    v.map_values(|s: FirewallStep| s@)
}

/// The rules the tunnel needs (`vpn_tunnel_firewall`): masquerading out of
/// the tinc interface, forwarding between it and the LAN bridge, and
/// accepting its output; each is inserted when it is missing.  The rule
/// accepting the tinc interface's input is inserted only when it is found
/// already, so a chain that lacks it stays without it.
pub open spec fn tunnel_rules() -> Seq<FirewallStepView> {
    seq![
        FirewallStepView::EnsureRule {
            query: ("nat"@, "POSTROUTING"@, ""@, "dnet"@, ""@, ""@, "MASQUERADE"@),
            rule_str: "-o dnet -j MASQUERADE"@,
            insert_if_found: false,
        },
        FirewallStepView::EnsureRule {
            query: ("filter"@, "FORWARD"@, "br0"@, "dnet"@, ""@, ""@, "ACCEPT"@),
            rule_str: "-i br0 -o dnet -j ACCEPT"@,
            insert_if_found: false,
        },
        FirewallStepView::EnsureRule {
            query: ("filter"@, "FORWARD"@, "dnet"@, "br0"@, ""@, ""@, "ACCEPT"@),
            rule_str: "-i dnet -o br0 -j ACCEPT"@,
            insert_if_found: false,
        },
        FirewallStepView::EnsureRule {
            query: ("filter"@, "INPUT"@, "dnet"@, ""@, ""@, ""@, "ACCEPT"@),
            rule_str: "-i dnet -j ACCEPT"@,
            insert_if_found: true,
        },
        FirewallStepView::EnsureRule {
            query: ("filter"@, "OUTPUT"@, ""@, "dnet"@, ""@, ""@, "ACCEPT"@),
            rule_str: "-o dnet -j ACCEPT"@,
            insert_if_found: false,
        },
    ]
}

fn query(
    table: &str,
    chain: &str,
    in_: &str,
    out: &str,
    src: &str,
    dst: &str,
    target: &str,
) -> (q: RuleQuery)
    ensures
        q@ == (table@, chain@, in_@, out@, src@, dst@, target@),
{
    RuleQuery {
        table: table.to_string(),
        chain: chain.to_string(),
        in_: in_.to_string(),
        out: out.to_string(),
        src: src.to_string(),
        dst: dst.to_string(),
        target: target.to_string(),
    }
}

/// The rules the tunnel needs, as steps.
pub fn vpn_tunnel_firewall() -> (steps: Vec<FirewallStep>)
    ensures
        step_views(steps@) == tunnel_rules(),
{
    let steps = vec![
        FirewallStep::EnsureRule {
            query: query("nat", "POSTROUTING", "", "dnet", "", "", "MASQUERADE"),
            rule_str: "-o dnet -j MASQUERADE".to_string(),
            insert_if_found: false,
        },
        FirewallStep::EnsureRule {
            query: query("filter", "FORWARD", "br0", "dnet", "", "", "ACCEPT"),
            rule_str: "-i br0 -o dnet -j ACCEPT".to_string(),
            insert_if_found: false,
        },
        FirewallStep::EnsureRule {
            query: query("filter", "FORWARD", "dnet", "br0", "", "", "ACCEPT"),
            rule_str: "-i dnet -o br0 -j ACCEPT".to_string(),
            insert_if_found: false,
        },
        FirewallStep::EnsureRule {
            query: query("filter", "INPUT", "dnet", "", "", "", "ACCEPT"),
            rule_str: "-i dnet -j ACCEPT".to_string(),
            insert_if_found: true,
        },
        FirewallStep::EnsureRule {
            query: query("filter", "OUTPUT", "", "dnet", "", "", "ACCEPT"),
            rule_str: "-o dnet -j ACCEPT".to_string(),
            insert_if_found: false,
        },
    ];
    assert(step_views(steps@) =~= tunnel_rules());
    steps
}

fn script_steps(path: &str, content: String, arg: &str) -> (steps: Vec<FirewallStep>)
    ensures
        step_views(steps@) == seq![
            FirewallStepView::WriteScript { path: path@, content: content@ },
            FirewallStepView::RunScript { path: path@, arg: arg@ },
        ],
{
    let steps = vec![
        FirewallStep::WriteScript { path: path.to_string(), content },
        FirewallStep::RunScript { path: path.to_string(), arg: arg.to_string() },
    ];
    assert(step_views(steps@) =~= seq![
        FirewallStepView::WriteScript { path: path@, content: content@ },
        FirewallStepView::RunScript { path: path@, arg: arg@ },
    ]);
    steps
}

/// Opening the firewall for a tinc port: write the script, run it with
/// `start`, then make sure of the tunnel's rules.
pub fn start_firewall(port: u16) -> (steps: Vec<FirewallStep>)
    ensures
        step_views(steps@) == seq![
            FirewallStepView::WriteScript {
                path: FIREWALL_SCRIPT_PATH@,
                content: firewall_script(dec(port as nat)),
            },
            FirewallStepView::RunScript { path: FIREWALL_SCRIPT_PATH@, arg: "start"@ },
        ] + tunnel_rules(),
{
    let mut steps = script_steps(FIREWALL_SCRIPT_PATH, firewall_script_text(port), "start");
    let ghost first = step_views(steps@);
    let mut rules = vpn_tunnel_firewall();
    steps.append(&mut rules);
    assert(step_views(steps@) =~= first + tunnel_rules());
    steps
}

/// Closing the firewall for a tinc port: write the script and run it with
/// `stop`.
pub fn stop_firewall(port: u16) -> (steps: Vec<FirewallStep>)
    ensures
        step_views(steps@) == seq![
            FirewallStepView::WriteScript {
                path: FIREWALL_SCRIPT_PATH@,
                content: firewall_script(dec(port as nat)),
            },
            FirewallStepView::RunScript { path: FIREWALL_SCRIPT_PATH@, arg: "stop"@ },
        ],
{
    script_steps(FIREWALL_SCRIPT_PATH, firewall_script_text(port), "stop")
}

/// Masquerading a tunnel address: write its script and run it with
/// `start`.
pub fn start_tunnel_firewall(vip: &IpAddr) -> (steps: Vec<FirewallStep>)
    ensures
        step_views(steps@) == seq![
            FirewallStepView::WriteScript {
                path: TUNNEL_FIREWALL_SCRIPT_PATH@,
                content: tunnel_firewall_script(vip.text@),
            },
            FirewallStepView::RunScript { path: TUNNEL_FIREWALL_SCRIPT_PATH@, arg: "start"@ },
        ],
{
    script_steps(TUNNEL_FIREWALL_SCRIPT_PATH, tunnel_firewall_text(vip), "start")
}

/// No longer masquerading a tunnel address: write its script and run it
/// with `stop`.
pub fn stop_tunnel_firewall(vip: &IpAddr) -> (steps: Vec<FirewallStep>)
    ensures
        step_views(steps@) == seq![
            FirewallStepView::WriteScript {
                path: TUNNEL_FIREWALL_SCRIPT_PATH@,
                content: tunnel_firewall_script(vip.text@),
            },
            FirewallStepView::RunScript { path: TUNNEL_FIREWALL_SCRIPT_PATH@, arg: "stop"@ },
        ],
{
    script_steps(TUNNEL_FIREWALL_SCRIPT_PATH, tunnel_firewall_text(vip), "stop")
}

} // verus!
