use dnet::text::{
    chars_of, contains_exec, lines_exec, parse_unsigned_exec, push_dec, push_dec_signed, replace, split_by,
    split_ws, string_of, trim_exec,
};

fn cv(s: &str) -> Vec<char> {
    s.chars().collect()
}

fn sv(v: &[Vec<char>]) -> Vec<String> {
    v.iter().map(|x| x.iter().collect()).collect()
}

#[test]
fn chars_and_string_round_trip() {
    let v = chars_of("héllo, wörld");
    assert_eq!(v, cv("héllo, wörld"));
    assert_eq!(string_of(&v), "héllo, wörld");
    assert_eq!(string_of(&Vec::new()), "");
}

#[test]
fn split_ascii_whitespace_matches_std() {
    for s in ["", "  ", "a", " a  b\tc\n", "x\u{0C}y\rz", "a\u{a0}b c", "  lead trail  "] {
        let got = sv(&split_ws(&cv(s), false));
        let want: Vec<String> = s.split_ascii_whitespace().map(|x| x.to_string()).collect();
        assert_eq!(got, want, "input {:?}", s);
    }
}

#[test]
fn split_unicode_whitespace_matches_std() {
    for s in ["", "a\u{a0}b c", "\u{2003}x\u{3000}y\u{85}", "p\u{200B}q"] {
        let got = sv(&split_ws(&cv(s), true));
        let want: Vec<String> = s.split_whitespace().map(|x| x.to_string()).collect();
        assert_eq!(got, want, "input {:?}", s);
    }
}

#[test]
fn split_by_matches_std() {
    for (s, p) in [("10.0.0.1", "."), ("", "."), ("a..b.", "."), ("xvpngw=yvpngw=z", "vpngw="), ("aaa", "aa")] {
        let got = sv(&split_by(&cv(s), &cv(p)));
        let want: Vec<String> = s.split(p).map(|x| x.to_string()).collect();
        assert_eq!(got, want, "input {:?} {:?}", s, p);
    }
}

#[test]
fn replace_matches_std() {
    for (s, p, r) in [("aaa", "aa", "b"), ("a:b:c", ":", "="), ("\\\"x\\\"", "\\\"", ""), ("none", "z", "y")] {
        let got: String = replace(&cv(s), &cv(p), &cv(r)).iter().collect();
        assert_eq!(got, s.replace(p, r));
    }
}

#[test]
fn decimal_text_matches_display() {
    for n in [0u64, 7, 10, 443, 65535, u64::MAX] {
        let mut v = Vec::new();
        push_dec(&mut v, n);
        assert_eq!(string_of(&v), n.to_string());
    }
    for n in [0i64, -1, 42, i64::MIN, i64::MAX] {
        let mut v = Vec::new();
        push_dec_signed(&mut v, n);
        assert_eq!(string_of(&v), n.to_string());
    }
}

#[test]
fn unsigned_parse_matches_std() {
    for s in ["", "+", "-", "0", "+7", "-7", "65535", "65536", "007", "1a", " 1", "4294967295", "4294967296", "99999999999999"] {
        assert_eq!(parse_unsigned_exec(&cv(s), 65535).map(|x| x as u16), s.parse::<u16>().ok(), "u16 {:?}", s);
        assert_eq!(parse_unsigned_exec(&cv(s), u32::MAX), s.parse::<u32>().ok(), "u32 {:?}", s);
    }
}

#[test]
fn trim_and_lines_match_std() {
    for s in ["", "\n", "a\nb", "a\r\nb\r\n", "a\rb\n\n", "last\r", " \t x \u{3000}"] {
        let got = sv(&lines_exec(&cv(s)));
        let want: Vec<String> = s.lines().map(|x| x.to_string()).collect();
        assert_eq!(got, want, "lines {:?}", s);
        let t: String = trim_exec(&cv(s)).iter().collect();
        assert_eq!(t, s.trim(), "trim {:?}", s);
    }
}


#[test]
fn contains_is_std_contains() {
    for (s, p) in [("", ""), ("abc", ""), ("", "a"), ("proxy_1", "proxy"), ("a_proxy", "proxy"), ("prox", "proxy"),
        ("xproxyx", "proxy"), ("aaab", "aab"), ("Proxy", "proxy")] {
        assert_eq!(contains_exec(&cv(s), &cv(p)), s.contains(p), "{:?} in {:?}", p, s);
    }
}
