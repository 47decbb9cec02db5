//! Character-level string helpers with exact specifications.
//!
//! The daemons build configuration files and command lines out of text and
//! read back command output.  Everything here works on `Vec<char>` so that
//! the contracts can speak of `Seq<char>` directly.
use vstd::prelude::*;

verus! {

/// Appends one character to a string (`String::push`).
#[verifier::external_body]
pub(crate) fn push_char(s: &mut String, c: char)
    ensures
        final(s)@ == old(s)@.push(c),
{
    s.push(c);
}

/// The characters of a string slice, in order.
pub fn chars_of(s: &str) -> (v: Vec<char>)
    ensures
        v@ == s@,
{
    let mut v: Vec<char> = Vec::new();
    for c in it: s.chars()
        invariant
            v@ == it.seq().take(it.index() as int),
            it.seq() == s@,
    {
        v.push(c);
    }
    v
}

/// The string made of the given characters.
pub fn string_of(v: &Vec<char>) -> (s: String)
    ensures
        s@ == v@,
{
    let mut s = String::new();
    let mut i: usize = 0;
    while i < v.len()
        invariant
            i <= v.len(),
            s@ == v@.take(i as int),
        decreases v.len() - i,
    {
        push_char(&mut s, v[i]);
        assert(v@.take(i + 1) == v@.take(i as int).push(v@[i as int]));
        i = i + 1;
    }
    assert(v@.take(v@.len() as int) == v@);
    s
}

/// Appends all characters of `t` to `s`.
pub fn extend_chars(s: &mut Vec<char>, t: &Vec<char>)
    ensures
        final(s)@ == old(s)@ + t@,
{
    let ghost s0 = s@;
    let mut i: usize = 0;
    while i < t.len()
        invariant
            i <= t.len(),
            s@ == s0 + t@.take(i as int),
        decreases t.len() - i,
    {
        s.push(t[i]);
        assert(t@.take(i + 1) == t@.take(i as int).push(t@[i as int]));
        i = i + 1;
    }
    assert(t@.take(t@.len() as int) == t@);
}

/// Appends all characters of a string slice to `s`.
pub fn extend_str(s: &mut Vec<char>, t: &str)
    ensures
        final(s)@ == old(s)@ + t@,
{
    let tv = chars_of(t);
    extend_chars(s, &tv);
}

// ---------------------------------------------------------------------------
// Whitespace
// ---------------------------------------------------------------------------

/// ASCII whitespace as `u8::is_ascii_whitespace` defines it.
pub open spec fn is_ascii_ws(c: char) -> bool {
    c == ' ' || c == '\t' || c == '\n' || c == '\x0C' || c == '\r'
}

pub fn is_ascii_whitespace(c: char) -> (b: bool)
    ensures
        b == is_ascii_ws(c),
{
    c == ' ' || c == '\t' || c == '\n' || c == '\x0C' || c == '\r'
}

/// Characters with the Unicode `White_Space` property, as
/// `char::is_whitespace` recognises them.
pub open spec fn is_unicode_ws(c: char) -> bool {
    let n = c as u32;
    ||| 9 <= n <= 13
    ||| n == 32
    ||| n == 0x85
    ||| n == 0xA0
    ||| n == 0x1680
    ||| 0x2000 <= n <= 0x200A
    ||| n == 0x2028
    ||| n == 0x2029
    ||| n == 0x202F
    ||| n == 0x205F
    ||| n == 0x3000
}

pub fn is_whitespace(c: char) -> (b: bool)
    ensures
        b == is_unicode_ws(c),
{
    let n = c as u32;
    (9 <= n && n <= 13) || n == 32 || n == 0x85 || n == 0xA0 || n == 0x1680 || (0x2000 <= n
        && n <= 0x200A) || n == 0x2028 || n == 0x2029 || n == 0x202F || n == 0x205F || n == 0x3000
}

/// The token list of a finished token: empty tokens are dropped.
pub open spec fn flush(cur: Seq<char>) -> Seq<Seq<char>> {
    if cur.len() > 0 {
        seq![cur]
    } else {
        seq![]
    }
}

/// Tokens of `s` separated by runs of characters satisfying `ws`, where
/// `cur` is the token read so far.
pub open spec fn tokens_from(s: Seq<char>, cur: Seq<char>, unicode: bool) -> Seq<Seq<char>>
    decreases s.len(),
{
    if s.len() == 0 {
        flush(cur)
    } else if (if unicode {
        is_unicode_ws(s[0])
    } else {
        is_ascii_ws(s[0])
    }) {
        flush(cur) + tokens_from(s.drop_first(), seq![], unicode)
    } else {
        tokens_from(s.drop_first(), cur.push(s[0]), unicode)
    }
}

/// `str::split_ascii_whitespace`.
pub open spec fn ascii_ws_tokens(s: Seq<char>) -> Seq<Seq<char>> {
    tokens_from(s, seq![], false)
}

/// `str::split_whitespace`.
pub open spec fn unicode_ws_tokens(s: Seq<char>) -> Seq<Seq<char>> {
    tokens_from(s, seq![], true)
}

/// The character sequences held by a vector of character vectors.
pub open spec fn views(v: Seq<Vec<char>>) -> Seq<Seq<char>> {
    v.map_values(|t: Vec<char>| t@)
}

/// Appends a finished token to the output unless it is empty.
fn flush_into(out: &mut Vec<Vec<char>>, cur: Vec<char>)
    ensures
        views(final(out)@) == views(old(out)@) + flush(cur@),
{
    let ghost c = cur@;
    let ghost o = views(out@);
    if cur.len() > 0 {
        out.push(cur);
        assert(views(out@) =~= o + flush(c));
    } else {
        assert(o + flush(c) =~= o);
    }
}

/// Splits `s` at whitespace (ASCII or Unicode, as `unicode` says),
/// dropping empty tokens.
pub fn split_ws(s: &Vec<char>, unicode: bool) -> (r: Vec<Vec<char>>)
    ensures
        views(r@) == tokens_from(s@, seq![], unicode),
{
    let mut out: Vec<Vec<char>> = Vec::new();
    let mut cur: Vec<char> = Vec::new();
    let mut i: usize = 0;
    assert(s@.skip(0) =~= s@);
    assert(views(out@) =~= Seq::<Seq<char>>::empty());
    while i < s.len()
        invariant
            i <= s.len(),
            views(out@) + tokens_from(s@.skip(i as int), cur@, unicode) == tokens_from(
                s@,
                seq![],
                unicode,
            ),
        decreases s.len() - i,
    {
        let c = s[i];
        let ws = if unicode {
            is_whitespace(c)
        } else {
            is_ascii_whitespace(c)
        };
        let ghost rest = s@.skip(i as int);
        assert(rest[0] == c);
        assert(rest.drop_first() =~= s@.skip(i + 1));
        let ghost old_out = views(out@);
        let ghost old_cur = cur@;
        if ws {
            let done = cur;
            flush_into(&mut out, done);
            cur = Vec::new();
            assert(views(out@) + tokens_from(s@.skip(i + 1), cur@, unicode) =~= old_out + (
            flush(old_cur) + tokens_from(rest.drop_first(), seq![], unicode)));
        } else {
            cur.push(c);
        }
        i = i + 1;
    }
    assert(s@.skip(i as int) =~= Seq::<char>::empty());
    flush_into(&mut out, cur);
    out
}

// ---------------------------------------------------------------------------
// Patterns: splitting and replacing
// ---------------------------------------------------------------------------

/// `s` begins with `p`.
pub open spec fn starts_with(s: Seq<char>, p: Seq<char>) -> bool {
    p.len() <= s.len() && s.subrange(0, p.len() as int) == p
}

/// `s` contains `p` somewhere.
pub open spec fn contains(s: Seq<char>, p: Seq<char>) -> bool {
    exists|i: int| 0 <= i <= s.len() - p.len() && #[trigger] s.subrange(i, i + p.len()) == p
}

/// Whether `p` occurs in `s` at position `i`.
pub fn matches_at(s: &Vec<char>, i: usize, p: &Vec<char>) -> (b: bool)
    requires
        i <= s.len(),
    ensures
        b == starts_with(s@.skip(i as int), p@),
{
    if p.len() > s.len() - i {
        return false;
    }
    let mut j: usize = 0;
    while j < p.len()
        invariant
            j <= p.len(),
            i + p.len() <= s.len(),
            forall|k: int| 0 <= k < j ==> s@[i + k] == p@[k],
        decreases p.len() - j,
    {
        if s[i + j] != p[j] {
            assert(s@.skip(i as int).subrange(0, p@.len() as int)[j as int] != p@[j as int]);
            return false;
        }
        j = j + 1;
    }
    assert(s@.skip(i as int).subrange(0, p@.len() as int) =~= p@);
    true
}

/// Whether `p` occurs in `s` (`str::contains` with a string pattern).
pub fn contains_exec(s: &Vec<char>, p: &Vec<char>) -> (b: bool)
    ensures
        b == contains(s@, p@),
{
    if p.len() == 0 {
        assert(s@.subrange(0, 0 + p@.len() as int) =~= p@);
        return true;
    }
    if p.len() > s.len() {
        return false;
    }
    let mut i: usize = 0;
    while i <= s.len() - p.len()
        invariant
            1 <= p.len() <= s.len(),
            i <= s.len() - p.len() + 1,
            forall|k: int| 0 <= k < i ==> #[trigger] s@.subrange(k, k + p.len()) != p@,
        decreases s.len() - p.len() + 1 - i,
    {
        assert(s@.skip(i as int).subrange(0, p@.len() as int) =~= s@.subrange(i as int, i + p.len()));
        if matches_at(s, i, p) {
            return true;
        }
        i = i + 1;
    }
    false
}

/// The pieces of `s` between the non-overlapping occurrences of `p`, read
/// from left to right (`str::split` with a string pattern), where `cur` is
/// the piece read so far.
pub open spec fn split_from(s: Seq<char>, p: Seq<char>, cur: Seq<char>) -> Seq<Seq<char>>
    decreases s.len(),
{
    if s.len() == 0 || p.len() == 0 {
        seq![cur + s]
    } else if starts_with(s, p) {
        seq![cur] + split_from(s.skip(p.len() as int), p, seq![])
    } else {
        split_from(s.drop_first(), p, cur.push(s[0]))
    }
}

/// `str::split` with a non-empty string pattern.
pub open spec fn split_on(s: Seq<char>, p: Seq<char>) -> Seq<Seq<char>> {
    split_from(s, p, seq![])
}

pub proof fn lemma_split_from_nonempty(s: Seq<char>, p: Seq<char>, cur: Seq<char>)
    ensures
        split_from(s, p, cur).len() >= 1,
    decreases s.len(),
{
    if s.len() == 0 || p.len() == 0 {
    } else if starts_with(s, p) {
        lemma_split_from_nonempty(s.skip(p.len() as int), p, seq![]);
    } else {
        lemma_split_from_nonempty(s.drop_first(), p, cur.push(s[0]));
    }
}

/// When `p` occurs in `x + p + y` at the end of `x` and nowhere before,
/// the first piece is `x` (after what was read before it).
pub proof fn lemma_split_first(x: Seq<char>, p: Seq<char>, y: Seq<char>, cur: Seq<char>)
    requires
        p.len() > 0,
        forall|i: int| 0 <= i < x.len() ==> !starts_with(#[trigger] (x + p + y).skip(i), p),
    ensures
        split_from(x + p + y, p, cur) == seq![cur + x] + split_from(y, p, seq![]),
    decreases x.len(),
{
    let s = x + p + y;
    if x.len() == 0 {
        assert(s =~= p + y);
        assert(s.subrange(0, p.len() as int) =~= p);
        assert(s.skip(p.len() as int) =~= y);
        assert(cur + x =~= cur);
    } else {
        assert(s.skip(0) =~= s);
        assert(!starts_with(s, p));
        assert(s[0] == x[0]);
        let x1 = x.drop_first();
        assert(s.drop_first() =~= x1 + p + y);
        assert forall|i: int| 0 <= i < x1.len() implies !starts_with(#[trigger] (x1 + p + y).skip(i), p) by {
            assert((x1 + p + y).skip(i) =~= s.skip(i + 1));
        }
        lemma_split_first(x1, p, y, cur.push(x[0]));
        assert(cur.push(x[0]) + x1 =~= cur + x);
    }
}

/// When `p` occurs nowhere in `y`, `y` is one piece.
pub proof fn lemma_split_none(y: Seq<char>, p: Seq<char>, cur: Seq<char>)
    requires
        p.len() > 0,
        forall|i: int| 0 <= i < y.len() ==> !starts_with(#[trigger] y.skip(i), p),
    ensures
        split_from(y, p, cur) == seq![cur + y],
    decreases y.len(),
{
    if y.len() == 0 {
        assert(cur + y =~= cur);
    } else {
        assert(y.skip(0) =~= y);
        let y1 = y.drop_first();
        assert forall|i: int| 0 <= i < y1.len() implies !starts_with(#[trigger] y1.skip(i), p) by {
            assert(y1.skip(i) =~= y.skip(i + 1));
        }
        lemma_split_none(y1, p, cur.push(y[0]));
        assert(cur.push(y[0]) + y1 =~= cur + y);
    }
}

/// A pattern holding a character that `y` lacks occurs nowhere in `y`.
pub proof fn lemma_no_match_without_char(y: Seq<char>, p: Seq<char>, k: int)
    requires
        0 <= k < p.len(),
        !y.contains(p[k]),
    ensures
        forall|i: int| 0 <= i < y.len() ==> !starts_with(#[trigger] y.skip(i), p),
{
    assert forall|i: int| 0 <= i < y.len() implies !starts_with(#[trigger] y.skip(i), p) by {
        if starts_with(y.skip(i), p) {
            assert(y.skip(i).subrange(0, p.len() as int)[k] == p[k]);
            assert(y[i + k] == p[k]);
        }
    }
}

/// Splits `s` at each occurrence of the non-empty pattern `p`.
pub fn split_by(s: &Vec<char>, p: &Vec<char>) -> (r: Vec<Vec<char>>)
    requires
        p.len() > 0,
    ensures
        views(r@) == split_on(s@, p@),
        r.len() >= 1,
{
    let mut out: Vec<Vec<char>> = Vec::new();
    let mut cur: Vec<char> = Vec::new();
    let mut i: usize = 0;
    assert(s@.skip(0) =~= s@);
    assert(views(out@) =~= Seq::<Seq<char>>::empty());
    while i < s.len()
        invariant
            i <= s.len(),
            p.len() > 0,
            views(out@) + split_from(s@.skip(i as int), p@, cur@) == split_on(s@, p@),
        decreases s.len() - i,
    {
        let ghost rest = s@.skip(i as int);
        let ghost old_out = views(out@);
        let ghost old_cur = cur@;
        if matches_at(s, i, p) {
            let done = cur;
            out.push(done);
            assert(views(out@) =~= old_out + seq![old_cur]);
            cur = Vec::new();
            assert(rest.skip(p@.len() as int) =~= s@.skip(i + p.len()));
            assert(views(out@) + split_from(s@.skip(i + p.len()), p@, cur@) =~= old_out + (seq![
                old_cur,
            ] + split_from(rest.skip(p@.len() as int), p@, seq![])));
            i = i + p.len();
        } else {
            assert(rest[0] == s@[i as int]);
            assert(rest.drop_first() =~= s@.skip(i + 1));
            cur.push(s[i]);
            i = i + 1;
        }
    }
    assert(s@.skip(i as int) =~= Seq::<char>::empty());
    assert(cur@ + s@.skip(i as int) =~= cur@);
    let ghost old_out = views(out@);
    let ghost old_cur = cur@;
    out.push(cur);
    assert(views(out@) =~= old_out + seq![old_cur]);
    proof {
        lemma_split_from_nonempty(s@, p@, seq![]);
    }
    out
}

/// `s` with every non-overlapping occurrence of the non-empty pattern `p`,
/// read from left to right, replaced by `r` (`str::replace`).
pub open spec fn replace_all(s: Seq<char>, p: Seq<char>, r: Seq<char>) -> Seq<char>
    decreases s.len(),
{
    if s.len() == 0 || p.len() == 0 {
        s
    } else if starts_with(s, p) {
        r + replace_all(s.skip(p.len() as int), p, r)
    } else {
        seq![s[0]] + replace_all(s.drop_first(), p, r)
    }
}

/// Replaces every occurrence of the non-empty pattern `p` in `s` by `r`.
pub fn replace(s: &Vec<char>, p: &Vec<char>, r: &Vec<char>) -> (out: Vec<char>)
    requires
        p.len() > 0,
    ensures
        out@ == replace_all(s@, p@, r@),
{
    let mut out: Vec<char> = Vec::new();
    let mut i: usize = 0;
    assert(s@.skip(0) =~= s@);
    while i < s.len()
        invariant
            i <= s.len(),
            p.len() > 0,
            out@ + replace_all(s@.skip(i as int), p@, r@) == replace_all(s@, p@, r@),
        decreases s.len() - i,
    {
        let ghost rest = s@.skip(i as int);
        let ghost old_out = out@;
        if matches_at(s, i, p) {
            extend_chars(&mut out, r);
            assert(rest.skip(p@.len() as int) =~= s@.skip(i + p.len()));
            assert(out@ + replace_all(s@.skip(i + p.len()), p@, r@) =~= old_out + (r@
                + replace_all(rest.skip(p@.len() as int), p@, r@)));
            i = i + p.len();
        } else {
            assert(rest[0] == s@[i as int]);
            assert(rest.drop_first() =~= s@.skip(i + 1));
            out.push(s[i]);
            assert(out@ + replace_all(s@.skip(i + 1), p@, r@) =~= old_out + (seq![rest[0]]
                + replace_all(rest.drop_first(), p@, r@)));
            i = i + 1;
        }
    }
    assert(s@.skip(i as int) =~= Seq::<char>::empty());
    assert(out@ + Seq::<char>::empty() =~= out@);
    out
}

/// `replace` on a string, with string-literal pattern and replacement.
pub fn replace_str(s: &Vec<char>, p: &str, r: &str) -> (out: Vec<char>)
    requires
        p@.len() > 0,
    ensures
        out@ == replace_all(s@, p@, r@),
{
    let pv = chars_of(p);
    let rv = chars_of(r);
    replace(s, &pv, &rv)
}

/// Replacing leaves a text unchanged when a character of the pattern does
/// not occur in it.
pub proof fn lemma_replace_absent(s: Seq<char>, p: Seq<char>, r: Seq<char>, k: int)
    requires
        0 <= k < p.len(),
        !s.contains(p[k]),
    ensures
        replace_all(s, p, r) == s,
    decreases s.len(),
{
    if s.len() == 0 || p.len() == 0 {
    } else {
        if starts_with(s, p) {
            assert(s.subrange(0, p.len() as int)[k] == s[k]);
            assert(s.contains(s[k]));
        }
        let rest = s.drop_first();
        assert(!rest.contains(p[k])) by {
            if rest.contains(p[k]) {
                let j = choose|j: int| 0 <= j < rest.len() && rest[j] == p[k];
                assert(s[j + 1] == p[k]);
            }
        }
        lemma_replace_absent(rest, p, r, k);
        assert(seq![s[0]] + rest =~= s);
    }
}

/// Replacing with a text free of the character `c` leaves no `c` in the
/// result when `c` was absent from `s` or when the pattern is `c` itself.
pub proof fn lemma_replace_chars(s: Seq<char>, p: Seq<char>, r: Seq<char>, c: char)
    requires
        !r.contains(c),
        !s.contains(c) || p =~= seq![c],
    ensures
        !replace_all(s, p, r).contains(c),
    decreases s.len(),
{
    if s.len() == 0 || p.len() == 0 {
        if p.len() == 0 {
            assert(!s.contains(c));
        }
    } else if starts_with(s, p) {
        let rest = s.skip(p.len() as int);
        assert forall|x: char| rest.contains(x) implies s.contains(x) by {
            let k = choose|k: int| 0 <= k < rest.len() && rest[k] == x;
            assert(s[k + p.len()] == x);
        }
        lemma_replace_chars(rest, p, r, c);
        let res = r + replace_all(rest, p, r);
        assert forall|k: int| 0 <= k < res.len() implies res[k] != c by {
            if k < r.len() {
                assert(r[k] == res[k]);
            } else {
                assert(replace_all(rest, p, r)[k - r.len()] == res[k]);
            }
        }
    } else {
        let rest = s.drop_first();
        if s.contains(c) {
            assert(p =~= seq![c]);
            assert(s[0] != c) by {
                if s[0] == c {
                    assert(s.subrange(0, 1) =~= p);
                }
            }
        }
        assert forall|x: char| rest.contains(x) implies s.contains(x) by {
            let k = choose|k: int| 0 <= k < rest.len() && rest[k] == x;
            assert(s[k + 1] == x);
        }
        lemma_replace_chars(rest, p, r, c);
        let res = seq![s[0]] + replace_all(rest, p, r);
        assert forall|k: int| 0 <= k < res.len() implies res[k] != c by {
            if k >= 1 {
                assert(replace_all(rest, p, r)[k - 1] == res[k]);
            } else {
                assert(res[0] == s[0]);
                assert(s.contains(s[0]));
            }
        }
    }
}

// ---------------------------------------------------------------------------
// Decimal numbers
// ---------------------------------------------------------------------------

/// The ASCII digit for `d` (0 to 9).
pub open spec fn digit_char(d: int) -> char {
    if d == 0 {
        '0'
    } else if d == 1 {
        '1'
    } else if d == 2 {
        '2'
    } else if d == 3 {
        '3'
    } else if d == 4 {
        '4'
    } else if d == 5 {
        '5'
    } else if d == 6 {
        '6'
    } else if d == 7 {
        '7'
    } else if d == 8 {
        '8'
    } else {
        '9'
    }
}

/// The decimal text of a natural number, as `Display` writes it.
pub open spec fn dec(n: nat) -> Seq<char>
    decreases n,
{
    if n < 10 {
        seq![digit_char(n as int)]
    } else {
        dec(n / 10).push(digit_char((n % 10) as int))
    }
}

/// The decimal text of an integer, with a leading `-` when negative.
pub open spec fn dec_int(n: int) -> Seq<char> {
    if n < 0 {
        seq!['-'] + dec((-n) as nat)
    } else {
        dec(n as nat)
    }
}

fn digit(d: u64) -> (c: char)
    requires
        d < 10,
    ensures
        c == digit_char(d as int),
{
    if d == 0 {
        '0'
    } else if d == 1 {
        '1'
    } else if d == 2 {
        '2'
    } else if d == 3 {
        '3'
    } else if d == 4 {
        '4'
    } else if d == 5 {
        '5'
    } else if d == 6 {
        '6'
    } else if d == 7 {
        '7'
    } else if d == 8 {
        '8'
    } else {
        '9'
    }
}

/// Appends the decimal text of `n`.
pub fn push_dec(s: &mut Vec<char>, n: u64)
    ensures
        final(s)@ == old(s)@ + dec(n as nat),
    decreases n,
{
    if n >= 10 {
        push_dec(s, n / 10);
        let ghost mid = s@;
        s.push(digit(n % 10));
        assert(s@ =~= old(s)@ + dec(n as nat));
    } else {
        s.push(digit(n));
        assert(s@ =~= old(s)@ + dec(n as nat));
    }
}

/// Appends the decimal text of a signed `n`.
pub fn push_dec_signed(s: &mut Vec<char>, n: i64)
    ensures
        final(s)@ == old(s)@ + dec_int(n as int),
{
    if n < 0 {
        s.push('-');
        let m: u64 = if n == i64::MIN {
            9223372036854775808u64
        } else {
            (-n) as u64
        };
        push_dec(s, m);
        assert(s@ =~= old(s)@ + dec_int(n as int));
    } else {
        push_dec(s, n as u64);
    }
}

/// `c` is an ASCII decimal digit.
pub open spec fn is_digit(c: char) -> bool {
    48 <= (c as u32) <= 57
}

/// The value of a run of decimal digits.
pub open spec fn digits_value(s: Seq<char>) -> nat
    decreases s.len(),
{
    if s.len() == 0 {
        0
    } else {
        digits_value(s.drop_last()) * 10 + ((s.last() as u32) - 48) as nat
    }
}

/// The digits of an unsigned number: the text after an optional `+`.
pub open spec fn unsigned_digits(s: Seq<char>) -> Seq<char> {
    if s.len() > 0 && s[0] == '+' {
        s.drop_first()
    } else {
        s
    }
}

/// What `str::parse` gives for an unsigned integer type whose largest
/// value is `max`: an optional `+`, then one or more ASCII digits whose value
/// does not exceed `max`.
pub open spec fn parse_unsigned(s: Seq<char>, max: nat) -> Option<nat> {
    let d = unsigned_digits(s);
    if d.len() > 0 && (forall|i: int| 0 <= i < d.len() ==> is_digit(#[trigger] d[i]))
        && digits_value(d) <= max {
        Some(digits_value(d))
    } else {
        None
    }
}

proof fn lemma_digits_value_monotone(s: Seq<char>, k: int)
    requires
        0 <= k <= s.len(),
        forall|i: int| 0 <= i < s.len() ==> is_digit(#[trigger] s[i]),
    ensures
        digits_value(s.take(k)) <= digits_value(s),
    decreases s.len() - k,
{
    if k < s.len() {
        lemma_digits_value_monotone(s, k + 1);
        assert(s.take(k + 1).drop_last() =~= s.take(k));
        assert(s.take(k + 1).last() == s[k]);
    } else {
        assert(s.take(k) =~= s);
    }
}

/// Parses an unsigned decimal number no larger than `max`, as `str::parse`
/// does for `u8`, `u16` and `u32`.
pub fn parse_unsigned_exec(s: &Vec<char>, max: u32) -> (r: Option<u32>)
    ensures
        r matches Some(v) ==> parse_unsigned(s@, max as nat) == Some(v as nat),
        r is None ==> parse_unsigned(s@, max as nat) is None,
{
    let start: usize = if s.len() > 0 && s[0] == '+' {
        1
    } else {
        0
    };
    let ghost d = unsigned_digits(s@);
    assert(d =~= s@.skip(start as int));
    if start >= s.len() {
        return None;
    }
    let mut acc: u64 = 0;
    let mut i: usize = start;
    while i < s.len()
        invariant
            start <= i <= s.len(),
            d == unsigned_digits(s@),
            d =~= s@.skip(start as int),
            acc <= max,
            acc == digits_value(d.take(i - start)),
            forall|k: int| 0 <= k < i - start ==> is_digit(#[trigger] d[k]),
        decreases s.len() - i,
    {
        let c = s[i];
        let n = c as u32;
        if n < 48 || n > 57 {
            assert(d[i - start] == c);
            assert(!is_digit(d[i - start]));
            assert(!(forall|k: int| 0 <= k < d.len() ==> is_digit(#[trigger] d[k])));
            assert(parse_unsigned(s@, max as nat) is None);
            return None;
        }
        assert(d.take(i - start + 1).drop_last() =~= d.take(i - start));
        assert(d.take(i - start + 1).last() == c);
        let next: u64 = acc * 10 + (n - 48) as u64;
        if next > max as u64 {
            proof {
                if forall|k: int| 0 <= k < d.len() ==> is_digit(#[trigger] d[k]) {
                    lemma_digits_value_monotone(d, i - start + 1);
                    assert(digits_value(d) > max);
                }
                assert(parse_unsigned(s@, max as nat) is None);
            }
            return None;
        }
        acc = next;
        i = i + 1;
    }
    assert(d.take(i - start) =~= d);
    Some(acc as u32)
}

// ---------------------------------------------------------------------------
// Lines and trimming
// ---------------------------------------------------------------------------

/// `s` without leading Unicode whitespace.
pub open spec fn trim_start(s: Seq<char>) -> Seq<char>
    decreases s.len(),
{
    if s.len() > 0 && is_unicode_ws(s[0]) {
        trim_start(s.drop_first())
    } else {
        s
    }
}

/// `s` without trailing Unicode whitespace.
pub open spec fn trim_end(s: Seq<char>) -> Seq<char>
    decreases s.len(),
{
    if s.len() > 0 && is_unicode_ws(s.last()) {
        trim_end(s.drop_last())
    } else {
        s
    }
}

/// `str::trim`.
pub open spec fn trim(s: Seq<char>) -> Seq<char> {
    trim_end(trim_start(s))
}

/// The characters of `s` from `a` up to `b`.
pub fn sub_vec(s: &Vec<char>, a: usize, b: usize) -> (r: Vec<char>)
    requires
        a <= b <= s.len(),
    ensures
        r@ == s@.subrange(a as int, b as int),
{
    let mut r: Vec<char> = Vec::new();
    let mut k: usize = a;
    while k < b
        invariant
            a <= k <= b <= s.len(),
            r@ == s@.subrange(a as int, k as int),
        decreases b - k,
    {
        r.push(s[k]);
        assert(s@.subrange(a as int, k + 1) =~= s@.subrange(a as int, k as int).push(s@[k as int]));
        k = k + 1;
    }
    r
}

fn trim_start_index(s: &Vec<char>) -> (a: usize)
    ensures
        a <= s.len(),
        trim_start(s@) == s@.skip(a as int),
        a == s.len() || !is_unicode_ws(s@[a as int]),
{
    let mut a: usize = 0;
    assert(s@.skip(0) =~= s@);
    while a < s.len() && is_whitespace(s[a])
        invariant
            a <= s.len(),
            trim_start(s@) == trim_start(s@.skip(a as int)),
        decreases s.len() - a,
    {
        assert(s@.skip(a as int).drop_first() =~= s@.skip(a + 1));
        a = a + 1;
    }
    a
}

fn trim_end_index(s: &Vec<char>, a: usize) -> (b: usize)
    requires
        a <= s.len(),
    ensures
        a <= b <= s.len(),
        trim_end(s@.skip(a as int)) == s@.subrange(a as int, b as int),
{
    let ghost t = s@.skip(a as int);
    let mut b: usize = s.len();
    assert(t.take(b - a) =~= t);
    while b > a && is_whitespace(s[b - 1])
        invariant
            a <= b <= s.len(),
            t == s@.skip(a as int),
            trim_end(t) == trim_end(t.take(b - a)),
        decreases b,
    {
        assert(t.take(b - a).drop_last() =~= t.take(b - 1 - a));
        b = b - 1;
    }
    assert(t.take(b - a) =~= s@.subrange(a as int, b as int));
    b
}

/// Removes leading and trailing Unicode whitespace.
pub fn trim_exec(s: &Vec<char>) -> (r: Vec<char>)
    ensures
        r@ == trim(s@),
{
    let a = trim_start_index(s);
    let b = trim_end_index(s, a);
    sub_vec(s, a, b)
}

/// A line without the `\r` of a `\r\n` line ending.
pub open spec fn strip_cr(l: Seq<char>) -> Seq<char> {
    if l.len() > 0 && l.last() == '\r' {
        l.drop_last()
    } else {
        l
    }
}

/// `str::lines`: the pieces between `\n`, a final empty piece dropped, and
/// the `\r` of each `\r\n` ending removed.
pub open spec fn lines(s: Seq<char>) -> Seq<Seq<char>> {
    let parts = split_on(s, seq!['\n']);
    let n = if parts.last().len() == 0 {
        parts.len() - 1
    } else {
        parts.len() as int
    };
    Seq::new(
        n as nat,
        |i: int|
            if i < parts.len() - 1 {
                strip_cr(parts[i])
            } else {
                parts[i]
            },
    )
}

/// The lines of `s`.
pub fn lines_exec(s: &Vec<char>) -> (r: Vec<Vec<char>>)
    ensures
        views(r@) == lines(s@),
{
    let nl: Vec<char> = vec!['\n'];
    assert(nl@ =~= seq!['\n']);
    let parts = split_by(s, &nl);
    let ghost pv = views(parts@);
    let n: usize = if parts[parts.len() - 1].len() == 0 {
        parts.len() - 1
    } else {
        parts.len()
    };
    assert(pv[pv.len() - 1] == parts@[parts.len() - 1]@);
    let mut r: Vec<Vec<char>> = Vec::new();
    let mut i: usize = 0;
    while i < n
        invariant
            i <= n <= parts.len(),
            pv == views(parts@),
            pv == split_on(s@, seq!['\n']),
            n == (if pv.last().len() == 0 {
                pv.len() - 1
            } else {
                pv.len() as int
            }),
            r.len() == i,
            forall|k: int|
                0 <= k < i ==> #[trigger] r@[k]@ == (if k < pv.len() - 1 {
                    strip_cr(pv[k])
                } else {
                    pv[k]
                }),
        decreases n - i,
    {
        let part = &parts[i];
        assert(pv[i as int] == part@);
        let mut line: Vec<char> = part.clone();
        assert(line@ == part@);
        if i + 1 < parts.len() && line.len() > 0 && line[line.len() - 1] == '\r' {
            line.pop();
            assert(line@ =~= strip_cr(pv[i as int]));
        }
        r.push(line);
        i = i + 1;
    }
    assert(views(r@) =~= lines(s@));
    r
}

// ---------------------------------------------------------------------------
// Case mapping
// ---------------------------------------------------------------------------

/// The Unicode lower-case mapping of a text, as `str::to_lowercase`
/// computes it.
pub uninterp spec fn lowercase_of(s: Seq<char>) -> Seq<char>;

/// `str::to_lowercase`: its result depends on the text alone.
#[verifier::external_body]
pub(crate) fn to_lowercase(s: &str) -> (r: String)
    ensures
        r@ == lowercase_of(s@),
{
    s.to_lowercase()
}

} // verus!
