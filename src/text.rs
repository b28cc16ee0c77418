//! Plain text helpers over character sequences: whitespace trimming, line splitting,
//! substring search and decimal rendering.

use vstd::prelude::*;

verus! {

/// The characters that carry the Unicode `White_Space` property.
pub open spec fn is_ws_char(c: char) -> bool {
    let u = c as u32;
    (0x09 <= u && u <= 0x0d) || u == 0x20 || u == 0x85 || u == 0xa0 || u == 0x1680 || (0x2000 <= u
        && u <= 0x200a) || u == 0x2028 || u == 0x2029 || u == 0x202f || u == 0x205f || u == 0x3000
}

/// `s` without its leading whitespace.
pub open spec fn trim_start(s: Seq<char>) -> Seq<char>
    decreases s.len(),
{
    if s.len() > 0 && is_ws_char(s[0]) {
        trim_start(s.drop_first())
    } else {
        s
    }
}

/// `s` without its trailing whitespace.
pub open spec fn trim_end(s: Seq<char>) -> Seq<char>
    decreases s.len(),
{
    if s.len() > 0 && is_ws_char(s.last()) {
        trim_end(s.drop_last())
    } else {
        s
    }
}

/// `s` without leading and trailing whitespace.
pub open spec fn trim(s: Seq<char>) -> Seq<char> {
    trim_end(trim_start(s))
}

/// Whether `c` is whitespace.
pub fn is_ws(c: char) -> (r: bool)
    ensures
        r == is_ws_char(c),
{
    let u = c as u32;
    (0x09 <= u && u <= 0x0d) || u == 0x20 || u == 0x85 || u == 0xa0 || u == 0x1680 || (0x2000 <= u
        && u <= 0x200a) || u == 0x2028 || u == 0x2029 || u == 0x202f || u == 0x205f || u == 0x3000
}

proof fn lemma_trim_start_step(s: Seq<char>, i: int)
    requires
        0 <= i < s.len(),
        is_ws_char(s[i]),
    ensures
        trim_start(s.subrange(i, s.len() as int)) == trim_start(s.subrange(i + 1, s.len() as int)),
{
    let t = s.subrange(i, s.len() as int);
    assert(t.drop_first() =~= s.subrange(i + 1, s.len() as int));
}

proof fn lemma_trim_end_step(s: Seq<char>, j: int)
    requires
        0 < j <= s.len(),
        is_ws_char(s[j - 1]),
    ensures
        trim_end(s.subrange(0, j)) == trim_end(s.subrange(0, j - 1)),
{
    let t = s.subrange(0, j);
    assert(t.drop_last() =~= s.subrange(0, j - 1));
}

/// The characters of `s` with leading and trailing whitespace removed.
pub fn trim_text(s: &str) -> (r: String)
    ensures
        r@ == trim(s@),
{
    let n = s.unicode_len();
    let mut i: usize = 0;
    assert(s@.subrange(0, n as int) =~= s@);
    while i < n && is_ws(s.get_char(i))
        invariant
            n == s@.len(),
            i <= n,
            trim_start(s@) == trim_start(s@.subrange(i as int, n as int)),
        decreases n - i,
    {
        proof {
            lemma_trim_start_step(s@, i as int);
        }
        i = i + 1;
    }
    let ghost rest = s@.subrange(i as int, n as int);
    assert(trim_start(rest) == rest) by {
        if rest.len() > 0 {
            assert(rest[0] == s@[i as int]);
        }
    }
    let mut j: usize = n;
    assert(rest.subrange(0, (j - i) as int) =~= rest);
    while j > i && is_ws(s.get_char(j - 1))
        invariant
            n == s@.len(),
            i <= j <= n,
            rest == s@.subrange(i as int, n as int),
            trim_end(rest) == trim_end(rest.subrange(0, (j - i) as int)),
        decreases j,
    {
        proof {
            assert(rest[(j - i - 1) as int] == s@[j - 1]);
            lemma_trim_end_step(rest, (j - i) as int);
        }
        j = j - 1;
    }
    let ghost kept = rest.subrange(0, (j - i) as int);
    assert(trim_end(kept) == kept) by {
        if kept.len() > 0 {
            assert(kept.last() == s@[j - 1]);
        }
    }
    let sub = s.substring_char(i, j);
    assert(sub@ =~= kept);
    String::from_str(sub)
}

/// `line` without one trailing carriage return.
pub open spec fn strip_cr(line: Seq<char>) -> Seq<char> {
    if line.len() > 0 && line.last() == '\r' {
        line.drop_last()
    } else {
        line
    }
}

/// The lines of `rest`, where `cur` holds the characters already read of the line
/// in progress. A line ends at `\n` (one `\r` before it is dropped); text after the
/// last `\n`, if any, is the last line.
pub open spec fn split_lines(rest: Seq<char>, cur: Seq<char>) -> Seq<Seq<char>>
    decreases rest.len(),
{
    if rest.len() == 0 {
        if cur.len() == 0 {
            Seq::empty()
        } else {
            seq![cur]
        }
    } else if rest[0] == '\n' {
        seq![strip_cr(cur)] + split_lines(rest.drop_first(), Seq::empty())
    } else {
        split_lines(rest.drop_first(), cur.push(rest[0]))
    }
}

/// The lines of `s`: an empty text has none.
pub open spec fn lines(s: Seq<char>) -> Seq<Seq<char>> {
    split_lines(s, Seq::empty())
}

/// Whether `p` occurs in `s` starting at position `k`.
pub open spec fn occurs_at(s: Seq<char>, p: Seq<char>, k: int) -> bool {
    0 <= k && k + p.len() <= s.len() && s.subrange(k, k + p.len()) == p
}

/// Whether `p` occurs somewhere in `s`.
pub open spec fn contains(s: Seq<char>, p: Seq<char>) -> bool {
    exists|k: int| occurs_at(s, p, k)
}

/// The first of `ls` that contains `p`.
pub open spec fn first_containing(ls: Seq<Seq<char>>, p: Seq<char>) -> Option<Seq<char>>
    decreases ls.len(),
{
    if ls.len() == 0 {
        None
    } else if contains(ls[0], p) {
        Some(ls[0])
    } else {
        first_containing(ls.drop_first(), p)
    }
}

/// Whether `p` occurs in `s`.
pub fn text_contains(s: &str, p: &str) -> (r: bool)
    ensures
        r == contains(s@, p@),
{
    let n = s.unicode_len();
    let m = p.unicode_len();
    if m > n {
        assert forall|k: int| !occurs_at(s@, p@, k) by {}
        return false;
    }
    let mut k: usize = 0;
    while k <= n - m
        invariant
            n == s@.len(),
            m == p@.len(),
            m <= n,
            k <= n - m + 1,
            forall|k0: int| 0 <= k0 < k ==> !occurs_at(s@, p@, k0),
        decreases n - m + 1 - k,
    {
        let mut t: usize = 0;
        while t < m && s.get_char(k + t) == p.get_char(t)
            invariant
                n == s@.len(),
                m == p@.len(),
                k + m <= n,
                t <= m,
                forall|t0: int| 0 <= t0 < t ==> s@[k + t0] == p@[t0],
            decreases m - t,
        {
            t = t + 1;
        }
        if t == m {
            assert(s@.subrange(k as int, k + m) =~= p@);
            assert(occurs_at(s@, p@, k as int));
            return true;
        }
        assert(!occurs_at(s@, p@, k as int)) by {
            if s@.subrange(k as int, k + m) == p@ {
                assert(s@.subrange(k as int, k + m)[t as int] == s@[k + t]);
            }
        }
        k = k + 1;
    }
    assert forall|k0: int| !occurs_at(s@, p@, k0) by {
        if 0 <= k0 < k {
        }
    }
    false
}

/// The first line of `s` that contains `marker`, as it stands in `s`.
pub fn find_line(s: &str, marker: &str) -> (r: Option<String>)
    ensures
        r matches Some(line) ==> first_containing(lines(s@), marker@) == Some(line@),
        r is None ==> first_containing(lines(s@), marker@) is None,
{
    let n = s.unicode_len();
    let mut start: usize = 0;
    let mut i: usize = 0;
    assert(s@.subrange(0, n as int) =~= s@);
    assert(s@.subrange(0, 0) =~= Seq::<char>::empty());
    while i < n
        invariant
            n == s@.len(),
            start <= i <= n,
            first_containing(lines(s@), marker@) == first_containing(
                split_lines(s@.subrange(i as int, n as int), s@.subrange(start as int, i as int)),
                marker@,
            ),
        decreases n - i,
    {
        let c = s.get_char(i);
        let ghost rest = s@.subrange(i as int, n as int);
        let ghost cur = s@.subrange(start as int, i as int);
        assert(rest.drop_first() =~= s@.subrange(i + 1, n as int));
        assert(rest[0] == c);
        if c == '\n' {
            let mut e = i;
            if e > start && s.get_char(e - 1) == '\r' {
                e = e - 1;
            }
            let line = s.substring_char(start, e);
            assert(line@ =~= strip_cr(cur));
            let ghost ls = split_lines(rest, cur);
            assert(ls[0] == strip_cr(cur));
            assert(ls.drop_first() =~= split_lines(s@.subrange(i + 1, n as int), Seq::empty()));
            if text_contains(line, marker) {
                return Some(String::from_str(line));
            }
            start = i + 1;
            assert(s@.subrange(start as int, start as int) =~= Seq::<char>::empty());
        } else {
            assert(cur.push(c) =~= s@.subrange(start as int, i + 1));
        }
        i = i + 1;
    }
    assert(s@.subrange(n as int, n as int) =~= Seq::<char>::empty());
    if start == n {
        assert(s@.subrange(start as int, n as int) =~= Seq::<char>::empty());
    }
    if start < n {
        let line = s.substring_char(start, n);
        let ghost ls = split_lines(Seq::empty(), s@.subrange(start as int, n as int));
        assert(ls.drop_first() =~= Seq::<Seq<char>>::empty());
        assert(ls[0] =~= line@);
        assert(first_containing(ls.drop_first(), marker@) is None);
        if text_contains(line, marker) {
            return Some(String::from_str(line));
        }
    }
    None
}

/// The decimal digit for `d`.
pub open spec fn digit_char(d: nat) -> char {
    seq!['0', '1', '2', '3', '4', '5', '6', '7', '8', '9'][d as int]
}

/// The decimal rendering of `n`, without leading zeros.
pub open spec fn decimal(n: nat) -> Seq<char>
    decreases n,
{
    if n < 10 {
        seq![digit_char(n)]
    } else {
        decimal(n / 10).push(digit_char(n % 10))
    }
}

/// The one-character text of the digit `d`.
pub fn digit_text(d: u128) -> (r: &'static str)
    requires
        d < 10,
    ensures
        r@ == seq![digit_char(d as nat)],
{
    let r = if d == 0 {
        "0"
    } else if d == 1 {
        "1"
    } else if d == 2 {
        "2"
    } else if d == 3 {
        "3"
    } else if d == 4 {
        "4"
    } else if d == 5 {
        "5"
    } else if d == 6 {
        "6"
    } else if d == 7 {
        "7"
    } else if d == 8 {
        "8"
    } else {
        "9"
    };
    proof {
        reveal_strlit("0");
        reveal_strlit("1");
        reveal_strlit("2");
        reveal_strlit("3");
        reveal_strlit("4");
        reveal_strlit("5");
        reveal_strlit("6");
        reveal_strlit("7");
        reveal_strlit("8");
        reveal_strlit("9");
    }
    assert(r@ =~= seq![digit_char(d as nat)]);
    r
}

/// The decimal rendering of `n`.
pub fn decimal_text(n: u128) -> (r: String)
    ensures
        r@ == decimal(n as nat),
    decreases n,
{
    if n < 10 {
        String::from_str(digit_text(n))
    } else {
        let mut r = decimal_text(n / 10);
        r.append(digit_text(n % 10));
        assert(r@ =~= decimal(n as nat));
        r
    }
}

/// Whether `a` and `b` hold the same characters.
pub fn same_text(a: &str, b: &str) -> (r: bool)
    ensures
        r == (a@ == b@),
{
    String::from_str(a) == String::from_str(b)
}

/// `name` placed inside the directory `dir`: a separator goes between them unless
/// `dir` is empty or already ends in one, and a rooted `name` stands alone.
pub open spec fn join_path(dir: Seq<char>, name: Seq<char>) -> Seq<char> {
    if name.len() > 0 && name[0] == '/' {
        name
    } else if dir.len() == 0 || dir.last() == '/' {
        dir + name
    } else {
        dir + seq!['/'] + name
    }
}

/// The path of `name` inside the directory `dir`.
pub fn join(dir: &str, name: &str) -> (r: String)
    ensures
        r@ == join_path(dir@, name@),
{
    let m = name.unicode_len();
    if m > 0 && name.get_char(0) == '/' {
        return String::from_str(name);
    }
    let n = dir.unicode_len();
    let mut r = String::from_str(dir);
    if n > 0 && dir.get_char(n - 1) != '/' {
        r.append("/");
        proof {
            reveal_strlit("/");
        }
    }
    r.append(name);
    assert(r@ =~= join_path(dir@, name@));
    r
}

/// An occurrence in a piece of a text is an occurrence in the text.
pub proof fn lemma_contains_within(s: Seq<char>, lo: int, hi: int, p: Seq<char>)
    requires
        0 <= lo <= hi <= s.len(),
        contains(s.subrange(lo, hi), p),
    ensures
        contains(s, p),
{
    let x = s.subrange(lo, hi);
    let k = choose|k: int| occurs_at(x, p, k);
    assert(s.subrange(lo + k, lo + k + p.len()) =~= x.subrange(k, k + p.len()));
    assert(occurs_at(s, p, lo + k));
}

/// Each line of `split_lines(rest, cur)` that holds `p` makes `cur + rest` hold it.
pub proof fn lemma_split_lines_within(rest: Seq<char>, cur: Seq<char>, p: Seq<char>, i: int)
    requires
        0 <= i < split_lines(rest, cur).len(),
        contains(split_lines(rest, cur)[i], p),
    ensures
        contains(cur + rest, p),
    decreases rest.len(),
{
    let whole = cur + rest;
    if rest.len() == 0 {
        assert(whole =~= cur);
    } else if rest[0] == '\n' {
        if i == 0 {
            let l = strip_cr(cur);
            assert(l =~= whole.subrange(0, l.len() as int));
            lemma_contains_within(whole, 0, l.len() as int, p);
        } else {
            let tail = rest.drop_first();
            assert(split_lines(rest, cur)[i] == split_lines(tail, Seq::empty())[i - 1]);
            lemma_split_lines_within(tail, Seq::empty(), p, i - 1);
            assert(Seq::<char>::empty() + tail =~= whole.subrange((cur.len() + 1) as int, whole.len() as int));
            lemma_contains_within(whole, (cur.len() + 1) as int, whole.len() as int, p);
        }
    } else {
        let tail = rest.drop_first();
        lemma_split_lines_within(tail, cur.push(rest[0]), p, i);
        assert(cur.push(rest[0]) + tail =~= whole);
    }
}

/// The line that `first_containing` picks is one of the lines and holds `p`.
pub proof fn lemma_first_containing_found(ls: Seq<Seq<char>>, p: Seq<char>) -> (i: int)
    requires
        first_containing(ls, p) is Some,
    ensures
        0 <= i < ls.len(),
        first_containing(ls, p) == Some(ls[i]),
        contains(ls[i], p),
    decreases ls.len(),
{
    if contains(ls[0], p) {
        0
    } else {
        let j = lemma_first_containing_found(ls.drop_first(), p);
        j + 1
    }
}

/// If some line holds `p`, `first_containing` picks one.
pub proof fn lemma_first_containing_exists(ls: Seq<Seq<char>>, p: Seq<char>, i: int)
    requires
        0 <= i < ls.len(),
        contains(ls[i], p),
    ensures
        first_containing(ls, p) is Some,
    decreases ls.len(),
{
    if !contains(ls[0], p) {
        assert(ls.drop_first()[i - 1] == ls[i]);
        lemma_first_containing_exists(ls.drop_first(), p, i - 1);
    }
}

/// A text without `p` has no line that holds `p`.
pub proof fn lemma_no_line_without(s: Seq<char>, p: Seq<char>)
    requires
        !contains(s, p),
    ensures
        first_containing(lines(s), p) is None,
{
    if first_containing(lines(s), p) is Some {
        let i = lemma_first_containing_found(lines(s), p);
        lemma_split_lines_within(s, Seq::empty(), p, i);
        assert(Seq::<char>::empty() + s =~= s);
    }
}

/// `trim_start(s)` drops the leading whitespace of `s`, up to position `a`.
pub proof fn lemma_trim_start_shape(s: Seq<char>) -> (a: int)
    ensures
        0 <= a <= s.len(),
        trim_start(s) == s.subrange(a, s.len() as int),
        forall|j: int| 0 <= j < a ==> is_ws_char(#[trigger] s[j]),
        a < s.len() ==> !is_ws_char(s[a]),
    decreases s.len(),
{
    if s.len() > 0 && is_ws_char(s[0]) {
        let t = s.drop_first();
        let a0 = lemma_trim_start_shape(t);
        assert(t.subrange(a0, t.len() as int) =~= s.subrange(a0 + 1, s.len() as int));
        assert forall|j: int| 0 <= j < a0 + 1 implies is_ws_char(#[trigger] s[j]) by {
            if j > 0 {
                assert(s[j] == t[j - 1]);
            }
        }
        a0 + 1
    } else {
        assert(s.subrange(0, s.len() as int) =~= s);
        0
    }
}

/// `trim_end(s)` keeps `s` up to position `b`, dropping the whitespace after it.
pub proof fn lemma_trim_end_shape(s: Seq<char>) -> (b: int)
    ensures
        0 <= b <= s.len(),
        trim_end(s) == s.subrange(0, b),
        forall|j: int| b <= j < s.len() ==> is_ws_char(#[trigger] s[j]),
        b > 0 ==> !is_ws_char(s[b - 1]),
    decreases s.len(),
{
    if s.len() > 0 && is_ws_char(s.last()) {
        let t = s.drop_last();
        let b0 = lemma_trim_end_shape(t);
        assert(t.subrange(0, b0) =~= s.subrange(0, b0));
        assert forall|j: int| b0 <= j < s.len() implies is_ws_char(#[trigger] s[j]) by {
            if j < s.len() - 1 {
                assert(s[j] == t[j]);
            }
        }
        b0
    } else {
        assert(s.subrange(0, s.len() as int) =~= s);
        s.len() as int
    }
}

/// Trimming a text that holds `p`, where `p` neither starts nor ends with
/// whitespace, keeps `p` and leaves a non-empty text that neither starts nor ends
/// with whitespace.
pub proof fn lemma_trim_keeps(s: Seq<char>, p: Seq<char>)
    requires
        contains(s, p),
        p.len() > 0,
        !is_ws_char(p[0]),
        !is_ws_char(p.last()),
    ensures
        contains(trim(s), p),
        trim(s).len() > 0,
        !is_ws_char(trim(s)[0]),
        !is_ws_char(trim(s).last()),
{
    let k = choose|k: int| occurs_at(s, p, k);
    assert(s[k] == s.subrange(k, k + p.len())[0]);
    assert(s[k + p.len() - 1] == s.subrange(k, k + p.len())[p.len() - 1]);
    let a = lemma_trim_start_shape(s);
    let u = trim_start(s);
    let b = lemma_trim_end_shape(u);
    assert(a <= k);
    assert(u[k - a] == s[k]);
    assert(u[k - a + p.len() - 1] == s[k + p.len() - 1]);
    assert(b >= k - a + p.len());
    let t = trim(s);
    assert(t =~= s.subrange(a, a + b));
    assert(t.subrange(k - a, k - a + p.len()) =~= p);
    assert(occurs_at(t, p, k - a));
    assert(t[0] == u[0]);
    assert(t.last() == u[b - 1]);
}

} // verus!
