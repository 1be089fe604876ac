//! Character-level text helpers with exact specifications.

use vstd::prelude::*;

verus! {

/// Relies on `str::chars` collected into a `Vec`: the characters of `s`, in order.
#[verifier::external_body]
pub(crate) fn chars_of(s: &str) -> (r: Vec<char>)
    ensures
        r@ == s@,
{
    s.chars().collect()
}

/// Relies on collecting `v[from..to]` into a `String`: the same characters, in order.
#[verifier::external_body]
pub(crate) fn string_of(v: &Vec<char>, from: usize, to: usize) -> (r: String)
    requires
        from <= to <= v@.len(),
    ensures
        r@ == v@.subrange(from as int, to as int),
{
    v[from..to].iter().collect()
}

/// Relies on `String::push`: appends one character.
#[verifier::external_body]
pub(crate) fn push_char(s: &mut String, c: char)
    ensures
        final(s)@ == old(s)@.push(c),
{
    s.push(c)
}

/// Whitespace as `char::is_whitespace` defines it (the Unicode `White_Space` property).
pub open spec fn is_space(c: char) -> bool {
    ||| c == '\t' || c == '\n' || c == '\u{0B}' || c == '\u{0C}' || c == '\r' || c == ' '
    ||| c == '\u{85}' || c == '\u{A0}' || c == '\u{1680}'
    ||| ('\u{2000}' <= c && c <= '\u{200A}')
    ||| c == '\u{2028}' || c == '\u{2029}' || c == '\u{202F}' || c == '\u{205F}'
    ||| c == '\u{3000}'
}

fn is_space_exec(c: char) -> (r: bool)
    ensures
        r == is_space(c),
{
    c == '\t' || c == '\n' || c == '\u{0B}' || c == '\u{0C}' || c == '\r' || c == ' '
        || c == '\u{85}' || c == '\u{A0}' || c == '\u{1680}' || ('\u{2000}' <= c && c
        <= '\u{200A}') || c == '\u{2028}' || c == '\u{2029}' || c == '\u{202F}' || c
        == '\u{205F}' || c == '\u{3000}'
}

/// `s` without its leading whitespace.
pub open spec fn trim_front(s: Seq<char>) -> Seq<char>
    decreases s.len(),
{
    if s.len() > 0 && is_space(s[0]) {
        trim_front(s.drop_first())
    } else {
        s
    }
}

/// `s` without its trailing whitespace.
pub open spec fn trim_back(s: Seq<char>) -> Seq<char>
    decreases s.len(),
{
    if s.len() > 0 && is_space(s.last()) {
        trim_back(s.drop_last())
    } else {
        s
    }
}

/// `s` without leading and trailing whitespace, as `str::trim` gives it.
pub open spec fn trimmed(s: Seq<char>) -> Seq<char> {
    trim_back(trim_front(s))
}

proof fn lemma_trim_front_step(s: Seq<char>, i: int)
    requires
        0 <= i < s.len(),
        is_space(s[i]),
    ensures
        trim_front(s.subrange(i, s.len() as int)) == trim_front(s.subrange(i + 1, s.len() as int)),
{
    assert(s.subrange(i, s.len() as int).drop_first() =~= s.subrange(i + 1, s.len() as int));
}

proof fn lemma_trim_back_step(s: Seq<char>, j: int)
    requires
        0 < j <= s.len(),
        is_space(s[j - 1]),
    ensures
        trim_back(s.subrange(0, j)) == trim_back(s.subrange(0, j - 1)),
{
    assert(s.subrange(0, j).drop_last() =~= s.subrange(0, j - 1));
}

/// The characters `v[start..end]` with surrounding whitespace removed.
pub(crate) fn trim_range(v: &Vec<char>, start: usize, end: usize) -> (r: String)
    requires
        start <= end <= v@.len(),
    ensures
        r@ == trimmed(v@.subrange(start as int, end as int)),
{
    let ghost s = v@.subrange(start as int, end as int);
    let mut i: usize = start;
    while i < end && is_space_exec(v[i])
        invariant
            start <= i <= end <= v@.len(),
            s == v@.subrange(start as int, end as int),
            trim_front(s) == trim_front(v@.subrange(i as int, end as int)),
        decreases end - i,
    {
        proof {
            lemma_trim_front_step(v@.subrange(0, end as int), i as int);
            assert(v@.subrange(0, end as int).subrange(i as int, end as int) =~= v@.subrange(
                i as int,
                end as int,
            ));
            assert(v@.subrange(0, end as int).subrange(i + 1, end as int) =~= v@.subrange(
                i + 1,
                end as int,
            ));
        }
        i = i + 1;
    }
    proof {
        let u = v@.subrange(i as int, end as int);
        if u.len() > 0 {
            assert(u[0] == v@[i as int]);
        }
        assert(trim_front(s) == u);
    }
    let mut j: usize = end;
    while j > i && is_space_exec(v[j - 1])
        invariant
            start <= i <= j <= end <= v@.len(),
            trimmed(s) == trim_back(v@.subrange(i as int, j as int)),
        decreases j - i,
    {
        proof {
            lemma_trim_back_step(v@.subrange(i as int, j as int), (j - i) as int);
            assert(v@.subrange(i as int, j as int).subrange(0, (j - i) as int) =~= v@.subrange(
                i as int,
                j as int,
            ));
            assert(v@.subrange(i as int, j as int).subrange(0, (j - i - 1) as int)
                =~= v@.subrange(i as int, j - 1));
        }
        j = j - 1;
    }
    proof {
        let u = v@.subrange(i as int, j as int);
        if u.len() > 0 {
            assert(u.last() == v@[j - 1]);
        }
        assert(trim_back(u) == u);
    }
    string_of(v, i, j)
}

/// The marker that flags a diagnostic line in a build tool's error output.
pub open spec fn error_marker() -> Seq<char> {
    seq!['e', 'r', 'r', 'o', 'r', ':']
}

/// `s` holds `n` starting at position `i`.
pub open spec fn occurs_at(s: Seq<char>, n: Seq<char>, i: int) -> bool {
    0 <= i && i + n.len() <= s.len() && s.subrange(i, i + n.len()) == n
}

/// `n` occurs somewhere in `s`.
pub open spec fn contains_seq(s: Seq<char>, n: Seq<char>) -> bool {
    exists|i: int| occurs_at(s, n, i)
}

/// The end of the line that starts at `i`: the position of the next `'\n'`, or the end of `s`.
pub open spec fn line_end(s: Seq<char>, i: int) -> int
    decreases s.len() - i,
{
    if i < 0 || i >= s.len() {
        s.len() as int
    } else if s[i] == '\n' {
        i
    } else {
        line_end(s, i + 1)
    }
}

/// Of the lines of `s` from position `start` on, the first that holds the error
/// marker, trimmed of surrounding whitespace.
pub open spec fn error_line_from(s: Seq<char>, start: int) -> Option<Seq<char>>
    decreases s.len() - start,
{
    if start < 0 || start >= s.len() {
        None
    } else {
        let e = line_end(s, start);
        let line = s.subrange(start, e);
        let next = if e < start {
            start + 1
        } else if e >= s.len() {
            s.len() as int
        } else {
            e + 1
        };
        if contains_seq(line, error_marker()) {
            Some(trimmed(line))
        } else {
            error_line_from(s, next)
        }
    }
}

/// The first line of `s` that holds `error:`, trimmed; `None` where no line does.
pub open spec fn first_error_line(s: Seq<char>) -> Option<Seq<char>> {
    error_line_from(s, 0)
}

proof fn lemma_line_end_bounds(s: Seq<char>, i: int)
    requires
        0 <= i <= s.len(),
    ensures
        i <= line_end(s, i) <= s.len(),
        line_end(s, i) < s.len() ==> s[line_end(s, i)] == '\n',
    decreases s.len() - i,
{
    if i < s.len() && s[i] != '\n' {
        lemma_line_end_bounds(s, i + 1);
    }
}

fn marker_at(v: &Vec<char>, i: usize, end: usize) -> (r: bool)
    requires
        i <= end <= v@.len(),
    ensures
        r == occurs_at(v@.subrange(0, end as int), error_marker(), i as int),
{
    let ghost w = v@.subrange(0, end as int);
    if end - i < 6 {
        return false;
    }
    let r = v[i] == 'e' && v[i + 1] == 'r' && v[i + 2] == 'r' && v[i + 3] == 'o' && v[i + 4]
        == 'r' && v[i + 5] == ':';
    proof {
        if r {
            assert(w.subrange(i as int, i + 6) =~= error_marker());
        }
        if w.subrange(i as int, i + 6) == error_marker() {
            assert(w.subrange(i as int, i + 6)[0] == 'e');
            assert(w.subrange(i as int, i + 6)[1] == 'r');
            assert(w.subrange(i as int, i + 6)[2] == 'r');
            assert(w.subrange(i as int, i + 6)[3] == 'o');
            assert(w.subrange(i as int, i + 6)[4] == 'r');
            assert(w.subrange(i as int, i + 6)[5] == ':');
        }
    }
    r
}

/// Whether `v[start..end]` holds the error marker.
fn range_has_marker(v: &Vec<char>, start: usize, end: usize) -> (r: bool)
    requires
        start <= end <= v@.len(),
    ensures
        r == contains_seq(v@.subrange(start as int, end as int), error_marker()),
{
    let ghost line = v@.subrange(start as int, end as int);
    let ghost w = v@.subrange(0, end as int);
    let mut k: usize = start;
    while k < end
        invariant
            start <= k <= end <= v@.len(),
            line == v@.subrange(start as int, end as int),
            w == v@.subrange(0, end as int),
            forall|p: int| start <= p < k ==> !occurs_at(w, error_marker(), p),
        decreases end - k,
    {
        if marker_at(v, k, end) {
            proof {
                assert(line.subrange(k - start, k - start + 6) =~= w.subrange(k as int, k + 6));
                assert(occurs_at(line, error_marker(), k - start));
            }
            return true;
        }
        k = k + 1;
    }
    proof {
        assert forall|q: int| !occurs_at(line, error_marker(), q) by {
            if occurs_at(line, error_marker(), q) {
                assert(line.subrange(q, q + 6) =~= w.subrange(start + q, start + q + 6));
                assert(occurs_at(w, error_marker(), start + q));
            }
        }
    }
    false
}

/// The first line of `s` that holds `error:`, with surrounding whitespace removed,
/// or `None` where no line does.
pub fn first_error_line_of(s: &str) -> (r: Option<String>)
    ensures
        match r {
            Some(line) => first_error_line(s@) == Some(line@),
            None => first_error_line(s@) is None,
        },
{
    let v = chars_of(s);
    let n = v.len();
    let mut start: usize = 0;
    while start < n
        invariant
            n == v@.len(),
            v@ == s@,
            start <= n,
            first_error_line(s@) == error_line_from(s@, start as int),
        decreases n - start,
    {
        let mut e: usize = start;
        while e < n && v[e] != '\n'
            invariant
                start <= e <= n,
                n == v@.len(),
                line_end(v@, start as int) == line_end(v@, e as int),
            decreases n - e,
        {
            e = e + 1;
        }
        proof {
            assert(line_end(v@, e as int) == e);
            lemma_line_end_bounds(v@, start as int);
        }
        if range_has_marker(&v, start, e) {
            return Some(trim_range(&v, start, e));
        }
        if e >= n {
            assert(error_line_from(s@, n as int) is None);
            return None;
        }
        start = e + 1;
    }
    None
}

/// The digit of value `d` in base 16, lowercase; its decimal digit where `d < 10`.
pub open spec fn digit_char(d: nat) -> char {
    if d < 10 {
        (d + 48) as char
    } else {
        (d + 87) as char
    }
}

/// The last `width` digits of `n` in `base`, most significant first, zero-padded.
pub open spec fn fixed_digits(n: nat, base: nat, width: nat) -> Seq<char>
    decreases width,
{
    if width == 0 || base == 0 {
        Seq::empty()
    } else {
        fixed_digits(n / base, base, (width - 1) as nat).push(digit_char(n % base))
    }
}

/// The decimal numeral of `n`, without leading zeros.
pub open spec fn decimal(n: nat) -> Seq<char>
    decreases n,
{
    if n < 10 {
        seq![digit_char(n)]
    } else {
        decimal(n / 10).push(digit_char(n % 10))
    }
}

fn digit_exec(d: u64) -> (c: char)
    requires
        d < 16,
    ensures
        c == digit_char(d as nat),
{
    if d < 10 {
        (d as u8 + 48) as char
    } else {
        (d as u8 + 87) as char
    }
}

/// Appends the last `width` digits of `n` in base `base` (2 to 16), zero-padded.
pub fn push_fixed_digits(out: &mut String, n: u64, base: u64, width: u64)
    requires
        2 <= base <= 16,
    ensures
        final(out)@ == old(out)@ + fixed_digits(n as nat, base as nat, width as nat),
    decreases width,
{
    if width == 0 {
        assert(old(out)@ + fixed_digits(n as nat, base as nat, width as nat) =~= old(out)@);
        return ;
    }
    push_fixed_digits(out, n / base, base, width - 1);
    push_char(out, digit_exec(n % base));
    proof {
        let w = fixed_digits((n / base) as nat, base as nat, (width - 1) as nat);
        assert(old(out)@ + w.push(digit_char((n % base) as nat)) =~= (old(out)@ + w).push(
            digit_char((n % base) as nat),
        ));
    }
}

/// Appends the decimal numeral of `n`.
pub fn push_decimal(out: &mut String, n: u64)
    ensures
        final(out)@ == old(out)@ + decimal(n as nat),
    decreases n,
{
    if n >= 10 {
        push_decimal(out, n / 10);
        push_char(out, digit_exec(n % 10));
        proof {
            let w = decimal((n / 10) as nat);
            assert(old(out)@ + w.push(digit_char((n % 10) as nat)) =~= (old(out)@ + w).push(
                digit_char((n % 10) as nat),
            ));
        }
    } else {
        push_char(out, digit_exec(n));
        assert(old(out)@ + decimal(n as nat) =~= old(out)@.push(digit_char(n as nat)));
    }
}

/// `s` with every occurrence of `pat`, scanned left to right without overlap,
/// replaced by `rep`, as `str::replace` does for a non-empty pattern.
pub open spec fn replaced(s: Seq<char>, pat: Seq<char>, rep: Seq<char>) -> Seq<char>
    decreases s.len(),
{
    if s.len() == 0 || pat.len() == 0 {
        s
    } else if pat.len() <= s.len() && s.subrange(0, pat.len() as int) == pat {
        rep + replaced(s.subrange(pat.len() as int, s.len() as int), pat, rep)
    } else {
        seq![s[0]] + replaced(s.drop_first(), pat, rep)
    }
}

fn matches_at(v: &Vec<char>, p: &Vec<char>, i: usize) -> (r: bool)
    requires
        i <= v@.len(),
    ensures
        r == (p@.len() <= v@.len() - i && v@.subrange(i as int, i + p@.len()) == p@),
{
    if p.len() > v.len() - i {
        return false;
    }
    let vl = v.len();
    let mut k: usize = 0;
    while k < p.len()
        invariant
            k <= p@.len() <= v@.len() - i,
            i <= v@.len(),
            vl == v@.len(),
            forall|m: int| 0 <= m < k ==> v@[i + m] == p@[m],
        decreases p@.len() - k,
    {
        if v[i + k] != p[k] {
            assert(v@.subrange(i as int, i + p@.len())[k as int] != p@[k as int]);
            return false;
        }
        k = k + 1;
    }
    assert(v@.subrange(i as int, i + p@.len()) =~= p@);
    true
}

/// `s` with every occurrence of the non-empty `pat` replaced by `rep`.
pub fn replace_all(s: &str, pat: &str, rep: &str) -> (r: String)
    requires
        pat@.len() > 0,
    ensures
        r@ == replaced(s@, pat@, rep@),
{
    let v = chars_of(s);
    let p = chars_of(pat);
    let n = v.len();
    let mut out = String::new();
    let mut i: usize = 0;
    assert(v@.subrange(0, n as int) =~= s@);
    assert(out@ + replaced(s@, pat@, rep@) =~= replaced(s@, pat@, rep@));
    while i < n
        invariant
            n == v@.len(),
            v@ == s@,
            p@ == pat@,
            p@.len() > 0,
            i <= n,
            out@ + replaced(v@.subrange(i as int, n as int), pat@, rep@) == replaced(s@, pat@, rep@),
        decreases n - i,
    {
        let ghost t = v@.subrange(i as int, n as int);
        if matches_at(&v, &p, i) {
            proof {
                assert(t.subrange(0, p@.len() as int) =~= v@.subrange(i as int, i + p@.len()));
                assert(t.subrange(p@.len() as int, t.len() as int) =~= v@.subrange(
                    i + p@.len(),
                    n as int,
                ));
                assert(out@ + (rep@ + replaced(v@.subrange(i + p@.len(), n as int), pat@, rep@))
                    =~= (out@ + rep@) + replaced(v@.subrange(i + p@.len(), n as int), pat@, rep@));
            }
            push_str(&mut out, rep);
            i = i + p.len();
        } else {
            proof {
                if p@.len() <= t.len() {
                    assert(t.subrange(0, p@.len() as int) =~= v@.subrange(i as int, i + p@.len()));
                }
                assert(t.drop_first() =~= v@.subrange(i + 1, n as int));
                assert(out@ + (seq![v@[i as int]] + replaced(v@.subrange(i + 1, n as int), pat@, rep@))
                    =~= out@.push(v@[i as int]) + replaced(v@.subrange(i + 1, n as int), pat@, rep@));
            }
            push_char(&mut out, v[i]);
            i = i + 1;
        }
    }
    proof {
        assert(v@.subrange(n as int, n as int) =~= Seq::<char>::empty());
        assert(out@ + Seq::<char>::empty() =~= out@);
    }
    out
}

/// Appends `t`.
pub(crate) fn push_str(s: &mut String, t: &str)
    ensures
        final(s)@ == old(s)@ + t@,
{
    s.append(t)
}

/// `a` followed by `b`.
pub(crate) fn concat_text(a: &str, b: &str) -> (r: String)
    ensures
        r@ == a@ + b@,
{
    let mut s = String::from_str(a);
    s.append(b);
    s
}

/// Whether `a` and `b` hold the same characters.
pub fn same_text(a: &str, b: &str) -> (r: bool)
    ensures
        r == (a@ == b@),
{
    String::from_str(a) == String::from_str(b)
}

} // verus!
