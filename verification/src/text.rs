//! Character-level text operations used when talking to external signing
//! commands: whitespace trimming, prefix stripping and token substitution.

use vstd::prelude::*;
use vstd::string::*;

verus! {

/// Unicode `White_Space`, the property that `char::is_whitespace` tests.
pub open spec fn is_white_space(c: char) -> bool {
    let v = c as u32;
    ||| 0x09 <= v <= 0x0d
    ||| v == 0x20
    ||| v == 0x85
    ||| v == 0xa0
    ||| v == 0x1680
    ||| 0x2000 <= v <= 0x200a
    ||| v == 0x2028
    ||| v == 0x2029
    ||| v == 0x202f
    ||| v == 0x205f
    ||| v == 0x3000
}

/// `s` without its leading white space.
pub open spec fn trim_start_spec(s: Seq<char>) -> Seq<char>
    decreases s.len(),
{
    if s.len() > 0 && is_white_space(s[0]) {
        trim_start_spec(s.skip(1))
    } else {
        s
    }
}

/// `s` without its trailing white space.
pub open spec fn trim_end_spec(s: Seq<char>) -> Seq<char>
    decreases s.len(),
{
    if s.len() > 0 && is_white_space(s.last()) {
        trim_end_spec(s.drop_last())
    } else {
        s
    }
}

/// `s` without leading and trailing white space.
pub open spec fn trim_spec(s: Seq<char>) -> Seq<char> {
    trim_end_spec(trim_start_spec(s))
}

/// `s` with every leading repetition of the two characters `0x` removed.
pub open spec fn strip_0x_repeated(s: Seq<char>) -> Seq<char>
    decreases s.len(),
{
    if s.len() >= 2 && s[0] == '0' && s[1] == 'x' {
        strip_0x_repeated(s.skip(2))
    } else {
        s
    }
}

/// Whether `pat` occurs in `s` at position `i`.
pub open spec fn occurs_at(s: Seq<char>, pat: Seq<char>, i: int) -> bool {
    0 <= i && i + pat.len() <= s.len() && s.subrange(i, i + pat.len()) == pat
}

/// Each character of `s` followed by `rep`.
pub open spec fn interleave_after(s: Seq<char>, rep: Seq<char>) -> Seq<char>
    decreases s.len(),
{
    if s.len() == 0 {
        s
    } else {
        seq![s[0]] + rep + interleave_after(s.skip(1), rep)
    }
}

/// `s` with every non-overlapping occurrence of `pat`, taken from left to
/// right, replaced by `rep`; an empty `pat` occurs before every character
/// and at the end, as `str::replace` has it.
pub open spec fn replace_spec(s: Seq<char>, pat: Seq<char>, rep: Seq<char>) -> Seq<char>
    decreases s.len(),
{
    if pat.len() == 0 {
        rep + interleave_after(s, rep)
    } else if s.len() == 0 {
        s
    } else if occurs_at(s, pat, 0) {
        rep + replace_spec(s.skip(pat.len() as int), pat, rep)
    } else {
        seq![s[0]] + replace_spec(s.skip(1), pat, rep)
    }
}

/// Tests one character for Unicode white space.
pub fn char_is_white_space(c: char) -> (r: bool)
    ensures
        r == is_white_space(c),
{
    let v = c as u32;
    (0x09 <= v && v <= 0x0d) || v == 0x20 || v == 0x85 || v == 0xa0 || v == 0x1680 || (0x2000
        <= v && v <= 0x200a) || v == 0x2028 || v == 0x2029 || v == 0x202f || v == 0x205f || v
        == 0x3000
}

/// Removes leading and trailing white space, as `str::trim` does.
pub fn trim(s: &str) -> (r: &str)
    ensures
        r@ == trim_spec(s@),
{
    let n = s.unicode_len();
    let mut i: usize = 0;
    assert(s@.skip(0) =~= s@);
    while i < n && char_is_white_space(s.get_char(i))
        invariant
            n == s@.len(),
            i <= n,
            trim_start_spec(s@) == trim_start_spec(s@.skip(i as int)),
        decreases n - i,
    {
        assert(s@.skip(i as int).skip(1) =~= s@.skip(i + 1));
        i = i + 1;
    }
    assert(trim_start_spec(s@) == s@.skip(i as int));
    let mut j: usize = n;
    while j > i && char_is_white_space(s.get_char(j - 1))
        invariant
            n == s@.len(),
            i <= j <= n,
            trim_start_spec(s@) == s@.skip(i as int),
            trim_spec(s@) == trim_end_spec(s@.subrange(i as int, j as int)),
        decreases j,
    {
        assert(s@.subrange(i as int, j as int).drop_last() =~= s@.subrange(i as int, j - 1));
        j = j - 1;
    }
    assert(s@.skip(i as int) =~= s@.subrange(i as int, n as int));
    s.substring_char(i, j)
}

/// Removes every leading repetition of `0x`, as `str::trim_start_matches("0x")` does.
pub fn strip_0x_prefixes(s: &str) -> (r: &str)
    ensures
        r@ == strip_0x_repeated(s@),
{
    let n = s.unicode_len();
    let mut i: usize = 0;
    assert(s@.skip(0) =~= s@);
    while i < n && n - i >= 2 && s.get_char(i) == '0' && s.get_char(i + 1) == 'x'
        invariant
            n == s@.len(),
            i <= n,
            strip_0x_repeated(s@) == strip_0x_repeated(s@.skip(i as int)),
        decreases n - i,
    {
        assert(s@.skip(i as int).skip(2) =~= s@.skip(i + 2));
        i = i + 2;
    }
    assert(s@.skip(i as int) =~= s@.subrange(i as int, n as int));
    s.substring_char(i, n)
}

/// Whether `pat` occurs in `s` at character position `i`.
fn occurs_at_exec(s: &str, n: usize, pat: &str, m: usize, i: usize) -> (r: bool)
    requires
        n == s@.len(),
        m == pat@.len(),
        i <= n,
    ensures
        r == occurs_at(s@, pat@, i as int),
{
    if m > n - i {
        return false;
    }
    let mut k: usize = 0;
    while k < m
        invariant
            n == s@.len(),
            m == pat@.len(),
            i + m <= n,
            k <= m,
            forall|t: int| 0 <= t < k ==> s@[i + t] == pat@[t],
        decreases m - k,
    {
        if s.get_char(i + k) != pat.get_char(k) {
            assert(s@.subrange(i as int, i + m)[k as int] != pat@[k as int]);
            return false;
        }
        k = k + 1;
    }
    assert(s@.subrange(i as int, i + m) =~= pat@);
    true
}

/// `rep`, then each character of `s` followed by `rep`.
fn replace_empty_pattern(s: &str, rep: &str) -> (r: String)
    ensures
        r@ == rep@ + interleave_after(s@, rep@),
{
    let n = s.unicode_len();
    let mut out = String::from_str(rep);
    let mut i: usize = 0;
    assert(s@.skip(0) =~= s@);
    while i < n
        invariant
            n == s@.len(),
            i <= n,
            out@ + interleave_after(s@.skip(i as int), rep@) == rep@ + interleave_after(s@, rep@),
        decreases n - i,
    {
        let ghost rest = s@.skip(i as int);
        let ghost before = out@;
        let one = s.substring_char(i, i + 1);
        assert(one@ =~= seq![rest[0]]);
        assert(rest.skip(1) =~= s@.skip(i + 1));
        out.append(one);
        out.append(rep);
        assert(before + interleave_after(rest, rep@) =~= out@ + interleave_after(s@.skip(i + 1), rep@));
        i = i + 1;
    }
    assert(s@.skip(n as int) =~= Seq::<char>::empty());
    assert(out@ + Seq::<char>::empty() =~= out@);
    out
}

/// Replaces every occurrence of `pat` in `s` with `rep`, as `str::replace`
/// does (an empty `pat` puts `rep` around every character).
pub fn replace_all(s: &str, pat: &str, rep: &str) -> (r: String)
    ensures
        r@ == replace_spec(s@, pat@, rep@),
{
    let n = s.unicode_len();
    let m = pat.unicode_len();
    if m == 0 {
        return replace_empty_pattern(s, rep);
    }
    let mut out = String::new();
    let mut i: usize = 0;
    assert(s@.skip(0) =~= s@);
    while i < n
        invariant
            n == s@.len(),
            m == pat@.len(),
            m > 0,
            i <= n,
            out@ + replace_spec(s@.skip(i as int), pat@, rep@) == replace_spec(s@, pat@, rep@),
        decreases n - i,
    {
        let ghost rest = s@.skip(i as int);
        if occurs_at_exec(s, n, pat, m, i) {
            assert(rest.subrange(0, m as int) =~= s@.subrange(i as int, i + m));
            assert(rest.skip(m as int) =~= s@.skip(i + m));
            out.append(rep);
            i = i + m;
        } else {
            assert(!occurs_at(rest, pat@, 0)) by {
                if rest.len() >= m {
                    assert(rest.subrange(0, m as int) =~= s@.subrange(i as int, i + m));
                }
            }
            assert(rest.skip(1) =~= s@.skip(i + 1));
            let one = s.substring_char(i, i + 1);
            assert(one@ =~= seq![rest[0]]);
            out.append(one);
            i = i + 1;
        }
    }
    assert(s@.skip(n as int) =~= Seq::<char>::empty());
    assert(out@ + Seq::<char>::empty() =~= out@);
    out
}

/// The decimal digit character for a value below 10.
pub open spec fn decimal_digit(d: nat) -> char {
    if d == 0 {
        '0'
    } else if d == 1 {
        '1'
    } else if d == 2 {
        '2'
    } else if d == 3 {
        '3'
    } else if d == 4 {
        '4'
    } else if d == 5 {
        '5'
    } else if d == 6 {
        '6'
    } else if d == 7 {
        '7'
    } else if d == 8 {
        '8'
    } else {
        '9'
    }
}

/// `n` in decimal, without leading zeros, as `Display` writes an integer.
pub open spec fn decimal_text(n: nat) -> Seq<char>
    decreases n,
{
    if n < 10 {
        seq![decimal_digit(n)]
    } else {
        decimal_text(n / 10).push(decimal_digit(n % 10))
    }
}

fn digit_text(d: usize) -> (r: &'static str)
    requires
        d < 10,
    ensures
        r@ == seq![decimal_digit(d as nat)],
{
    proof {
        reveal_strlit("0");
        reveal_strlit("1");
        reveal_strlit("2");
        reveal_strlit("3");
        reveal_strlit("4");
        reveal_strlit("5");
        reveal_strlit("6");
        reveal_strlit("7");
        reveal_strlit("8");
        reveal_strlit("9");
    }
    if d == 0 {
        "0"
    } else if d == 1 {
        "1"
    } else if d == 2 {
        "2"
    } else if d == 3 {
        "3"
    } else if d == 4 {
        "4"
    } else if d == 5 {
        "5"
    } else if d == 6 {
        "6"
    } else if d == 7 {
        "7"
    } else if d == 8 {
        "8"
    } else {
        "9"
    }
}

/// Appends `n` in decimal.
pub fn append_decimal(out: &mut String, n: usize)
    ensures
        final(out)@ == old(out)@ + decimal_text(n as nat),
    decreases n,
{
    if n >= 10 {
        append_decimal(out, n / 10);
    }
    let ghost before = out@;
    out.append(digit_text(n % 10));
    proof {
        if n >= 10 {
            assert(decimal_text(n as nat) == decimal_text((n / 10) as nat).push(decimal_digit((n % 10) as nat)));
            assert(before + seq![decimal_digit((n % 10) as nat)] =~= old(out)@ + decimal_text(n as nat));
        } else {
            assert(before =~= old(out)@);
            assert(before + seq![decimal_digit((n % 10) as nat)] =~= old(out)@ + decimal_text(n as nat));
        }
    }
}

/// White space is exactly Unicode's `White_Space` set, the characters that
/// `char::is_whitespace` accepts: tab, line feed, vertical tab, form feed,
/// carriage return, space, next line, no-break space, ogham space mark,
/// the spaces U+2000 to U+200A, line and paragraph separators, narrow
/// no-break space, medium mathematical space and ideographic space.
pub proof fn lemma_white_space_is_unicode_white_space(c: char)
    ensures
        is_white_space(c) <==> (c == '\t' || c == '\n' || c == '\u{0B}' || c == '\u{0C}' || c == '\r'
            || c == ' ' || c == '\u{85}' || c == '\u{A0}' || c == '\u{1680}' || ('\u{2000}' <= c
            && c <= '\u{200A}') || c == '\u{2028}' || c == '\u{2029}' || c == '\u{202F}' || c
            == '\u{205F}' || c == '\u{3000}'),
{
}

/// Whether `w` is made of spaces, tabs, carriage returns and line feeds.
pub open spec fn is_line_padding(w: Seq<char>) -> bool {
    forall|i: int| 0 <= i < w.len() ==> (w[i] == ' ' || w[i] == '\t' || w[i] == '\r' || w[i] == '\n')
}

proof fn lemma_trim_end_append_padding(x: Seq<char>, w: Seq<char>)
    requires
        is_line_padding(w),
    ensures
        trim_end_spec(x + w) == trim_end_spec(x),
    decreases w.len(),
{
    if w.len() > 0 {
        assert((x + w).drop_last() =~= x + w.drop_last());
        assert((x + w).last() == w.last());
        lemma_trim_end_append_padding(x, w.drop_last());
    } else {
        assert(x + w =~= x);
    }
}

proof fn lemma_trim_start_append_padding(x: Seq<char>, w: Seq<char>)
    requires
        is_line_padding(w),
    ensures
        trim_start_spec(x).len() > 0 ==> trim_start_spec(x + w) == trim_start_spec(x) + w,
        trim_start_spec(x).len() == 0 ==> trim_start_spec(x + w).len() == 0,
    decreases x.len() + w.len(),
{
    if x.len() > 0 {
        if is_white_space(x[0]) {
            assert((x + w).skip(1) =~= x.skip(1) + w);
            lemma_trim_start_append_padding(x.skip(1), w);
        }
    } else {
        assert(x + w =~= w);
        if w.len() > 0 {
            assert(is_white_space(w[0]));
            assert(w.skip(1) =~= Seq::<char>::empty() + w.skip(1));
            assert forall|i: int| 0 <= i < w.skip(1).len() implies (w.skip(1)[i] == ' ' || w.skip(1)[i]
                == '\t' || w.skip(1)[i] == '\r' || w.skip(1)[i] == '\n') by {
                assert(w.skip(1)[i] == w[i + 1]);
            }
            lemma_trim_start_append_padding(Seq::<char>::empty(), w.skip(1));
            assert(Seq::<char>::empty() + w.skip(1) =~= w.skip(1));
        }
    }
}

/// Trimming ignores a trailing line ending or other spaces, tabs, carriage
/// returns and line feeds: `trim(s + "\r\n") == trim(s)`, as `str::trim`
/// has it.
pub proof fn lemma_trim_ignores_trailing_padding(s: Seq<char>, w: Seq<char>)
    requires
        is_line_padding(w),
    ensures
        trim_spec(s + w) == trim_spec(s),
{
    lemma_trim_start_append_padding(s, w);
    let t = trim_start_spec(s);
    if t.len() > 0 {
        lemma_trim_end_append_padding(t, w);
    } else {
        assert(t =~= Seq::<char>::empty());
        assert(trim_start_spec(s + w) =~= Seq::<char>::empty());
    }
}

/// Stripping `0x` prefixes removes an even number of leading characters,
/// `0`, `x`, `0`, `x`, ..., and leaves text that does not start with `0x`.
pub proof fn lemma_strip_0x_repeated(s: Seq<char>)
    ensures
        ({
            let r = strip_0x_repeated(s);
            let k = s.len() - r.len();
            &&& 0 <= k && k % 2 == 0
            &&& r == s.skip(k)
            &&& forall|i: int| 0 <= i < k ==> #[trigger] s[i] == (if i % 2 == 0 { '0' } else { 'x' })
            &&& !(r.len() >= 2 && r[0] == '0' && r[1] == 'x')
        }),
    decreases s.len(),
{
    if s.len() >= 2 && s[0] == '0' && s[1] == 'x' {
        let t = s.skip(2);
        lemma_strip_0x_repeated(t);
        let r = strip_0x_repeated(s);
        let k = s.len() - r.len();
        assert(r == strip_0x_repeated(t));
        assert(t.skip(k - 2) =~= s.skip(k));
        assert forall|i: int| 0 <= i < k implies #[trigger] s[i] == (if i % 2 == 0 { '0' } else { 'x' }) by {
            if i >= 2 {
                assert(s[i] == t[i - 2]);
            }
        }
    } else {
        assert(s.skip(0) =~= s);
    }
}

/// Trimming leaves a middle part of the text that neither starts nor ends
/// with white space, with only white space cut off on either side.
pub proof fn lemma_trim_cuts_only_white_space(s: Seq<char>)
    ensures
        ({
            let t = trim_spec(s);
            exists|a: int|
                #![trigger s.subrange(a, a + t.len())]
                0 <= a && a + t.len() <= s.len() && t == s.subrange(a, a + t.len()) && (forall|i: int|
                    0 <= i < a ==> is_white_space(#[trigger] s[i])) && (forall|i: int|
                    a + t.len() <= i < s.len() ==> is_white_space(#[trigger] s[i]))
        }),
        trim_spec(s).len() > 0 ==> !is_white_space(trim_spec(s)[0]) && !is_white_space(trim_spec(s).last()),
{
    lemma_trim_start_shape(s);
    let u = trim_start_spec(s);
    let a = s.len() - u.len();
    lemma_trim_end_shape(u);
    let t = trim_end_spec(u);
    assert(t == s.subrange(a, a + t.len())) by {
        assert(u.subrange(0, t.len() as int) =~= s.subrange(a, a + t.len()));
    }
    assert forall|i: int| a + t.len() <= i < s.len() implies is_white_space(#[trigger] s[i]) by {
        assert(s[i] == u[i - a]);
    }
    assert(trim_spec(s) == t);
    assert(0 <= a && a + t.len() <= s.len() && t == s.subrange(a, a + t.len()) && (forall|i: int|
        0 <= i < a ==> is_white_space(#[trigger] s[i])) && (forall|i: int|
        a + t.len() <= i < s.len() ==> is_white_space(#[trigger] s[i])));
}

proof fn lemma_trim_start_shape(s: Seq<char>)
    ensures
        ({
            let u = trim_start_spec(s);
            let a = s.len() - u.len();
            &&& 0 <= a
            &&& u == s.skip(a)
            &&& forall|i: int| 0 <= i < a ==> is_white_space(#[trigger] s[i])
            &&& u.len() > 0 ==> !is_white_space(u[0])
        }),
    decreases s.len(),
{
    if s.len() > 0 && is_white_space(s[0]) {
        let t = s.skip(1);
        lemma_trim_start_shape(t);
        let u = trim_start_spec(s);
        let a = s.len() - u.len();
        assert(t.skip(a - 1) =~= s.skip(a));
        assert forall|i: int| 0 <= i < a implies is_white_space(#[trigger] s[i]) by {
            if i >= 1 {
                assert(s[i] == t[i - 1]);
            }
        }
    } else {
        assert(s.skip(0) =~= s);
    }
}

proof fn lemma_trim_end_shape(u: Seq<char>)
    ensures
        ({
            let t = trim_end_spec(u);
            &&& t.len() <= u.len()
            &&& t == u.subrange(0, t.len() as int)
            &&& forall|i: int| t.len() <= i < u.len() ==> is_white_space(#[trigger] u[i])
            &&& t.len() > 0 ==> !is_white_space(t.last())
        }),
    decreases u.len(),
{
    if u.len() > 0 && is_white_space(u.last()) {
        let d = u.drop_last();
        lemma_trim_end_shape(d);
        let t = trim_end_spec(u);
        assert(d.subrange(0, t.len() as int) =~= u.subrange(0, t.len() as int));
        assert forall|i: int| t.len() <= i < u.len() implies is_white_space(#[trigger] u[i]) by {
            if i < u.len() - 1 {
                assert(u[i] == d[i]);
            }
        }
    } else {
        assert(u.subrange(0, u.len() as int) =~= u);
    }
}

} // verus!
