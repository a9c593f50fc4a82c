//! Character-level text operations shared by the client and the server.

use vstd::prelude::*;

verus! {

/// `s` with one trailing `c` removed, if it ends with `c`.
pub open spec fn without_last(s: Seq<char>, c: char) -> Seq<char> {
    if s.len() > 0 && s.last() == c {
        s.drop_last()
    } else {
        s
    }
}

/// A line as typed at a prompt, without its line ending: one trailing
/// `'\n'` goes first, then one trailing `'\r'`.
pub open spec fn strip_line_ending_spec(s: Seq<char>) -> Seq<char> {
    without_last(without_last(s, '\n'), '\r')
}

/// `s` begins with `prefix`.
pub open spec fn has_prefix(s: Seq<char>, prefix: Seq<char>) -> bool {
    prefix.len() <= s.len() && s.subrange(0, prefix.len() as int) == prefix
}

/// Every match of `pat` in `s`, taken from left to right without overlap,
/// replaced by `rep` (the rule of `str::replace`, for a non-empty pattern).
pub open spec fn replace_all(s: Seq<char>, pat: Seq<char>, rep: Seq<char>) -> Seq<char>
    decreases s.len(),
{
    if pat.len() == 0 || s.len() < pat.len() {
        s
    } else if s.subrange(0, pat.len() as int) == pat {
        rep + replace_all(s.subrange(pat.len() as int, s.len() as int), pat, rep)
    } else {
        seq![s[0]] + replace_all(s.subrange(1, s.len() as int), pat, rep)
    }
}

/// Appends one character: `String::push`, which the standard library
/// documents as appending the given char to the end of the string.
#[verifier::external_body]
pub(crate) fn push_char(s: &mut String, c: char)
    ensures
        final(s)@ == old(s)@.push(c),
{
    s.push(c);
}

/// Removes the last character and returns it, or `None` when the string is
/// empty (what `String::pop` does).
pub(crate) fn pop_char(s: &mut String) -> (c: Option<char>)
    ensures
        old(s)@.len() == 0 ==> c is None && final(s)@ == old(s)@,
        old(s)@.len() > 0 ==> c == Some(old(s)@.last()) && final(s)@ == old(s)@.drop_last(),
{
    let n = s.as_str().unicode_len();
    if n == 0 {
        return None;
    }
    let last = s.as_str().get_char(n - 1);
    let rest = String::from_str(s.as_str().substring_char(0, n - 1));
    *s = rest;
    Some(last)
}

/// A new `String` holding `a` followed by `b`.
pub fn concat2(a: &str, b: &str) -> (r: String)
    ensures
        r@ == a@ + b@,
{
    let mut r = String::from_str(a);
    r.append(b);
    r
}

/// A new `String` holding `a`, `b` and `c` in turn.
pub fn concat3(a: &str, b: &str, c: &str) -> (r: String)
    ensures
        r@ == a@ + b@ + c@,
{
    let mut r = String::from_str(a);
    r.append(b);
    r.append(c);
    r
}

/// Whether `s` ends with the character `c`.
pub fn ends_with_char(s: &str, c: char) -> (b: bool)
    ensures
        b == (s@.len() > 0 && s@.last() == c),
{
    let n = s.unicode_len();
    if n == 0 {
        false
    } else {
        s.get_char(n - 1) == c
    }
}

/// Removes the line ending that reading a line leaves behind: first one
/// trailing `'\n'`, then one trailing `'\r'`.
pub fn strip_line_ending(line: String) -> (r: String)
    ensures
        r@ == strip_line_ending_spec(line@),
{
    let mut s = line;
    if ends_with_char(s.as_str(), '\n') {
        pop_char(&mut s);
    }
    if ends_with_char(s.as_str(), '\r') {
        pop_char(&mut s);
    }
    s
}

/// The characters of `s`, in order.
pub fn chars_of(s: &str) -> (v: Vec<char>)
    ensures
        v@ == s@,
{
    let n = s.unicode_len();
    let mut v: Vec<char> = Vec::new();
    let mut i: usize = 0;
    while i < n
        invariant
            n == s@.len(),
            i <= n,
            v@ == s@.subrange(0, i as int),
        decreases n - i,
    {
        v.push(s.get_char(i));
        i = i + 1;
    }
    v
}

/// Whether `s` begins with `prefix`.
pub fn starts_with(s: &str, prefix: &str) -> (b: bool)
    ensures
        b == has_prefix(s@, prefix@),
{
    let sv = chars_of(s);
    let pv = chars_of(prefix);
    matches_at(&sv, 0, &pv)
}

/// Whether `pat` occurs in `v` at position `i`.
fn matches_at(v: &Vec<char>, i: usize, pat: &Vec<char>) -> (b: bool)
    requires
        i <= v@.len(),
    ensures
        b == (i + pat@.len() <= v@.len() && v@.subrange(i as int, i + pat@.len()) == pat@),
{
    let vl = v.len();
    if pat.len() > vl - i {
        return false;
    }
    let mut k: usize = 0;
    while k < pat.len()
        invariant
            vl == v@.len(),
            i + pat@.len() <= v@.len(),
            k <= pat@.len(),
            forall|j: int| 0 <= j < k ==> v@[i + j] == pat@[j],
        decreases pat@.len() - k,
    {
        if v[i + k] != pat[k] {
            assert(v@.subrange(i as int, i + pat@.len())[k as int] != pat@[k as int]);
            return false;
        }
        k = k + 1;
    }
    assert(v@.subrange(i as int, i + pat@.len()) =~= pat@);
    true
}

/// `s` with every match of `pat` replaced by `rep`, as `str::replace` does.
pub fn replace(s: &str, pat: &str, rep: &str) -> (r: String)
    requires
        pat@.len() > 0,
    ensures
        r@ == replace_all(s@, pat@, rep@),
{
    let sv = chars_of(s);
    let pv = chars_of(pat);
    let n = sv.len();
    let mut out = String::new();
    let mut i: usize = 0;
    assert(s@.subrange(0, n as int) =~= s@);
    while i < n
        invariant
            n == s@.len(),
            sv@ == s@,
            pv@ == pat@,
            pat@.len() > 0,
            i <= n,
            replace_all(s@, pat@, rep@) == out@ + replace_all(s@.subrange(i as int, n as int), pat@, rep@),
        decreases n - i,
    {
        let ghost rest = s@.subrange(i as int, n as int);
        if matches_at(&sv, i, &pv) {
            assert(rest.subrange(0, pat@.len() as int) =~= pat@);
            assert(rest.subrange(pat@.len() as int, rest.len() as int)
                =~= s@.subrange(i + pat@.len(), n as int));
            out.append(rep);
            i = i + pv.len();
        } else {
            proof {
                assert(rest.subrange(1, rest.len() as int) =~= s@.subrange(i + 1, n as int));
                if rest.len() >= pat@.len() {
                    assert(rest.subrange(0, pat@.len() as int)
                        =~= s@.subrange(i as int, i + pat@.len()));
                } else {
                    assert(replace_all(rest.subrange(1, rest.len() as int), pat@, rep@)
                        == rest.subrange(1, rest.len() as int));
                    assert(rest =~= seq![rest[0]] + rest.subrange(1, rest.len() as int));
                }
            }
            push_char(&mut out, sv[i]);
            i = i + 1;
        }
    }
    assert(s@.subrange(n as int, n as int) =~= Seq::<char>::empty());
    out
}

/// Stripping a line ending removes exactly one of the endings `""`, `"\n"`,
/// `"\r"` or `"\r\n"` from the end of the line, and leaves a line that ends
/// with neither character as it is.
pub proof fn strip_line_ending_removes_one_ending(s: Seq<char>)
    ensures
        s == strip_line_ending_spec(s) || s == strip_line_ending_spec(s).push('\n')
            || s == strip_line_ending_spec(s).push('\r') || s == strip_line_ending_spec(
            s,
        ).push('\r').push('\n'),
        (s.len() == 0 || (s.last() != '\n' && s.last() != '\r')) ==> strip_line_ending_spec(s)
            == s,
{
    let a = without_last(s, '\n');
    if s.len() > 0 && s.last() == '\n' {
        assert(s =~= a.push('\n'));
    }
    if a.len() > 0 && a.last() == '\r' {
        assert(a =~= a.drop_last().push('\r'));
    }
}

/// `pat` occurs in `s` at position `i`.
pub open spec fn occurs_at(s: Seq<char>, pat: Seq<char>, i: int) -> bool {
    0 <= i && i + pat.len() <= s.len() && s.subrange(i, i + pat.len()) == pat
}

/// `pat` occurs nowhere in `s`.
pub open spec fn no_match(s: Seq<char>, pat: Seq<char>) -> bool {
    forall|i: int| !#[trigger] occurs_at(s, pat, i)
}

/// Replacing a pattern that does not occur leaves the text as it is.
pub proof fn replace_without_match_keeps_text(s: Seq<char>, pat: Seq<char>, rep: Seq<char>)
    requires
        no_match(s, pat),
    ensures
        replace_all(s, pat, rep) == s,
    decreases s.len(),
{
    if pat.len() == 0 || s.len() < pat.len() {
    } else {
        assert(!occurs_at(s, pat, 0));
        let rest = s.subrange(1, s.len() as int);
        assert forall|i: int| !#[trigger] occurs_at(rest, pat, i) by {
            if 0 <= i && i + pat.len() <= rest.len() {
                assert(!occurs_at(s, pat, i + 1));
                assert(rest.subrange(i, i + pat.len()) =~= s.subrange(i + 1, i + 1 + pat.len()));
            }
        }
        replace_without_match_keeps_text(rest, pat, rep);
        assert(s =~= seq![s[0]] + rest);
    }
}

/// A text that begins with the pattern gets the replacement in its place,
/// and the rest of the text is replaced on its own.
pub proof fn replace_leading_match(pat: Seq<char>, rest: Seq<char>, rep: Seq<char>)
    requires
        pat.len() > 0,
    ensures
        replace_all(pat + rest, pat, rep) == rep + replace_all(rest, pat, rep),
{
    let s = pat + rest;
    assert(s.subrange(0, pat.len() as int) =~= pat);
    assert(s.subrange(pat.len() as int, s.len() as int) =~= rest);
}

/// Where the pattern does not start at the beginning, the first character
/// is kept and the rest of the text is replaced on its own.
pub proof fn replace_keeps_unmatched_first_char(s: Seq<char>, pat: Seq<char>, rep: Seq<char>)
    requires
        pat.len() > 0,
        s.len() > 0,
        !occurs_at(s, pat, 0),
    ensures
        replace_all(s, pat, rep) == seq![s[0]] + replace_all(s.subrange(1, s.len() as int), pat, rep),
{
    if s.len() < pat.len() {
        replace_without_match_keeps_text(s.subrange(1, s.len() as int), pat, rep);
        assert(s =~= seq![s[0]] + s.subrange(1, s.len() as int));
    }
}

} // verus!
