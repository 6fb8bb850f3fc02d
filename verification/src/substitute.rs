//! Plain substring replacement.

use vstd::prelude::*;

verus! {

/// `s` with every occurrence of `pat` replaced by `rep`, found from left to
/// right without overlap. An empty `pat` occurs nowhere.
pub open spec fn replace_all(s: Seq<char>, pat: Seq<char>, rep: Seq<char>) -> Seq<char>
    decreases s.len(),
{
    if pat.len() == 0 || s.len() < pat.len() {
        s
    } else if s.take(pat.len() as int) == pat {
        rep + replace_all(s.skip(pat.len() as int), pat, rep)
    } else {
        seq![s[0]] + replace_all(s.skip(1), pat, rep)
    }
}

/// Whether `pat` occurs somewhere in `s`.
pub open spec fn occurs_in(s: Seq<char>, pat: Seq<char>) -> bool {
    exists|i: int| 0 <= i && i + pat.len() <= s.len() && #[trigger] s.subrange(i, i + pat.len()) == pat
}

/// Replacing in a text in which the pattern does not occur changes nothing.
pub proof fn lemma_replace_without_occurrence(s: Seq<char>, pat: Seq<char>, rep: Seq<char>)
    requires
        !occurs_in(s, pat),
    ensures
        replace_all(s, pat, rep) == s,
    decreases s.len(),
{
    let m = pat.len() as int;
    if m > 0 && s.len() >= m {
        assert(s.take(m) =~= s.subrange(0, 0 + m));
        let rest = s.skip(1);
        assert forall|i: int| 0 <= i && i + m <= rest.len() implies #[trigger] rest.subrange(
            i,
            i + m,
        ) != pat by {
            assert(rest.subrange(i, i + m) =~= s.subrange(i + 1, i + 1 + m));
        }
        lemma_replace_without_occurrence(rest, pat, rep);
        assert(seq![s[0]] + rest =~= s);
    }
}

/// `s` with every occurrence of `pat` replaced by `rep`.
pub fn replace_all_in(s: &str, pat: &str, rep: &str) -> (out: String)
    ensures
        out@ == replace_all(s@, pat@, rep@),
{
    let n: usize = s.unicode_len();
    let m: usize = pat.unicode_len();
    if m == 0 || n < m {
        return String::from_str(s);
    }
    let pattern = String::from_str(pat);
    let mut out = String::new();
    let mut i: usize = 0;
    assert(s@.skip(0) =~= s@);
    assert(out@ + replace_all(s@, pat@, rep@) =~= replace_all(s@, pat@, rep@));
    while n - i >= m
        invariant
            n == s@.len(),
            m == pat@.len(),
            0 < m <= n,
            i <= n,
            pattern@ == pat@,
            out@ + replace_all(s@.skip(i as int), pat@, rep@) == replace_all(s@, pat@, rep@),
        decreases n - i,
    {
        let ghost tail = s@.skip(i as int);
        let window = String::from_str(s.substring_char(i, i + m));
        assert(tail.take(m as int) =~= s@.subrange(i as int, i + m));
        if window == pattern {
            let ghost before = out@;
            out.append(rep);
            assert(tail.skip(m as int) =~= s@.skip(i + m));
            assert((before + rep@) + replace_all(s@.skip(i + m), pat@, rep@) =~= before + (rep@
                + replace_all(s@.skip(i + m), pat@, rep@)));
            i = i + m;
        } else {
            let ghost before = out@;
            out.append(s.substring_char(i, i + 1));
            assert(s@.subrange(i as int, i + 1) =~= seq![tail[0]]);
            assert(tail.skip(1) =~= s@.skip(i + 1));
            assert((before + seq![tail[0]]) + replace_all(s@.skip(i + 1), pat@, rep@) =~= before
                + (seq![tail[0]] + replace_all(s@.skip(i + 1), pat@, rep@)));
            i = i + 1;
        }
    }
    out.append(s.substring_char(i, n));
    assert(s@.subrange(i as int, n as int) =~= s@.skip(i as int));
    out
}

} // verus!
