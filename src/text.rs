use vstd::prelude::*;

verus! {

/// Replaces, left to right, every non-overlapping occurrence of `pat` in `s`
/// by `rep`.
pub open spec fn replace_all(s: Seq<char>, pat: Seq<char>, rep: Seq<char>) -> Seq<char>
    decreases s.len(),
{
    if pat.len() == 0 || s.len() < pat.len() {
        s
    } else if s.subrange(0, pat.len() as int) == pat {
        rep + replace_all(s.subrange(pat.len() as int, s.len() as int), pat, rep)
    } else {
        seq![s[0]] + replace_all(s.drop_first(), pat, rep)
    }
}

/// Whether `pat` occurs in `s` at position `i`.
pub fn occurs_at(s: &str, i: usize, pat: &str, n: usize, m: usize) -> (r: bool)
    requires
        n == s@.len(),
        m == pat@.len(),
        i + m <= n,
    ensures
        r == (s@.subrange(i as int, i + m) == pat@),
{
    let mut j: usize = 0;
    while j < m
        invariant
            j <= m,
            n == s@.len(),
            m == pat@.len(),
            i + m <= n,
            forall|k: int| 0 <= k < j ==> s@[i + k] == pat@[k],
        decreases m - j,
    {
        if s.get_char(i + j) != pat.get_char(j) {
            assert(s@.subrange(i as int, i + m)[j as int] != pat@[j as int]);
            return false;
        }
        j += 1;
    }
    assert(s@.subrange(i as int, i + m) =~= pat@);
    true
}

/// `s` with every occurrence of `pat` replaced by `rep`, as `str::replace`
/// does for a non-empty pattern.
pub fn replace_all_str(s: &str, pat: &str, rep: &str) -> (r: String)
    requires
        pat@.len() > 0,
    ensures
        r@ == replace_all(s@, pat@, rep@),
{
    let n = s.unicode_len();
    let m = pat.unicode_len();
    let mut out = String::new();
    let mut i: usize = 0;
    assert(s@.subrange(0, n as int) =~= s@);
    while i < n
        invariant
            i <= n,
            n == s@.len(),
            m == pat@.len(),
            m > 0,
            out@ + replace_all(s@.subrange(i as int, n as int), pat@, rep@) == replace_all(
                s@,
                pat@,
                rep@,
            ),
        decreases n - i,
    {
        let ghost t = s@.subrange(i as int, n as int);
        let ghost old_out = out@;
        if m <= n - i && occurs_at(s, i, pat, n, m) {
            assert(t.subrange(0, m as int) =~= s@.subrange(i as int, i + m));
            assert(t.subrange(m as int, t.len() as int) =~= s@.subrange(i + m, n as int));
            out.append(rep);
            i += m;
            assert(old_out + replace_all(t, pat@, rep@) == old_out + (rep@ + replace_all(
                s@.subrange(i as int, n as int),
                pat@,
                rep@,
            )));
            assert(old_out + (rep@ + replace_all(s@.subrange(i as int, n as int), pat@, rep@))
                =~= out@ + replace_all(s@.subrange(i as int, n as int), pat@, rep@));
        } else {
            if m <= n - i {
                assert(t.subrange(0, m as int) =~= s@.subrange(i as int, i + m));
            }
            let c = s.substring_char(i, i + 1);
            out.append(c);
            i += 1;
            assert(t.drop_first() =~= s@.subrange(i as int, n as int));
            assert(c@ =~= seq![t[0]]);
            proof {
                if t.len() < m {
                    assert(replace_all(t.drop_first(), pat@, rep@) == t.drop_first());
                    assert(t =~= seq![t[0]] + t.drop_first());
                }
            }
            assert(old_out + replace_all(t, pat@, rep@) == old_out + (seq![t[0]] + replace_all(
                t.drop_first(),
                pat@,
                rep@,
            )));
            assert(old_out + (seq![t[0]] + replace_all(t.drop_first(), pat@, rep@))
                =~= out@ + replace_all(s@.subrange(i as int, n as int), pat@, rep@));
        }
    }
    assert(s@.subrange(n as int, n as int) =~= Seq::<char>::empty());
    assert(out@ + replace_all(Seq::<char>::empty(), pat@, rep@) =~= out@);
    out
}

} // verus!
