//! Shell-glob matching as PAC's `shExpMatch` defines it, proved against a
//! direct recursive specification.
use vstd::prelude::*;

verus! {

/// Whether pattern `p` covers the whole of `s`: `*` matches any run of
/// characters, `?` any single character, and every other character only
/// itself.
pub open spec fn glob_match(s: Seq<char>, p: Seq<char>) -> bool
    decreases s.len() + p.len(),
{
    if p.len() == 0 {
        s.len() == 0
    } else if p[0] == '*' {
        glob_match(s, p.drop_first()) || (s.len() > 0 && glob_match(s.drop_first(), p))
    } else {
        s.len() > 0 && (p[0] == '?' || p[0] == s[0]) && glob_match(s.drop_first(), p.drop_first())
    }
}

fn bool_row(len: usize) -> (r: Vec<bool>)
    ensures
        r@.len() == len,
{
    let mut r: Vec<bool> = Vec::new();
    let mut i: usize = 0;
    while i < len
        invariant
            i <= len,
            r@.len() == i,
        decreases len - i,
    {
        r.push(false);
        i += 1;
    }
    r
}

/// Whether `p` glob-matches all of `s`, by a table over the suffixes of
/// both: entry `(i, j)` answers for `s` from `i` on against `p` from `j`
/// on, and each row needs only the row for the text one character longer.
pub fn glob_matches(s: &Vec<char>, p: &Vec<char>) -> (r: bool)
    ensures
        r == glob_match(s@, p@),
{
    let n: usize = s.len();
    let m: usize = p.len();
    if m == 0 {
        proof {
            assert(glob_match(s@, p@) == (s@.len() == 0));
        }
        return n == 0;
    }
    // Row for the empty text suffix: only a run of `*` matches nothing.
    let mut prev = bool_row(m);
    let mut j: usize = m;
    while j > 0
        invariant
            j <= m,
            n == s@.len(),
            m == p@.len(),
            prev@.len() == m,
            forall|jj: int| j <= jj < m ==> prev@[jj] == glob_match(
                s@.skip(n as int),
                p@.skip(jj),
            ),
        decreases j,
    {
        j -= 1;
        let nxt: bool = if j + 1 < m {
            prev[j + 1]
        } else {
            true
        };
        let val: bool = p[j] == '*' && nxt;
        proof {
            let se = s@.skip(n as int);
            let pj = p@.skip(j as int);
            assert(se.len() == 0);
            assert(pj.len() == m - j);
            assert(pj[0] == p@[j as int]);
            assert(pj.drop_first() =~= p@.skip(j + 1));
            if j + 1 == m {
                assert(pj.drop_first().len() == 0);
                assert(glob_match(se, pj.drop_first()) == true);
            }
            assert(glob_match(se, pj) == val);
        }
        prev[j] = val;
    }
    // Each longer text suffix from its predecessor row.
    let mut i: usize = n;
    while i > 0
        invariant
            i <= n,
            n == s@.len(),
            m == p@.len(),
            m >= 1,
            prev@.len() == m,
            forall|jj: int| 0 <= jj < m ==> prev@[jj] == glob_match(
                s@.skip(i as int),
                p@.skip(jj),
            ),
        decreases i,
    {
        i -= 1;
        let mut cur = bool_row(m);
        let mut j: usize = m;
        while j > 0
            invariant
                j <= m,
                i < n,
                n == s@.len(),
                m == p@.len(),
                cur@.len() == m,
                prev@.len() == m,
                forall|jj: int| 0 <= jj < m ==> prev@[jj] == glob_match(
                    s@.skip(i + 1),
                    p@.skip(jj),
                ),
                forall|jj: int| j <= jj < m ==> cur@[jj] == glob_match(
                    s@.skip(i as int),
                    p@.skip(jj),
                ),
            decreases j,
        {
            j -= 1;
            let c = p[j];
            let val: bool = if c == '*' {
                let skip_star: bool = if j + 1 < m {
                    cur[j + 1]
                } else {
                    false
                };
                skip_star || prev[j]
            } else {
                let tail: bool = if j + 1 < m {
                    prev[j + 1]
                } else {
                    i + 1 == n
                };
                (c == '?' || c == s[i]) && tail
            };
            proof {
                let si = s@.skip(i as int);
                let pj = p@.skip(j as int);
                assert(si.len() == n - i);
                assert(si.len() > 0);
                assert(si[0] == s@[i as int]);
                assert(si.drop_first() =~= s@.skip(i + 1));
                assert(pj[0] == p@[j as int]);
                assert(pj.drop_first() =~= p@.skip(j + 1));
                if p@[j as int] == '*' {
                    if j + 1 < m {
                        assert(cur@[j + 1] == glob_match(si, p@.skip(j + 1)));
                    } else {
                        assert(p@.skip(j + 1).len() == 0);
                        assert(glob_match(si, p@.skip(j + 1)) == (si.len() == 0));
                    }
                    assert(glob_match(si.drop_first(), pj) == prev@[j as int]);
                } else {
                    if j + 1 < m {
                        assert(prev@[j + 1] == glob_match(s@.skip(i + 1), p@.skip(j + 1)));
                    } else {
                        assert(p@.skip(j + 1).len() == 0);
                        assert(glob_match(s@.skip(i + 1), p@.skip(j + 1)) == (s@.skip(i + 1).len()
                            == 0));
                        assert(s@.skip(i + 1).len() == n - i - 1);
                    }
                    assert(glob_match(si.drop_first(), pj.drop_first()) == glob_match(
                        s@.skip(i + 1),
                        p@.skip(j + 1),
                    ));
                }
                assert(glob_match(si, pj) == val);
            }
            cur[j] = val;
        }
        prev = cur;
    }
    proof {
        assert(s@.skip(0) =~= s@);
        assert(p@.skip(0) =~= p@);
    }
    prev[0]
}

} // verus!
