//! Sorting a list of counts into strictly increasing order, dropping repeats.
use vstd::prelude::*;

verus! {

/// Every element is smaller than every later one.
pub open spec fn strictly_increasing(s: Seq<usize>) -> bool {
    forall|i: int, j: int| 0 <= i < j < s.len() ==> s[i] < s[j]
}

/// `a` and `b` hold the same values, each any number of times.
pub open spec fn same_elements(a: Seq<usize>, b: Seq<usize>) -> bool {
    forall|x: usize| a.contains(x) <==> b.contains(x)
}

/// Two strictly increasing sequences with the same elements are equal: the
/// outcome of sorting and removing repeats does not depend on how it was done.
pub proof fn lemma_strictly_increasing_unique(a: Seq<usize>, b: Seq<usize>)
    requires
        strictly_increasing(a),
        strictly_increasing(b),
        same_elements(a, b),
    ensures
        a == b,
    decreases a.len() + b.len(),
{
    if a.len() == 0 {
        if b.len() > 0 {
            assert(b.contains(b[0]));
        }
        assert(a =~= b);
    } else if b.len() == 0 {
        assert(a.contains(a[0]));
    } else {
        // The first elements are both the minimum of the shared set.
        assert(a.contains(a[0]));
        assert(b.contains(b[0]));
        let ia = choose|i: int| 0 <= i < a.len() && a[i] == b[0];
        let ib = choose|i: int| 0 <= i < b.len() && b[i] == a[0];
        assert(a[0] == b[0]) by {
            if a[0] < b[0] {
                assert(b[ib] == a[0]);
                if ib > 0 {
                    assert(b[0] < b[ib]);
                }
            } else if a[0] > b[0] {
                assert(a[ia] == b[0]);
                if ia > 0 {
                    assert(a[0] < a[ia]);
                }
            }
        }
        let ta = a.drop_first();
        let tb = b.drop_first();
        assert forall|x: usize| ta.contains(x) <==> tb.contains(x) by {
            if ta.contains(x) {
                let i = choose|i: int| 0 <= i < ta.len() && ta[i] == x;
                assert(a[i + 1] == x);
                assert(a.contains(x));
                let j = choose|j: int| 0 <= j < b.len() && b[j] == x;
                assert(x > a[0]);
                assert(j != 0);
                assert(tb[j - 1] == x);
            }
            if tb.contains(x) {
                let i = choose|i: int| 0 <= i < tb.len() && tb[i] == x;
                assert(b[i + 1] == x);
                assert(b.contains(x));
                let j = choose|j: int| 0 <= j < a.len() && a[j] == x;
                assert(x > b[0]);
                assert(j != 0);
                assert(ta[j - 1] == x);
            }
        }
        lemma_strictly_increasing_unique(ta, tb);
        assert(a =~= seq![a[0]] + ta);
        assert(b =~= seq![b[0]] + tb);
    }
}

/// Number of leading elements of `s` that are smaller than `x`, found by a scan.
fn lower_bound(s: &Vec<usize>, x: usize) -> (pos: usize)
    requires
        strictly_increasing(s@),
    ensures
        pos <= s.len(),
        forall|i: int| 0 <= i < pos ==> s@[i] < x,
        pos < s.len() ==> s@[pos as int] >= x,
{
    let mut pos: usize = 0;
    while pos < s.len() && s[pos] < x
        invariant
            pos <= s.len(),
            strictly_increasing(s@),
            forall|i: int| 0 <= i < pos ==> s@[i] < x,
        decreases s.len() - pos,
    {
        pos = pos + 1;
    }
    pos
}

/// The values of `values` in strictly increasing order, each once; what
/// `sort_unstable` followed by `dedup` leaves.
pub fn sorted_distinct(values: &Vec<usize>) -> (out: Vec<usize>)
    ensures
        strictly_increasing(out@),
        same_elements(out@, values@),
{
    let mut out: Vec<usize> = Vec::new();
    let mut k: usize = 0;
    while k < values.len()
        invariant
            k <= values.len(),
            strictly_increasing(out@),
            forall|x: usize| out@.contains(x) <==> values@.take(k as int).contains(x),
        decreases values.len() - k,
    {
        let x = values[k];
        let pos = lower_bound(&out, x);
        let ghost before = out@;
        if pos < out.len() && out[pos] == x {
        } else {
            out.insert(pos, x);
            assert forall|i: int, j: int| 0 <= i < j < out@.len() implies out@[i] < out@[j] by {
                if j < pos {
                } else if j == pos {
                } else if i < pos {
                    assert(before[j - 1] > x);
                } else if i == pos {
                    assert(before[j - 1] >= before[pos as int]);
                } else {
                }
            }
        }
        assert forall|y: usize| out@.contains(y) <==> values@.take(k + 1).contains(y) by {
            let tk = values@.take(k as int);
            let tk1 = values@.take(k + 1);
            assert(tk1 =~= tk.push(x));
            if out@.contains(y) {
                let i = choose|i: int| 0 <= i < out@.len() && out@[i] == y;
                if y != x {
                    if pos < before.len() && before[pos as int] == x {
                        assert(before.contains(y));
                    } else {
                        if i < pos {
                            assert(before[i] == y);
                        } else {
                            assert(i != pos);
                            assert(before[i - 1] == y);
                        }
                        assert(before.contains(y));
                    }
                    assert(tk.contains(y));
                    let t = choose|t: int| 0 <= t < tk.len() && tk[t] == y;
                    assert(tk1[t] == y);
                } else {
                    assert(tk1[k as int] == y);
                }
            }
            if tk1.contains(y) {
                let t = choose|t: int| 0 <= t < tk1.len() && tk1[t] == y;
                if t < k {
                    assert(tk[t] == y);
                    assert(before.contains(y));
                    let i = choose|i: int| 0 <= i < before.len() && before[i] == y;
                    if pos < before.len() && before[pos as int] == x {
                    } else if i < pos {
                        assert(out@[i] == y);
                    } else {
                        assert(out@[i + 1] == y);
                    }
                } else {
                    if pos < before.len() && before[pos as int] == x {
                        assert(out@[pos as int] == y);
                    } else {
                        assert(out@[pos as int] == y);
                    }
                }
            }
        }
        k = k + 1;
    }
    assert(values@.take(values.len() as int) =~= values@);
    out
}

} // verus!
