//! An ordered set of distinct CPU core identifiers.
//!
//! A launch binds one worker process to each core in the set; the set is
//! built once, before launch, and read-only afterwards.  Workers are spawned
//! in increasing core-identifier order, so the list is kept strictly sorted.

use vstd::prelude::*;

use crate::strictly_increasing;

verus! {

/// The ordered set of distinct core identifiers a launch binds workers to.
#[derive(Debug)]
pub struct CoreSet {
    /// The identifiers, strictly increasing when the set is well formed.
    pub ids: Vec<usize>,
}

impl View for CoreSet {
    type V = Seq<usize>;

    open spec fn view(&self) -> Seq<usize> {
        self.ids@
    }
}

impl CoreSet {
    /// The set is well formed when its identifiers are strictly increasing,
    /// which makes them distinct and fixes the spawn order.
    pub open spec fn wf(&self) -> bool {
        strictly_increasing(self@)
    }

    /// Builds the ordered set from an arbitrary list of requested core
    /// identifiers: duplicates collapse, and the result is sorted.
    pub fn from_ids(requested: &Vec<usize>) -> (cs: CoreSet)
        ensures
            cs.wf(),
            cs@.len() <= requested@.len(),
            forall|c: usize| cs@.contains(c) <==> requested@.contains(c),
    {
        let mut ids: Vec<usize> = Vec::new();
        let n = requested.len();
        for i in 0..n
            invariant
                n == requested@.len(),
                ids@.len() <= i,
                strictly_increasing(ids@),
                forall|c: usize| ids@.contains(c) <==> requested@.take(i as int).contains(c),
        {
            let x = requested[i];
            let mut j: usize = 0;
            while j < ids.len() && ids[j] < x
                invariant
                    j <= ids@.len(),
                    strictly_increasing(ids@),
                    forall|k: int| 0 <= k < j ==> ids@[k] < x,
                decreases ids@.len() - j,
            {
                j += 1;
            }
            let ghost pre = ids@;
            if j == ids.len() || ids[j] > x {
                ids.insert(j, x);
                proof {
                    pre.insert_ensures(j as int, x);
                    assert forall|p: int, q: int| 0 <= p < q < ids@.len() implies ids@[p]
                        < ids@[q] by {
                        if p < j && q > j {
                            assert(ids@[p] == pre[p] && ids@[q] == pre[q - 1]);
                        } else if q == j {
                            assert(ids@[p] == pre[p]);
                        } else if p == j && q > j {
                            assert(ids@[q] == pre[q - 1]);
                            if q - 1 > j {
                                assert(pre[j as int] <= pre[q - 1]);
                            }
                        }
                    }
                    assert forall|c: usize| ids@.contains(c) implies (pre.contains(c) || c
                        == x) by {
                        let w = choose|w: int| 0 <= w < ids@.len() && ids@[w] == c;
                        if w < j {
                            assert(pre[w] == c);
                        } else if w > j {
                            assert(pre[w - 1] == c);
                        }
                    }
                    assert forall|c: usize| pre.contains(c) implies ids@.contains(c) by {
                        let w = choose|w: int| 0 <= w < pre.len() && pre[w] == c;
                        if w < j {
                            assert(ids@[w] == c);
                        } else {
                            assert(ids@[w + 1] == c);
                        }
                    }
                    assert(ids@[j as int] == x);
                }
            } else {
                proof {
                    assert(ids@[j as int] == x);
                }
            }
            proof {
                assert(requested@.take(i + 1).drop_last() =~= requested@.take(i as int));
                assert(requested@.take(i + 1).last() == x);
                assert forall|c: usize| requested@.take(i + 1).contains(c) implies ids@.contains(
                    c,
                ) by {
                    let w = choose|w: int|
                        0 <= w < requested@.take(i + 1).len() && #[trigger] requested@.take(
                            i + 1,
                        )[w] == c;
                    if w < i {
                        assert(requested@.take(i as int)[w] == c);
                        assert(requested@.take(i as int).contains(c));
                        assert(pre.contains(c));
                    } else {
                        assert(c == x);
                    }
                    assert(ids@.contains(c));
                }
                assert forall|c: usize| ids@.contains(c) implies requested@.take(i + 1).contains(
                    c,
                ) by {
                    if pre.contains(c) {
                        assert(requested@.take(i as int).contains(c));
                        let w = choose|w: int|
                            0 <= w < i && requested@.take(i as int)[w] == c;
                        assert(requested@.take(i + 1)[w] == c);
                    } else {
                        assert(requested@.take(i + 1)[i as int] == x);
                    }
                }
            }
        }
        proof {
            assert(requested@.take(n as int) =~= requested@);
        }
        CoreSet { ids }
    }

    /// How many cores the set holds; one worker is created per core.
    pub fn len(&self) -> (n: usize)
        ensures
            n == self@.len(),
    {
        self.ids.len()
    }

    /// Whether the set is empty; an empty set cannot be launched on.
    pub fn is_empty(&self) -> (b: bool)
        ensures
            b == (self@.len() == 0),
    {
        self.ids.len() == 0
    }

    /// A copy of the set with the same identifiers.
    pub fn duplicate(&self) -> (cs: CoreSet)
        ensures
            cs@ == self@,
    {
        let mut ids: Vec<usize> = Vec::new();
        let n = self.ids.len();
        for i in 0..n
            invariant
                n == self@.len(),
                ids@ =~= self@.take(i as int),
        {
            ids.push(self.ids[i]);
            proof {
                assert(ids@ =~= self@.take(i + 1));
            }
        }
        proof {
            assert(self@.take(n as int) =~= self@);
        }
        CoreSet { ids }
    }

    /// The identifier of the core at spawn position `i`.
    pub fn get(&self, i: usize) -> (c: usize)
        requires
            i < self@.len(),
        ensures
            c == self@[i as int],
    {
        self.ids[i]
    }
}

/// A well-formed core set is canonical: two strictly increasing lists with
/// the same members are the same list.  Together with `from_ids`'s contract
/// this pins the built set down completely.
pub proof fn lemma_ordered_set_canonical(a: Seq<usize>, b: Seq<usize>)
    requires
        strictly_increasing(a),
        strictly_increasing(b),
        forall|c: usize| a.contains(c) <==> b.contains(c),
    ensures
        a =~= b,
    decreases a.len(),
{
    if a.len() == 0 {
        if b.len() > 0 {
            assert(b.contains(b[0]));
            assert(a.contains(b[0]));
        }
    } else {
        assert(a.contains(a[0]));
        assert(b.contains(a[0]));
        let w = choose|w: int| 0 <= w < b.len() && b[w] == a[0];
        assert(b.contains(b[0]));
        assert(a.contains(b[0]));
        let v = choose|v: int| 0 <= v < a.len() && a[v] == b[0];
        assert(w == 0 || b[0] < b[w]);
        assert(v == 0 || a[0] < a[v]);
        assert(a[0] == b[0]);
        let at = a.drop_first();
        let bt = b.drop_first();
        assert forall|i: int, j: int| 0 <= i < j < at.len() implies at[i] < at[j] by {
            assert(at[i] == a[i + 1] && at[j] == a[j + 1]);
        }
        assert forall|i: int, j: int| 0 <= i < j < bt.len() implies bt[i] < bt[j] by {
            assert(bt[i] == b[i + 1] && bt[j] == b[j + 1]);
        }
        assert forall|c: usize| at.contains(c) implies bt.contains(c) by {
            let k = choose|k: int| 0 <= k < at.len() && at[k] == c;
            assert(a[k + 1] == c);
            assert(a.contains(c));
            assert(a[0] < c);
            assert(b.contains(c));
            let m = choose|m: int| 0 <= m < b.len() && b[m] == c;
            assert(m != 0);
            assert(bt[m - 1] == c);
        }
        assert forall|c: usize| bt.contains(c) implies at.contains(c) by {
            let k = choose|k: int| 0 <= k < bt.len() && bt[k] == c;
            assert(b[k + 1] == c);
            assert(b.contains(c));
            assert(b[0] < c);
            assert(a.contains(c));
            let m = choose|m: int| 0 <= m < a.len() && a[m] == c;
            assert(m != 0);
            assert(at[m - 1] == c);
        }
        lemma_ordered_set_canonical(at, bt);
        assert forall|i: int| 0 <= i < a.len() implies a[i] == b[i] by {
            if i > 0 {
                assert(at[i - 1] == bt[i - 1]);
            }
        }
    }
}

} // verus!
