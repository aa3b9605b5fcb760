use vstd::prelude::*;

verus! {

broadcast use {vstd::std_specs::vec::group_vec_axioms, vstd::seq::group_seq_axioms};

/// What a time-aware pop yields: nothing queued, the earliest entry not
/// yet due (carrying its order), or the earliest entry itself.
#[derive(Clone)]
pub enum PoppedResult<T, O> {
    Empty,
    Unavailable(O),
    Success(T),
}

/// An insertion-and-order sorted collection of deferred items: an
/// owned vector kept sorted by its order key, with a stable tie-break
/// so that among equal orders, earlier insertions stay in front.
#[derive(Clone)]
pub struct OrderedLinkedList<T> {
    pub items: Vec<(T, u64)>,
}

/// Entries are sorted by their order key, front to back.
pub open spec fn spec_sorted<T>(s: Seq<(T, u64)>) -> bool {
    forall|i: int, j: int| 0 <= i < j < s.len() ==> (#[trigger] s[i]).1 <= (#[trigger] s[j]).1
}

/// Where a new entry of order `o` goes: after every entry whose order
/// is at most `o`, before the rest.
pub open spec fn spec_insert_pos<T>(s: Seq<(T, u64)>, o: u64) -> int
    decreases s.len(),
{
    if s.len() == 0 {
        0
    } else if s.last().1 <= o {
        s.len() as int
    } else {
        spec_insert_pos(s.drop_last(), o)
    }
}

/// The insert position is within bounds, everything before it has an
/// order at most `o`, and everything from it on has a greater order.
pub proof fn lemma_insert_pos_props<T>(s: Seq<(T, u64)>, o: u64)
    requires
        spec_sorted(s),
    ensures
        0 <= spec_insert_pos(s, o) <= s.len(),
        forall|j: int| 0 <= j < spec_insert_pos(s, o) ==> (#[trigger] s[j]).1 <= o,
        forall|j: int| spec_insert_pos(s, o) <= j < s.len() ==> (#[trigger] s[j]).1 > o,
    decreases s.len(),
{
    if s.len() > 0 {
        if s.last().1 <= o {
            assert forall|j: int| 0 <= j < s.len() implies (#[trigger] s[j]).1 <= o by {
                assert(s[j].1 <= s[s.len() - 1].1);
            }
        } else {
            assert(spec_sorted(s.drop_last()));
            lemma_insert_pos_props(s.drop_last(), o);
            assert forall|j: int| 0 <= j < spec_insert_pos(s, o) implies (#[trigger] s[j]).1
                <= o by {
                assert(s.drop_last()[j] == s[j]);
            }
            assert forall|j: int| spec_insert_pos(s, o) <= j < s.len() implies (#[trigger] s[j]).1
                > o by {
                if j < s.len() - 1 {
                    assert(s.drop_last()[j] == s[j]);
                }
            }
        }
    }
}

impl<T> OrderedLinkedList<T> {
    /// The queue's entries are sorted by order.
    pub open spec fn wf(&self) -> bool {
        spec_sorted(self.items@)
    }

    pub fn new() -> (r: OrderedLinkedList<T>)
        ensures
            r.items@.len() == 0,
            r.wf(),
    {
        OrderedLinkedList { items: Vec::new() }
    }

    pub fn len(&self) -> (n: usize)
        ensures
            n == self.items@.len(),
    {
        self.items.len()
    }

    /// Inserts `elem` with order `order`, after every entry of an order
    /// at most `order` (the stable tie-break) and before the rest.
    pub fn push_by(&mut self, elem: T, order: u64)
        requires
            old(self).wf(),
        ensures
            final(self).wf(),
            final(self).items@ == old(self).items@.insert(
                spec_insert_pos(old(self).items@, order),
                (elem, order),
            ),
            final(self).items@.len() == old(self).items@.len() + 1,
    {
        proof {
            lemma_insert_pos_props(self.items@, order);
        }
        let ghost s0 = self.items@;
        let n = self.items.len();
        let mut i: usize = n;
        while i > 0
            invariant
                0 <= i <= n,
                n == self.items@.len(),
                self.items@ == s0,
                old(self).items@ == s0,
                spec_sorted(s0),
                forall|j: int| i <= j < n ==> (#[trigger] s0[j]).1 > order,
            decreases i,
        {
            if self.items[i - 1].1 <= order {
                proof {
                    lemma_insert_pos_props(s0, order);
                    let p: int = spec_insert_pos(s0, order);
                    if p < i {
                        assert(s0[i - 1].1 > order);
                        assert(false);
                    }
                    if p > i {
                        assert(s0[i as int].1 > order);
                        assert(s0[i as int].1 <= order);
                        assert(false);
                    }
                    assert(p == i);
                }
                self.items.insert(i, (elem, order));
                proof {
                    lemma_sorted_after_insert(s0, i as int, elem, order);
                }
                return ;
            }
            i = i - 1;
        }
        proof {
            lemma_insert_pos_props(s0, order);
            if spec_insert_pos(s0, order) > 0 {
                assert(s0[0].1 <= order);
                assert(s0[0].1 > order);
                assert(false);
            }
        }
        self.items.insert(0, (elem, order));
        proof {
            lemma_sorted_after_insert(s0, 0, elem, order);
        }
    }

    /// Inserts with the default order.
    pub fn push(&mut self, elem: T)
        requires
            old(self).wf(),
        ensures
            final(self).wf(),
            final(self).items@ == old(self).items@.insert(
                spec_insert_pos(old(self).items@, 0),
                (elem, 0),
            ),
    {
        self.push_by(elem, 0);
    }

    /// Appends at the tail, reusing the tail's order so that time
    /// ordering is respected while the entry still lands last.
    pub fn push_end(&mut self, elem: T)
        requires
            old(self).wf(),
        ensures
            final(self).wf(),
            final(self).items@.len() == old(self).items@.len() + 1,
            final(self).items@ == old(self).items@.push(
                (elem, if old(self).items@.len() == 0 {
                    0u64
                } else {
                    old(self).items@.last().1
                }),
            ),
    {
        let n = self.items.len();
        let order: u64 = if n == 0 {
            0
        } else {
            self.items[n - 1].1
        };
        let ghost s0 = self.items@;
        proof {
            lemma_insert_pos_props(s0, order);
            assert(spec_insert_pos(s0, order) == s0.len()) by {
                if s0.len() > 0 {
                    assert(s0.last().1 <= order);
                }
            }
            assert(s0.insert(s0.len() as int, (elem, order)) =~= s0.push((elem, order)));
        }
        self.push_by(elem, order);
    }

    /// Removes and returns the head entry when it is due by
    /// `target_order` (or unconditionally when no target is given);
    /// otherwise reports the head's order or emptiness.
    fn pop_aux(&mut self, target_order: Option<u64>) -> (r: PoppedResult<T, u64>)
        requires
            old(self).wf(),
        ensures
            final(self).wf(),
            match r {
                PoppedResult::Empty => old(self).items@.len() == 0 && *final(self) == *old(self),
                PoppedResult::Unavailable(o) => old(self).items@.len() > 0 && o
                    == old(self).items@[0].1 && *final(self) == *old(self) && (
                target_order matches Some(t) && o > t),
                PoppedResult::Success(x) => old(self).items@.len() > 0 && x
                    == old(self).items@[0].0 && final(self).items@
                    == old(self).items@.drop_first() && (target_order matches Some(t)
                    ==> old(self).items@[0].1 <= t),
            },
    {
        if self.items.len() == 0 {
            return PoppedResult::Empty;
        }
        let head_order = self.items[0].1;
        let can_pop = match target_order {
            Some(t) => head_order <= t,
            None => true,
        };
        if can_pop {
            let ghost s0 = self.items@;
            let pair = self.items.remove(0);
            proof {
                assert(self.items@ =~= s0.drop_first());
                assert(spec_sorted(self.items@)) by {
                    assert(forall|j: int|
                        0 <= j < self.items@.len() ==> #[trigger] self.items@[j] == s0[j + 1]);
                }
            }
            PoppedResult::Success(pair.0)
        } else {
            PoppedResult::Unavailable(head_order)
        }
    }

    /// Pops the head unconditionally.
    pub fn pop(&mut self) -> (r: PoppedResult<T, u64>)
        requires
            old(self).wf(),
        ensures
            final(self).wf(),
            match r {
                PoppedResult::Empty => old(self).items@.len() == 0 && *final(self) == *old(self),
                PoppedResult::Unavailable(o) => false,
                PoppedResult::Success(x) => old(self).items@.len() > 0 && x
                    == old(self).items@[0].0 && final(self).items@
                    == old(self).items@.drop_first(),
            },
    {
        self.pop_aux(None)
    }

    /// Pops the head when its order is at most `target_order`.
    pub fn pop_by(&mut self, target_order: u64) -> (r: PoppedResult<T, u64>)
        requires
            old(self).wf(),
        ensures
            final(self).wf(),
            match r {
                PoppedResult::Empty => old(self).items@.len() == 0 && *final(self) == *old(self),
                PoppedResult::Unavailable(o) => old(self).items@.len() > 0 && o
                    == old(self).items@[0].1 && o > target_order && *final(self) == *old(self),
                PoppedResult::Success(x) => old(self).items@.len() > 0 && x
                    == old(self).items@[0].0 && old(self).items@[0].1 <= target_order
                    && final(self).items@ == old(self).items@.drop_first(),
            },
    {
        self.pop_aux(Some(target_order))
    }
}

/// Sortedness is kept when inserting at the position the order demands.
proof fn lemma_sorted_after_insert<T>(s: Seq<(T, u64)>, i: int, elem: T, order: u64)
    requires
        spec_sorted(s),
        0 <= i <= s.len(),
        forall|j: int| 0 <= j < i ==> (#[trigger] s[j]).1 <= order,
        forall|j: int| i <= j < s.len() ==> (#[trigger] s[j]).1 > order,
    ensures
        spec_sorted(s.insert(i, (elem, order))),
{
    let t = s.insert(i, (elem, order));
    assert forall|a: int, b: int| 0 <= a < b < t.len() implies (#[trigger] t[a]).1 <= (
    #[trigger] t[b]).1 by {
        if a < i {
            assert(t[a] == s[a]);
        } else if a == i {
            assert(t[a].1 == order);
        } else {
            assert(t[a] == s[a - 1]);
        }
        if b < i {
            assert(t[b] == s[b]);
        } else if b == i {
            assert(t[b].1 == order);
        } else {
            assert(t[b] == s[b - 1]);
        }
    }
}

/// Law: the queue always serves an earliest-due entry: the head's order
/// is at most the order of everything still queued, so orders of
/// successive pops never decrease.
pub proof fn lemma_pop_serves_earliest<T>(s: Seq<(T, u64)>)
    requires
        spec_sorted(s),
        s.len() > 0,
    ensures
        forall|j: int| 0 <= j < s.len() ==> s[0].1 <= (#[trigger] s[j]).1,
        spec_sorted(s.drop_first()),
{
    assert(forall|j: int|
        0 <= j < s.drop_first().len() ==> #[trigger] s.drop_first()[j] == s[j + 1]);
}

} // verus!
