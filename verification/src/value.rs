use vstd::prelude::*;

verus! {

broadcast use {vstd::std_specs::vec::group_vec_axioms, vstd::seq::group_seq_axioms};

/// A dynamically-typed document value: the payload of one telemetry event.
///
/// Floating-point numbers are carried as their decimal text, so that the
/// wire format preserves them exactly and no float arithmetic is needed;
/// the host shell converts between machine floats and that text.
#[derive(Debug)]
pub enum Value {
    Null,
    Bool(bool),
    Int(i64),
    Uint(u64),
    Float(String),
    Str(String),
    Arr(Vec<Value>),
    Obj(Object),
}

/// An insertion-ordered string-keyed mapping with unique keys.
#[derive(Debug)]
pub struct Object {
    pub entries: Vec<(String, Value)>,
}

/// The mathematical shape of a document value. The two machine integer
/// carriers of `Value` both map to `Int`: they are one JSON number kind.
#[verifier::ext_equal]
pub enum SpecValue {
    Null,
    Bool(bool),
    Int(int),
    Float(Seq<char>),
    Str(Seq<char>),
    Arr(Seq<SpecValue>),
    Obj(Seq<(Seq<char>, SpecValue)>),
}

/// The mathematical shape of an object: its entry list.
pub type SpecEntries = Seq<(Seq<char>, SpecValue)>;

/// The abstraction of one value. The range guards in the closures below
/// keep the recursion well-founded; out-of-range indices are never used.
pub open spec fn vview(v: Value) -> SpecValue
    decreases v,
{
    match v {
        Value::Null => SpecValue::Null,
        Value::Bool(b) => SpecValue::Bool(b),
        Value::Int(i) => SpecValue::Int(i as int),
        Value::Uint(u) => SpecValue::Int(u as int),
        Value::Float(s) => SpecValue::Float(s@),
        Value::Str(s) => SpecValue::Str(s@),
        Value::Arr(a) => SpecValue::Arr(aview(a@)),
        Value::Obj(o) => SpecValue::Obj(oview(o.entries@)),
    }
}

/// The abstraction of a list of values.
pub open spec fn aview(a: Seq<Value>) -> Seq<SpecValue>
    decreases a,
{
    Seq::new(
        a.len(),
        |i: int|
            if 0 <= i < a.len() {
                vview(a[i])
            } else {
                SpecValue::Null
            },
    )
}

/// The abstraction of a list of keyed entries.
pub open spec fn oview(s: Seq<(String, Value)>) -> SpecEntries
    decreases s,
{
    Seq::new(
        s.len(),
        |i: int|
            if 0 <= i < s.len() {
                (s[i].0@, vview(s[i].1))
            } else {
                (Seq::empty(), SpecValue::Null)
            },
    )
}

impl View for Value {
    type V = SpecValue;

    open spec fn view(&self) -> SpecValue {
        vview(*self)
    }
}

impl View for Object {
    type V = SpecEntries;

    open spec fn view(&self) -> SpecEntries {
        oview(self.entries@)
    }
}

/// The value stored under `k`, searching front to back.
pub open spec fn slookup(s: SpecEntries, k: Seq<char>) -> Option<SpecValue>
    decreases s.len(),
{
    if s.len() == 0 {
        None
    } else if s[0].0 == k {
        Some(s[0].1)
    } else {
        slookup(s.drop_first(), k)
    }
}

/// All keys in an entry list are distinct.
pub open spec fn skeys_unique(s: SpecEntries) -> bool {
    forall|i: int, j: int| 0 <= i < j < s.len() ==> s[i].0 != s[j].0
}

/// Skipping entries whose keys all differ from `k` does not change the lookup.
pub proof fn lemma_slookup_skip(s: SpecEntries, k: Seq<char>, i: int)
    requires
        0 <= i <= s.len(),
        forall|j: int| 0 <= j < i ==> s[j].0 != k,
    ensures
        slookup(s, k) == slookup(s.skip(i), k),
    decreases i,
{
    if i > 0 {
        assert(s.skip(1).skip(i - 1) =~= s.skip(i));
        assert(s.drop_first() =~= s.skip(1));
        lemma_slookup_skip(s.skip(1), k, i - 1);
    } else {
        assert(s.skip(0) =~= s);
    }
}

/// When no entry has key `k`, the lookup yields nothing.
pub proof fn lemma_slookup_none(s: SpecEntries, k: Seq<char>)
    requires
        forall|j: int| 0 <= j < s.len() ==> s[j].0 != k,
    ensures
        slookup(s, k) is None,
{
    lemma_slookup_skip(s, k, s.len() as int);
}

/// Appending an entry changes only the lookup of a key not found before.
pub proof fn lemma_slookup_snoc(s: SpecEntries, pair: (Seq<char>, SpecValue), k: Seq<char>)
    ensures
        slookup(s.push(pair), k) == (match slookup(s, k) {
            Some(v) => Some(v),
            None => {
                if pair.0 == k {
                    Some(pair.1)
                } else {
                    None
                }
            },
        }),
    decreases s.len(),
{
    if s.len() == 0 {
        assert(s.push(pair)[0] == pair);
        assert(s.push(pair).drop_first() =~= Seq::<(Seq<char>, SpecValue)>::empty());
    } else {
        assert(s.push(pair)[0] == s[0]);
        assert(s.push(pair).drop_first() =~= s.drop_first().push(pair));
        lemma_slookup_snoc(s.drop_first(), pair, k);
    }
}

/// Lookups for other keys are unchanged by replacing the entry at `i`.
proof fn lemma_slookup_agree_update(sold: SpecEntries, snew: SpecEntries, k2: Seq<char>, i: int)
    requires
        0 <= i < sold.len(),
        snew.len() == sold.len(),
        forall|j: int| 0 <= j < sold.len() && j != i ==> snew[j] == sold[j],
        snew[i].0 != k2,
        sold[i].0 != k2,
    ensures
        slookup(snew, k2) == slookup(sold, k2),
    decreases sold.len(),
{
    if sold.len() > 0 {
        if i == 0 {
            assert(snew.drop_first() =~= sold.drop_first());
        } else {
            assert(snew[0] == sold[0]);
            if sold[0].0 == k2 {
            } else {
                lemma_slookup_agree_update(sold.drop_first(), snew.drop_first(), k2, i - 1);
            }
        }
    }
}

/// Lookups for keys other than the pushed one are unchanged by a push.
proof fn lemma_slookup_push(sold: SpecEntries, snew: SpecEntries, k2: Seq<char>)
    requires
        snew.len() == sold.len() + 1,
        forall|j: int| 0 <= j < sold.len() ==> snew[j] == sold[j],
        snew[sold.len() as int].0 != k2,
    ensures
        slookup(snew, k2) == slookup(sold, k2),
    decreases sold.len(),
{
    if sold.len() == 0 {
    } else {
        if sold[0].0 == k2 {
        } else {
            lemma_slookup_push(sold.drop_first(), snew.drop_first(), k2);
        }
    }
}

/// Lookups for other keys are unchanged by removing the entry at `i`.
proof fn lemma_slookup_agree_remove(sold: SpecEntries, snew: SpecEntries, k2: Seq<char>, i: int)
    requires
        0 <= i < sold.len(),
        snew.len() == sold.len() - 1,
        forall|j: int| 0 <= j < i ==> snew[j] == sold[j],
        forall|j: int| i <= j < snew.len() ==> snew[j] == sold[j + 1],
        sold[i].0 != k2,
    ensures
        slookup(snew, k2) == slookup(sold, k2),
    decreases sold.len(),
{
    if i == 0 {
        assert(snew =~= sold.drop_first());
    } else {
        assert(snew[0] == sold[0]);
        if sold[0].0 == k2 {
        } else {
            lemma_slookup_agree_remove(sold.drop_first(), snew.drop_first(), k2, i - 1);
        }
    }
}

impl Value {
    /// A structurally equal copy of the value.
    pub fn deep_clone(&self) -> (r: Value)
        ensures
            r@ == self@,
        decreases self,
    {
        match self {
            Value::Null => Value::Null,
            Value::Bool(b) => Value::Bool(*b),
            Value::Int(i) => Value::Int(*i),
            Value::Uint(u) => Value::Uint(*u),
            Value::Float(s) => Value::Float(s.clone()),
            Value::Str(s) => Value::Str(s.clone()),
            Value::Arr(a) => {
                let r = Value::Arr(clone_values(a));
                proof {
                    assert(r@ matches SpecValue::Arr(_));
                    assert(self@ matches SpecValue::Arr(_));
                    assert(r@->Arr_0 =~= self@->Arr_0);
                    assert(r@ =~= self@);
                }
                r
            },
            Value::Obj(o) => {
                let oc = o.deep_clone();
                let r = Value::Obj(oc);
                proof {
                    let ghost oc = r->Obj_0;
                    assert(oc@.len() == o@.len());
                    assert forall|i: int| 0 <= i < o.entries@.len() implies r@->Obj_0[i]
                        == self@->Obj_0[i] by {
                        assert(oc@[i] == o@[i]);
                    }
                    assert(r@->Obj_0 =~= self@->Obj_0);
                    assert(r@ =~= self@);
                }
                r
            },
        }
    }
}

/// Copies a vector of keyed entries element by element.
fn clone_entries(v: &Vec<(String, Value)>) -> (r: Vec<(String, Value)>)
    ensures
        r@.len() == v@.len(),
        forall|j: int|
            0 <= j < v@.len() ==> (#[trigger] r@[j]).0@ == v@[j].0@ && r@[j].1@ == v@[j].1@,
    decreases v,
{
    let n = v.len();
    let mut out: Vec<(String, Value)> = Vec::new();
    let mut i: usize = 0;
    while i < n
        invariant
            0 <= i <= n,
            n == v@.len(),
            out@.len() == i,
            forall|j: int|
                0 <= j < i ==> (#[trigger] out@[j]).0@ == v@[j].0@ && out@[j].1@ == v@[j].1@,
        decreases n - i,
    {
        let key = v[i].0.clone();
        let val = v[i].1.deep_clone();
        out.push((key, val));
        i = i + 1;
    }
    out
}

/// Copies a vector of values element by element.
fn clone_values(a: &Vec<Value>) -> (r: Vec<Value>)
    ensures
        r@.len() == a@.len(),
        forall|j: int| 0 <= j < a@.len() ==> (#[trigger] r@[j])@ == a@[j]@,
    decreases a,
{
    let n = a.len();
    let mut out: Vec<Value> = Vec::new();
    let mut i: usize = 0;
    while i < n
        invariant
            0 <= i <= n,
            n == a@.len(),
            out@.len() == i,
            forall|j: int| 0 <= j < i ==> (#[trigger] out@[j])@ == a@[j]@,
        decreases n - i,
    {
        out.push(a[i].deep_clone());
        i = i + 1;
    }
    out
}

impl Object {
    /// The value stored under key `k`, if any.
    pub open spec fn spec_get(&self, k: Seq<char>) -> Option<SpecValue> {
        slookup(self@, k)
    }

    /// Whether some entry has key `k`.
    pub open spec fn spec_contains(&self, k: Seq<char>) -> bool {
        self.spec_get(k) is Some
    }

    /// All keys are distinct.
    pub open spec fn keys_unique(&self) -> bool {
        skeys_unique(self@)
    }

    pub fn new() -> (r: Object)
        ensures
            r@.len() == 0,
            r@ =~= Seq::<(Seq<char>, SpecValue)>::empty(),
            r.keys_unique(),
            forall|k: Seq<char>| !r.spec_contains(k),
    {
        let r = Object { entries: Vec::new() };
        proof {
            assert(r@ =~= Seq::<(Seq<char>, SpecValue)>::empty());
            assert forall|k: Seq<char>| !r.spec_contains(k) by {
                lemma_slookup_none(r@, k);
            }
        }
        r
    }

    pub fn len(&self) -> (n: usize)
        ensures
            n == self@.len(),
    {
        self.entries.len()
    }

    /// A structurally equal copy of the object.
    pub fn deep_clone(&self) -> (r: Object)
        ensures
            r@ == self@,
        decreases self,
    {
        let r = Object { entries: clone_entries(&self.entries) };
        proof {
            assert(r@ =~= self@);
        }
        r
    }

    /// The index of the first entry with key `k`, if any.
    fn index_of(&self, k: &str) -> (r: Option<usize>)
        ensures
            match r {
                Some(i) => i < self@.len() && self@[i as int].0 == k@ && forall|j: int|
                    0 <= j < i ==> self@[j].0 != k@,
                None => forall|j: int| 0 <= j < self@.len() ==> self@[j].0 != k@,
            },
    {
        let mut i: usize = 0;
        let n = self.entries.len();
        while i < n
            invariant
                0 <= i <= n,
                n == self.entries@.len(),
                forall|j: int| 0 <= j < i ==> self@[j].0 != k@,
            decreases n - i,
        {
            if crate::text::str_eq(self.entries[i].0.as_str(), k) {
                return Some(i);
            }
            i = i + 1;
        }
        None
    }

    pub fn contains_key(&self, k: &str) -> (r: bool)
        ensures
            r == self.spec_contains(k@),
    {
        let idx = self.index_of(k);
        proof {
            match idx {
                Some(i) => {
                    lemma_slookup_skip(self@, k@, i as int);
                    assert(self@.skip(i as int)[0] == self@[i as int]);
                },
                None => {
                    lemma_slookup_skip(self@, k@, self@.len() as int);
                },
            }
        }
        idx.is_some()
    }

    pub fn get(&self, k: &str) -> (r: Option<&Value>)
        ensures
            match r {
                Some(v) => self.spec_get(k@) == Some(v@),
                None => self.spec_get(k@) is None,
            },
    {
        let idx = self.index_of(k);
        proof {
            match idx {
                Some(i) => {
                    lemma_slookup_skip(self@, k@, i as int);
                    assert(self@.skip(i as int)[0] == self@[i as int]);
                },
                None => {
                    lemma_slookup_skip(self@, k@, self@.len() as int);
                },
            }
        }
        match idx {
            Some(i) => Some(&self.entries[i].1),
            None => None,
        }
    }

    /// Stores `v` under `k`: replaces the value of an existing entry,
    /// otherwise appends a new entry at the end.
    pub fn insert(&mut self, k: String, v: Value)
        ensures
            final(self).spec_get(k@) == Some(v@),
            forall|k2: Seq<char>| k2 != k@ ==> final(self).spec_get(k2) == old(self).spec_get(k2),
            old(self).keys_unique() ==> final(self).keys_unique(),
            final(self)@.len() == old(self)@.len() + (if old(self).spec_contains(k@) {
                0int
            } else {
                1int
            }),
    {
        let idx = self.index_of(k.as_str());
        proof {
            match idx {
                Some(i) => {
                    lemma_slookup_skip(self@, k@, i as int);
                    assert(self@.skip(i as int)[0] == self@[i as int]);
                },
                None => {
                    lemma_slookup_skip(self@, k@, self@.len() as int);
                },
            }
        }
        let ghost vold = self@;
        match idx {
            Some(i) => {
                self.entries.set(i, (k, v));
                proof {
                    let ghost i = i as int;
                    let ghost vnew = self@;
                    assert(vnew =~= vold.update(i, (k@, v@)));
                    lemma_slookup_skip(vnew, k@, i);
                    assert(vnew.skip(i)[0] == vnew[i]);
                    assert forall|k2: Seq<char>| k2 != k@ implies slookup(vnew, k2) == slookup(
                        vold,
                        k2,
                    ) by {
                        lemma_slookup_agree_update(vold, vnew, k2, i);
                    }
                }
            },
            None => {
                self.entries.push((k, v));
                proof {
                    let ghost vnew = self@;
                    assert(vnew =~= vold.push((k@, v@)));
                    lemma_slookup_skip(vnew, k@, vold.len() as int);
                    assert(vnew.skip(vold.len() as int)[0] == vnew[vold.len() as int]);
                    assert forall|k2: Seq<char>| k2 != k@ implies slookup(vnew, k2) == slookup(
                        vold,
                        k2,
                    ) by {
                        lemma_slookup_push(vold, vnew, k2);
                    }
                    lemma_slookup_none(vold, k@);
                }
            },
        }
    }

    /// Removes the entry under `k`, returning its value if it was present.
    pub fn remove(&mut self, k: &str) -> (r: Option<Value>)
        ensures
            match r {
                Some(v) => old(self).spec_get(k@) == Some(v@),
                None => old(self).spec_get(k@) is None,
            },
            old(self).keys_unique() ==> final(self).spec_get(k@) is None,
            old(self).keys_unique() ==> forall|k2: Seq<char>|
                k2 != k@ ==> final(self).spec_get(k2) == old(self).spec_get(k2),
            old(self).keys_unique() ==> final(self).keys_unique(),
            final(self)@.len() == old(self)@.len() - (if old(self).spec_contains(k@) {
                1int
            } else {
                0int
            }),
    {
        let idx = self.index_of(k);
        proof {
            match idx {
                Some(i) => {
                    lemma_slookup_skip(self@, k@, i as int);
                    assert(self@.skip(i as int)[0] == self@[i as int]);
                },
                None => {
                    lemma_slookup_skip(self@, k@, self@.len() as int);
                },
            }
        }
        let ghost vold = self@;
        match idx {
            Some(i) => {
                let pair = self.entries.remove(i);
                proof {
                    let ghost i = i as int;
                    let ghost vnew = self@;
                    assert(vnew =~= vold.remove(i));
                    if old(self).keys_unique() {
                        assert forall|k2: Seq<char>| k2 != k@ implies slookup(vnew, k2) == slookup(
                            vold,
                            k2,
                        ) by {
                            lemma_slookup_agree_remove(vold, vnew, k2, i);
                        }
                        assert forall|j: int| 0 <= j < vnew.len() implies vnew[j].0 != k@ by {
                            if j < i {
                            } else {
                                assert(vnew[j] == vold[j + 1]);
                            }
                        }
                        lemma_slookup_none(vnew, k@);
                    }
                }
                Some(pair.1)
            },
            None => {
                proof {
                    lemma_slookup_none(self@, k@);
                }
                None
            },
        }
    }
}

} // verus!
