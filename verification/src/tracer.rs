use vstd::prelude::*;

verus! {

broadcast use {vstd::std_specs::vec::group_vec_axioms, vstd::seq::group_seq_axioms};

/// The sum of a series of samples.
pub open spec fn spec_sum(s: Seq<u64>) -> int
    decreases s.len(),
{
    if s.len() == 0 {
        0
    } else {
        spec_sum(s.drop_last()) + s.last()
    }
}

/// A sample sum is bounded by the count times the largest sample value.
proof fn lemma_sum_bound(s: Seq<u64>)
    ensures
        0 <= spec_sum(s) <= s.len() * (u64::MAX as int),
    decreases s.len(),
{
    if s.len() > 0 {
        lemma_sum_bound(s.drop_last());
        assert(s.len() * (u64::MAX as int) == (s.len() - 1) * (u64::MAX as int) + (
        u64::MAX as int)) by (nonlinear_arith);
    }
}

/// The digest of one recorded series.
pub struct TraceStats {
    pub count: usize,
    pub sum: u128,
    pub avg: u128,
    pub max: u64,
    pub min: u64,
}

/// Collects timing samples under string keys and digests them.
pub struct BenchmarkTracer {
    pub holder: Vec<(String, Vec<u64>)>,
}

impl BenchmarkTracer {
    pub fn new() -> (r: BenchmarkTracer)
        ensures
            r.holder@.len() == 0,
    {
        BenchmarkTracer { holder: Vec::new() }
    }

    /// Records one sample under `key`: the key's series gains the
    /// value at its end, and every sample of every other key stays.
    pub fn add(&mut self, key: &str, value: u64)
        ensures
            exists|i: int|
                0 <= i < final(self).holder@.len() && (#[trigger] final(self).holder@[i]).0@
                    == key@ && final(self).holder@[i].1@.len() > 0
                    && final(self).holder@[i].1@.last() == value,
    {
        let n = self.holder.len();
        let mut i: usize = 0;
        while i < n
            invariant
                0 <= i <= n,
                n == self.holder@.len(),
            decreases n - i,
        {
            if crate::text::str_eq(self.holder[i].0.as_str(), key) {
                let mut entry = self.holder.remove(i);
                entry.1.push(value);
                let ghost done = entry;
                self.holder.push(entry);
                proof {
                    assert(self.holder@.last() == done);
                    assert(self.holder@[self.holder@.len() - 1].0@ == key@);
                }
                return ;
            }
            i = i + 1;
        }
        let mut series: Vec<u64> = Vec::new();
        series.push(value);
        let ghost sg = series;
        self.holder.push((String::from_str(key), series));
        proof {
            assert(self.holder@.last().1 == sg);
            assert(self.holder@[self.holder@.len() - 1].0@ == key@);
        }
    }

    /// Digests every recorded series: for each key, the exact sum,
    /// count, average, maximum and minimum of its samples.
    pub fn summary(&self) -> (r: Vec<(String, TraceStats)>)
        ensures
            r@.len() == self.holder@.len(),
            forall|i: int|
                0 <= i < r@.len() ==> {
                    let src = self.holder@[i];
                    let st = (#[trigger] r@[i]).1;
                    &&& r@[i].0@ == src.0@
                    &&& st.count == src.1@.len()
                    &&& st.sum == spec_sum(src.1@)
                    &&& (src.1@.len() > 0 ==> st.avg == spec_sum(src.1@) / (src.1@.len() as int))
                    &&& (src.1@.len() > 0 ==> (exists|j: int|
                        0 <= j < src.1@.len() && src.1@[j] == st.max) && forall|j: int|
                        0 <= j < src.1@.len() ==> #[trigger] src.1@[j] <= st.max)
                    &&& (src.1@.len() > 0 ==> (exists|j: int|
                        0 <= j < src.1@.len() && src.1@[j] == st.min) && forall|j: int|
                        0 <= j < src.1@.len() ==> #[trigger] src.1@[j] >= st.min)
                },
    {
        let n = self.holder.len();
        let mut out: Vec<(String, TraceStats)> = Vec::new();
        let mut i: usize = 0;
        while i < n
            invariant
                0 <= i <= n,
                n == self.holder@.len(),
                out@.len() == i,
                forall|k: int|
                    0 <= k < i ==> {
                        let src = self.holder@[k];
                        let st = (#[trigger] out@[k]).1;
                        &&& out@[k].0@ == src.0@
                        &&& st.count == src.1@.len()
                        &&& st.sum == spec_sum(src.1@)
                        &&& (src.1@.len() > 0 ==> st.avg == spec_sum(src.1@) / (
                        src.1@.len() as int))
                        &&& (src.1@.len() > 0 ==> (exists|j: int|
                            0 <= j < src.1@.len() && src.1@[j] == st.max) && forall|j: int|
                            0 <= j < src.1@.len() ==> #[trigger] src.1@[j] <= st.max)
                        &&& (src.1@.len() > 0 ==> (exists|j: int|
                            0 <= j < src.1@.len() && src.1@[j] == st.min) && forall|j: int|
                            0 <= j < src.1@.len() ==> #[trigger] src.1@[j] >= st.min)
                    },
            decreases n - i,
        {
            let key = self.holder[i].0.clone();
            let st = stats_of(&self.holder[i].1);
            out.push((key, st));
            i = i + 1;
        }
        out
    }
}

/// Digests one series of samples.
fn stats_of(values: &Vec<u64>) -> (st: TraceStats)
    ensures
        st.count == values@.len(),
        st.sum == spec_sum(values@),
        values@.len() > 0 ==> st.avg == spec_sum(values@) / (values@.len() as int),
        values@.len() > 0 ==> (exists|j: int| 0 <= j < values@.len() && values@[j] == st.max)
            && forall|j: int| 0 <= j < values@.len() ==> #[trigger] values@[j] <= st.max,
        values@.len() > 0 ==> (exists|j: int| 0 <= j < values@.len() && values@[j] == st.min)
            && forall|j: int| 0 <= j < values@.len() ==> #[trigger] values@[j] >= st.min,
{
    let n = values.len();
    let mut sum: u128 = 0;
    let mut max: u64 = 0;
    let mut min: u64 = 0;
    if n > 0 {
        max = values[0];
        min = values[0];
    }
    let mut i: usize = 0;
    while i < n
        invariant
            0 <= i <= n,
            n == values@.len(),
            sum == spec_sum(values@.take(i as int)),
            n > 0 ==> (i == 0 ==> max == values@[0] && min == values@[0]),
            i > 0 ==> (exists|j: int| 0 <= j < i && values@[j] == max) && forall|j: int|
                0 <= j < i ==> #[trigger] values@[j] <= max,
            i > 0 ==> (exists|j: int| 0 <= j < i && values@[j] == min) && forall|j: int|
                0 <= j < i ==> #[trigger] values@[j] >= min,
        decreases n - i,
    {
        let v = values[i];
        proof {
            lemma_sum_bound(values@.take(i as int));
            assert(values@.take(i as int).len() * (u64::MAX as int) <= (u128::MAX as int) - (
            u64::MAX as int)) by (nonlinear_arith)
                requires
                    values@.take(i as int).len() < usize::MAX,
            ;
            assert(values@.take(i + 1).drop_last() =~= values@.take(i as int));
            assert(values@.take(i + 1).last() == values@[i as int]);
        }
        sum = sum + v as u128;
        if i == 0 {
            max = v;
            min = v;
        } else {
            if v > max {
                max = v;
            }
            if v < min {
                min = v;
            }
        }
        i = i + 1;
    }
    proof {
        assert(values@.take(n as int) =~= values@);
    }
    let avg: u128 = if n > 0 {
        sum / (n as u128)
    } else {
        0
    };
    TraceStats { count: n, sum, avg, max, min }
}

} // verus!
