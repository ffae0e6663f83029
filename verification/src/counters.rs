//! Sparse label -> count mappings for one actor's behavior profile.
//!
//! A `Counters` value maps HTTP labels (status codes such as `"404"`, or
//! method names such as `"PUT"`) to occurrence counts. The mapping is
//! sparse: a label that was never recorded counts as zero. Lookups are
//! pure reads and never insert a default entry.

use vstd::prelude::*;
use vstd::string::StringExecFns;

verus! {

/// The mathematical content of a counter list: later entries for the same
/// label overwrite earlier ones, exactly as repeated `insert` calls would.
spec fn map_of(entries: Seq<(String, i64)>) -> Map<Seq<char>, int>
    decreases entries.len(),
{
    if entries.len() == 0 {
        Map::empty()
    } else {
        map_of(entries.drop_last()).insert(entries.last().0@, entries.last().1 as int)
    }
}

/// The count recorded for `label`, or zero when the label is absent.
pub open spec fn counter_or_zero(m: Map<Seq<char>, int>, label: Seq<char>) -> int {
    if m.contains_key(label) {
        m[label]
    } else {
        0
    }
}

/// A sparse mapping from label to non-negative occurrence count.
pub struct Counters {
    entries: Vec<(String, i64)>,
}

impl View for Counters {
    type V = Map<Seq<char>, int>;

    closed spec fn view(&self) -> Map<Seq<char>, int> {
        map_of(self.entries@)
    }
}

impl Counters {
    /// All recorded counts are non-negative.
    pub closed spec fn wf(&self) -> bool {
        forall|i: int| 0 <= i < self.entries@.len() ==> self.entries@[i].1 >= 0
    }

    /// An empty mapping: every label counts as zero.
    pub fn new() -> (r: Counters)
        ensures
            r@ == Map::<Seq<char>, int>::empty(),
            r.wf(),
    {
        Counters { entries: Vec::new() }
    }

    /// Records `count` for `label`, overwriting any earlier count.
    pub fn put(&mut self, label: &str, count: i64)
        requires
            count >= 0,
            old(self).wf(),
        ensures
            final(self)@ == old(self)@.insert(label@, count as int),
            final(self).wf(),
    {
        let key = String::from_str(label);
        self.entries.push((key, count));
        proof {
            assert(self.entries@.drop_last() =~= old(self).entries@);
        }
    }
}

/// The count stored for `label`, or `0` when the label is absent.
///
/// The mapping is only read, never changed: a miss does not insert a
/// zero entry, and the operation is total over any label.
pub fn lookup_or_zero(counters: &Counters, label: &str) -> (r: i64)
    ensures
        r == counter_or_zero(counters@, label@),
{
    let key = String::from_str(label);
    let mut i: usize = counters.entries.len();
    proof {
        assert(counters.entries@.take(i as int) =~= counters.entries@);
    }
    while i > 0
        invariant
            i <= counters.entries@.len(),
            key@ == label@,
            counter_or_zero(counters@, label@) == counter_or_zero(
                map_of(counters.entries@.take(i as int)),
                label@,
            ),
        decreases i,
    {
        i = i - 1;
        assert(counters.entries@.take(i as int + 1).drop_last() =~= counters.entries@.take(
            i as int,
        ));
        assert(counters.entries@.take(i as int + 1).last() == counters.entries@[i as int]);
        if counters.entries[i].0 == key {
            return counters.entries[i].1;
        }
    }
    assert(counters.entries@.take(0) =~= Seq::<(String, i64)>::empty());
    0
}

} // verus!
