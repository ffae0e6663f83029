//! An ordered model of the shared key-value store.
//!
//! The engine records every `SET key value` it decides on in a `Store`;
//! the caller that owns the real store connection replays the recorded
//! writes in order. The model keeps the full write log, so both the
//! sequence of issued writes and the resulting key-value contents
//! (last write wins) are available to contracts.

use vstd::prelude::*;

verus! {

/// The key-value contents that a write log leaves behind: writes are
/// applied in order and a later write to a key overwrites an earlier one.
pub open spec fn store_contents(log: Seq<(Seq<char>, Seq<char>)>) -> Map<Seq<char>, Seq<char>>
    decreases log.len(),
{
    if log.len() == 0 {
        Map::empty()
    } else {
        store_contents(log.drop_last()).insert(log.last().0, log.last().1)
    }
}

/// Appending a write updates the contents like a map insertion.
pub proof fn lemma_contents_push(log: Seq<(Seq<char>, Seq<char>)>, key: Seq<char>, value: Seq<char>)
    ensures
        store_contents(log.push((key, value))) == store_contents(log).insert(key, value),
{
    assert(log.push((key, value)).drop_last() =~= log);
    assert(log.push((key, value)).last() == (key, value));
}

/// Issuing the same write twice in a row leaves the contents exactly as
/// issuing it once: the second write overwrites the first with the same
/// value.
pub proof fn lemma_put_idempotent(log: Seq<(Seq<char>, Seq<char>)>, key: Seq<char>, value: Seq<char>)
    ensures
        store_contents(log.push((key, value)).push((key, value))) == store_contents(
            log.push((key, value)),
        ),
{
    lemma_contents_push(log, key, value);
    lemma_contents_push(log.push((key, value)), key, value);
    assert(store_contents(log).insert(key, value).insert(key, value) =~= store_contents(
        log,
    ).insert(key, value));
}

/// The ordered log of `SET` writes issued during one run.
pub struct Store {
    writes: Vec<(String, String)>,
}

impl View for Store {
    type V = Seq<(Seq<char>, Seq<char>)>;

    closed spec fn view(&self) -> Seq<(Seq<char>, Seq<char>)> {
        Seq::new(self.writes@.len(), |i: int| (self.writes@[i].0@, self.writes@[i].1@))
    }
}

impl Store {
    /// The contents the log leaves behind, last write per key winning.
    pub open spec fn contents(&self) -> Map<Seq<char>, Seq<char>> {
        store_contents(self@)
    }

    /// A store with no writes issued yet.
    pub fn new() -> (r: Store)
        ensures
            r@ == Seq::<(Seq<char>, Seq<char>)>::empty(),
    {
        let r = Store { writes: Vec::new() };
        proof {
            assert(r@ =~= Seq::<(Seq<char>, Seq<char>)>::empty());
        }
        r
    }

    /// Issues `SET key value`: appends the write to the log, creating or
    /// overwriting the key in the resulting contents.
    pub fn put(&mut self, key: String, value: String)
        ensures
            final(self)@ == old(self)@.push((key@, value@)),
            final(self).contents() == old(self).contents().insert(key@, value@),
    {
        proof {
            let ghost pushed = self.writes@.push((key, value));
            assert(Seq::new(pushed.len(), |i: int| (pushed[i].0@, pushed[i].1@)) =~= self@.push(
                (key@, value@),
            ));
            lemma_contents_push(self@, key@, value@);
        }
        self.writes.push((key, value));
    }

    /// The value last written at `key`, or `None` when no write touched it.
    /// A read of the model; the store protocol itself needs only `SET`.
    pub fn get(&self, key: &str) -> (r: Option<String>)
        ensures
            match r {
                Some(v) => self.contents().contains_key(key@) && v@ == self.contents()[key@],
                None => !self.contents().contains_key(key@),
            },
    {
        let wanted = String::from_str(key);
        let mut i: usize = self.writes.len();
        proof {
            assert(self@.take(i as int) =~= self@);
        }
        while i > 0
            invariant
                i <= self.writes@.len(),
                self@.len() == self.writes@.len(),
                wanted@ == key@,
                store_contents(self@).contains_key(key@) == store_contents(
                    self@.take(i as int),
                ).contains_key(key@),
                store_contents(self@).contains_key(key@) ==> store_contents(self@)[key@]
                    == store_contents(self@.take(i as int))[key@],
            decreases i,
        {
            i = i - 1;
            proof {
                assert(self@.take(i as int + 1).drop_last() =~= self@.take(i as int));
                assert(self@.take(i as int + 1).last() == self@[i as int]);
            }
            if self.writes[i].0 == wanted {
                return Some(self.writes[i].1.clone());
            }
        }
        proof {
            assert(self@.take(0) =~= Seq::<(Seq<char>, Seq<char>)>::empty());
        }
        None
    }

    /// The writes issued so far, in order, for replay against the real store.
    pub fn writes(&self) -> (r: &Vec<(String, String)>)
        ensures
            r@.len() == self@.len(),
            forall|i: int|
                0 <= i < r@.len() ==> (#[trigger] r@[i]).0@ == self@[i].0 && r@[i].1@
                    == self@[i].1,
    {
        &self.writes
    }
}

} // verus!
