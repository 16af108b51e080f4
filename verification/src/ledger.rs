//! The per-day ledger: what was recorded on which date.

use crate::date::{Date, MAX_DAYS, MIN_DAYS};
use std::collections::HashMap;
use vstd::prelude::*;
use vstd::std_specs::iter::IteratorSpec;

verus! {

broadcast use vstd::std_specs::hash::group_hash_axioms;

/// A sparse record of progress, one value per date at most.
///
/// A date without an entry has seen no progress. Entries are found by their
/// exact date only.
#[derive(Debug)]
pub struct Ledger<V> {
    entries: HashMap<i32, V>,
}

impl<V> View for Ledger<V> {
    type V = Map<int, V>;

    /// The ledger as a map from day numbers to values.
    closed spec fn view(&self) -> Map<int, V> {
        Map::new(
            |day: int| i32::MIN <= day <= i32::MAX && self.entries@.contains_key(day as i32),
            |day: int| self.entries@[day as i32],
        )
    }
}

/// The ledger that a list of entries writes, read from first to last: each
/// entry records its value on its date, over what was there.
pub open spec fn ledger_of<V>(entries: Seq<(Date, V)>) -> Map<int, V>
    decreases entries.len(),
{
    if entries.len() == 0 {
        Map::empty()
    } else {
        ledger_of(entries.drop_last()).insert(entries.last().0@, entries.last().1)
    }
}

/// Whether a list of entries lists a ledger: every entry of the list is one
/// of the ledger, and every date of the ledger has an entry in the list.
pub open spec fn lists<V>(entries: Seq<(Date, V)>, ledger: Map<int, V>) -> bool {
    &&& forall|i: int|
        0 <= i < entries.len() ==> ledger.contains_key((#[trigger] entries[i]).0@)
            && ledger[entries[i].0@] == entries[i].1
    &&& forall|day: int|
        ledger.contains_key(day) ==> exists|i: int|
            0 <= i < entries.len() && (#[trigger] entries[i]).0@ == day
}

/// What a part of a listing writes is the ledger as far as that part goes.
proof fn lemma_ledger_of_listing_part<V>(entries: Seq<(Date, V)>, ledger: Map<int, V>, k: int)
    requires
        lists(entries, ledger),
        0 <= k <= entries.len(),
    ensures
        forall|day: int| #[trigger]
            ledger_of(entries.take(k)).contains_key(day) <==> exists|i: int|
                0 <= i < k && (#[trigger] entries[i]).0@ == day,
        forall|day: int| #[trigger]
            ledger_of(entries.take(k)).contains_key(day) ==> ledger_of(entries.take(k))[day]
                == ledger[day],
    decreases k,
{
    if k > 0 {
        lemma_ledger_of_listing_part(entries, ledger, k - 1);
        assert(entries.take(k).drop_last() =~= entries.take(k - 1));
        assert(entries.take(k).last() == entries[k - 1]);
        let before = ledger_of(entries.take(k - 1));
        let now = ledger_of(entries.take(k));
        assert(now == before.insert(entries[k - 1].0@, entries[k - 1].1));
        assert forall|day: int| #[trigger] now.contains_key(day) implies exists|i: int|
            0 <= i < k && (#[trigger] entries[i]).0@ == day by {
            if day == entries[k - 1].0@ {
                assert(entries[k - 1].0@ == day);
            } else {
                assert(before.contains_key(day));
                let i = choose|i: int| 0 <= i < k - 1 && (#[trigger] entries[i]).0@ == day;
                assert(entries[i].0@ == day);
            }
        }
        assert forall|day: int|
            (exists|i: int| 0 <= i < k && (#[trigger] entries[i]).0@ == day) implies #[trigger] now.contains_key(
            day,
        ) by {
            let i = choose|i: int| 0 <= i < k && (#[trigger] entries[i]).0@ == day;
            if i < k - 1 {
                assert(before.contains_key(day));
            }
        }
    } else {
        assert(entries.take(0) =~= Seq::empty());
    }
}

/// A ledger written anew from a listing of its entries is the same ledger,
/// in whatever order the listing goes.
pub proof fn lemma_ledger_of_listing<V>(entries: Seq<(Date, V)>, ledger: Map<int, V>)
    requires
        lists(entries, ledger),
    ensures
        ledger_of(entries) == ledger,
{
    lemma_ledger_of_listing_part(entries, ledger, entries.len() as int);
    assert(entries.take(entries.len() as int) =~= entries);
    assert(ledger_of(entries) =~= ledger);
}

impl<V> Ledger<V> {
    /// Only dates of the calendar carry entries.
    #[verifier::type_invariant]
    closed spec fn keys_are_dates(self) -> bool {
        forall|k: i32| #[trigger] self.entries@.contains_key(k) ==> MIN_DAYS <= k <= MAX_DAYS
    }

    /// A ledger without entries.
    pub fn new() -> (l: Ledger<V>)
        ensures
            l@ == Map::<int, V>::empty(),
    {
        let l = Ledger { entries: HashMap::new() };
        assert(l@ =~= Map::<int, V>::empty());
        l
    }

    /// The value recorded on `date`, if there is one.
    pub fn get(&self, date: Date) -> (r: Option<&V>)
        ensures
            r is Some <==> self@.contains_key(date@),
            r matches Some(v) ==> *v == self@[date@],
    {
        let key = date.days();
        self.entries.get(&key)
    }

    /// Whether `date` has an entry.
    pub fn contains(&self, date: Date) -> (b: bool)
        ensures
            b == self@.contains_key(date@),
    {
        let key = date.days();
        self.entries.contains_key(&key)
    }

    /// Records `val` on `date`, replacing what was there.
    pub fn insert(&mut self, date: Date, val: V)
        ensures
            final(self)@ == old(self)@.insert(date@, val),
    {
        proof {
            use_type_invariant(&*self);
        }
        let key = date.days();
        let mut table: HashMap<i32, V> = HashMap::new();
        std::mem::swap(&mut self.entries, &mut table);
        table.insert(key, val);
        std::mem::swap(&mut self.entries, &mut table);
        assert(self@ =~= old(self)@.insert(date@, val));
    }

    /// Drops the entry of `date`, if there is one.
    pub fn remove(&mut self, date: Date)
        ensures
            final(self)@ == old(self)@.remove(date@),
    {
        proof {
            use_type_invariant(&*self);
        }
        let key = date.days();
        let mut table: HashMap<i32, V> = HashMap::new();
        std::mem::swap(&mut self.entries, &mut table);
        table.remove(&key);
        std::mem::swap(&mut self.entries, &mut table);
        assert(self@ =~= old(self)@.remove(date@));
    }

    /// All entries, each date once, in no particular order.
    pub fn entries(&self) -> (out: Vec<(Date, V)>) where V: Copy
        ensures
            lists(out@, self@),
            out.len() == self@.len(),
            forall|i: int, j: int|
                0 <= i < j < out.len() ==> (#[trigger] out[i]).0@ != (#[trigger] out[j]).0@,
    {
        proof {
            use_type_invariant(self);
            self.lemma_view_matches_entries();
        }
        let mut out: Vec<(Date, V)> = Vec::new();
        for pair in it: self.entries.iter()
            invariant
                self.keys_are_dates(),
                it.seq() == vstd::std_specs::hash::spec_hash_map_iter(&self.entries).remaining(),
                it.seq().no_duplicates(),
                out.len() == it.index(),
                forall|j: int|
                    0 <= j < out.len() ==> (#[trigger] out[j]).0@ == *it.seq()[j].0 && out[j].1
                        == *it.seq()[j].1,
        {
            let (k, v) = pair;
            assert(self.entries@.contains_key(*it.seq()[it.index()].0));
            match Date::from_days(*k) {
                Some(date) => {
                    out.push((date, *v));
                },
                None => {},
            }
        }
        proof {
            let seq = vstd::std_specs::hash::spec_hash_map_iter(&self.entries).remaining();
            assert forall|day: int| self@.contains_key(day) implies exists|i: int|
                0 <= i < out.len() && (#[trigger] out[i]).0@ == day by {
                let k = day as i32;
                assert(self.entries@.contains_key(k));
                assert(seq.contains((&k, &self.entries@[k])));
                let i = choose|i: int| 0 <= i < seq.len() && seq[i] == (&k, &self.entries@[k]);
                assert(out[i].0@ == day);
            }
            assert forall|i: int, j: int| 0 <= i < j < out.len() implies (#[trigger] out[i]).0@
                != (#[trigger] out[j]).0@ by {
                if out[i].0@ == out[j].0@ {
                    assert(*seq[i].0 == *seq[j].0);
                    assert(*seq[i].1 == self.entries@[*seq[i].0]);
                    assert(*seq[j].1 == self.entries@[*seq[j].0]);
                    assert(seq[i] == seq[j]);
                }
            }
        }
        out
    }

    /// The ledger that a list of entries writes; of two entries for one
    /// date the later counts.
    pub fn from_entries(entries: &Vec<(Date, V)>) -> (l: Ledger<V>) where V: Copy
        ensures
            l@ == ledger_of(entries@),
    {
        let mut l: Ledger<V> = Ledger::new();
        let mut i: usize = 0;
        assert(entries@.take(0) =~= Seq::empty());
        while i < entries.len()
            invariant
                i <= entries.len(),
                l@ == ledger_of(entries@.take(i as int)),
            decreases entries.len() - i,
        {
            assert(entries@.take(i + 1).drop_last() =~= entries@.take(i as int));
            l.insert(entries[i].0, entries[i].1);
            i += 1;
        }
        assert(entries@.take(i as int) =~= entries@);
        l
    }

    /// The number of dates with an entry.
    pub fn len(&self) -> (n: usize)
        ensures
            n == self@.len(),
            self@.dom().finite(),
    {
        proof {
            self.lemma_view_matches_entries();
        }
        self.entries.len()
    }

    /// The view has as many entries as the table, and as few.
    proof fn lemma_view_matches_entries(&self)
        ensures
            self@.dom().finite(),
            self@.len() == self.entries@.len(),
    {
        let keys = self.entries@.dom();
        let days = keys.map(|k: i32| k as int);
        assert(self@.dom() =~= days) by {
            assert forall|day: int| self@.dom().contains(day) implies days.contains(day) by {
                assert(keys.contains(day as i32));
                assert((day as i32) as int == day);
            }
        }
        vstd::set_lib::lemma_map_size(keys, days, |k: i32| k as int);
    }
}

} // verus!
