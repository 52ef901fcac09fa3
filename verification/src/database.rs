//! The rolling database that each side of the bookkeeping stores into.

use vstd::prelude::*;

verus! {

/// An append-only store of entries, oldest first, that garbage collection
/// trims from the front.
#[derive(Clone, Debug)]
pub struct Database<T> {
    pub entries: Vec<T>,
}

impl<T> View for Database<T> {
    type V = Seq<T>;

    open spec fn view(&self) -> Seq<T> {
        self.entries@
    }
}

/// What garbage collection leaves of `s`: its newest `threshold` entries,
/// in their order, or all of `s` when it holds no more than that.
pub open spec fn keep_newest<T>(s: Seq<T>, threshold: nat) -> Seq<T> {
    if s.len() > threshold {
        s.subrange(s.len() - threshold, s.len() as int)
    } else {
        s
    }
}

impl<T> Database<T> {
    /// An empty database.
    pub fn new() -> (db: Self)
        ensures
            db@ == Seq::<T>::empty(),
    {
        Database { entries: Vec::new() }
    }

    /// Appends `v` as the newest entry.
    pub fn insert(&mut self, v: T)
        ensures
            final(self)@ == old(self)@.push(v),
    {
        self.entries.push(v);
    }

    /// The number of entries.
    pub fn count(&self) -> (n: usize)
        ensures
            n == self@.len(),
    {
        self.entries.len()
    }

    /// Drops the oldest entries so that at most `threshold` remain.
    pub fn gc(&mut self, threshold: usize)
        ensures
            final(self)@ == keep_newest(old(self)@, threshold as nat),
            final(self)@.len() == if old(self)@.len() > threshold {
                threshold as nat
            } else {
                old(self)@.len()
            },
    {
        if self.entries.len() > threshold {
            let excess = self.entries.len() - threshold;
            let kept = self.entries.split_off(excess);
            self.entries = kept;
        }
    }
}

impl<T> Default for Database<T> {
    fn default() -> (db: Self)
        ensures
            db@ == Seq::<T>::empty(),
    {
        Self::new()
    }
}

/// Collecting garbage twice with one threshold leaves what collecting once
/// does.
pub proof fn lemma_gc_idempotent<T>(s: Seq<T>, threshold: nat)
    ensures
        keep_newest(keep_newest(s, threshold), threshold) == keep_newest(s, threshold),
{
}

/// Collecting with one threshold and then another leaves what collecting
/// once with the smaller of the two does.
pub proof fn lemma_gc_compose<T>(s: Seq<T>, first: nat, second: nat)
    ensures
        keep_newest(keep_newest(s, first), second) == keep_newest(
            s,
            if first < second {
                first
            } else {
                second
            },
        ),
{
    let m = if first < second {
        first
    } else {
        second
    };
    assert(keep_newest(keep_newest(s, first), second) =~= keep_newest(s, m));
}

/// What garbage collection keeps is a suffix of what was there, as long as
/// the threshold allows: every kept entry sits, in the same order, at the
/// end of the old contents, and exactly `min(len, threshold)` entries stay.
pub proof fn lemma_gc_keeps_suffix<T>(s: Seq<T>, threshold: nat)
    ensures
        ({
            let kept = keep_newest(s, threshold);
            &&& kept.len() == if s.len() > threshold {
                threshold as int
            } else {
                s.len() as int
            }
            &&& kept.len() <= threshold || kept == s
            &&& forall|i: int|
                0 <= i < kept.len() ==> #[trigger] kept[i] == s[s.len() - kept.len() + i]
        }),
{
}

/// With room for at least one entry, the entry inserted last survives
/// garbage collection as the newest entry.
pub proof fn lemma_gc_keeps_newest_insert<T>(s: Seq<T>, v: T, threshold: nat)
    requires
        threshold > 0,
    ensures
        keep_newest(s.push(v), threshold).len() > 0,
        keep_newest(s.push(v), threshold).last() == v,
{
}

} // verus!
