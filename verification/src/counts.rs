//! Per-label counters of consecutive events.
use vstd::prelude::*;

verus! {

/// What an association list stores under `label`: the first entry wins.
pub open spec fn lookup(entries: Seq<(&'static str, u8)>, label: Seq<char>) -> Option<u8>
    decreases entries.len(),
{
    if entries.len() == 0 {
        None
    } else if entries[0].0@ == label {
        Some(entries[0].1)
    } else {
        lookup(entries.skip(1), label)
    }
}

/// A small map from field labels to counters.
#[derive(Clone, Debug)]
pub struct LabelCounts {
    entries: Vec<(&'static str, u8)>,
}

impl View for LabelCounts {
    type V = Map<Seq<char>, u8>;

    closed spec fn view(&self) -> Map<Seq<char>, u8> {
        Map::new(
            |label: Seq<char>| lookup(self.entries@, label) is Some,
            |label: Seq<char>| lookup(self.entries@, label)->0,
        )
    }
}

/// The counter stored under `label`, if there is one.
pub open spec fn counted(counts: Map<Seq<char>, u8>, label: Seq<char>) -> Option<u8> {
    if counts.dom().contains(label) {
        Some(counts[label])
    } else {
        None
    }
}

/// Whether two strings hold the same characters.
pub fn same_text(a: &str, b: &str) -> (r: bool)
    ensures
        r == (a@ == b@),
{
    a.to_owned() == b.to_owned()
}

proof fn lemma_lookup_prefix(entries: Seq<(&'static str, u8)>, n: int, label: Seq<char>)
    requires
        0 <= n <= entries.len(),
        forall|i: int| 0 <= i < n ==> (#[trigger] entries[i]).0@ != label,
    ensures
        lookup(entries, label) == lookup(entries.skip(n), label),
    decreases n,
{
    if n == 0 {
        assert(entries.skip(0) =~= entries);
    } else {
        assert(entries[0].0@ != label);
        let rest = entries.skip(1);
        assert forall|i: int| 0 <= i < n - 1 implies (#[trigger] rest[i]).0@ != label by {
            assert(rest[i] == entries[i + 1]);
        }
        lemma_lookup_prefix(rest, n - 1, label);
        assert(rest.skip(n - 1) =~= entries.skip(n));
    }
}

proof fn lemma_lookup_update(
    entries: Seq<(&'static str, u8)>,
    at: int,
    value: u8,
    label: Seq<char>,
)
    requires
        0 <= at < entries.len(),
        forall|i: int| 0 <= i < at ==> (#[trigger] entries[i]).0@ != entries[at].0@,
    ensures
        lookup(entries.update(at, (entries[at].0, value)), label) == if label == entries[at].0@ {
            Some(value)
        } else {
            lookup(entries, label)
        },
    decreases at,
{
    let updated = entries.update(at, (entries[at].0, value));
    if at == 0 {
        assert(updated.skip(1) =~= entries.skip(1));
    } else {
        let rest = entries.skip(1);
        assert forall|i: int| 0 <= i < at - 1 implies (#[trigger] rest[i]).0@ != rest[at
            - 1].0@ by {
            assert(rest[i] == entries[i + 1]);
        }
        assert(entries[0].0@ != entries[at].0@);
        lemma_lookup_update(rest, at - 1, value, label);
        assert(updated.skip(1) =~= rest.update(at - 1, (rest[at - 1].0, value)));
    }
}

proof fn lemma_lookup_push(
    entries: Seq<(&'static str, u8)>,
    entry: (&'static str, u8),
    label: Seq<char>,
)
    ensures
        lookup(entries.push(entry), label) == if lookup(entries, label) is Some {
            lookup(entries, label)
        } else if entry.0@ == label {
            Some(entry.1)
        } else {
            None
        },
    decreases entries.len(),
{
    if entries.len() == 0 {
        assert(entries.push(entry).skip(1) =~= Seq::<(&'static str, u8)>::empty());
        assert(lookup(entries.push(entry).skip(1), label) is None);
    } else {
        lemma_lookup_push(entries.skip(1), entry, label);
        assert(entries.push(entry).skip(1) =~= entries.skip(1).push(entry));
    }
}

impl Default for LabelCounts {
    fn default() -> (r: LabelCounts)
        ensures
            r@ == Map::<Seq<char>, u8>::empty(),
    {
        let r = LabelCounts { entries: Vec::new() };
        assert(r@ =~= Map::<Seq<char>, u8>::empty());
        r
    }
}

impl LabelCounts {
    /// The position of the entry that decides `label`.
    fn position(&self, label: &str) -> (r: Option<usize>)
        ensures
            match r {
                Some(i) => i < self.entries.len() && self.entries[i as int].0@ == label@ && (
                forall|j: int|
                    0 <= j < i ==> (#[trigger] self.entries[j]).0@ != label@) && lookup(
                    self.entries@,
                    label@,
                ) == Some(self.entries[i as int].1),
                None => lookup(self.entries@, label@) is None,
            },
    {
        let mut i: usize = 0;
        while i < self.entries.len()
            invariant
                i <= self.entries.len(),
                forall|j: int| 0 <= j < i ==> (#[trigger] self.entries[j]).0@ != label@,
            decreases self.entries.len() - i,
        {
            if same_text(self.entries[i].0, label) {
                proof {
                    lemma_lookup_prefix(self.entries@, i as int, label@);
                    assert(self.entries@.skip(i as int)[0] == self.entries@[i as int]);
                }
                return Some(i);
            }
            i += 1;
        }
        proof {
            lemma_lookup_prefix(self.entries@, i as int, label@);
        }
        None
    }

    /// The counter of `label`, or `None` where it was never set or was removed.
    pub fn get(&self, label: &str) -> (r: Option<u8>)
        ensures
            r == counted(self@, label@),
    {
        match self.position(label) {
            Some(i) => Some(self.entries[i].1),
            None => None,
        }
    }

    /// Whether `label` has a counter.
    pub fn contains_key(&self, label: &str) -> (r: bool)
        ensures
            r == self@.dom().contains(label@),
    {
        self.position(label).is_some()
    }

    /// Sets the counter of `label`.
    pub fn insert(&mut self, label: &'static str, value: u8)
        ensures
            final(self)@ == old(self)@.insert(label@, value),
    {
        let ghost before = self.entries@;
        match self.position(label) {
            Some(i) => {
                let name: &'static str = self.entries[i].0;
                self.entries[i] = (name, value);
                proof {
                    assert forall|k: Seq<char>| #[trigger]
                        lookup(self.entries@, k) == if k == label@ {
                            Some(value)
                        } else {
                            lookup(before, k)
                        } by {
                        lemma_lookup_update(before, i as int, value, k);
                    }
                }
            },
            None => {
                self.entries.push((label, value));
                proof {
                    assert forall|k: Seq<char>| #[trigger]
                        lookup(self.entries@, k) == if k == label@ {
                            Some(value)
                        } else {
                            lookup(before, k)
                        } by {
                        lemma_lookup_push(before, (label, value), k);
                    }
                }
            },
        }
        assert(self@ =~= old(self)@.insert(label@, value));
    }

    /// Forgets the counter of `label`.
    pub fn remove(&mut self, label: &str)
        ensures
            final(self)@ == old(self)@.remove(label@),
    {
        let ghost before = self.entries@;
        let mut kept: Vec<(&'static str, u8)> = Vec::new();
        let mut i: usize = 0;
        while i < self.entries.len()
            invariant
                i <= self.entries.len(),
                self.entries@ == before,
                forall|k: Seq<char>| #[trigger]
                    lookup(kept@, k) == if k == label@ {
                        None
                    } else {
                        lookup(before.take(i as int), k)
                    },
            decreases self.entries.len() - i,
        {
            let entry: (&'static str, u8) = self.entries[i];
            let ghost so_far = kept@;
            if !same_text(entry.0, label) {
                kept.push(entry);
            }
            proof {
                assert(before.take(i + 1) =~= before.take(i as int).push(entry));
                assert forall|k: Seq<char>| #[trigger]
                    lookup(kept@, k) == if k == label@ {
                        None
                    } else {
                        lookup(before.take(i + 1), k)
                    } by {
                    assert(lookup(so_far, k) == if k == label@ {
                        None
                    } else {
                        lookup(before.take(i as int), k)
                    });
                    lemma_lookup_push(before.take(i as int), entry, k);
                    lemma_lookup_push(so_far, entry, k);
                }
            }
            i += 1;
        }
        assert(before.take(i as int) =~= before);
        self.entries = kept;
        assert(self@ =~= old(self)@.remove(label@));
    }
}

} // verus!
