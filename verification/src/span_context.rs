//! The trace context that a message header may carry: a flat mapping from
//! string keys to string values, written by one tracing layer and read by
//! the next.

use vstd::prelude::*;

verus! {

/// A mapping from keys to values, held as a list of entries in which no key
/// occurs twice.
#[derive(Debug)]
pub struct SpanContext {
    pub fields: Vec<(String, String)>,
}

/// Whether no key stands at two places of `entries`.
pub open spec fn distinct_keys(entries: Seq<(String, String)>) -> bool {
    forall|i: int, j: int|
        0 <= i < entries.len() && 0 <= j < entries.len() && #[trigger] entries[i].0@
            == #[trigger] entries[j].0@ ==> i == j
}

/// Whether `key` is the key of the entry at `i`.
pub open spec fn key_at(entries: Seq<(String, String)>, i: int, key: Seq<char>) -> bool {
    0 <= i < entries.len() && entries[i].0@ == key
}

/// The mapping that a list of entries stands for.
pub open spec fn mapping_of(entries: Seq<(String, String)>) -> Map<Seq<char>, Seq<char>> {
    Map::new(
        |key: Seq<char>| exists|i: int| key_at(entries, i, key),
        |key: Seq<char>| entries[choose|i: int| key_at(entries, i, key)].1@,
    )
}

/// The value that `key` has once `value` was stored under `changed`.
spec fn value_after_set(
    before: Seq<(String, String)>,
    changed: Seq<char>,
    value: Seq<char>,
    key: Seq<char>,
) -> Seq<char> {
    if key == changed {
        value
    } else {
        mapping_of(before)[key]
    }
}

/// In a list without repeated keys, the entry at `i` gives the value of its key.
pub proof fn lemma_entry_is_mapped(entries: Seq<(String, String)>, i: int)
    requires
        distinct_keys(entries),
        0 <= i < entries.len(),
    ensures
        mapping_of(entries).contains_key(entries[i].0@),
        mapping_of(entries)[entries[i].0@] == entries[i].1@,
{
    let key = entries[i].0@;
    assert(key_at(entries, i, key));
    let j = choose|j: int| key_at(entries, j, key);
    assert(key_at(entries, j, key));
    assert(entries[j].0@ == entries[i].0@);
}

/// Whether no key stands at two places of `entries`.
pub fn has_distinct_keys(entries: &Vec<(String, String)>) -> (distinct: bool)
    ensures
        distinct == distinct_keys(entries@),
{
    let mut i: usize = 0;
    while i < entries.len()
        invariant
            i <= entries.len(),
            forall|a: int, b: int|
                0 <= a < i && 0 <= b < a ==> #[trigger] entries@[a].0@ != #[trigger] entries@[b].0@,
        decreases entries.len() - i,
    {
        let mut j: usize = 0;
        while j < i
            invariant
                j <= i,
                i < entries.len(),
                forall|b: int| 0 <= b < j ==> entries@[i as int].0@ != #[trigger] entries@[b].0@,
            decreases i - j,
        {
            if entries[i].0 == entries[j].0 {
                assert(entries@[i as int].0@ == entries@[j as int].0@);
                return false;
            }
            j += 1;
        }
        i += 1;
    }
    assert forall|a: int, b: int|
        0 <= a < entries@.len() && 0 <= b < entries@.len() && #[trigger] entries@[a].0@
            == #[trigger] entries@[b].0@ implies a == b by {
        if a < b {
            assert(entries@[b].0@ != entries@[a].0@);
        } else if b < a {
            assert(entries@[a].0@ != entries@[b].0@);
        }
    }
    true
}

impl View for SpanContext {
    type V = Map<Seq<char>, Seq<char>>;

    open spec fn view(&self) -> Map<Seq<char>, Seq<char>> {
        mapping_of(self.fields@)
    }
}

impl SpanContext {
    /// No key occurs twice among the entries.
    pub open spec fn wf(&self) -> bool {
        distinct_keys(self.fields@)
    }

    /// A context without entries.
    pub fn new() -> (context: Self)
        ensures
            context.wf(),
            context@ == Map::<Seq<char>, Seq<char>>::empty(),
    {
        let context = SpanContext { fields: Vec::new() };
        assert(context@ =~= Map::<Seq<char>, Seq<char>>::empty());
        context
    }

    /// Whether the context holds no entry.
    pub fn is_empty(&self) -> (empty: bool)
        requires
            self.wf(),
        ensures
            empty == (self@ == Map::<Seq<char>, Seq<char>>::empty()),
    {
        let empty = self.fields.len() == 0;
        proof {
            if empty {
                assert(self@ =~= Map::<Seq<char>, Seq<char>>::empty());
            } else {
                lemma_entry_is_mapped(self.fields@, 0);
            }
        }
        empty
    }

    /// The place of `key` among the entries, if it has one.
    fn position(&self, key: &String) -> (found: Option<usize>)
        ensures
            match found {
                Some(i) => key_at(self.fields@, i as int, key@),
                None => forall|i: int| !key_at(self.fields@, i, key@),
            },
    {
        let mut i: usize = 0;
        while i < self.fields.len()
            invariant
                i <= self.fields.len(),
                forall|j: int| 0 <= j < i ==> !key_at(self.fields@, j, key@),
            decreases self.fields.len() - i,
        {
            if self.fields[i].0 == *key {
                return Some(i);
            }
            i += 1;
        }
        None
    }

    /// Stores `value` under `key`, in place of what the key held before.
    pub fn set(&mut self, key: &str, value: String)
        requires
            old(self).wf(),
        ensures
            final(self).wf(),
            final(self)@ == old(self)@.insert(key@, value@),
    {
        let owned: String = key.to_owned();
        let ghost before = self.fields@;
        match self.position(&owned) {
            Some(i) => {
                self.fields.set(i, (owned, value));
                proof {
                    let after = self.fields@;
                    assert forall|j: int, k: Seq<char>| key_at(after, j, k) <==> key_at(
                        before,
                        j,
                        k,
                    ) by {}
                    assert(distinct_keys(after));
                    assert forall|k: Seq<char>| mapping_of(after).contains_key(k) implies
                        mapping_of(after)[k] == value_after_set(before, key@, value@, k) by {
                        let j = choose|j: int| key_at(after, j, k);
                        lemma_entry_is_mapped(after, j);
                        if k != key@ {
                            lemma_entry_is_mapped(before, j);
                        }
                    }
                    assert(mapping_of(before).contains_key(key@)) by {
                        assert(key_at(before, i as int, key@));
                    }
                    assert(mapping_of(after) =~= mapping_of(before).insert(key@, value@));
                }
            },
            None => {
                self.fields.push((owned, value));
                proof {
                    let after = self.fields@;
                    let last = before.len() as int;
                    assert(key_at(after, last, key@));
                    assert forall|j: int, k: Seq<char>| key_at(after, j, k) <==> (key_at(
                        before,
                        j,
                        k,
                    ) || (j == last && k == key@)) by {}
                    assert forall|a: int, b: int|
                        0 <= a < after.len() && 0 <= b < after.len() && #[trigger] after[a].0@
                            == #[trigger] after[b].0@ implies a == b by {
                        assert(key_at(after, a, after[a].0@));
                        assert(key_at(after, b, after[a].0@));
                        if a < last && b < last {
                            assert(before[a].0@ == before[b].0@);
                        }
                    }
                    assert forall|k: Seq<char>| mapping_of(after).contains_key(k) implies
                        mapping_of(after)[k] == value_after_set(before, key@, value@, k) by {
                        let j = choose|j: int| key_at(after, j, k);
                        lemma_entry_is_mapped(after, j);
                        if k != key@ {
                            lemma_entry_is_mapped(before, j);
                        }
                    }
                    assert(mapping_of(after) =~= mapping_of(before).insert(key@, value@));
                }
            },
        }
    }

    /// The value stored under `key`, if there is one.
    pub fn get(&self, key: &str) -> (value: Option<&str>)
        requires
            self.wf(),
        ensures
            self@.contains_key(key@) <==> value is Some,
            value matches Some(v) ==> v@ == self@[key@],
    {
        let owned: String = key.to_owned();
        match self.position(&owned) {
            Some(i) => {
                proof {
                    lemma_entry_is_mapped(self.fields@, i as int);
                }
                Some(self.fields[i].1.as_str())
            },
            None => None,
        }
    }

    /// The keys of the context, each once.
    pub fn keys(&self) -> (keys: Vec<&str>)
        requires
            self.wf(),
        ensures
            keys@.len() == self.fields@.len(),
            forall|i: int| 0 <= i < keys@.len() ==> (#[trigger] keys@[i])@ == self.fields@[i].0@,
            forall|i: int| 0 <= i < keys@.len() ==> self@.contains_key((#[trigger] keys@[i])@),
            forall|k: Seq<char>|
                self@.contains_key(k) ==> exists|i: int|
                    0 <= i < keys@.len() && (#[trigger] keys@[i])@ == k,
            forall|i: int, j: int|
                0 <= i < keys@.len() && 0 <= j < keys@.len() && (#[trigger] keys@[i])@
                    == (#[trigger] keys@[j])@ ==> i == j,
    {
        let mut keys: Vec<&str> = Vec::new();
        let mut i: usize = 0;
        while i < self.fields.len()
            invariant
                i <= self.fields.len(),
                keys@.len() == i,
                forall|j: int| 0 <= j < i ==> (#[trigger] keys@[j])@ == self.fields@[j].0@,
            decreases self.fields.len() - i,
        {
            keys.push(self.fields[i].0.as_str());
            i += 1;
        }
        proof {
            assert forall|j: int| 0 <= j < keys@.len() implies self@.contains_key(
                (#[trigger] keys@[j])@,
            ) by {
                lemma_entry_is_mapped(self.fields@, j);
            }
            assert forall|k: Seq<char>| self@.contains_key(k) implies exists|j: int|
                0 <= j < keys@.len() && (#[trigger] keys@[j])@ == k by {
                let j = choose|j: int| key_at(self.fields@, j, k);
                assert((keys@[j])@ == k);
            }
        }
        keys
    }
}

} // verus!
