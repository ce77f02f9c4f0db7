//! A small map from tags to values that keeps the order of insertion.
use crate::tag::IdentTag;
use vstd::prelude::*;

verus! {

/// No tag occurs twice in `entries`.
pub open spec fn distinct_tags<V>(entries: Seq<(IdentTag, V)>) -> bool {
    forall|i: int, j: int|
        0 <= i < j < entries.len() ==> (#[trigger] entries[i]).0@ != (#[trigger] entries[j]).0@
}

/// One of `entries` has the tag `tag`.
pub open spec fn has_tag<V>(entries: Seq<(IdentTag, V)>, tag: Seq<char>) -> bool {
    exists|i: int| 0 <= i < entries.len() && (#[trigger] entries[i]).0@ == tag
}

/// A place in `entries` that has the tag `tag`.
pub open spec fn place_of<V>(entries: Seq<(IdentTag, V)>, tag: Seq<char>) -> int {
    choose|i: int| 0 <= i < entries.len() && (#[trigger] entries[i]).0@ == tag
}

/// The map that `entries` stand for.
pub open spec fn map_of<V>(entries: Seq<(IdentTag, V)>) -> Map<Seq<char>, V> {
    Map::new(|tag: Seq<char>| has_tag(entries, tag), |tag: Seq<char>| entries[place_of(entries, tag)].1)
}

/// The entries after `value` has been stored for `tag`: in the place of
/// the entry with the same tag, or else at the end.
pub open spec fn entries_with<V>(entries: Seq<(IdentTag, V)>, tag: IdentTag, value: V) -> Seq<
    (IdentTag, V),
> {
    if has_tag(entries, tag@) {
        let place = place_of(entries, tag@);
        entries.update(place, (entries[place].0, value))
    } else {
        entries.push((tag, value))
    }
}

/// Where no tag occurs twice, the place of a tag is the only place that
/// holds it.
pub proof fn lemma_place_is_unique<V>(entries: Seq<(IdentTag, V)>, index: int)
    requires
        distinct_tags(entries),
        0 <= index < entries.len(),
    ensures
        has_tag(entries, entries[index].0@),
        place_of(entries, entries[index].0@) == index,
        map_of(entries).dom().contains(entries[index].0@),
        map_of(entries)[entries[index].0@] == entries[index].1,
{
    let tag = entries[index].0@;
    let found = place_of(entries, tag);
    if found < index {
        assert(entries[found].0@ != entries[index].0@);
    } else if index < found {
        assert(entries[index].0@ != entries[found].0@);
    }
}

/// Replacing the value at one place stores that value for the tag at that
/// place and changes nothing else.
pub proof fn lemma_map_of_update<V>(entries: Seq<(IdentTag, V)>, index: int, value: V)
    requires
        distinct_tags(entries),
        0 <= index < entries.len(),
    ensures
        distinct_tags(entries.update(index, (entries[index].0, value))),
        map_of(entries.update(index, (entries[index].0, value))) == map_of(entries).insert(
            entries[index].0@,
            value,
        ),
{
    let after = entries.update(index, (entries[index].0, value));
    assert forall|i: int, j: int| 0 <= i < j < after.len() implies (#[trigger] after[i]).0@ != (
    #[trigger] after[j]).0@ by {
        assert(after[i].0 == entries[i].0);
        assert(after[j].0 == entries[j].0);
    }
    assert forall|tag: Seq<char>| has_tag(after, tag) <==> has_tag(entries, tag) by {
        if has_tag(after, tag) {
            let i = place_of(after, tag);
            assert(entries[i].0@ == tag);
        }
        if has_tag(entries, tag) {
            let i = place_of(entries, tag);
            assert(after[i].0@ == tag);
        }
    }
    lemma_place_is_unique(entries, index);
    assert forall|tag: Seq<char>| has_tag(after, tag) implies #[trigger] map_of(after)[tag] == map_of(
        entries,
    ).insert(entries[index].0@, value)[tag] by {
        let i = place_of(after, tag);
        lemma_place_is_unique(after, i);
        lemma_place_is_unique(entries, i);
    }
    assert(map_of(after) =~= map_of(entries).insert(entries[index].0@, value));
}

/// Adding an entry with a new tag stores its value for that tag and changes
/// nothing else.
pub proof fn lemma_map_of_push<V>(entries: Seq<(IdentTag, V)>, tag: IdentTag, value: V)
    requires
        distinct_tags(entries),
        !has_tag(entries, tag@),
    ensures
        distinct_tags(entries.push((tag, value))),
        map_of(entries.push((tag, value))) == map_of(entries).insert(tag@, value),
{
    let after = entries.push((tag, value));
    let last = entries.len() as int;
    assert forall|i: int, j: int| 0 <= i < j < after.len() implies (#[trigger] after[i]).0@ != (
    #[trigger] after[j]).0@ by {
        if j == last {
            assert(entries[i].0@ != tag@);
        } else {
            assert(after[i] == entries[i]);
            assert(after[j] == entries[j]);
        }
    }
    assert forall|other: Seq<char>| has_tag(after, other) <==> (has_tag(entries, other) || other
        == tag@) by {
        if has_tag(after, other) {
            let i = place_of(after, other);
            if i < last {
                assert(entries[i].0@ == other);
            }
        }
        if has_tag(entries, other) {
            let i = place_of(entries, other);
            assert(after[i].0@ == other);
        }
        if other == tag@ {
            assert(after[last].0@ == other);
        }
    }
    assert forall|other: Seq<char>| has_tag(after, other) implies #[trigger] map_of(after)[other]
        == map_of(entries).insert(tag@, value)[other] by {
        let i = place_of(after, other);
        lemma_place_is_unique(after, i);
        if i < last {
            lemma_place_is_unique(entries, i);
        }
    }
    assert(map_of(after) =~= map_of(entries).insert(tag@, value));
}

/// A map keyed by the text of a tag. No tag occurs twice, and the entries
/// stay in the order in which their tags were first inserted.
pub struct TagMap<V> {
    entries: Vec<(IdentTag, V)>,
}

impl<V> View for TagMap<V> {
    type V = Map<Seq<char>, V>;

    open spec fn view(&self) -> Map<Seq<char>, V> {
        map_of(self.entries())
    }
}

impl<V> TagMap<V> {
    /// The entries in the order in which their tags were first inserted.
    pub closed spec fn entries(&self) -> Seq<(IdentTag, V)> {
        self.entries@
    }

    /// No tag occurs twice.
    pub open spec fn wf(&self) -> bool {
        distinct_tags(self.entries())
    }

    /// Creates an empty map.
    pub fn new() -> (map: Self)
        ensures
            map.entries() == Seq::<(IdentTag, V)>::empty(),
            map@ == Map::<Seq<char>, V>::empty(),
            map.wf(),
    {
        let map = TagMap { entries: Vec::new() };
        assert(map@ =~= Map::<Seq<char>, V>::empty());
        map
    }

    /// The number of entries.
    pub fn len(&self) -> (len: usize)
        ensures
            len == self.entries().len(),
    {
        self.entries.len()
    }

    /// The place of the entry for `tag`, if there is one.
    pub fn find(&self, tag: &IdentTag) -> (found: Option<usize>)
        requires
            self.wf(),
        ensures
            found is Some <==> self@.dom().contains(tag@),
            found is Some ==> found->0 < self.entries().len() && self.entries()[found->0 as int].0@
                == tag@ && self@[tag@] == self.entries()[found->0 as int].1,
    {
        let mut i: usize = 0;
        while i < self.entries.len()
            invariant
                i <= self.entries().len(),
                self.wf(),
                forall|j: int| 0 <= j < i ==> (#[trigger] self.entries()[j]).0@ != tag@,
            decreases self.entries.len() - i,
        {
            if self.entries[i].0 == *tag {
                proof {
                    lemma_place_is_unique(self.entries(), i as int);
                }
                return Some(i);
            }
            i += 1;
        }
        None
    }

    /// The tag at place `index`.
    pub fn tag_at(&self, index: usize) -> (tag: IdentTag)
        requires
            index < self.entries().len(),
        ensures
            tag == self.entries()[index as int].0,
    {
        self.entries[index].0
    }

    /// The value at place `index`.
    pub fn value_at(&self, index: usize) -> (value: &V)
        requires
            index < self.entries().len(),
        ensures
            *value == self.entries()[index as int].1,
    {
        &self.entries[index].1
    }

    /// Puts `value` at place `index` and returns the value that was there.
    pub fn replace_at(&mut self, index: usize, value: V) -> (previous: V)
        requires
            old(self).wf(),
            index < old(self).entries().len(),
        ensures
            previous == old(self).entries()[index as int].1,
            final(self).entries() == old(self).entries().update(
                index as int,
                (old(self).entries()[index as int].0, value),
            ),
            final(self)@ == old(self)@.insert(old(self).entries()[index as int].0@, value),
            final(self).wf(),
    {
        let tag = self.entries[index].0;
        // The new entry goes to the end, from where `swap_remove` moves it
        // into the place of the entry that it takes out.
        self.entries.push((tag, value));
        let previous = self.entries.swap_remove(index);
        proof {
            assert(self.entries@ =~= old(self).entries().update(index as int, (tag, value)));
            lemma_map_of_update(old(self).entries(), index as int, value);
        }
        previous.1
    }

    /// Stores `value` for `tag`. A value stored for the same tag before is
    /// overwritten and keeps its place; a new tag goes to the end.
    pub fn insert(&mut self, tag: IdentTag, value: V)
        requires
            old(self).wf(),
        ensures
            final(self).entries() == entries_with(old(self).entries(), tag, value),
            final(self)@ == old(self)@.insert(tag@, value),
            final(self).wf(),
    {
        match self.find(&tag) {
            Some(index) => {
                proof {
                    lemma_place_is_unique(self.entries(), index as int);
                }
                let _ = self.replace_at(index, value);
            },
            None => {
                proof {
                    lemma_map_of_push(self.entries(), tag, value);
                }
                self.entries.push((tag, value));
            },
        }
    }

    /// Stores `value` for a tag that has no entry yet, at the end.
    pub fn push_new(&mut self, tag: IdentTag, value: V)
        requires
            old(self).wf(),
            !old(self)@.dom().contains(tag@),
        ensures
            final(self).entries() == old(self).entries().push((tag, value)),
            final(self)@ == old(self)@.insert(tag@, value),
            final(self).wf(),
    {
        proof {
            lemma_map_of_push(self.entries(), tag, value);
        }
        self.entries.push((tag, value));
    }

    /// Takes the map apart into its entries.
    pub fn into_entries(self) -> (entries: Vec<(IdentTag, V)>)
        ensures
            entries@ == self.entries(),
    {
        self.entries
    }
}

} // verus!
