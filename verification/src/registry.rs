use vstd::prelude::*;

use crate::error::Error;
use crate::splitview::{BasicSplitView, SplitViewState};

verus! {

/// One registered split view, keyed by its label.
#[derive(Debug)]
pub struct Entry {
    pub label: String,
    pub view: BasicSplitView,
}

/// The labels of `entries` are pairwise distinct.
pub open spec fn labels_distinct(entries: Seq<Entry>) -> bool {
    forall|i: int, j: int|
        0 <= i < j < entries.len() ==> entries[i].label@ != entries[j].label@
}

/// The mapping that a sequence of entries represents; on duplicate labels
/// the later entry wins (the store never holds duplicates).
pub open spec fn map_of(entries: Seq<Entry>) -> Map<Seq<char>, SplitViewState>
    decreases entries.len(),
{
    if entries.len() == 0 {
        Map::empty()
    } else {
        map_of(entries.drop_last()).insert(entries.last().label@, entries.last().view@)
    }
}

/// The process-wide registry: a mapping from a window label to the split
/// view derived from that window, with at most one split view per label.
///
/// Entries are created on successful conversion and removed explicitly (or
/// never). Insertion order is irrelevant: the store's meaning is the
/// mapping alone. The host keeps a single store behind one lock; the store
/// itself is plain data.
#[derive(Debug)]
pub struct Store {
    pub entries: Vec<Entry>,
}

impl View for Store {
    type V = Map<Seq<char>, SplitViewState>;

    open spec fn view(&self) -> Map<Seq<char>, SplitViewState> {
        map_of(self.entries@)
    }
}

impl Store {
    /// Validity: no label occurs twice.
    pub open spec fn wf(&self) -> bool {
        labels_distinct(self.entries@)
    }

    /// An empty registry.
    pub fn new() -> (r: Store)
        ensures
            r.wf(),
            r@ == Map::<Seq<char>, SplitViewState>::empty(),
    {
        Store { entries: Vec::new() }
    }
}

impl Default for Store {
    /// The registry starts empty.
    fn default() -> (r: Store)
        ensures
            r.wf(),
            r@ == Map::<Seq<char>, SplitViewState>::empty(),
    {
        Store::new()
    }
}

/// A label is in the represented mapping exactly when some entry bears it.
proof fn lemma_map_of_contains(entries: Seq<Entry>, label: Seq<char>)
    ensures
        map_of(entries).contains_key(label) <==> exists|i: int|
            0 <= i < entries.len() && entries[i].label@ == label,
    decreases entries.len(),
{
    if entries.len() > 0 {
        lemma_map_of_contains(entries.drop_last(), label);
        if entries.last().label@ == label {
            assert(entries[entries.len() - 1].label@ == label);
        } else {
            if exists|i: int| 0 <= i < entries.len() && entries[i].label@ == label {
                let i = choose|i: int| 0 <= i < entries.len() && entries[i].label@ == label;
                assert(entries.drop_last()[i] == entries[i]);
            }
            if exists|i: int|
                0 <= i < entries.drop_last().len() && entries.drop_last()[i].label@ == label {
                let i = choose|i: int|
                    0 <= i < entries.drop_last().len() && entries.drop_last()[i].label@ == label;
                assert(entries[i] == entries.drop_last()[i]);
            }
        }
    }
}

/// Distinctness carries over to a prefix.
proof fn lemma_distinct_drop_last(entries: Seq<Entry>)
    requires
        labels_distinct(entries),
        entries.len() > 0,
    ensures
        labels_distinct(entries.drop_last()),
{
    assert forall|i: int, j: int|
        0 <= i < j < entries.drop_last().len() implies entries.drop_last()[i].label@
        != entries.drop_last()[j].label@ by {
        assert(entries.drop_last()[i] == entries[i]);
        assert(entries.drop_last()[j] == entries[j]);
    }
}

/// With distinct labels, the entry bearing a label gives its mapping value.
proof fn lemma_map_of_index(entries: Seq<Entry>, i: int)
    requires
        labels_distinct(entries),
        0 <= i < entries.len(),
    ensures
        map_of(entries).contains_key(entries[i].label@),
        map_of(entries)[entries[i].label@] == entries[i].view@,
    decreases entries.len(),
{
    if i < entries.len() - 1 {
        lemma_distinct_drop_last(entries);
        lemma_map_of_index(entries.drop_last(), i);
        assert(entries.drop_last()[i] == entries[i]);
    }
}

/// Replacing the entry that bears a label re-points the mapping at that
/// label and touches nothing else.
proof fn lemma_map_of_update(entries: Seq<Entry>, i: int, e: Entry)
    requires
        labels_distinct(entries),
        0 <= i < entries.len(),
        e.label@ == entries[i].label@,
    ensures
        map_of(entries.update(i, e)) == map_of(entries).insert(e.label@, e.view@),
    decreases entries.len(),
{
    let s2 = entries.update(i, e);
    if i == entries.len() - 1 {
        assert(s2.drop_last() =~= entries.drop_last());
        assert(s2.last() == e);
        assert(map_of(entries).insert(e.label@, e.view@) =~= map_of(entries.drop_last()).insert(
            e.label@,
            e.view@,
        ));
    } else {
        lemma_distinct_drop_last(entries);
        lemma_map_of_update(entries.drop_last(), i, e);
        assert(entries.drop_last()[i] == entries[i]);
        assert(s2.drop_last() =~= entries.drop_last().update(i, e));
        assert(s2.last() == entries.last());
        assert(entries.last().label@ != e.label@);
        assert(map_of(entries.drop_last()).insert(e.label@, e.view@).insert(
            entries.last().label@,
            entries.last().view@,
        ) =~= map_of(entries.drop_last()).insert(entries.last().label@, entries.last().view@).insert(
            e.label@,
            e.view@,
        ));
    }
}

/// Appending an entry with a fresh label inserts its mapping.
proof fn lemma_map_of_push(entries: Seq<Entry>, e: Entry)
    ensures
        map_of(entries.push(e)) == map_of(entries).insert(e.label@, e.view@),
{
    assert(entries.push(e).drop_last() =~= entries);
    assert(entries.push(e).last() == e);
}

/// Removing the entry that bears a label removes exactly that mapping.
proof fn lemma_map_of_remove(entries: Seq<Entry>, i: int)
    requires
        labels_distinct(entries),
        0 <= i < entries.len(),
    ensures
        map_of(entries.remove(i)) == map_of(entries).remove(entries[i].label@),
    decreases entries.len(),
{
    let l = entries[i].label@;
    entries.remove_ensures(i);
    if i == entries.len() - 1 {
        assert(entries.remove(i) =~= entries.drop_last());
        lemma_map_of_contains(entries.drop_last(), l);
        assert forall|k: int|
            0 <= k < entries.drop_last().len() implies entries.drop_last()[k].label@ != l by {
            assert(entries.drop_last()[k] == entries[k]);
        }
        assert(!map_of(entries.drop_last()).contains_key(l));
        assert(map_of(entries).remove(l) =~= map_of(entries.drop_last()));
    } else {
        lemma_distinct_drop_last(entries);
        lemma_map_of_remove(entries.drop_last(), i);
        assert(entries.drop_last()[i] == entries[i]);
        assert(entries.remove(i).drop_last() =~= entries.drop_last().remove(i));
        assert(entries.remove(i).last() == entries.last());
        assert(entries.last().label@ != l);
        assert(map_of(entries.drop_last()).remove(l).insert(
            entries.last().label@,
            entries.last().view@,
        ) =~= map_of(entries.drop_last()).insert(entries.last().label@, entries.last().view@).remove(
            l,
        ));
    }
}

impl Store {
    /// Insert or overwrite the mapping for `label`. Always succeeds;
    /// overwriting drops the store's previous split view for that label.
    pub fn register(&mut self, label: String, view: BasicSplitView)
        requires
            old(self).wf(),
        ensures
            final(self).wf(),
            final(self)@ == old(self)@.insert(label@, view@),
    {
        let ghost orig = self.entries@;
        let n = self.entries.len();
        let mut i: usize = 0;
        while i < n
            invariant
                i <= n,
                n == self.entries@.len(),
                self.entries@ == orig,
                orig == old(self).entries@,
                labels_distinct(orig),
                forall|k: int| 0 <= k < i ==> orig[k].label@ != label@,
            decreases n - i,
        {
            if self.entries[i].label == label {
                proof {
                    lemma_map_of_update(orig, i as int, Entry { label, view });
                }
                self.entries[i] = Entry { label, view };
                assert(labels_distinct(self.entries@));
                return ;
            }
            i += 1;
        }
        proof {
            lemma_map_of_push(orig, Entry { label, view });
        }
        self.entries.push(Entry { label, view });
        assert forall|a: int, b: int|
            0 <= a < b < self.entries@.len() implies self.entries@[a].label@
            != self.entries@[b].label@ by {
            if b < orig.len() {
                assert(self.entries@[a] == orig[a]);
                assert(self.entries@[b] == orig[b]);
            } else {
                assert(self.entries@[a] == orig[a]);
            }
        }
    }

    /// The split view registered under `label`, or a typed failure when
    /// the label is unknown.
    pub fn lookup(&self, label: &String) -> (r: Result<&BasicSplitView, Error>)
        requires
            self.wf(),
        ensures
            r is Ok <==> self@.contains_key(label@),
            r matches Ok(v) ==> self@.contains_key(label@) && v@ == self@[label@],
            r matches Err(e) ==> e == Error::SplitViewNotFound,
    {
        let n = self.entries.len();
        let mut i: usize = 0;
        while i < n
            invariant
                i <= n,
                n == self.entries@.len(),
                self.wf(),
                forall|k: int| 0 <= k < i ==> self.entries@[k].label@ != label@,
            decreases n - i,
        {
            if self.entries[i].label == *label {
                proof {
                    lemma_map_of_index(self.entries@, i as int);
                }
                return Ok(&self.entries[i].view);
            }
            i += 1;
        }
        proof {
            lemma_map_of_contains(self.entries@, label@);
        }
        Err(Error::SplitViewNotFound)
    }

    /// Remove and return the split view registered under `label`, or
    /// absent if the label is unknown.
    pub fn remove(&mut self, label: &String) -> (r: Option<BasicSplitView>)
        requires
            old(self).wf(),
        ensures
            final(self).wf(),
            final(self)@ == old(self)@.remove(label@),
            r is Some <==> old(self)@.contains_key(label@),
            r matches Some(v) ==> v@ == old(self)@[label@],
    {
        let ghost orig = self.entries@;
        let n = self.entries.len();
        let mut i: usize = 0;
        while i < n
            invariant
                i <= n,
                n == self.entries@.len(),
                self.entries@ == orig,
                orig == old(self).entries@,
                labels_distinct(orig),
                forall|k: int| 0 <= k < i ==> orig[k].label@ != label@,
            decreases n - i,
        {
            if self.entries[i].label == *label {
                proof {
                    lemma_map_of_index(orig, i as int);
                    lemma_map_of_remove(orig, i as int);
                    orig.remove_ensures(i as int);
                }
                let e = self.entries.remove(i);
                assert forall|a: int, b: int|
                    0 <= a < b < self.entries@.len() implies self.entries@[a].label@
                    != self.entries@[b].label@ by {
                    if b < i {
                    } else if a < i {
                        assert(self.entries@[a] == orig[a]);
                        assert(self.entries@[b] == orig[b + 1]);
                    } else {
                        assert(self.entries@[a] == orig[a + 1]);
                        assert(self.entries@[b] == orig[b + 1]);
                    }
                }
                return Some(e.view);
            }
            i += 1;
        }
        proof {
            lemma_map_of_contains(orig, label@);
            assert(map_of(orig).remove(label@) =~= map_of(orig));
        }
        None
    }
}

/// Registering a split view under a label and then looking that label up
/// yields exactly the registered split view.
pub proof fn lemma_register_then_lookup(
    m: Map<Seq<char>, SplitViewState>,
    label: Seq<char>,
    view: SplitViewState,
)
    ensures
        m.insert(label, view).contains_key(label),
        m.insert(label, view)[label] == view,
{
}

/// Registering twice under the same label overwrites: only the second
/// split view remains under that label.
pub proof fn lemma_register_overwrites(
    m: Map<Seq<char>, SplitViewState>,
    label: Seq<char>,
    first: SplitViewState,
    second: SplitViewState,
)
    ensures
        m.insert(label, first).insert(label, second).contains_key(label),
        m.insert(label, first).insert(label, second)[label] == second,
{
}

/// Removing an unregistered label leaves the mapping untouched; after any
/// removal the label is absent, so a subsequent lookup misses.
pub proof fn lemma_remove_semantics(m: Map<Seq<char>, SplitViewState>, label: Seq<char>)
    ensures
        !m.remove(label).contains_key(label),
        !m.contains_key(label) ==> m.remove(label) == m,
{
    if !m.contains_key(label) {
        assert(m.remove(label) =~= m);
    }
}

} // verus!
