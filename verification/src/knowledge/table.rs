//! A table of knowledge-base entries keyed by label.
//!
//! Inserting an entry whose label is already present replaces the old
//! entry, so a label maps to the entry inserted last.

use vstd::prelude::*;
use crate::knowledge::entry::{entry_fits, Entry, EntryV, Kind};
use crate::text::str_eq;

verus! {

/// No two entries share a label.
pub open spec fn labels_distinct(s: Seq<Entry>) -> bool {
    forall|i: int, j: int| 0 <= i < j < s.len() ==> (#[trigger] s[i]).label@ != (#[trigger] s[j]).label@
}

/// The label-to-entry map of a sequence of entries (a later entry wins).
pub open spec fn map_of(s: Seq<Entry>) -> Map<Seq<char>, Entry>
    decreases s.len(),
{
    if s.len() == 0 {
        Map::empty()
    } else {
        map_of(s.drop_last()).insert(s.last().label@, s.last())
    }
}

/// A table of entries of one kind, keyed by label.
pub struct Table {
    kind: Kind,
    entries: Vec<Entry>,
}

impl View for Table {
    type V = Map<Seq<char>, Entry>;

    open spec fn view(&self) -> Map<Seq<char>, Entry> {
        map_of(self.entry_seq())
    }
}

proof fn lemma_map_of_dom(s: Seq<Entry>)
    ensures
        forall|l: Seq<char>|
            #[trigger] map_of(s).dom().contains(l) <==> exists|i: int| 0 <= i < s.len() && (#[trigger] s[i]).label@ == l,
    decreases s.len(),
{
    if s.len() > 0 {
        let d = s.drop_last();
        lemma_map_of_dom(d);
        assert forall|l: Seq<char>|
            #[trigger] map_of(s).dom().contains(l) <==> exists|i: int| 0 <= i < s.len() && (#[trigger] s[i]).label@ == l by {
            if map_of(s).dom().contains(l) {
                if l == s.last().label@ {
                    assert(s[s.len() - 1].label@ == l);
                } else {
                    assert(map_of(d).dom().contains(l));
                    let i = choose|i: int| 0 <= i < d.len() && (#[trigger] d[i]).label@ == l;
                    assert(s[i] == d[i]);
                }
            }
            if exists|i: int| 0 <= i < s.len() && (#[trigger] s[i]).label@ == l {
                let i = choose|i: int| 0 <= i < s.len() && (#[trigger] s[i]).label@ == l;
                if i < s.len() - 1 {
                    assert(d[i] == s[i]);
                    assert(map_of(d).dom().contains(l));
                }
            }
        }
    }
}

proof fn lemma_map_of_value(s: Seq<Entry>, i: int)
    requires
        labels_distinct(s),
        0 <= i < s.len(),
    ensures
        map_of(s).dom().contains(s[i].label@),
        map_of(s)[s[i].label@] == s[i],
    decreases s.len(),
{
    let d = s.drop_last();
    if i < s.len() - 1 {
        assert(labels_distinct(d)) by {
            assert forall|a: int, b: int| 0 <= a < b < d.len() implies (#[trigger] d[a]).label@ != (#[trigger] d[b]).label@ by {
                assert(d[a] == s[a] && d[b] == s[b]);
            }
        }
        assert(d[i] == s[i]);
        lemma_map_of_value(d, i);
        assert(s[i].label@ != s[s.len() - 1].label@);
    }
}

proof fn lemma_map_of_update(s: Seq<Entry>, i: int, e: Entry)
    requires
        labels_distinct(s),
        0 <= i < s.len(),
        s[i].label@ == e.label@,
    ensures
        labels_distinct(s.update(i, e)),
        map_of(s.update(i, e)) == map_of(s).insert(e.label@, e),
{
    let u = s.update(i, e);
    assert(labels_distinct(u)) by {
        assert forall|a: int, b: int| 0 <= a < b < u.len() implies (#[trigger] u[a]).label@ != (#[trigger] u[b]).label@ by {
            assert(u[a].label@ == s[a].label@ && u[b].label@ == s[b].label@);
        }
    }
    lemma_map_of_dom(s);
    lemma_map_of_dom(u);
    lemma_map_of_value(s, i);
    lemma_map_of_value(u, i);
    let m1 = map_of(u);
    let m2 = map_of(s).insert(e.label@, e);
    assert forall|l: Seq<char>| #[trigger] m1.dom().contains(l) <==> m2.dom().contains(l) by {
        if m1.dom().contains(l) {
            let j = choose|j: int| 0 <= j < u.len() && (#[trigger] u[j]).label@ == l;
            assert(s[j].label@ == l);
        }
        if map_of(s).dom().contains(l) {
            let j = choose|j: int| 0 <= j < s.len() && (#[trigger] s[j]).label@ == l;
            assert(u[j].label@ == l);
        }
    }
    assert forall|l: Seq<char>| #[trigger] m1.dom().contains(l) implies m1[l] == m2[l] by {
        let j = choose|j: int| 0 <= j < u.len() && (#[trigger] u[j]).label@ == l;
        if j == i {
        } else {
            lemma_map_of_value(u, j);
            lemma_map_of_value(s, j);
            assert(u[j] == s[j]);
        }
    }
    assert(m1 =~= m2);
}

impl Table {
    /// The entries, in the order in which their labels were first inserted.
    pub closed spec fn entry_seq(&self) -> Seq<Entry> {
        self.entries@
    }

    /// What the table holds, as plain values: each label's entry.
    pub open spec fn contents(&self) -> Map<Seq<char>, EntryV> {
        self@.map_values(|e: Entry| e@)
    }

    /// The kind of every entry of the table.
    pub closed spec fn table_kind(&self) -> Kind {
        self.kind
    }

    /// Labels are distinct and every entry fits the table's kind.
    pub open spec fn wf(&self) -> bool {
        &&& labels_distinct(self.entry_seq())
        &&& forall|i: int| 0 <= i < self.entry_seq().len() ==> entry_fits(#[trigger] self.entry_seq()[i], self.table_kind())
    }

    /// An empty table for entries of kind `kind`.
    pub fn new(kind: Kind) -> (t: Table)
        ensures
            t.wf(),
            t.table_kind() == kind,
            t@ == Map::<Seq<char>, Entry>::empty(),
            t.contents() == Map::<Seq<char>, EntryV>::empty(),
    {
        let t = Table { kind, entries: Vec::new() };
        assert(t.contents() =~= Map::<Seq<char>, EntryV>::empty());
        t
    }

    /// The kind of every entry of the table.
    pub fn kind(&self) -> (k: Kind)
        ensures
            k == self.table_kind(),
    {
        self.kind
    }

    /// The number of entries (one per distinct label).
    pub fn len(&self) -> (n: usize)
        ensures
            n == self.entry_seq().len(),
    {
        self.entries.len()
    }

    /// The entries, in the order in which their labels were first inserted.
    pub fn entries(&self) -> (v: &Vec<Entry>)
        ensures
            v@ == self.entry_seq(),
    {
        &self.entries
    }

    /// The position of the entry labelled `label`, if any.
    fn position(&self, label: &str) -> (r: Option<usize>)
        ensures
            match r {
                Some(i) => i < self.entry_seq().len() && self.entry_seq()[i as int].label@ == label@,
                None => forall|i: int| 0 <= i < self.entry_seq().len() ==> (#[trigger] self.entry_seq()[i]).label@ != label@,
            },
    {
        let mut i: usize = 0;
        while i < self.entries.len()
            invariant
                0 <= i <= self.entries.len(),
                forall|j: int| 0 <= j < i ==> (#[trigger] self.entries@[j]).label@ != label@,
            decreases self.entries.len() - i,
        {
            if str_eq(self.entries[i].label, label) {
                return Some(i);
            }
            i += 1;
        }
        None
    }

    /// Inserts `e` under its label, replacing an entry with the same label.
    pub fn insert(&mut self, e: Entry)
        requires
            old(self).wf(),
            entry_fits(e, old(self).table_kind()),
        ensures
            final(self).wf(),
            final(self).table_kind() == old(self).table_kind(),
            final(self)@ == old(self)@.insert(e.label@, e),
            final(self).contents() == old(self).contents().insert(e.label@, e@),
    {
        let ghost s = self.entries@;
        match self.position(e.label) {
            Some(i) => {
                proof {
                    lemma_map_of_update(s, i as int, e);
                }
                self.entries.set(i, e);
            },
            None => {
                self.entries.push(e);
                assert(self.entries@.drop_last() =~= s);
            },
        }
        assert(self.contents() =~= old(self).contents().insert(e.label@, e@));
    }

    /// Whether an entry is labelled `label`.
    pub fn contains_key(&self, label: &str) -> (r: bool)
        requires
            self.wf(),
        ensures
            r == self@.contains_key(label@),
    {
        proof {
            lemma_map_of_dom(self.entry_seq());
        }
        self.position(label).is_some()
    }

    /// The entry labelled `label`, if any.
    pub fn get(&self, label: &str) -> (r: Option<&Entry>)
        requires
            self.wf(),
        ensures
            match r {
                Some(e) => self@.contains_key(label@) && *e == self@[label@],
                None => !self@.contains_key(label@),
            },
    {
        proof {
            lemma_map_of_dom(self.entry_seq());
        }
        match self.position(label) {
            Some(i) => {
                proof {
                    lemma_map_of_value(self.entry_seq(), i as int);
                }
                Some(&self.entries[i])
            },
            None => None,
        }
    }

    /// The entry labelled `label`, taken out of the table.
    pub fn into_entry(self, label: &str) -> (r: Option<Entry>)
        requires
            self.wf(),
        ensures
            match r {
                Some(e) => self@.contains_key(label@) && e == self@[label@],
                None => !self@.contains_key(label@),
            },
    {
        proof {
            lemma_map_of_dom(self.entry_seq());
        }
        match self.position(label) {
            Some(i) => {
                proof {
                    lemma_map_of_value(self.entry_seq(), i as int);
                }
                let mut entries = self.entries;
                Some(entries.swap_remove(i))
            },
            None => None,
        }
    }
}

/// Every entry of a well-formed table is stored under its own label and
/// fits the table's kind.
pub proof fn law_table_entries_fit(t: &Table)
    requires
        t.wf(),
    ensures
        forall|l: Seq<char>|
            #[trigger] t@.contains_key(l) ==> t@[l].label@ == l && entry_fits(t@[l], t.table_kind()),
{
    lemma_map_of_dom(t.entry_seq());
    assert forall|l: Seq<char>| #[trigger] t@.contains_key(l) implies t@[l].label@ == l && entry_fits(
        t@[l],
        t.table_kind(),
    ) by {
        let i = choose|i: int| 0 <= i < t.entry_seq().len() && (#[trigger] t.entry_seq()[i]).label@ == l;
        lemma_map_of_value(t.entry_seq(), i);
    }
}

/// A table holds one entry per label: its entries are exactly the values of its map.
pub proof fn law_table_one_entry_per_label(t: &Table)
    requires
        t.wf(),
    ensures
        t@.dom().len() == t.entry_seq().len(),
{
    lemma_dom_len(t.entry_seq());
}

proof fn lemma_dom_len(s: Seq<Entry>)
    requires
        labels_distinct(s),
    ensures
        map_of(s).dom().finite(),
        map_of(s).dom().len() == s.len(),
    decreases s.len(),
{
    if s.len() > 0 {
        let d = s.drop_last();
        assert(labels_distinct(d)) by {
            assert forall|a: int, b: int| 0 <= a < b < d.len() implies (#[trigger] d[a]).label@ != (#[trigger] d[b]).label@ by {
                assert(d[a] == s[a] && d[b] == s[b]);
            }
        }
        lemma_dom_len(d);
        lemma_map_of_dom(d);
        if map_of(d).dom().contains(s.last().label@) {
            let i = choose|i: int| 0 <= i < d.len() && (#[trigger] d[i]).label@ == s.last().label@;
            assert(s[i] == d[i]);
            assert(false);
        }
    }
}

} // verus!
