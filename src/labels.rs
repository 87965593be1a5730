use vstd::prelude::*;

verus! {

/// A label and the text stored under it.
pub type EntryView = (Seq<char>, Seq<char>);

/// No label occurs twice in `s`.
pub open spec fn labels_unique(s: Seq<EntryView>) -> bool {
    forall|i: int, j: int| 0 <= i < j < s.len() ==> #[trigger] s[i].0 != #[trigger] s[j].0
}

/// Whether some entry of `s` carries `label`.
pub open spec fn has_label(s: Seq<EntryView>, label: Seq<char>) -> bool {
    exists|i: int| 0 <= i < s.len() && #[trigger] s[i].0 == label
}

/// Position of an entry of `s` that carries `label` (the only one, where
/// labels are unique).
pub open spec fn label_index(s: Seq<EntryView>, label: Seq<char>) -> int {
    choose|i: int| 0 <= i < s.len() && #[trigger] s[i].0 == label
}

/// `s` without the entry that carries `label`.
pub open spec fn without_label(s: Seq<EntryView>, label: Seq<char>) -> Seq<EntryView> {
    if has_label(s, label) {
        s.remove(label_index(s, label))
    } else {
        s
    }
}

/// `s` with the value under `label` replaced by `value`, or, where no entry
/// carries `label`, with the entry added at the end.
pub open spec fn with_value(s: Seq<EntryView>, label: Seq<char>, value: Seq<char>) -> Seq<EntryView> {
    if has_label(s, label) {
        s.update(label_index(s, label), (label, value))
    } else {
        s.push((label, value))
    }
}

/// The view of a list of label/value pairs.
pub open spec fn pairs_view(v: Seq<(String, String)>) -> Seq<EntryView> {
    v.map_values(|e: (String, String)| (e.0@, e.1@))
}

/// A map from labels to texts whose labels are unique, kept in the order in
/// which the labels were first added.
#[derive(Debug, PartialEq, Eq)]
pub struct LabelMap {
    entries: Vec<(String, String)>,
}

/// Errors of a label map.
#[derive(Debug, Clone, Copy, PartialEq, Eq, Structural)]
pub enum LabelError {
    /// The label is already in the map.
    DuplicateLabel,
}

impl View for LabelMap {
    type V = Seq<EntryView>;

    closed spec fn view(&self) -> Seq<EntryView> {
        pairs_view(self.entries@)
    }
}

impl LabelMap {
    #[verifier::type_invariant]
    closed spec fn inv(&self) -> bool {
        labels_unique(self@)
    }

    /// An empty map.
    pub fn new() -> (r: LabelMap)
        ensures
            r@ == Seq::<EntryView>::empty(),
    {
        let r = LabelMap { entries: Vec::new() };
        assert(r@ =~= Seq::<EntryView>::empty());
        r
    }

    /// A map of the given label/value pairs, in their order; a label that
    /// occurs twice is refused.
    pub fn from_pairs(pairs: &Vec<(String, String)>) -> (r: Result<LabelMap, LabelError>)
        ensures
            match r {
                Ok(m) => labels_unique(pairs_view(pairs@))
                    && m@ == pairs_view(pairs@),
                Err(e) => !labels_unique(pairs_view(pairs@)),
            },
    {
        let ghost all = pairs_view(pairs@);
        let mut m = LabelMap::new();
        let mut i: usize = 0;
        while i < pairs.len()
            invariant
                i <= pairs@.len(),
                all.len() == pairs@.len(),
                all == pairs_view(pairs@),
                m@ == all.take(i as int),
            decreases pairs@.len() - i,
        {
            let (k, v) = &pairs[i];
            let ghost before = m@;
            match m.insert(k.clone(), v.clone()) {
                Ok(()) => {
                    assert(all[i as int] == (k@, v@));
                    assert(m@ =~= all.take(i as int + 1));
                },
                Err(e) => {
                    assert(!labels_unique(all)) by {
                        let j = choose|j: int| 0 <= j < before.len() && #[trigger] before[j].0 == k@;
                        assert(all[j].0 == all[i as int].0);
                    }
                    return Err(e);
                },
            }
            i = i + 1;
        }
        assert(all.take(all.len() as int) =~= all);
        let _ = m.len();
        Ok(m)
    }

    /// The entries as label/value pairs, in order.
    pub fn to_pairs(&self) -> (r: Vec<(String, String)>)
        ensures
            pairs_view(r@) == self@,
            labels_unique(self@),
    {
        proof {
            use_type_invariant(self);
        }
        let mut r: Vec<(String, String)> = Vec::new();
        let mut i: usize = 0;
        while i < self.entries.len()
            invariant
                i <= self.entries@.len(),
                self@.len() == self.entries@.len(),
                pairs_view(r@) == self@.take(i as int),
            decreases self.entries@.len() - i,
        {
            let (k, v) = &self.entries[i];
            let ghost prev = r@;
            assert(self@.take(i as int).len() == i);
            assert(prev.len() == i);
            let pair = (k.clone(), v.clone());
            assert(self@[i as int] == (k@, v@));
            r.push(pair);
            assert(r@ == prev.push(pair));
            assert(pairs_view(r@) =~= self@.take(i as int + 1));
            i = i + 1;
        }
        assert(self@.take(self@.len() as int) =~= self@);
        r
    }

    /// Number of entries.
    pub fn len(&self) -> (r: usize)
        ensures
            r == self@.len(),
            labels_unique(self@),
    {
        proof {
            use_type_invariant(self);
        }
        self.entries.len()
    }

    /// Whether the map holds no entry.
    pub fn is_empty(&self) -> (r: bool)
        ensures
            r == (self@.len() == 0),
    {
        self.entries.len() == 0
    }

    /// The `i`-th entry, in order of insertion.
    pub fn entry(&self, i: usize) -> (r: (&String, &String))
        requires
            i < self@.len(),
        ensures
            (r.0@, r.1@) == self@[i as int],
    {
        let e = &self.entries[i];
        (&e.0, &e.1)
    }

    /// Position of the entry that carries `label`, if any.
    pub fn position(&self, label: &String) -> (r: Option<usize>)
        ensures
            match r {
                Some(i) => i < self@.len() && self@[i as int].0 == label@,
                None => !has_label(self@, label@),
            },
    {
        let mut i: usize = 0;
        while i < self.entries.len()
            invariant
                i <= self.entries@.len(),
                self@.len() == self.entries@.len(),
                forall|j: int| 0 <= j < i ==> #[trigger] self@[j].0 != label@,
            decreases self.entries@.len() - i,
        {
            if self.entries[i].0 == *label {
                return Some(i);
            }
            i = i + 1;
        }
        None
    }

    /// Whether some entry carries `label`.
    pub fn contains_label(&self, label: &String) -> (r: bool)
        ensures
            r == has_label(self@, label@),
    {
        self.position(label).is_some()
    }

    /// The value stored under `label`, if any.
    pub fn get(&self, label: &String) -> (r: Option<&String>)
        ensures
            match r {
                Some(v) => exists|i: int|
                    0 <= i < self@.len() && #[trigger] self@[i] == (label@, v@),
                None => !has_label(self@, label@),
            },
    {
        match self.position(label) {
            Some(i) => Some(&self.entries[i].1),
            None => None,
        }
    }

    /// Moves the entries out, leaving the map empty.
    fn take_entries(&mut self) -> (r: Vec<(String, String)>)
        ensures
            pairs_view(r@) == old(self)@,
            labels_unique(old(self)@),
    {
        proof {
            use_type_invariant(&*self);
        }
        let mut taken = LabelMap { entries: Vec::new() };
        assert(taken@ =~= Seq::<EntryView>::empty());
        std::mem::swap(self, &mut taken);
        let LabelMap { entries } = taken;
        entries
    }

    /// Adds `value` under a new `label`. A label that is already present is
    /// refused and the map is left as it was.
    pub fn insert(&mut self, label: String, value: String) -> (r: Result<(), LabelError>)
        ensures
            has_label(old(self)@, label@) ==> r == Err::<(), LabelError>(LabelError::DuplicateLabel)
                && final(self)@ == old(self)@,
            !has_label(old(self)@, label@) ==> r is Ok && final(self)@ == old(self)@.push(
                (label@, value@),
            ),
    {
        proof {
            use_type_invariant(&*self);
        }
        if self.contains_label(&label) {
            return Err(LabelError::DuplicateLabel);
        }
        let ghost before = self@;
        let ghost after = before.push((label@, value@));
        assert(after =~= before.push((label@, value@)));
        assert(labels_unique(after)) by {
            assert forall|i: int, j: int| 0 <= i < j < after.len() implies after[i].0
                != after[j].0 by {
                if j == after.len() - 1 {
                    assert(before[i] == after[i]);
                }
            }
        }
        let mut entries = self.take_entries();
        entries.push((label, value));
        assert(pairs_view(entries@) =~= after);
        *self = LabelMap { entries };
        Ok(())
    }

    /// Stores `value` under `label`: the value of an entry that carries
    /// `label` is replaced in place, else a new entry is added at the end.
    pub fn set(&mut self, label: String, value: String)
        ensures
            final(self)@ == with_value(old(self)@, label@, value@),
    {
        let ghost before = self@;
        let pos = self.position(&label);
        let mut entries = self.take_entries();
        let ghost after = with_value(before, label@, value@);
        match pos {
            Some(i) => {
                proof {
                    let k = label_index(before, label@);
                    assert(before[i as int].0 == label@);
                    assert(has_label(before, label@));
                    assert(before[k].0 == label@);
                    assert(k == i);
                }
                entries.set(i, (label, value));
            },
            None => {
                entries.push((label, value));
            },
        }
        assert(pairs_view(entries@) =~= after);
        assert(labels_unique(after)) by {
            assert forall|i: int, j: int| 0 <= i < j < after.len() implies after[i].0
                != after[j].0 by {
                if has_label(before, label@) {
                    let k = label_index(before, label@);
                    if i != k && j != k {
                        assert(before[i].0 != before[j].0);
                    } else if i == k {
                        assert(before[j].0 != before[k].0);
                    } else {
                        assert(before[i].0 != before[k].0);
                    }
                } else if j == after.len() - 1 {
                    assert(before[i] == after[i]);
                }
            }
        }
        *self = LabelMap { entries };
    }

    /// Removes the entry that carries `label`; without one, nothing changes.
    pub fn remove(&mut self, label: &String)
        ensures
            final(self)@ == without_label(old(self)@, label@),
    {
        let ghost before = self@;
        let pos = self.position(label);
        let mut entries = self.take_entries();
        let ghost after = without_label(before, label@);
        match pos {
            Some(i) => {
                proof {
                    let k = label_index(before, label@);
                    assert(before[i as int].0 == label@);
                    assert(has_label(before, label@));
                    assert(before[k].0 == label@);
                    assert(k == i);
                }
                let _ = entries.remove(i);
            },
            None => {},
        }
        assert(pairs_view(entries@) =~= after);
        assert(labels_unique(after)) by {
            if has_label(before, label@) {
                let k = label_index(before, label@);
                assert forall|i: int, j: int| 0 <= i < j < after.len() implies after[i].0
                    != after[j].0 by {
                    let bi = if i < k { i } else { i + 1 };
                    let bj = if j < k { j } else { j + 1 };
                    assert(after[i] == before[bi]);
                    assert(after[j] == before[bj]);
                    assert(before[bi].0 != before[bj].0);
                }
            }
        }
        *self = LabelMap { entries };
    }
}

} // verus!
