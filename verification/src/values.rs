//! The value document: a tree of mappings, sequences and scalars.

use vstd::prelude::*;

verus! {

/// A number of a document. A float is held as the text that stands for it.
#[derive(Debug)]
pub enum Number {
    PosInt(u64),
    NegInt(i64),
    Float(String),
}

/// What a [`Number`] stands for: an integer, or the text of a float.
pub enum NumberView {
    Integer(int),
    Float(Seq<char>),
}

impl View for Number {
    type V = NumberView;

    open spec fn view(&self) -> NumberView {
        match *self {
            Number::PosInt(u) => NumberView::Integer(u as int),
            Number::NegInt(i) => NumberView::Integer(i as int),
            Number::Float(text) => NumberView::Float(text@),
        }
    }
}

impl Number {
    /// Whether two numbers stand for the same value.
    pub fn equals(&self, other: &Number) -> (same: bool)
        ensures
            same == (self@ == other@),
    {
        match (self, other) {
            (Number::PosInt(a), Number::PosInt(b)) => *a == *b,
            (Number::NegInt(a), Number::NegInt(b)) => *a == *b,
            (Number::PosInt(a), Number::NegInt(b)) => *b >= 0 && *a == *b as u64,
            (Number::NegInt(a), Number::PosInt(b)) => *a >= 0 && *a as u64 == *b,
            (Number::Float(a), Number::Float(b)) => *a == *b,
            _ => false,
        }
    }

    /// A copy of the number.
    pub fn duplicate(&self) -> (copy: Number)
        ensures
            copy@ == self@,
    {
        match self {
            Number::PosInt(u) => Number::PosInt(*u),
            Number::NegInt(i) => Number::NegInt(*i),
            Number::Float(text) => Number::Float(text.clone()),
        }
    }
}

/// A node of a value document.
#[derive(Debug)]
pub enum Document {
    Null,
    Bool(bool),
    Number(Number),
    String(String),
    Sequence(Vec<Document>),
    Mapping(Mapping),
    Tagged(String, Box<Document>),
}

/// The entries of a mapping node, in insertion order.
#[derive(Debug)]
pub struct Mapping {
    pub entries: Vec<(Document, Document)>,
}

/// One entry of a mapping, as a pair of trees.
pub type EntryView = (DocumentView, DocumentView);

/// What a [`Document`] stands for: the same tree over mathematical sequences.
pub enum DocumentView {
    Null,
    Bool(bool),
    Number(NumberView),
    String(Seq<char>),
    Sequence(Seq<DocumentView>),
    Mapping(Seq<(DocumentView, DocumentView)>),
    Tagged(Seq<char>, Box<DocumentView>),
}

/// The tree that `value` stands for.
pub open spec fn document_view(value: Document) -> DocumentView
    decreases value,
{
    match value {
        Document::Null => DocumentView::Null,
        Document::Bool(b) => DocumentView::Bool(b),
        Document::Number(n) => DocumentView::Number(n@),
        Document::String(s) => DocumentView::String(s@),
        Document::Sequence(items) => DocumentView::Sequence(
            Seq::new(
                items@.len(),
                |i: int|
                    if 0 <= i < items@.len() {
                        document_view(items[i])
                    } else {
                        DocumentView::Null
                    },
            ),
        ),
        Document::Mapping(mapping) => DocumentView::Mapping(
            Seq::new(
                mapping.entries@.len(),
                |i: int|
                    if 0 <= i < mapping.entries@.len() {
                        (document_view(mapping.entries[i].0), document_view(mapping.entries[i].1))
                    } else {
                        (DocumentView::Null, DocumentView::Null)
                    },
            ),
        ),
        Document::Tagged(tag, inner) => DocumentView::Tagged(tag@, Box::new(document_view(*inner))),
    }
}

impl View for Document {
    type V = DocumentView;

    open spec fn view(&self) -> DocumentView {
        document_view(*self)
    }
}

impl View for Mapping {
    type V = Seq<(DocumentView, DocumentView)>;

    open spec fn view(&self) -> Seq<(DocumentView, DocumentView)> {
        Seq::new(
            self.entries@.len(),
            |i: int| (document_view(self.entries[i].0), document_view(self.entries[i].1)),
        )
    }
}

/// The views of the items of a sequence node.
pub open spec fn items_view(items: Seq<Document>) -> Seq<DocumentView> {
    Seq::new(items.len(), |i: int| document_view(items[i]))
}

pub proof fn lemma_view_sequence(items: Vec<Document>)
    ensures
        Document::Sequence(items)@ == DocumentView::Sequence(items_view(items@)),
{
    assert(Document::Sequence(items)@->Sequence_0 =~= items_view(items@));
}

pub proof fn lemma_view_mapping(mapping: Mapping)
    ensures
        Document::Mapping(mapping)@ == DocumentView::Mapping(mapping@),
{
    assert(Document::Mapping(mapping)@->Mapping_0 =~= mapping@);
}

impl Document {
    /// Deep comparison of two documents.
    #[verifier::loop_isolation(false)]
    pub fn equals(&self, other: &Document) -> (same: bool)
        ensures
            same == (self@ == other@),
        decreases self,
    {
        match (self, other) {
            (Document::Null, Document::Null) => true,
            (Document::Bool(a), Document::Bool(b)) => *a == *b,
            (Document::Number(a), Document::Number(b)) => a.equals(b),
            (Document::String(a), Document::String(b)) => *a == *b,
            (Document::Sequence(a), Document::Sequence(b)) => {
                proof {
                    lemma_view_sequence(*a);
                    lemma_view_sequence(*b);
                }
                if a.len() != b.len() {
                    assert(items_view(a@).len() != items_view(b@).len());
                    return false;
                }
                let mut i: usize = 0;
                while i < a.len()
                    invariant
                        i <= a.len(),
                        a.len() == b.len(),
                        *self == Document::Sequence(*a),
                        forall|j: int| 0 <= j < i ==> document_view(a[j]) == document_view(b[j]),
                    decreases a.len() - i,
                {
                    assert(decreases_to!(*a => a@));
                    assert(decreases_to!(a@ => a@[i as int]));
                    if !a[i].equals(&b[i]) {
                        assert(items_view(a@)[i as int] != items_view(b@)[i as int]);
                        return false;
                    }
                    i += 1;
                }
                assert(items_view(a@) =~= items_view(b@));
                true
            },
            (Document::Mapping(a), Document::Mapping(b)) => {
                proof {
                    lemma_view_mapping(*a);
                    lemma_view_mapping(*b);
                }
                if a.entries.len() != b.entries.len() {
                    assert(a@.len() != b@.len());
                    return false;
                }
                let mut i: usize = 0;
                while i < a.entries.len()
                    invariant
                        i <= a.entries.len(),
                        a.entries.len() == b.entries.len(),
                        *self == Document::Mapping(*a),
                        forall|j: int| 0 <= j < i ==> a@[j] == b@[j],
                    decreases a.entries.len() - i,
                {
                    assert(decreases_to!(a.entries => a.entries@));
                    assert(decreases_to!(a.entries@ => a.entries@[i as int]));
                    if !a.entries[i].0.equals(&b.entries[i].0) || !a.entries[i].1.equals(
                        &b.entries[i].1,
                    ) {
                        assert(a@[i as int] != b@[i as int]);
                        return false;
                    }
                    i += 1;
                }
                assert(a@ =~= b@);
                true
            },
            (Document::Tagged(t, a), Document::Tagged(u, b)) => *t == *u && a.equals(b),
            _ => false,
        }
    }
}


impl Document {
    /// A deep copy of the document.
    #[verifier::loop_isolation(false)]
    pub fn duplicate(&self) -> (copy: Document)
        ensures
            copy@ == self@,
        decreases self,
    {
        match self {
            Document::Null => Document::Null,
            Document::Bool(b) => Document::Bool(*b),
            Document::Number(n) => Document::Number(n.duplicate()),
            Document::String(s) => Document::String(s.clone()),
            Document::Sequence(items) => {
                let mut copies: Vec<Document> = Vec::new();
                let mut i: usize = 0;
                while i < items.len()
                    invariant
                        i <= items.len(),
                        *self == Document::Sequence(*items),
                        copies.len() == i,
                        forall|j: int| 0 <= j < i ==> document_view(copies[j]) == document_view(items[j]),
                    decreases items.len() - i,
                {
                    assert(decreases_to!(*items => items@));
                    assert(decreases_to!(items@ => items@[i as int]));
                    copies.push(items[i].duplicate());
                    i += 1;
                }
                proof {
                    lemma_view_sequence(*items);
                    lemma_view_sequence(copies);
                    assert(items_view(copies@) =~= items_view(items@));
                }
                Document::Sequence(copies)
            },
            Document::Mapping(mapping) => {
                let mut copies: Vec<(Document, Document)> = Vec::new();
                let mut i: usize = 0;
                while i < mapping.entries.len()
                    invariant
                        i <= mapping.entries.len(),
                        *self == Document::Mapping(*mapping),
                        copies.len() == i,
                        forall|j: int|
                            0 <= j < i ==> document_view(copies[j].0) == document_view(
                                mapping.entries[j].0,
                            ) && document_view(copies[j].1) == document_view(mapping.entries[j].1),
                    decreases mapping.entries.len() - i,
                {
                    assert(decreases_to!(mapping.entries => mapping.entries@));
                    assert(decreases_to!(mapping.entries@ => mapping.entries@[i as int]));
                    let key = mapping.entries[i].0.duplicate();
                    let value = mapping.entries[i].1.duplicate();
                    copies.push((key, value));
                    i += 1;
                }
                let copy = Mapping { entries: copies };
                proof {
                    lemma_view_mapping(*mapping);
                    lemma_view_mapping(copy);
                    assert(copy@ =~= mapping@);
                }
                Document::Mapping(copy)
            },
            Document::Tagged(tag, inner) => Document::Tagged(tag.clone(), Box::new(inner.duplicate())),
        }
    }
}

impl Clone for Document {
    fn clone(&self) -> (copy: Document)
        ensures
            copy@ == self@,
    {
        self.duplicate()
    }
}

impl Clone for Mapping {
    fn clone(&self) -> (copy: Mapping)
        ensures
            copy@ == self@,
    {
        let mut copies: Vec<(Document, Document)> = Vec::new();
        let mut i: usize = 0;
        while i < self.entries.len()
            invariant
                i <= self.entries.len(),
                copies.len() == i,
                forall|j: int| 0 <= j < i ==> (document_view(copies[j].0), document_view(copies[j].1)) == self@[j],
            decreases self.entries.len() - i,
        {
            let key = self.entries[i].0.duplicate();
            let value = self.entries[i].1.duplicate();
            copies.push((key, value));
            i += 1;
        }
        let copy = Mapping { entries: copies };
        assert(copy@ =~= self@);
        copy
    }
}

impl PartialEq for Document {
    fn eq(&self, other: &Document) -> (same: bool) {
        self.equals(other)
    }
}

impl vstd::std_specs::cmp::PartialEqSpecImpl for Document {
    open spec fn obeys_eq_spec() -> bool {
        true
    }

    open spec fn eq_spec(&self, other: &Document) -> bool {
        self@ == other@
    }
}


/// `index` is the first place in `entries` where `key` stands.
pub open spec fn first_at(entries: Seq<EntryView>, key: DocumentView, index: int) -> bool {
    &&& 0 <= index < entries.len()
    &&& entries[index].0 == key
    &&& forall|j: int| 0 <= j < index ==> (#[trigger] entries[j]).0 != key
}

/// The first place in `entries` where `key` stands, if it stands anywhere.
pub open spec fn key_index(entries: Seq<EntryView>, key: DocumentView) -> Option<int> {
    if exists|i: int| first_at(entries, key, i) {
        Some(choose|i: int| first_at(entries, key, i))
    } else {
        None
    }
}

/// Whether no key stands twice in `entries`.
pub open spec fn distinct_keys(entries: Seq<EntryView>) -> bool {
    forall|i: int, j: int|
        0 <= i < j < entries.len() ==> (#[trigger] entries[i]).0 != (#[trigger] entries[j]).0
}

/// `entries` with `value` under `key`: in the key's place if it has one, else at the end.
pub open spec fn with_entry(entries: Seq<EntryView>, key: DocumentView, value: DocumentView) -> Seq<
    EntryView,
> {
    match key_index(entries, key) {
        Some(i) => entries.update(i, (entries[i].0, value)),
        None => entries.push((key, value)),
    }
}

/// `entries` without the first entry under `key`: the last entry takes its
/// place, and the others stay where they are.
pub open spec fn without_key(entries: Seq<EntryView>, key: DocumentView) -> Seq<EntryView> {
    match key_index(entries, key) {
        Some(i) => entries.update(i, entries.last()).drop_last(),
        None => entries,
    }
}

/// The value under `key`, if the key stands in `entries`.
pub open spec fn looked_up(entries: Seq<EntryView>, key: DocumentView) -> Option<DocumentView> {
    match key_index(entries, key) {
        Some(i) => Some(entries[i].1),
        None => None,
    }
}

/// A key has a first place as soon as it stands somewhere.
pub proof fn lemma_key_somewhere(entries: Seq<EntryView>, key: DocumentView, place: int)
    requires
        0 <= place < entries.len(),
        entries[place].0 == key,
    ensures
        key_index(entries, key) matches Some(i) && 0 <= i <= place && first_at(entries, key, i),
    decreases place,
{
    if exists|j: int| 0 <= j < place && (#[trigger] entries[j]).0 == key {
        let j = choose|j: int| 0 <= j < place && (#[trigger] entries[j]).0 == key;
        lemma_key_somewhere(entries, key, j);
    } else {
        assert(first_at(entries, key, place));
        lemma_key_index_found(entries, key, place);
    }
}

/// The first place of a key is a place where it stands.
pub proof fn lemma_key_index_is_first(entries: Seq<EntryView>, key: DocumentView)
    ensures
        key_index(entries, key) matches Some(i) ==> first_at(entries, key, i),
        key_index(entries, key) is None ==> forall|j: int|
            0 <= j < entries.len() ==> (#[trigger] entries[j]).0 != key,
{
    if key_index(entries, key) is None {
        assert forall|j: int| 0 <= j < entries.len() implies (#[trigger] entries[j]).0 != key by {
            if entries[j].0 == key {
                lemma_key_somewhere(entries, key, j);
            }
        }
    }
}

/// A key that has a first place has exactly that one.
pub proof fn lemma_key_index_found(entries: Seq<EntryView>, key: DocumentView, index: int)
    requires
        first_at(entries, key, index),
    ensures
        key_index(entries, key) == Some(index),
{
    let chosen = choose|i: int| first_at(entries, key, i);
    assert(first_at(entries, key, chosen));
    if chosen < index {
        assert(entries[chosen].0 != key);
    }
    if index < chosen {
        assert(entries[index].0 != key);
    }
}

/// A key that stands nowhere has no first place.
pub proof fn lemma_key_index_missing(entries: Seq<EntryView>, key: DocumentView)
    requires
        forall|j: int| 0 <= j < entries.len() ==> (#[trigger] entries[j]).0 != key,
    ensures
        key_index(entries, key) is None,
{
    if exists|i: int| first_at(entries, key, i) {
        let i = choose|i: int| first_at(entries, key, i);
        assert(entries[i].0 != key);
    }
}

impl Mapping {
    /// A mapping without entries.
    pub fn new() -> (mapping: Mapping)
        ensures
            mapping@ == Seq::<EntryView>::empty(),
    {
        let mapping = Mapping { entries: Vec::new() };
        assert(mapping@ =~= Seq::<EntryView>::empty());
        mapping
    }

    /// Number of entries.
    pub fn len(&self) -> (count: usize)
        ensures
            count == self@.len(),
    {
        self.entries.len()
    }

    /// Whether the mapping has no entry.
    pub fn is_empty(&self) -> (empty: bool)
        ensures
            empty == (self@.len() == 0),
    {
        self.entries.len() == 0
    }

    /// The first place where `key` stands.
    pub fn find(&self, key: &Document) -> (place: Option<usize>)
        ensures
            match place {
                Some(i) => key_index(self@, key@) == Some(i as int),
                None => key_index(self@, key@) is None,
            },
    {
        let mut i: usize = 0;
        while i < self.entries.len()
            invariant
                i <= self.entries.len(),
                forall|j: int| 0 <= j < i ==> (#[trigger] self@[j]).0 != key@,
            decreases self.entries.len() - i,
        {
            if self.entries[i].0.equals(key) {
                proof {
                    assert(self@[i as int].0 == key@);
                    lemma_key_index_found(self@, key@, i as int);
                }
                return Some(i);
            }
            i += 1;
        }
        proof {
            lemma_key_index_missing(self@, key@);
        }
        None
    }

    /// Whether `key` stands in the mapping.
    pub fn contains_key(&self, key: &Document) -> (found: bool)
        ensures
            found == key_index(self@, key@).is_some(),
    {
        self.find(key).is_some()
    }

    /// The value under `key`.
    pub fn get(&self, key: &Document) -> (found: Option<&Document>)
        ensures
            match found {
                Some(value) => key_index(self@, key@) matches Some(i) && value@ == self@[i].1,
                None => key_index(self@, key@) is None,
            },
    {
        match self.find(key) {
            Some(i) => {
                assert(self@[i as int].1 == self.entries[i as int].1@);
                Some(&self.entries[i].1)
            },
            None => None,
        }
    }

    /// Puts `value` under `key`. A key that is there keeps its place and the
    /// value it had is returned; a new key goes to the end.
    pub fn insert(&mut self, key: Document, value: Document) -> (previous: Option<Document>)
        ensures
            final(self)@ == with_entry(old(self)@, key@, value@),
            match previous {
                Some(before) => key_index(old(self)@, key@) matches Some(i) && before@ == old(
                    self,
                )@[i].1,
                None => key_index(old(self)@, key@) is None,
            },
    {
        match self.find(&key) {
            Some(i) => {
                let (kept, before) = self.entries.remove(i);
                self.entries.insert(i, (kept, value));
                assert(self@ =~= with_entry(old(self)@, key@, value@));
                Some(before)
            },
            None => {
                self.entries.push((key, value));
                assert(self@ =~= with_entry(old(self)@, key@, value@));
                None
            },
        }
    }

    /// Takes the first entry under `key` out and returns its value. The last
    /// entry moves into the gap.
    pub fn remove(&mut self, key: &Document) -> (taken: Option<Document>)
        ensures
            final(self)@ == without_key(old(self)@, key@),
            match taken {
                Some(before) => key_index(old(self)@, key@) matches Some(i) && before@ == old(
                    self,
                )@[i].1,
                None => key_index(old(self)@, key@) is None,
            },
    {
        match self.find(key) {
            Some(i) => {
                let (_, before) = self.entries.swap_remove(i);
                assert(self@ =~= without_key(old(self)@, key@));
                Some(before)
            },
            None => {
                assert(self@ =~= without_key(old(self)@, key@));
                None
            },
        }
    }
}

} // verus!
