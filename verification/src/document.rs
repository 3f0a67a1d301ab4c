//! A structured document in the shape of JSON, and its mathematical model.

use vstd::prelude::*;

verus! {

/// A number of a document. A floating-point number is held by the 64 bits of
/// its IEEE 754 representation, so that nothing of it is lost.
#[derive(Clone, Copy, Debug, PartialEq, Eq)]
pub enum Number {
    /// A whole number that is not negative.
    Unsigned(u64),
    /// A negative whole number.
    Signed(i64),
    /// Any other number, by its bits.
    FloatBits(u64),
}

/// A structured document. The members of an object are kept in the order in
/// which they were given.
#[derive(Debug, PartialEq, Eq)]
pub enum Document {
    Null,
    Bool(bool),
    Number(Number),
    Text(String),
    List(Vec<Document>),
    Object(Vec<(String, Document)>),
}

/// The mathematical model of a [`Document`].
pub ghost enum Json {
    Null,
    Bool(bool),
    Number(Number),
    Text(Seq<char>),
    List(Seq<Json>),
    Object(Seq<(Seq<char>, Json)>),
}

/// The model of the items of a list, one by one.
pub open spec fn items_model(items: Seq<Document>) -> Seq<Json>
    decreases items, 0int,
{
    Seq::new(
        items.len(),
        |i: int|
            if 0 <= i < items.len() {
                document_model(items[i])
            } else {
                Json::Null
            },
    )
}

/// The model of the members of an object, one by one.
pub open spec fn members_model(members: Seq<(String, Document)>) -> Seq<(Seq<char>, Json)>
    decreases members, 0int,
{
    Seq::new(
        members.len(),
        |i: int|
            if 0 <= i < members.len() {
                (members[i].0@, document_model(members[i].1))
            } else {
                (Seq::empty(), Json::Null)
            },
    )
}

/// What a document is: its model.
pub open spec fn document_model(d: Document) -> Json
    decreases d, 1int,
{
    match d {
        Document::Null => Json::Null,
        Document::Bool(b) => Json::Bool(b),
        Document::Number(n) => Json::Number(n),
        Document::Text(s) => Json::Text(s@),
        Document::List(items) => Json::List(items_model(items@)),
        Document::Object(members) => Json::Object(members_model(members@)),
    }
}

impl View for Document {
    type V = Json;

    open spec fn view(&self) -> Json {
        document_model(*self)
    }
}

/// Whether no two of `members` have one name.
pub open spec fn distinct_names(members: Seq<(Seq<char>, Json)>) -> bool {
    forall|i: int, j: int|
        0 <= i < j < members.len() ==> (#[trigger] members[i]).0 != (#[trigger] members[j]).0
}

/// Whether every object in `d`, at any depth, names each of its members
/// once. Such a document is a JSON value in which a name finds one value.
pub open spec fn well_formed(d: Json) -> bool
    decreases d,
{
    match d {
        Json::List(items) => forall|i: int|
            0 <= i < items.len() ==> well_formed(#[trigger] items[i]),
        Json::Object(members) => {
            &&& distinct_names(members)
            &&& forall|i: int|
                0 <= i < members.len() ==> well_formed((#[trigger] members[i]).1)
        },
        _ => true,
    }
}

/// The model of an optional document.
pub open spec fn optional_model(d: Option<Document>) -> Option<Json> {
    match d {
        Some(document) => Some(document@),
        None => None,
    }
}

/// The model of no members at all is the empty sequence.
pub proof fn lemma_no_members()
    ensures
        members_model(Seq::empty()) == Seq::<(Seq<char>, Json)>::empty(),
{
    assert(members_model(Seq::empty()) =~= Seq::<(Seq<char>, Json)>::empty());
}

/// The model of no items at all is the empty sequence.
pub proof fn lemma_no_items()
    ensures
        items_model(Seq::empty()) == Seq::<Json>::empty(),
{
    assert(items_model(Seq::empty()) =~= Seq::<Json>::empty());
}

/// Appends the member `key: value` to the members of an object under
/// construction.
pub fn push_member(members: &mut Vec<(String, Document)>, key: &str, value: Document)
    ensures
        members_model(final(members)@) == members_model(old(members)@).push((key@, value@)),
{
    members.push((key.to_owned(), value));
    assert(members_model(members@) =~= members_model(old(members)@).push((key@, value@)));
}

/// Appends `value` to the items of a list under construction.
pub fn push_item(items: &mut Vec<Document>, value: Document)
    ensures
        items_model(final(items)@) == items_model(old(items)@).push(value@),
{
    items.push(value);
    assert(items_model(items@) =~= items_model(old(items)@).push(value@));
}

/// The member `key: text`, whose value is a text.
pub open spec fn text_member(key: &str, text: &str) -> (Seq<char>, Json) {
    (key@, Json::Text(text@))
}

/// Appends the member `key: text`, whose value is a text, to the members of
/// an object under construction.
pub fn push_text_member(members: &mut Vec<(String, Document)>, key: &str, text: &str)
    ensures
        members_model(final(members)@) == members_model(old(members)@).push(text_member(key, text)),
{
    push_member(members, key, Document::text(text));
}

/// Appends the text `text` to the items of a list under construction.
pub fn push_text_item(items: &mut Vec<Document>, text: &str)
    ensures
        items_model(final(items)@) == items_model(old(items)@).push(Json::Text(text@)),
{
    push_item(items, Document::text(text));
}

/// Whether `members[i]` is the first member named `key`.
pub open spec fn first_named(members: Seq<(Seq<char>, Json)>, key: Seq<char>, i: int) -> bool {
    &&& 0 <= i < members.len()
    &&& members[i].0 == key
    &&& forall|j: int| 0 <= j < i ==> (#[trigger] members[j]).0 != key
}

/// Whether no member is named `key`.
pub open spec fn none_named(members: Seq<(Seq<char>, Json)>, key: Seq<char>) -> bool {
    forall|j: int| 0 <= j < members.len() ==> (#[trigger] members[j]).0 != key
}

impl Document {
    /// The document that holds the text `s`.
    pub fn text(s: &str) -> (d: Document)
        ensures
            d@ == Json::Text(s@),
    {
        Document::Text(s.to_owned())
    }

    /// The list of `items`.
    pub fn list(items: Vec<Document>) -> (d: Document)
        ensures
            d@ == Json::List(items_model(items@)),
    {
        Document::List(items)
    }

    /// The object of `members`.
    pub fn object(members: Vec<(String, Document)>) -> (d: Document)
        ensures
            d@ == Json::Object(members_model(members@)),
    {
        Document::Object(members)
    }

    /// The value of the first member named `key`, where this document is an
    /// object that has one.
    pub fn get(&self, key: &str) -> (found: Option<&Document>)
        ensures
            match found {
                Some(value) => self@ is Object && exists|i: int|
                    first_named(self@->Object_0, key@, i) && value@ == (#[trigger] self@->Object_0[i]).1,
                None => self@ is Object ==> none_named(self@->Object_0, key@),
            },
    {
        match self {
            Document::Object(members) => {
                let wanted = key.to_owned();
                let mut i: usize = 0;
                while i < members.len()
                    invariant
                        0 <= i <= members.len(),
                        wanted@ == key@,
                        self@ == Json::Object(members_model(members@)),
                        forall|j: int| 0 <= j < i ==> (#[trigger] members_model(members@)[j]).0 != key@,
                    decreases members.len() - i,
                {
                    if members[i].0 == wanted {
                        assert(first_named(self@->Object_0, key@, i as int));
                        return Some(&members[i].1);
                    }
                    i += 1;
                }
                None
            },
            _ => None,
        }
    }
}

} // verus!
