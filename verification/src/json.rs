//! JSON documents, as far as the store reads them.

use vstd::prelude::*;

verus! {

/// A JSON document as a mathematical value.
///
/// Text, truth values, arrays and objects are kept in full. A null or a
/// number is `Other`: no part of a to-do document is either.
pub enum JsonDoc {
    Text(Seq<char>),
    Bool(bool),
    List(Seq<JsonDoc>),
    Record(Seq<(Seq<char>, JsonDoc)>),
    Other,
}

/// No two entries carry the same key.
pub open spec fn keys_distinct(fields: Seq<(Seq<char>, JsonDoc)>) -> bool {
    forall|i: int, j: int|
        0 <= i < j < fields.len() ==> (#[trigger] fields[i]).0 != (#[trigger] fields[j]).0
}

/// The value of the first entry with the given key, if there is one.
pub open spec fn lookup(fields: Seq<(Seq<char>, JsonDoc)>, key: Seq<char>) -> Option<JsonDoc>
    decreases fields.len(),
{
    if fields.len() == 0 {
        None
    } else if fields[0].0 == key {
        Some(fields[0].1)
    } else {
        lookup(fields.drop_first(), key)
    }
}

/// An entry under another key does not change what is found under `key`,
/// wherever among the entries it stands.
pub proof fn lookup_passes_over(
    fields: Seq<(Seq<char>, JsonDoc)>,
    at: int,
    extra: (Seq<char>, JsonDoc),
    key: Seq<char>,
)
    requires
        0 <= at <= fields.len(),
        extra.0 != key,
    ensures
        lookup(fields.insert(at, extra), key) == lookup(fields, key),
    decreases fields.len(),
{
    let longer = fields.insert(at, extra);
    if at == 0 {
        assert(longer.drop_first() =~= fields);
    } else {
        assert(longer[0] == fields[0]);
        assert(longer.drop_first() =~= fields.drop_first().insert(at - 1, extra));
        lookup_passes_over(fields.drop_first(), at - 1, extra, key);
    }
}

impl JsonDoc {
    /// The member of an object under the given key; nothing for a document
    /// that is no object.
    pub open spec fn member(self, key: Seq<char>) -> Option<JsonDoc> {
        match self {
            JsonDoc::Record(fields) => lookup(fields, key),
            _ => None,
        }
    }

    /// A writer can take the document: no part of it is `Other`, and no
    /// object names a key twice.
    pub open spec fn writable(self) -> bool
        decreases self,
    {
        match self {
            JsonDoc::Text(_) => true,
            JsonDoc::Bool(_) => true,
            JsonDoc::List(items) => forall|i: int|
                0 <= i < items.len() ==> (#[trigger] items[i]).writable(),
            JsonDoc::Record(fields) => keys_distinct(fields) && forall|i: int|
                0 <= i < fields.len() ==> (#[trigger] fields[i]).1.writable(),
            JsonDoc::Other => false,
        }
    }
}

/// A JSON document in memory. The members of an object are kept in their
/// order.
#[derive(Debug, PartialEq, Eq)]
pub enum Json {
    Text(String),
    Bool(bool),
    List(Vec<Json>),
    Record(Vec<(String, Json)>),
    Other,
}

impl Json {
    /// The document that this value holds.
    pub open spec fn doc(&self) -> JsonDoc
        decreases self,
    {
        match self {
            Json::Text(text) => JsonDoc::Text(text@),
            Json::Bool(flag) => JsonDoc::Bool(*flag),
            Json::List(items) => JsonDoc::List(
                Seq::new(
                    items@.len(),
                    |i: int|
                        if 0 <= i < items@.len() {
                            items@[i].doc()
                        } else {
                            JsonDoc::Other
                        },
                ),
            ),
            Json::Record(fields) => JsonDoc::Record(
                Seq::new(
                    fields@.len(),
                    |i: int|
                        if 0 <= i < fields@.len() {
                            (fields@[i].0@, fields@[i].1.doc())
                        } else {
                            (Seq::empty(), JsonDoc::Other)
                        },
                ),
            ),
            Json::Other => JsonDoc::Other,
        }
    }

    /// The member of an object under the given key: the first, where the
    /// key stands more than once.
    pub fn member(&self, key: &str) -> (found: Option<&Json>)
        ensures
            match found {
                Some(json) => self@.member(key@) == Some(json@),
                None => self@.member(key@) is None,
            },
    {
        match self {
            Json::Record(fields) => {
                let ghost docs = self@->Record_0;
                assert forall|k: int| 0 <= k < fields@.len() implies #[trigger] docs[k] == (
                    fields@[k].0@,
                    fields@[k].1@,
                ) by {}
                assert(docs.skip(0) =~= docs);
                let wanted: String = key.to_owned();
                let mut i: usize = 0;
                while i < fields.len()
                    invariant
                        i <= fields.len(),
                        wanted@ == key@,
                        docs.len() == fields@.len(),
                        forall|k: int| 0 <= k < fields@.len() ==> #[trigger] docs[k] == (
                            fields@[k].0@,
                            fields@[k].1@,
                        ),
                        self@.member(key@) == lookup(docs.skip(i as int), key@),
                    decreases fields.len() - i,
                {
                    let ghost rest = docs.skip(i as int);
                    assert(rest[0] == docs[i as int]);
                    assert(rest.drop_first() =~= docs.skip(i + 1));
                    if fields[i].0 == wanted {
                        return Some(&fields[i].1);
                    }
                    i += 1;
                }
                None
            },
            _ => None,
        }
    }
}

impl View for Json {
    type V = JsonDoc;

    open spec fn view(&self) -> JsonDoc {
        self.doc()
    }
}

} // verus!
