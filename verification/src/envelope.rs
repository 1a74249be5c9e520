//! The to-do document: an object whose member `todos` is an array of
//! entries, each an object with the five fields of a `TodoItem`.

use vstd::prelude::*;
use crate::error::{DecodeFault, DecodeFaultView};
use crate::item::{Field, TodoData, TodoItem, TodoItemView};
use crate::json::{lookup, lookup_passes_over, Json, JsonDoc};

verus! {

/// The key of the array of entries.
pub open spec fn todos_key() -> Seq<char> {
    "todos"@
}

/// The object that stands for one entry: its fields in the order of the
/// record's declaration.
pub open spec fn item_doc(item: TodoItemView) -> JsonDoc {
    JsonDoc::Record(
        seq![
            (Field::Id.key(), JsonDoc::Text(item.id)),
            (Field::Content.key(), JsonDoc::Text(item.content)),
            (Field::Completed.key(), JsonDoc::Bool(item.completed)),
            (Field::Date.key(), JsonDoc::Text(item.date)),
            (Field::CreatedAt.key(), JsonDoc::Text(item.created_at)),
        ],
    )
}

/// The document that stands for a collection.
pub open spec fn envelope_doc(items: Seq<TodoItemView>) -> JsonDoc {
    JsonDoc::Record(
        seq![(todos_key(), JsonDoc::List(Seq::new(items.len(), |i: int| item_doc(items[i]))))],
    )
}

/// What is wrong with one field of the entry at `index`, if anything: the
/// member is missing, or it is not what the field holds (a boolean for
/// `completed`, text for the others).
pub open spec fn field_fault(entry: JsonDoc, index: nat, field: Field) -> Option<DecodeFaultView> {
    match entry.member(field.key()) {
        None => Some(DecodeFaultView::MissingField { index, field }),
        Some(value) => {
            let fits = if field == Field::Completed {
                value is Bool
            } else {
                value is Text
            };
            if fits {
                None
            } else {
                Some(DecodeFaultView::WrongType { index, field })
            }
        },
    }
}

/// What is wrong with the entry at `index`, if anything: it is no object,
/// or else the fault of the first of its fields that has one.
pub open spec fn item_fault(entry: JsonDoc, index: nat) -> Option<DecodeFaultView> {
    if !(entry is Record) {
        Some(DecodeFaultView::ItemNotAnObject { index })
    } else if field_fault(entry, index, Field::Id) is Some {
        field_fault(entry, index, Field::Id)
    } else if field_fault(entry, index, Field::Content) is Some {
        field_fault(entry, index, Field::Content)
    } else if field_fault(entry, index, Field::Completed) is Some {
        field_fault(entry, index, Field::Completed)
    } else if field_fault(entry, index, Field::Date) is Some {
        field_fault(entry, index, Field::Date)
    } else {
        field_fault(entry, index, Field::CreatedAt)
    }
}

/// The text that an entry holds under a field.
pub open spec fn text_under(entry: JsonDoc, field: Field) -> Seq<char> {
    match entry.member(field.key()) {
        Some(JsonDoc::Text(text)) => text,
        _ => Seq::empty(),
    }
}

/// The boolean that an entry holds under `completed`.
pub open spec fn flag_under(entry: JsonDoc) -> bool {
    match entry.member(Field::Completed.key()) {
        Some(JsonDoc::Bool(flag)) => flag,
        _ => false,
    }
}

/// The entry that a faultless object stands for.
pub open spec fn item_of(entry: JsonDoc) -> TodoItemView {
    TodoItemView {
        id: text_under(entry, Field::Id),
        content: text_under(entry, Field::Content),
        completed: flag_under(entry),
        date: text_under(entry, Field::Date),
        created_at: text_under(entry, Field::CreatedAt),
    }
}

/// The fault of the first entry, from `from` on, that has one.
pub open spec fn first_fault(entries: Seq<JsonDoc>, from: nat) -> Option<DecodeFaultView>
    decreases entries.len() - from,
{
    if from >= entries.len() {
        None
    } else if item_fault(entries[from as int], from) is Some {
        item_fault(entries[from as int], from)
    } else {
        first_fault(entries, from + 1)
    }
}

/// The collection that a document stands for, or why it stands for none.
///
/// The document must be an object with a member `todos` that is an array
/// of faultless entries; members under other keys are passed over.
pub open spec fn decoded(doc: JsonDoc) -> Result<Seq<TodoItemView>, DecodeFaultView> {
    if !(doc is Record) {
        Err(DecodeFaultView::NotAnObject)
    } else {
        match doc.member(todos_key()) {
            None => Err(DecodeFaultView::NoTodos),
            Some(JsonDoc::List(entries)) => match first_fault(entries, 0) {
                Some(fault) => Err(fault),
                None => Ok(Seq::new(entries.len(), |i: int| item_of(entries[i]))),
            },
            Some(_) => Err(DecodeFaultView::TodosNotAnArray),
        }
    }
}

/// The outcome of a decoding as a mathematical value.
pub open spec fn outcome_view(outcome: Result<TodoData, DecodeFault>) -> Result<
    Seq<TodoItemView>,
    DecodeFaultView,
> {
    match outcome {
        Ok(data) => Ok(data@),
        Err(fault) => Err(fault@),
    }
}

/// The keys of the document differ from one another: each has a length of
/// its own.
proof fn keys_differ()
    ensures
        Field::Id.key().len() == 2,
        Field::Content.key().len() == 7,
        Field::Completed.key().len() == 9,
        Field::Date.key().len() == 4,
        Field::CreatedAt.key().len() == 10,
        todos_key().len() == 5,
{
    reveal_strlit("id");
    reveal_strlit("content");
    reveal_strlit("completed");
    reveal_strlit("date");
    reveal_strlit("created_at");
    reveal_strlit("todos");
}

/// The object written for an entry has every field where a reader looks
/// for it, and reads back as the entry.
proof fn item_doc_reads_back(item: TodoItemView, index: nat)
    ensures
        item_doc(item).writable(),
        item_fault(item_doc(item), index) is None,
        item_of(item_doc(item)) == item,
{
    keys_differ();
    reveal_with_fuel(lookup, 6);
    let fields = item_doc(item)->Record_0;
    assert(fields.len() == 5);
    assert(fields[0].1.writable());
    assert(fields[1].1.writable());
    assert(fields[2].1.writable());
    assert(fields[3].1.writable());
    assert(fields[4].1.writable());
}

/// Where no entry from `from` on has a fault, none is found.
proof fn no_fault_found(entries: Seq<JsonDoc>, from: nat)
    requires
        forall|k: int|
            from <= k < entries.len() ==> item_fault(#[trigger] entries[k], k as nat) is None,
    ensures
        first_fault(entries, from) is None,
    decreases entries.len() - from,
{
    if from < entries.len() {
        assert(item_fault(entries[from as int], from) is None);
        no_fault_found(entries, from + 1);
    }
}

/// A collection that is written as a document and read back is the same
/// collection: the same entries, field for field, in the same order.
pub proof fn round_trip(items: Seq<TodoItemView>)
    ensures
        decoded(envelope_doc(items)) == Ok::<Seq<TodoItemView>, DecodeFaultView>(items),
{
    let entries = Seq::new(items.len(), |i: int| item_doc(items[i]));
    let doc = envelope_doc(items);
    assert(doc.member(todos_key()) == Some(JsonDoc::List(entries))) by {
        reveal_with_fuel(lookup, 2);
    }
    assert forall|k: int| 0 <= k < entries.len() implies item_fault(
        #[trigger] entries[k],
        k as nat,
    ) is None by {
        item_doc_reads_back(items[k], k as nat);
    }
    no_fault_found(entries, 0);
    let back = Seq::new(entries.len(), |i: int| item_of(entries[i]));
    assert forall|k: int| 0 <= k < items.len() implies back[k] == items[k] by {
        item_doc_reads_back(items[k], k as nat);
    }
    assert(back =~= items);
}

/// A member that the store does not know is passed over: with one more
/// member, under a key other than `todos`, a document stands for the same
/// collection, or for none on the same ground.
pub proof fn unknown_member_is_passed_over(
    fields: Seq<(Seq<char>, JsonDoc)>,
    at: int,
    key: Seq<char>,
    value: JsonDoc,
)
    requires
        0 <= at <= fields.len(),
        key != todos_key(),
    ensures
        decoded(JsonDoc::Record(fields.insert(at, (key, value)))) == decoded(
            JsonDoc::Record(fields),
        ),
{
    lookup_passes_over(fields, at, (key, value), todos_key());
}

/// A field that the store does not know is passed over: with one more
/// member, under a key that names none of the five fields, an entry has
/// the same fault or stands for the same to-do.
pub proof fn unknown_field_is_passed_over(
    fields: Seq<(Seq<char>, JsonDoc)>,
    at: int,
    key: Seq<char>,
    value: JsonDoc,
    index: nat,
)
    requires
        0 <= at <= fields.len(),
        forall|field: Field| key != #[trigger] field.key(),
    ensures
        item_fault(JsonDoc::Record(fields.insert(at, (key, value))), index) == item_fault(
            JsonDoc::Record(fields),
            index,
        ),
        item_of(JsonDoc::Record(fields.insert(at, (key, value)))) == item_of(
            JsonDoc::Record(fields),
        ),
{
    lookup_passes_over(fields, at, (key, value), Field::Id.key());
    lookup_passes_over(fields, at, (key, value), Field::Content.key());
    lookup_passes_over(fields, at, (key, value), Field::Completed.key());
    lookup_passes_over(fields, at, (key, value), Field::Date.key());
    lookup_passes_over(fields, at, (key, value), Field::CreatedAt.key());
}

/// A document without a member `todos` stands for no collection, not for
/// an empty one.
pub proof fn document_without_todos_is_rejected(doc: JsonDoc)
    requires
        doc.member(todos_key()) is None,
    ensures
        decoded(doc) == Err::<Seq<TodoItemView>, DecodeFaultView>(DecodeFaultView::NotAnObject)
            || decoded(doc) == Err::<Seq<TodoItemView>, DecodeFaultView>(DecodeFaultView::NoTodos),
{
}

/// The document of a collection can be written out: it has no part that
/// a writer cannot take, and no object in it names a key twice.
pub proof fn envelope_is_writable(items: Seq<TodoItemView>)
    ensures
        envelope_doc(items).writable(),
{
    let entries = Seq::new(items.len(), |i: int| item_doc(items[i]));
    assert forall|k: int| 0 <= k < entries.len() implies (#[trigger] entries[k]).writable() by {
        item_doc_reads_back(items[k], 0);
    }
    let fields = envelope_doc(items)->Record_0;
    assert(fields.len() == 1);
    assert(fields[0].1 == JsonDoc::List(entries));
    assert(fields[0].1.writable());
}

/// The object that stands for one entry.
pub fn encode_item(item: &TodoItem) -> (json: Json)
    ensures
        json@ == item_doc(item@),
{
    let fields = vec![
        (Field::Id.name().to_owned(), Json::Text(item.id.clone())),
        (Field::Content.name().to_owned(), Json::Text(item.content.clone())),
        (Field::Completed.name().to_owned(), Json::Bool(item.completed)),
        (Field::Date.name().to_owned(), Json::Text(item.date.clone())),
        (Field::CreatedAt.name().to_owned(), Json::Text(item.created_at.clone())),
    ];
    let json = Json::Record(fields);
    assert(json@->Record_0 =~= item_doc(item@)->Record_0) by {
        reveal_with_fuel(Json::doc, 2);
    }
    json
}

/// The document that stands for a collection.
pub fn encode(data: &TodoData) -> (json: Json)
    ensures
        json@ == envelope_doc(data@),
{
    let mut entries: Vec<Json> = Vec::new();
    let mut i: usize = 0;
    while i < data.todos.len()
        invariant
            i <= data.todos.len(),
            entries.len() == i,
            forall|k: int| 0 <= k < i ==> (#[trigger] entries[k])@ == item_doc(data.todos[k]@),
        decreases data.todos.len() - i,
    {
        let entry = encode_item(&data.todos[i]);
        entries.push(entry);
        i += 1;
    }
    let list = Json::List(entries);
    assert(list@->List_0 =~= Seq::new(data@.len(), |i: int| item_doc(data@[i])));
    let json = Json::Record(vec![("todos".to_owned(), list)]);
    assert(json@->Record_0 =~= envelope_doc(data@)->Record_0);
    json
}

/// The text under a field of the entry at `index`.
fn text_member(entry: &Json, index: usize, field: Field) -> (found: Result<String, DecodeFault>)
    requires
        field != Field::Completed,
    ensures
        match found {
            Ok(text) => entry@.member(field.key()) == Some(JsonDoc::Text(text@)),
            Err(fault) => field_fault(entry@, index as nat, field) == Some(fault@),
        },
{
    match entry.member(field.name()) {
        None => Err(DecodeFault::MissingField { index, field }),
        Some(Json::Text(text)) => Ok(text.clone()),
        Some(_) => Err(DecodeFault::WrongType { index, field }),
    }
}

/// The boolean under `completed` in the entry at `index`.
fn flag_member(entry: &Json, index: usize) -> (found: Result<bool, DecodeFault>)
    ensures
        match found {
            Ok(flag) => entry@.member(Field::Completed.key()) == Some(JsonDoc::Bool(flag)),
            Err(fault) => field_fault(entry@, index as nat, Field::Completed) == Some(fault@),
        },
{
    match entry.member(Field::Completed.name()) {
        None => Err(DecodeFault::MissingField { index, field: Field::Completed }),
        Some(Json::Bool(flag)) => Ok(*flag),
        Some(_) => Err(DecodeFault::WrongType { index, field: Field::Completed }),
    }
}

/// The entry that the object at `index` stands for, or its fault.
pub fn decode_item(entry: &Json, index: usize) -> (outcome: Result<TodoItem, DecodeFault>)
    ensures
        match outcome {
            Ok(item) => item_fault(entry@, index as nat) is None && item@ == item_of(entry@),
            Err(fault) => item_fault(entry@, index as nat) == Some(fault@),
        },
{
    match entry {
        Json::Record(_) => {},
        _ => {
            return Err(DecodeFault::ItemNotAnObject { index });
        },
    }
    let id = match text_member(entry, index, Field::Id) {
        Ok(text) => text,
        Err(fault) => {
            return Err(fault);
        },
    };
    let content = match text_member(entry, index, Field::Content) {
        Ok(text) => text,
        Err(fault) => {
            return Err(fault);
        },
    };
    let completed = match flag_member(entry, index) {
        Ok(flag) => flag,
        Err(fault) => {
            return Err(fault);
        },
    };
    let date = match text_member(entry, index, Field::Date) {
        Ok(text) => text,
        Err(fault) => {
            return Err(fault);
        },
    };
    let created_at = match text_member(entry, index, Field::CreatedAt) {
        Ok(text) => text,
        Err(fault) => {
            return Err(fault);
        },
    };
    Ok(TodoItem { id, content, completed, date, created_at })
}

/// The collection that a document stands for, or why it stands for none.
pub fn decode(json: &Json) -> (outcome: Result<TodoData, DecodeFault>)
    ensures
        outcome_view(outcome) == decoded(json@),
{
    match json {
        Json::Record(_) => {},
        _ => {
            return Err(DecodeFault::NotAnObject);
        },
    }
    let entries = match json.member("todos") {
        None => {
            return Err(DecodeFault::NoTodos);
        },
        Some(Json::List(entries)) => entries,
        Some(_) => {
            return Err(DecodeFault::TodosNotAnArray);
        },
    };
    let ghost docs = json@.member(todos_key())->0->List_0;
    assert forall|k: int| 0 <= k < entries@.len() implies #[trigger] docs[k] == entries@[k]@ by {}
    let mut todos: Vec<TodoItem> = Vec::new();
    let mut i: usize = 0;
    while i < entries.len()
        invariant
            i <= entries.len(),
            todos.len() == i,
            json@ is Record,
            json@.member(todos_key()) == Some(JsonDoc::List(docs)),
            docs.len() == entries@.len(),
            forall|k: int| 0 <= k < entries@.len() ==> #[trigger] docs[k] == entries@[k]@,
            first_fault(docs, 0) == first_fault(docs, i as nat),
            forall|k: int| 0 <= k < i ==> (#[trigger] todos[k])@ == item_of(docs[k]),
        decreases entries.len() - i,
    {
        match decode_item(&entries[i], i) {
            Ok(item) => {
                todos.push(item);
            },
            Err(fault) => {
                return Err(fault);
            },
        }
        i += 1;
    }
    let data = TodoData { todos };
    assert(data@ =~= Seq::new(docs.len(), |i: int| item_of(docs[i])));
    Ok(data)
}

} // verus!
