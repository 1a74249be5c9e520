//! Saving and loading, as far as they are computation: from a list to the
//! text of the data file, and from what was found at the data file's
//! place back to a list.

use vstd::prelude::*;
use crate::envelope::{
    decode, decoded, document_without_todos_is_rejected, encode, envelope_doc,
    envelope_is_writable, round_trip, todos_key,
};
use crate::error::{DecodeFault, DecodeFaultView, StoreError, StoreErrorView};
use crate::item::{items_view, TodoData, TodoItem, TodoItemView};
use crate::json::{Json, JsonDoc};
use crate::text::{parse, parsed, pretty, read_view, render, written_view};

verus! {

/// What a caller found where the data file should be.
#[derive(Debug, PartialEq, Eq)]
pub enum FileRead {
    /// There is no file.
    Missing,
    /// There is a file, and reading it failed with this complaint.
    Unreadable(String),
    /// The whole content of the file.
    Content(String),
}

/// A `FileRead` as a mathematical value.
pub enum FileReadView {
    Missing,
    Unreadable(Seq<char>),
    Content(Seq<char>),
}

impl View for FileRead {
    type V = FileReadView;

    open spec fn view(&self) -> FileReadView {
        match self {
            FileRead::Missing => FileReadView::Missing,
            FileRead::Unreadable(complaint) => FileReadView::Unreadable(complaint@),
            FileRead::Content(text) => FileReadView::Content(text@),
        }
    }
}

/// What saving a list comes to, given what the writer made of its
/// document: the text for the data file, or a serialization failure.
pub open spec fn saved_from(written: Result<Seq<char>, Seq<char>>) -> Result<
    Seq<char>,
    StoreErrorView,
> {
    match written {
        Ok(text) => Ok(text),
        Err(complaint) => Err(StoreErrorView::SerializationFailed(complaint)),
    }
}

/// What saving a list comes to.
pub open spec fn saved(items: Seq<TodoItemView>) -> Result<Seq<char>, StoreErrorView> {
    saved_from(pretty(envelope_doc(items)))
}

/// What loading comes to, given what the reader made of the file's text:
/// the list that the document stands for, or a failure to deserialize,
/// be it the reader's or the document's.
pub open spec fn loaded_from(read: Result<JsonDoc, Seq<char>>) -> Result<
    Seq<TodoItemView>,
    StoreErrorView,
> {
    match read {
        Err(complaint) => Err(
            StoreErrorView::DeserializationFailed(DecodeFaultView::NotJson(complaint)),
        ),
        Ok(doc) => match decoded(doc) {
            Ok(items) => Ok(items),
            Err(fault) => Err(StoreErrorView::DeserializationFailed(fault)),
        },
    }
}

/// What loading comes to, given what was found at the data file's place:
/// no file is an empty list, an unreadable file a read failure, and a
/// text whatever its document stands for.
pub open spec fn loaded(file: FileReadView) -> Result<Seq<TodoItemView>, StoreErrorView> {
    match file {
        FileReadView::Missing => Ok(Seq::empty()),
        FileReadView::Unreadable(complaint) => Err(StoreErrorView::ReadFailed(complaint)),
        FileReadView::Content(text) => loaded_from(parsed(text)),
    }
}

/// The outcome of a save as a mathematical value.
pub open spec fn save_view(outcome: Result<String, StoreError>) -> Result<
    Seq<char>,
    StoreErrorView,
> {
    match outcome {
        Ok(text) => Ok(text@),
        Err(error) => Err(error@),
    }
}

/// The outcome of a load as a mathematical value.
pub open spec fn load_view(outcome: Result<Vec<TodoItem>, StoreError>) -> Result<
    Seq<TodoItemView>,
    StoreErrorView,
> {
    match outcome {
        Ok(todos) => Ok(items_view(todos@)),
        Err(error) => Err(error@),
    }
}

/// What is saved loads back unchanged, as far as this library decides
/// it: where the text that a save wrote for a list is read back as the
/// document it was written for, loading that text gives the list, entry
/// for entry and in the same order. Nothing of an earlier save enters:
/// the text of a save is that of its own list.
pub proof fn saved_text_loads_back(items: Seq<TodoItemView>, text: Seq<char>)
    ensures
        saved(items) == Ok::<Seq<char>, StoreErrorView>(text) && parsed(text) == Ok::<
            JsonDoc,
            Seq<char>,
        >(envelope_doc(items)) ==> loaded(FileReadView::Content(text)) == Ok::<
            Seq<TodoItemView>,
            StoreErrorView,
        >(items),
{
    round_trip(items);
}

/// A damaged file does not load: a text that is not JSON, or whose
/// document has no member `todos`, gives a failure to deserialize,
/// never a partial or an empty list.
pub proof fn damaged_text_is_rejected(text: Seq<char>)
    ensures
        parsed(text) is Err || (parsed(text) matches Ok(doc) && doc.member(todos_key()) is None)
            ==> loaded(FileReadView::Content(text)) matches Err(
            StoreErrorView::DeserializationFailed(_),
        ),
{
    if let Ok(doc) = parsed(text) {
        if doc.member(todos_key()) is None {
            document_without_todos_is_rejected(doc);
        }
    }
}

/// Turns what the writer made of the document into the outcome of a save.
pub fn save_outcome(written: Result<String, String>) -> (outcome: Result<String, StoreError>)
    ensures
        save_view(outcome) == saved_from(written_view(written)),
{
    match written {
        Ok(text) => Ok(text),
        Err(complaint) => Err(StoreError::SerializationFailed(complaint)),
    }
}

/// The text to write to the data file for a list: its document, entries
/// in the given order, as indented JSON.
pub fn save_text(todos: Vec<TodoItem>) -> (outcome: Result<String, StoreError>)
    ensures
        save_view(outcome) == saved(items_view(todos@)),
{
    let data = TodoData { todos };
    let json = encode(&data);
    proof {
        envelope_is_writable(data@);
    }
    save_outcome(render(&json))
}

/// Turns the caller's attempt to write the data file into the outcome of
/// a save: done where the write went well, `WriteFailed` with the
/// complaint where it did not.
pub fn write_outcome(written: Result<(), String>) -> (outcome: Result<(), StoreError>)
    ensures
        match written {
            Ok(_) => outcome is Ok,
            Err(complaint) => outcome matches Err(error) && error@ == StoreErrorView::WriteFailed(
                complaint@,
            ),
        },
{
    match written {
        Ok(_) => Ok(()),
        Err(complaint) => Err(StoreError::WriteFailed(complaint)),
    }
}

/// Turns what the reader made of the file's text into the outcome of a
/// load.
pub fn load_outcome(read: Result<Json, String>) -> (outcome: Result<Vec<TodoItem>, StoreError>)
    ensures
        load_view(outcome) == loaded_from(read_view(read)),
{
    match read {
        Err(complaint) => Err(StoreError::DeserializationFailed(DecodeFault::NotJson(complaint))),
        Ok(json) => match decode(&json) {
            Ok(data) => Ok(data.todos),
            Err(fault) => Err(StoreError::DeserializationFailed(fault)),
        },
    }
}

/// The list that a text of the data file stands for.
pub fn load_text(text: &str) -> (outcome: Result<Vec<TodoItem>, StoreError>)
    ensures
        load_view(outcome) == loaded_from(parsed(text@)),
{
    load_outcome(parse(text))
}

/// The list to hand to the caller of a load, given what was found at the
/// data file's place.
pub fn load_from(file: FileRead) -> (outcome: Result<Vec<TodoItem>, StoreError>)
    ensures
        load_view(outcome) == loaded(file@),
{
    match file {
        FileRead::Missing => {
            let todos: Vec<TodoItem> = Vec::new();
            assert(items_view(todos@) =~= Seq::empty());
            Ok(todos)
        },
        FileRead::Unreadable(complaint) => Err(StoreError::ReadFailed(complaint)),
        FileRead::Content(text) => load_text(text.as_str()),
    }
}

} // verus!
