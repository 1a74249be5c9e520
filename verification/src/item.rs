//! The records that the store keeps.

use vstd::prelude::*;

verus! {

/// One to-do entry. The store passes every field through as it was given.
#[derive(Debug, Clone, PartialEq, Eq)]
pub struct TodoItem {
    pub id: String,
    pub content: String,
    pub completed: bool,
    pub date: String,
    pub created_at: String,
}

/// A to-do entry as a mathematical value.
pub struct TodoItemView {
    pub id: Seq<char>,
    pub content: Seq<char>,
    pub completed: bool,
    pub date: Seq<char>,
    pub created_at: Seq<char>,
}

impl View for TodoItem {
    type V = TodoItemView;

    open spec fn view(&self) -> TodoItemView {
        TodoItemView {
            id: self.id@,
            content: self.content@,
            completed: self.completed,
            date: self.date@,
            created_at: self.created_at@,
        }
    }
}

/// A field of a to-do entry as the document names it.
#[derive(Debug, Clone, Copy, PartialEq, Eq, Structural)]
pub enum Field {
    Id,
    Content,
    Completed,
    Date,
    CreatedAt,
}

impl Field {
    /// The key under which the document holds the field.
    pub open spec fn key(self) -> Seq<char> {
        match self {
            Field::Id => "id"@,
            Field::Content => "content"@,
            Field::Completed => "completed"@,
            Field::Date => "date"@,
            Field::CreatedAt => "created_at"@,
        }
    }

    /// The key under which the document holds the field.
    pub fn name(self) -> (name: &'static str)
        ensures
            name@ == self.key(),
    {
        match self {
            Field::Id => "id",
            Field::Content => "content",
            Field::Completed => "completed",
            Field::Date => "date",
            Field::CreatedAt => "created_at",
        }
    }
}

/// What the data file holds: the entries, in the caller's order.
#[derive(Debug, PartialEq, Eq)]
pub struct TodoData {
    pub todos: Vec<TodoItem>,
}

impl View for TodoData {
    type V = Seq<TodoItemView>;

    open spec fn view(&self) -> Seq<TodoItemView> {
        items_view(self.todos@)
    }
}

/// The entries of a list, each as a mathematical value.
pub open spec fn items_view(items: Seq<TodoItem>) -> Seq<TodoItemView> {
    Seq::new(items.len(), |i: int| items[i]@)
}

impl Default for TodoData {
    /// The empty collection.
    fn default() -> (data: TodoData)
        ensures
            data@ == Seq::<TodoItemView>::empty(),
    {
        TodoData { todos: Vec::new() }
    }
}

} // verus!
