//! What can go wrong, and how a caller is told.

use vstd::prelude::*;
use crate::item::Field;

verus! {

/// Why a text is no to-do document.
#[derive(Debug, PartialEq, Eq)]
pub enum DecodeFault {
    /// The text is not JSON; the parser's complaint is kept.
    NotJson(String),
    /// The document is not an object.
    NotAnObject,
    /// The object has no member `todos`.
    NoTodos,
    /// The member `todos` is not an array.
    TodosNotAnArray,
    /// The entry at `index` is not an object.
    ItemNotAnObject { index: usize },
    /// The entry at `index` lacks `field`.
    MissingField { index: usize, field: Field },
    /// The entry at `index` holds something else than `field` asks for.
    WrongType { index: usize, field: Field },
}

/// A `DecodeFault` as a mathematical value.
pub enum DecodeFaultView {
    NotJson(Seq<char>),
    NotAnObject,
    NoTodos,
    TodosNotAnArray,
    ItemNotAnObject { index: nat },
    MissingField { index: nat, field: Field },
    WrongType { index: nat, field: Field },
}

impl View for DecodeFault {
    type V = DecodeFaultView;

    open spec fn view(&self) -> DecodeFaultView {
        match self {
            DecodeFault::NotJson(complaint) => DecodeFaultView::NotJson(complaint@),
            DecodeFault::NotAnObject => DecodeFaultView::NotAnObject,
            DecodeFault::NoTodos => DecodeFaultView::NoTodos,
            DecodeFault::TodosNotAnArray => DecodeFaultView::TodosNotAnArray,
            DecodeFault::ItemNotAnObject { index } => DecodeFaultView::ItemNotAnObject {
                index: *index as nat,
            },
            DecodeFault::MissingField { index, field } => DecodeFaultView::MissingField {
                index: *index as nat,
                field: *field,
            },
            DecodeFault::WrongType { index, field } => DecodeFaultView::WrongType {
                index: *index as nat,
                field: *field,
            },
        }
    }
}

/// Why the data file has no place.
#[derive(Debug, PartialEq, Eq)]
pub enum PathError {
    /// The platform names no local data directory for this user.
    DirectoryUnavailable,
    /// The directory could not be created; the system's complaint is kept.
    DirectoryCreateFailed(String),
}

/// A `PathError` as a mathematical value.
pub enum PathErrorView {
    DirectoryUnavailable,
    DirectoryCreateFailed(Seq<char>),
}

impl View for PathError {
    type V = PathErrorView;

    open spec fn view(&self) -> PathErrorView {
        match self {
            PathError::DirectoryUnavailable => PathErrorView::DirectoryUnavailable,
            PathError::DirectoryCreateFailed(complaint) => PathErrorView::DirectoryCreateFailed(
                complaint@,
            ),
        }
    }
}

/// Why a save or a load failed.
#[derive(Debug, PartialEq, Eq)]
pub enum StoreError {
    PathResolutionFailed(PathError),
    SerializationFailed(String),
    DeserializationFailed(DecodeFault),
    WriteFailed(String),
    ReadFailed(String),
}

/// A `StoreError` as a mathematical value.
pub enum StoreErrorView {
    PathResolutionFailed(PathErrorView),
    SerializationFailed(Seq<char>),
    DeserializationFailed(DecodeFaultView),
    WriteFailed(Seq<char>),
    ReadFailed(Seq<char>),
}

impl View for StoreError {
    type V = StoreErrorView;

    open spec fn view(&self) -> StoreErrorView {
        match self {
            StoreError::PathResolutionFailed(cause) => StoreErrorView::PathResolutionFailed(cause@),
            StoreError::SerializationFailed(complaint) => StoreErrorView::SerializationFailed(
                complaint@,
            ),
            StoreError::DeserializationFailed(fault) => StoreErrorView::DeserializationFailed(
                fault@,
            ),
            StoreError::WriteFailed(complaint) => StoreErrorView::WriteFailed(complaint@),
            StoreError::ReadFailed(complaint) => StoreErrorView::ReadFailed(complaint@),
        }
    }
}

/// The decimal digit `digit`, as text.
pub open spec fn digit_text(digit: nat) -> Seq<char> {
    if digit == 0 {
        "0"@
    } else if digit == 1 {
        "1"@
    } else if digit == 2 {
        "2"@
    } else if digit == 3 {
        "3"@
    } else if digit == 4 {
        "4"@
    } else if digit == 5 {
        "5"@
    } else if digit == 6 {
        "6"@
    } else if digit == 7 {
        "7"@
    } else if digit == 8 {
        "8"@
    } else {
        "9"@
    }
}

/// A number in decimal, without leading zeros.
pub open spec fn decimal_text(n: nat) -> Seq<char>
    decreases n,
{
    if n < 10 {
        digit_text(n)
    } else {
        decimal_text(n / 10) + digit_text(n % 10)
    }
}

/// A decimal digit as text.
fn digit(d: usize) -> (text: &'static str)
    requires
        d < 10,
    ensures
        text@ == digit_text(d as nat),
{
    if d == 0 {
        "0"
    } else if d == 1 {
        "1"
    } else if d == 2 {
        "2"
    } else if d == 3 {
        "3"
    } else if d == 4 {
        "4"
    } else if d == 5 {
        "5"
    } else if d == 6 {
        "6"
    } else if d == 7 {
        "7"
    } else if d == 8 {
        "8"
    } else {
        "9"
    }
}

/// A number in decimal, without leading zeros.
pub fn decimal(n: usize) -> (text: String)
    ensures
        text@ == decimal_text(n as nat),
    decreases n,
{
    if n < 10 {
        digit(n).to_owned()
    } else {
        let mut text = decimal(n / 10);
        text.append(digit(n % 10));
        text
    }
}

impl DecodeFaultView {
    /// The fault in words.
    pub open spec fn text(self) -> Seq<char> {
        match self {
            DecodeFaultView::NotJson(complaint) => complaint,
            DecodeFaultView::NotAnObject => "the document is not an object"@,
            DecodeFaultView::NoTodos => "missing field `todos`"@,
            DecodeFaultView::TodosNotAnArray => "field `todos` is not an array"@,
            DecodeFaultView::ItemNotAnObject { index } => "todos["@ + decimal_text(index)
                + "] is not an object"@,
            DecodeFaultView::MissingField { index, field } => "todos["@ + decimal_text(index)
                + "]: missing field `"@ + field.key() + "`"@,
            DecodeFaultView::WrongType { index, field } => "todos["@ + decimal_text(index)
                + "]: field `"@ + field.key() + "` has the wrong type"@,
        }
    }
}

impl DecodeFault {
    /// The fault in words.
    pub fn message(&self) -> (text: String)
        ensures
            text@ == self@.text(),
    {
        match self {
            DecodeFault::NotJson(complaint) => complaint.clone(),
            DecodeFault::NotAnObject => "the document is not an object".to_owned(),
            DecodeFault::NoTodos => "missing field `todos`".to_owned(),
            DecodeFault::TodosNotAnArray => "field `todos` is not an array".to_owned(),
            DecodeFault::ItemNotAnObject { index } => {
                let mut text = "todos[".to_owned();
                text.append(decimal(*index).as_str());
                text.append("] is not an object");
                text
            },
            DecodeFault::MissingField { index, field } => {
                let mut text = "todos[".to_owned();
                text.append(decimal(*index).as_str());
                text.append("]: missing field `");
                text.append(field.name());
                text.append("`");
                text
            },
            DecodeFault::WrongType { index, field } => {
                let mut text = "todos[".to_owned();
                text.append(decimal(*index).as_str());
                text.append("]: field `");
                text.append(field.name());
                text.append("` has the wrong type");
                text
            },
        }
    }
}

impl StoreErrorView {
    /// The failure as the message that a caller is shown.
    pub open spec fn text(self) -> Seq<char> {
        match self {
            StoreErrorView::PathResolutionFailed(cause) => match cause {
                PathErrorView::DirectoryUnavailable => "无法获取应用数据目录"@,
                PathErrorView::DirectoryCreateFailed(complaint) => complaint,
            },
            StoreErrorView::SerializationFailed(complaint) => {
                "序列化数据失败: "@ + complaint
            },
            StoreErrorView::DeserializationFailed(fault) => "解析数据失败: "@ + fault.text(),
            StoreErrorView::WriteFailed(complaint) => "写入文件失败: "@ + complaint,
            StoreErrorView::ReadFailed(complaint) => "读取文件失败: "@ + complaint,
        }
    }
}

impl StoreError {
    /// The failure as the message that a caller is shown.
    pub fn message(&self) -> (text: String)
        ensures
            text@ == self@.text(),
    {
        match self {
            StoreError::PathResolutionFailed(cause) => match cause {
                PathError::DirectoryUnavailable => "无法获取应用数据目录".to_owned(),
                PathError::DirectoryCreateFailed(complaint) => complaint.clone(),
            },
            StoreError::SerializationFailed(complaint) => {
                let mut text = "序列化数据失败: ".to_owned();
                text.append(complaint.as_str());
                text
            },
            StoreError::DeserializationFailed(fault) => {
                let mut text = "解析数据失败: ".to_owned();
                text.append(fault.message().as_str());
                text
            },
            StoreError::WriteFailed(complaint) => {
                let mut text = "写入文件失败: ".to_owned();
                text.append(complaint.as_str());
                text
            },
            StoreError::ReadFailed(complaint) => {
                let mut text = "读取文件失败: ".to_owned();
                text.append(complaint.as_str());
                text
            },
        }
    }
}

} // verus!
