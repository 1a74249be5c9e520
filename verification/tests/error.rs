use todolist::error::{decimal, DecodeFault, PathError, StoreError};
use todolist::item::Field;

#[test]
fn field_names_are_the_keys_of_the_document() {
    assert_eq!(Field::Id.name(), "id");
    assert_eq!(Field::Content.name(), "content");
    assert_eq!(Field::Completed.name(), "completed");
    assert_eq!(Field::Date.name(), "date");
    assert_eq!(Field::CreatedAt.name(), "created_at");
}

#[test]
fn decimal_writes_numbers_without_leading_zeros() {
    assert_eq!(decimal(0), "0");
    assert_eq!(decimal(7), "7");
    assert_eq!(decimal(10), "10");
    assert_eq!(decimal(409), "409");
    assert_eq!(decimal(1234567890), "1234567890");
    assert_eq!(decimal(usize::MAX), usize::MAX.to_string());
}

#[test]
fn fault_messages_name_place_and_field() {
    assert_eq!(DecodeFault::NotJson("expected value".to_string()).message(), "expected value");
    assert_eq!(DecodeFault::NotAnObject.message(), "the document is not an object");
    assert_eq!(DecodeFault::NoTodos.message(), "missing field `todos`");
    assert_eq!(DecodeFault::TodosNotAnArray.message(), "field `todos` is not an array");
    assert_eq!(
        DecodeFault::ItemNotAnObject { index: 12 }.message(),
        "todos[12] is not an object"
    );
    assert_eq!(
        DecodeFault::MissingField { index: 0, field: Field::CreatedAt }.message(),
        "todos[0]: missing field `created_at`"
    );
    assert_eq!(
        DecodeFault::WrongType { index: 3, field: Field::Completed }.message(),
        "todos[3]: field `completed` has the wrong type"
    );
}

#[test]
fn store_messages_carry_their_prefix() {
    assert_eq!(
        StoreError::PathResolutionFailed(PathError::DirectoryUnavailable).message(),
        "无法获取应用数据目录"
    );
    assert_eq!(
        StoreError::PathResolutionFailed(PathError::DirectoryCreateFailed(
            "Permission denied (os error 13)".to_string()
        ))
        .message(),
        "Permission denied (os error 13)"
    );
    assert_eq!(
        StoreError::SerializationFailed("key must be a string".to_string()).message(),
        "序列化数据失败: key must be a string"
    );
    assert_eq!(
        StoreError::DeserializationFailed(DecodeFault::NoTodos).message(),
        "解析数据失败: missing field `todos`"
    );
    assert_eq!(
        StoreError::WriteFailed("No space left on device (os error 28)".to_string()).message(),
        "写入文件失败: No space left on device (os error 28)"
    );
    assert_eq!(
        StoreError::ReadFailed("stream did not contain valid UTF-8".to_string()).message(),
        "读取文件失败: stream did not contain valid UTF-8"
    );
}
