use todolist::error::{DecodeFault, StoreError};
use todolist::item::Field;
use todolist::item::TodoItem;
use todolist::store::{
    load_from, load_outcome, load_text, save_outcome, save_text, write_outcome, FileRead,
};
use todolist::json::Json;

fn entry(id: &str, content: &str, completed: bool, date: &str, created_at: &str) -> TodoItem {
    TodoItem {
        id: id.to_string(),
        content: content.to_string(),
        completed,
        date: date.to_string(),
        created_at: created_at.to_string(),
    }
}

fn milk() -> TodoItem {
    entry("1", "buy milk", false, "2024-01-01", "2024-01-01T10:00:00Z")
}

fn rejected(text: &str) -> DecodeFault {
    match load_text(text) {
        Err(StoreError::DeserializationFailed(fault)) => fault,
        other => panic!("expected a failure to deserialize, got {:?}", other),
    }
}

#[test]
fn one_entry_is_saved_and_loaded_unchanged() {
    let text = save_text(vec![milk()]).unwrap();
    assert_eq!(load_from(FileRead::Content(text)), Ok(vec![milk()]));
}

#[test]
fn empty_list_is_saved_and_loaded() {
    let text = save_text(Vec::new()).unwrap();
    assert_eq!(text, "{\n  \"todos\": []\n}");
    assert_eq!(load_text(&text), Ok(Vec::new()));
    assert_eq!(load_text("{\"todos\":[]}"), Ok(Vec::new()));
}

#[test]
fn saved_text_is_indented_with_fields_in_order() {
    let text = save_text(vec![milk()]).unwrap();
    let expected = "{\n  \"todos\": [\n    {\n      \"id\": \"1\",\n      \"content\": \"buy milk\",\n      \"completed\": false,\n      \"date\": \"2024-01-01\",\n      \"created_at\": \"2024-01-01T10:00:00Z\"\n    }\n  ]\n}";
    assert_eq!(text, expected);
}

#[test]
fn any_list_loads_back_in_order() {
    let todos = vec![
        entry("b", "second \"quoted\" \\ line\nbreak\ttab", true, "", "soon"),
        entry("a", "待办事项 ☑ \u{1F600}", false, "2024-02-30", "\u{0}\u{1f}"),
        entry("a", "", false, "not a date", ""),
        milk(),
    ];
    let text = save_text(todos.clone()).unwrap();
    let back = load_text(&text).unwrap();
    assert_eq!(back, todos);
    assert_eq!(back[0].id, "b");
    assert_eq!(back[1].id, "a");
    assert_eq!(back[2].id, "a");
    assert_eq!(back[3].id, "1");
}

#[test]
fn load_before_any_save_is_an_empty_list() {
    assert_eq!(load_from(FileRead::Missing), Ok(Vec::new()));
    assert_eq!(load_from(FileRead::Missing), Ok(Vec::new()));
}

#[test]
fn second_save_replaces_the_first() {
    let first = vec![milk(), entry("2", "call home", true, "d", "c")];
    let second = vec![entry("3", "water plants", false, "d3", "c3")];
    let _old = save_text(first).unwrap();
    let file = save_text(second.clone()).unwrap();
    assert_eq!(load_from(FileRead::Content(file)), Ok(second));
}

#[test]
fn unreadable_file_is_a_read_failure() {
    assert_eq!(
        load_from(FileRead::Unreadable("Permission denied (os error 13)".to_string())),
        Err(StoreError::ReadFailed("Permission denied (os error 13)".to_string()))
    );
}

#[test]
fn text_that_is_not_json_is_rejected() {
    for text in ["", "{not json", "{\"todos\":[", "{\"todos\":[]} trailing", "{\"todos\":[{\"id\":\"1\""] {
        match rejected(text) {
            DecodeFault::NotJson(complaint) => assert!(!complaint.is_empty()),
            other => panic!("expected NotJson for {:?}, got {:?}", text, other),
        }
    }
}

#[test]
fn parser_complaint_is_kept() {
    assert_eq!(
        rejected("{not json"),
        DecodeFault::NotJson("key must be a string at line 1 column 2".to_string())
    );
}

#[test]
fn document_without_todos_is_rejected() {
    assert_eq!(rejected("{}"), DecodeFault::NoTodos);
    assert_eq!(rejected("{\"items\":[]}"), DecodeFault::NoTodos);
    assert_eq!(rejected("{\"Todos\":[]}"), DecodeFault::NoTodos);
}

#[test]
fn document_that_is_no_object_is_rejected() {
    assert_eq!(rejected("[]"), DecodeFault::NotAnObject);
    assert_eq!(rejected("[{\"todos\":[]}]"), DecodeFault::NotAnObject);
    assert_eq!(rejected("null"), DecodeFault::NotAnObject);
    assert_eq!(rejected("\"todos\""), DecodeFault::NotAnObject);
    assert_eq!(rejected("12"), DecodeFault::NotAnObject);
}

#[test]
fn todos_of_another_kind_is_rejected() {
    assert_eq!(rejected("{\"todos\":null}"), DecodeFault::TodosNotAnArray);
    assert_eq!(rejected("{\"todos\":{}}"), DecodeFault::TodosNotAnArray);
    assert_eq!(rejected("{\"todos\":\"[]\"}"), DecodeFault::TodosNotAnArray);
}

#[test]
fn entry_that_is_no_object_is_rejected_with_its_index() {
    let good = "{\"id\":\"1\",\"content\":\"c\",\"completed\":true,\"date\":\"d\",\"created_at\":\"t\"}";
    let text = format!("{{\"todos\":[{},[],{}]}}", good, good);
    assert_eq!(rejected(&text), DecodeFault::ItemNotAnObject { index: 1 });
    assert_eq!(rejected("{\"todos\":[7]}"), DecodeFault::ItemNotAnObject { index: 0 });
}

#[test]
fn missing_field_is_rejected_with_index_and_name() {
    let good = "{\"id\":\"1\",\"content\":\"c\",\"completed\":true,\"date\":\"d\",\"created_at\":\"t\"}";
    let text = format!(
        "{{\"todos\":[{},{},{{\"id\":\"1\",\"content\":\"c\",\"completed\":true,\"created_at\":\"t\"}}]}}",
        good, good
    );
    assert_eq!(rejected(&text), DecodeFault::MissingField { index: 2, field: Field::Date });
    assert_eq!(
        rejected("{\"todos\":[{}]}"),
        DecodeFault::MissingField { index: 0, field: Field::Id }
    );
    assert_eq!(
        rejected("{\"todos\":[{\"id\":\"1\",\"content\":\"c\",\"date\":\"d\",\"created_at\":\"t\"}]}"),
        DecodeFault::MissingField { index: 0, field: Field::Completed }
    );
}

#[test]
fn field_of_the_wrong_kind_is_rejected() {
    assert_eq!(
        rejected("{\"todos\":[{\"id\":1,\"content\":\"c\",\"completed\":true,\"date\":\"d\",\"created_at\":\"t\"}]}"),
        DecodeFault::WrongType { index: 0, field: Field::Id }
    );
    assert_eq!(
        rejected("{\"todos\":[{\"id\":\"1\",\"content\":\"c\",\"completed\":\"true\",\"date\":\"d\",\"created_at\":\"t\"}]}"),
        DecodeFault::WrongType { index: 0, field: Field::Completed }
    );
    assert_eq!(
        rejected("{\"todos\":[{\"id\":\"1\",\"content\":\"c\",\"completed\":false,\"date\":\"d\",\"created_at\":null}]}"),
        DecodeFault::WrongType { index: 0, field: Field::CreatedAt }
    );
}

#[test]
fn first_fault_in_field_order_is_reported() {
    assert_eq!(
        rejected("{\"todos\":[{\"created_at\":1,\"completed\":true,\"date\":\"d\",\"id\":\"1\"}]}"),
        DecodeFault::MissingField { index: 0, field: Field::Content }
    );
}

#[test]
fn unknown_members_are_passed_over() {
    let text = "{\"version\":3,\"todos\":[{\"priority\":1.5,\"id\":\"1\",\"tags\":[\"x\",null],\"content\":\"buy milk\",\"completed\":false,\"date\":\"2024-01-01\",\"created_at\":\"2024-01-01T10:00:00Z\",\"extra\":{\"a\":{}}}],\"note\":null}";
    assert_eq!(load_text(text), Ok(vec![milk()]));
}

#[test]
fn compact_and_indented_text_load_alike() {
    let compact = "{\"todos\":[{\"id\":\"1\",\"content\":\"buy milk\",\"completed\":false,\"date\":\"2024-01-01\",\"created_at\":\"2024-01-01T10:00:00Z\"}]}";
    let indented = save_text(vec![milk()]).unwrap();
    assert_eq!(load_text(compact), load_text(&indented));
    assert_eq!(load_text(compact), Ok(vec![milk()]));
}

#[test]
fn members_may_come_in_any_order() {
    let text = "{\"todos\":[{\"created_at\":\"2024-01-01T10:00:00Z\",\"date\":\"2024-01-01\",\"completed\":false,\"content\":\"buy milk\",\"id\":\"1\"}]}";
    assert_eq!(load_text(text), Ok(vec![milk()]));
}

#[test]
fn outcome_of_a_save_follows_the_writer() {
    assert_eq!(save_outcome(Ok("{}".to_string())), Ok("{}".to_string()));
    assert_eq!(
        save_outcome(Err("no".to_string())),
        Err(StoreError::SerializationFailed("no".to_string()))
    );
}

#[test]
fn outcome_of_a_load_follows_the_reader() {
    assert_eq!(
        load_outcome(Err("bad".to_string())),
        Err(StoreError::DeserializationFailed(DecodeFault::NotJson("bad".to_string())))
    );
    assert_eq!(
        load_outcome(Ok(Json::Other)),
        Err(StoreError::DeserializationFailed(DecodeFault::NotAnObject))
    );
    let empty = Json::Record(vec![("todos".to_string(), Json::List(Vec::new()))]);
    assert_eq!(load_outcome(Ok(empty)), Ok(Vec::new()));
}

#[test]
fn outcome_of_a_write_follows_the_file_system() {
    assert_eq!(write_outcome(Ok(())), Ok(()));
    assert_eq!(
        write_outcome(Err("No space left on device (os error 28)".to_string())),
        Err(StoreError::WriteFailed("No space left on device (os error 28)".to_string()))
    );
}
