use stated_dialogues::book::RecordsBook;
use stated_dialogues::record::Record;
use stated_dialogues::storage::{AddRecordError, UpdateRecordError};

fn record(id: &str, name: &str) -> Record {
    Record::with_id(id.to_string(), vec![("RECORD_NAME".to_string(), name.to_string())])
}

fn names(book: &RecordsBook) -> Vec<String> {
    book.get_records()
        .into_iter()
        .map(|r| format!("{}={}", r.id, r.get_fields()[0].1))
        .collect()
}

#[test]
fn add_get_and_reject_duplicate_ids() {
    let mut book = RecordsBook::new();
    book.add_record(record("a", "one")).unwrap();
    book.add_record(record("b", "two")).unwrap();
    assert!(matches!(book.add_record(record("a", "again")), Err(AddRecordError::RecordDoesntExist)));
    assert_eq!(names(&book), vec!["a=one", "b=two"]);
    assert_eq!(book.get(&"b".to_string()).unwrap().get_fields()[0].1, "two");
    assert!(book.get(&"c".to_string()).is_none());
}

#[test]
fn delete_and_update() {
    let mut book = RecordsBook::new();
    book.add_record(record("a", "one")).unwrap();
    book.add_record(record("b", "two")).unwrap();
    book.update(record("a", "uno")).unwrap();
    assert_eq!(names(&book), vec!["b=two", "a=uno"]);
    assert!(matches!(book.update(record("z", "x")), Err(UpdateRecordError::RecordDoesntExist)));
    book.delete(&"b".to_string()).unwrap();
    assert!(matches!(book.delete(&"b".to_string()), Err(UpdateRecordError::RecordDoesntExist)));
    assert_eq!(names(&book), vec!["a=uno"]);
}

#[test]
fn cancel_goes_back_to_the_last_save() {
    let mut book = RecordsBook::new();
    book.add_record(record("a", "one")).unwrap();
    book.mark_saved();
    book.add_record(record("b", "two")).unwrap();
    book.delete(&"a".to_string()).unwrap();
    let copy = book.clone();
    book.cancel();
    assert_eq!(names(&book), vec!["a=one"]);
    assert_eq!(names(&copy), vec!["b=two"]);
}
