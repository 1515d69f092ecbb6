use stated_dialogues::record::{FieldDoesntExist, Record, SameFieldAlreadyExist};

#[test]
fn test_field_add() {
    let fields = vec![("Field1".to_string(), "Value1".to_string())];
    let mut record = Record::new(fields);

    record
        .add_field("Field2".to_string(), "Value2".to_string())
        .unwrap();

    assert_eq!(
        record.get_fields(),
        vec![
            (&"Field1".to_string(), &"Value1".to_string()),
            (&"Field2".to_string(), &"Value2".to_string()),
        ]
    )
}

#[test]
fn test_field_add_err() {
    let fields = vec![("Field1".to_string(), "Value1".to_string())];
    let mut record = Record::new(fields);

    let result = record.add_field("Field1".to_string(), "Value2".to_string());
    assert_eq!(result, Err(SameFieldAlreadyExist));
}

#[test]
fn test_field_update() {
    let fields = vec![("Field1".to_string(), "Value1".to_string())];
    let mut record = Record::new(fields);

    record
        .update_field("Field1".to_string(), "Value2".to_string())
        .unwrap();

    assert_eq!(
        record.get_fields(),
        vec![(&"Field1".to_string(), &"Value2".to_string()),]
    )
}

#[test]
fn test_field_update_err() {
    let fields = vec![("Field1".to_string(), "Value1".to_string())];
    let mut record = Record::new(fields);

    let result = record.update_field("Field2".to_string(), "Value2".to_string());

    assert_eq!(result, Err(FieldDoesntExist));
}

#[test]
fn record_ids_are_fresh_hyphenated_uuids() {
    let a = Record::new(vec![]);
    let b = Record::new(vec![]);
    assert_eq!(a.id.len(), 36);
    assert_eq!(a.id.matches('-').count(), 4);
    assert_eq!(&a.id[14..15], "4");
    assert!(a.id.chars().all(|c| c == '-' || c.is_ascii_digit() || ('a'..='f').contains(&c)));
    assert_ne!(a.id, b.id);
}

#[test]
fn failed_add_leaves_record_unchanged() {
    let mut record = Record::new(vec![("Login".to_string(), "me".to_string())]);
    let before = record.clone();
    assert_eq!(
        record.add_field("Login".to_string(), "other".to_string()),
        Err(SameFieldAlreadyExist)
    );
    assert_eq!(record, before);
}

#[test]
fn update_changes_only_the_named_field() {
    let mut record = Record::new(vec![
        ("Login".to_string(), "me".to_string()),
        ("Password".to_string(), "old".to_string()),
        ("Note".to_string(), "n".to_string()),
    ]);
    record
        .update_field("Password".to_string(), "new".to_string())
        .unwrap();
    assert_eq!(
        record.get_fields(),
        vec![
            (&"Login".to_string(), &"me".to_string()),
            (&"Password".to_string(), &"new".to_string()),
            (&"Note".to_string(), &"n".to_string()),
        ]
    );
}

#[test]
fn empty_record_has_no_fields() {
    let mut record = Record::new(vec![]);
    assert!(record.get_fields().is_empty());
    assert_eq!(
        record.update_field("Any".to_string(), "v".to_string()),
        Err(FieldDoesntExist)
    );
    record.add_field("Any".to_string(), "v".to_string()).unwrap();
    assert_eq!(record.get_fields().len(), 1);
}
