use form_validation::concat_results;
use form_validation::MessagePart;
use form_validation::ValidationError;
use form_validation::ValidationErrors;

fn error_for(key: &str, type_id: &'static str) -> ValidationError<String> {
    ValidationError::new(key.to_string(), type_id)
}

#[test]
fn new_error_has_generic_message() {
    let error = error_for("field1", "TEST_ERROR");
    assert_eq!("Validation error", error.get_message());
    assert_eq!("TEST_ERROR", error.type_id);
    assert_eq!("field1", error.key);
}

#[test]
fn message_sets_a_constant_text() {
    let error = error_for("field1", "TEST_ERROR").message("that value will not do".to_string());
    assert_eq!("that value will not do", error.get_message());
}

#[test]
fn with_message_renders_lazily_with_the_key() {
    let value = -10;
    let error = error_for("field1", "NOT_LESS_THAN_0").with_message(vec![
        MessagePart::Text("The value of ".to_string()),
        MessagePart::FieldName,
        MessagePart::Text(format!(" ({}) cannot be less than 0", value)),
    ]);
    assert_eq!(
        "The value of field1 (-10) cannot be less than 0",
        error.get_message()
    );
    assert_eq!("NOT_LESS_THAN_0", error.type_id);
    // Rendering is repeatable: the same message comes out every time.
    assert_eq!(
        "The value of field1 (-10) cannot be less than 0",
        error.get_message()
    );
}

#[test]
fn get_filters_by_key_and_keeps_order() {
    let errors = ValidationErrors::new(vec![
        error_for("field1", "FIRST"),
        error_for("field2", "OTHER"),
        error_for("field1", "SECOND"),
    ]);
    let field1 = errors.get(&"field1".to_string()).unwrap();
    assert_eq!(2, field1.len());
    assert_eq!("FIRST", field1.errors[0].type_id);
    assert_eq!("SECOND", field1.errors[1].type_id);

    let field2 = errors.get(&"field2".to_string()).unwrap();
    assert_eq!(1, field2.len());
    assert_eq!("OTHER", field2.errors[0].type_id);

    assert!(errors.get(&"field3".to_string()).is_none());
}

#[test]
fn get_on_empty_collection_reports_no_errors() {
    let errors: ValidationErrors<String> = ValidationErrors::default();
    assert!(errors.get(&"field1".to_string()).is_none());
}

#[test]
fn extend_appends_preserving_order() {
    let mut all: ValidationErrors<String> = ValidationErrors::default();
    assert!(all.is_empty());
    all.extend(ValidationErrors::new(vec![error_for("field1", "A")]));
    all.extend(ValidationErrors::new(vec![
        error_for("field2", "B"),
        error_for("field1", "C"),
    ]));
    assert_eq!(3, all.len());
    assert!(!all.is_empty());
    assert_eq!("A", all.errors[0].type_id);
    assert_eq!("B", all.errors[1].type_id);
    assert_eq!("C", all.errors[2].type_id);
}

#[test]
fn to_text_joins_messages_in_order() {
    let errors = ValidationErrors::new(vec![
        error_for("field1", "A").message("first message".to_string()),
        error_for("field2", "B").message("second message".to_string()),
    ]);
    assert_eq!("first message, second message", errors.to_text());
}

#[test]
fn concat_results_merges_errors_in_order() {
    let results = vec![
        Ok(()),
        Err(ValidationErrors::new(vec![error_for("field1", "TEST_ERROR1")])),
        Err(ValidationErrors::new(vec![error_for("field1", "TEST_ERROR2")])),
        Err(ValidationErrors::new(vec![error_for("field2", "TEST_ERROR1")])),
    ];

    let errors = concat_results(results).unwrap_err();
    assert_eq!(3, errors.len());
    assert_eq!("TEST_ERROR1", errors.errors[0].type_id);
    assert_eq!("TEST_ERROR2", errors.errors[1].type_id);
    assert_eq!("TEST_ERROR1", errors.errors[2].type_id);

    let field1_errors = errors.get(&"field1".to_string()).unwrap();
    assert_eq!(2, field1_errors.len());
    assert_eq!("TEST_ERROR1", field1_errors.errors[0].type_id);
    assert_eq!("TEST_ERROR2", field1_errors.errors[1].type_id);

    let field2_errors = errors.get(&"field2".to_string()).unwrap();
    assert_eq!(1, field2_errors.len());
}

#[test]
fn concat_results_of_successes_is_success() {
    let results: Vec<Result<(), ValidationErrors<String>>> = vec![Ok(()), Ok(()), Ok(())];
    assert!(concat_results(results).is_ok());
}

#[test]
fn concat_results_of_nothing_is_success() {
    let results: Vec<Result<(), ValidationErrors<String>>> = Vec::new();
    assert!(concat_results(results).is_ok());
}

#[test]
fn concat_results_is_the_same_under_grouping() {
    // Joining in two steps gives the same errors, in the same order, as
    // joining everything in one pass.
    let grouped = concat_results(vec![
        concat_results(vec![
            Err(ValidationErrors::new(vec![error_for("field1", "A")])),
            Err(ValidationErrors::new(vec![error_for("field1", "B")])),
        ]),
        Err(ValidationErrors::new(vec![error_for("field2", "C")])),
    ])
    .unwrap_err();

    let flat = concat_results(vec![
        Err(ValidationErrors::new(vec![error_for("field1", "A")])),
        Err(ValidationErrors::new(vec![error_for("field1", "B")])),
        Err(ValidationErrors::new(vec![error_for("field2", "C")])),
    ])
    .unwrap_err();

    assert_eq!(grouped.len(), flat.len());
    for (left, right) in grouped.errors.iter().zip(flat.errors.iter()) {
        assert_eq!(left.type_id, right.type_id);
        assert_eq!(left.key, right.key);
    }
}

#[test]
fn concat_results_treats_an_empty_failure_as_success() {
    // A failure that carries no errors contributes nothing, so a run made
    // only of such failures joins to success.
    let results = vec![Err(ValidationErrors::new(Vec::new())), Ok(())];
    assert!(concat_results::<String>(results).is_ok());
}

#[test]
fn cloned_errors_equal_the_originals() {
    let errors = ValidationErrors::new(vec![
        error_for("field1", "A").message("kept on copy".to_string()),
    ]);
    let copy = errors.clone();
    assert_eq!(1, copy.len());
    assert_eq!("A", copy.errors[0].type_id);
    assert_eq!("field1", copy.errors[0].key);
    assert_eq!("kept on copy", copy.errors[0].get_message());
}
