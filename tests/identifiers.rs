use qa_backend::model::{AnswerRow, DBError, HandlerError, QuestionRow};
use qa_backend::records::{
    answer_detail_of, answer_insert_error, is_foreign_key_violation, parse_identifier,
    question_detail_of, question_details_of, unknown_question_error,
};
use qa_backend::handlers::{handler_error_of, status_code};

#[test]
fn parses_hyphenated_identifier() {
    let r = parse_identifier("550e8400-e29b-41d4-a716-446655440000");
    assert_eq!(r, Ok(0x550e8400_e29b_41d4_a716_446655440000u128));
}

#[test]
fn parses_other_spellings_to_same_value() {
    let v = 0x550e8400_e29b_41d4_a716_446655440000u128;
    assert_eq!(parse_identifier("550e8400e29b41d4a716446655440000"), Ok(v));
    assert_eq!(parse_identifier("{550e8400-e29b-41d4-a716-446655440000}"), Ok(v));
    assert_eq!(parse_identifier("urn:uuid:550e8400-e29b-41d4-a716-446655440000"), Ok(v));
    assert_eq!(parse_identifier("URN:UUID:550E8400-E29B-41D4-A716-446655440000"), Ok(v));
}

#[test]
fn rejects_malformed_identifiers() {
    for s in [
        "",
        "not-a-uuid",
        "550e8400-e29b-41d4-a716-44665544000",
        "550e8400-e29b-41d4-a716-4466554400000",
        "550e8400-e29b-41d4-a716_446655440000",
        "550e8400-e29b-41d4-a716-44665544000g",
        "{550e8400-e29b-41d4-a716-446655440000",
        "urx:uuid:550e8400-e29b-41d4-a716-446655440000",
    ] {
        match parse_identifier(s) {
            Err(DBError::InvalidUUID(_)) => {}
            other => panic!("{:?} gave {:?}", s, other),
        }
    }
}

#[test]
fn formats_rows_with_canonical_identifiers() {
    let row = QuestionRow {
        question_uuid: 0x550E8400_E29B_41D4_A716_446655440000u128,
        title: "T".to_string(),
        description: "D".to_string(),
        created_at: "now".to_string(),
    };
    let d = question_detail_of(&row);
    assert_eq!(d.question_uuid, "550e8400-e29b-41d4-a716-446655440000");
    assert_eq!(d.title, "T");
    assert_eq!(d.description, "D");
    assert_eq!(d.created_at, "now");

    let a = answer_detail_of(&AnswerRow {
        answer_uuid: 1,
        question_uuid: 2,
        content: "C".to_string(),
        created_at: "then".to_string(),
    });
    assert_eq!(a.answer_uuid, "00000000-0000-0000-0000-000000000001");
    assert_eq!(a.question_uuid, "00000000-0000-0000-0000-000000000002");
    assert_eq!(a.content, "C");
    assert_eq!(a.created_at, "then");
}

#[test]
fn formats_every_row_in_order() {
    let rows = vec![
        QuestionRow { question_uuid: 3, title: "a".to_string(), description: "b".to_string(), created_at: "x".to_string() },
        QuestionRow { question_uuid: 4, title: "c".to_string(), description: "d".to_string(), created_at: "y".to_string() },
    ];
    let ds = question_details_of(&rows);
    assert_eq!(ds.len(), 2);
    assert_eq!(ds[0].question_uuid, "00000000-0000-0000-0000-000000000003");
    assert_eq!(ds[1].title, "c");
    assert!(question_details_of(&Vec::new()).is_empty());
}

#[test]
fn foreign_key_violation_names_the_question() {
    assert!(is_foreign_key_violation(&"23503".to_string()));
    assert!(!is_foreign_key_violation(&"23505".to_string()));
    let e = answer_insert_error(Some("23503".to_string()), "fk".to_string(), "abc");
    assert_eq!(e, DBError::InvalidUUID("Invalid uuid abc".to_string()));
    assert_eq!(unknown_question_error("q"), DBError::InvalidUUID("Invalid uuid q".to_string()));
}

#[test]
fn other_insert_failures_are_storage_errors() {
    let e = answer_insert_error(Some("23505".to_string()), "dup".to_string(), "abc");
    assert_eq!(e, DBError::Other("dup".to_string()));
    let e = answer_insert_error(None, "pool closed".to_string(), "abc");
    assert_eq!(e, DBError::Other("pool closed".to_string()));
}

#[test]
fn storage_errors_are_retyped() {
    let h = handler_error_of(DBError::InvalidUUID("bad".to_string()));
    assert_eq!(h, HandlerError::BadRequest("bad".to_string()));
    assert_eq!(status_code(&h), 400);
    let h = handler_error_of(DBError::Other("secret cause".to_string()));
    assert_eq!(h, HandlerError::InternalError("Internal server error".to_string()));
    assert_eq!(status_code(&h), 500);
}
