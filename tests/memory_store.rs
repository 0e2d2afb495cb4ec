use qa_backend::answers_dao::AnswersDao;
use qa_backend::handlers::{
    create_answer, create_question, delete_answer, delete_question, read_answers, read_questions,
};
use qa_backend::memory_store::MemoryStore;
use qa_backend::model::{Answer, AnswerId, DBError, HandlerError, Question, QuestionId};
use qa_backend::questions_dao::QuestionsDao;
use qa_backend::records::parse_identifier;

fn question(t: &str, d: &str) -> Question {
    Question { title: t.to_string(), description: d.to_string() }
}

fn answer(q: &str, c: &str) -> Answer {
    Answer { question_uuid: q.to_string(), content: c.to_string() }
}

#[test]
fn created_questions_keep_fields_and_get_fresh_identifiers() {
    let mut s = MemoryStore::new();
    s.set_clock("2024-01-01 00:00:00".to_string());
    let a = s.create_question(question("T", "D")).unwrap();
    let b = s.create_question(question("T", "D")).unwrap();
    assert_eq!(a.title, "T");
    assert_eq!(a.description, "D");
    assert_eq!(a.created_at, "2024-01-01 00:00:00");
    assert!(parse_identifier(&a.question_uuid).is_ok());
    assert!(parse_identifier(&b.question_uuid).is_ok());
    assert_ne!(a.question_uuid, b.question_uuid);
    let all = s.get_questions().unwrap();
    assert_eq!(all, vec![a, b]);
}

#[test]
fn empty_title_is_accepted() {
    let mut s = MemoryStore::new();
    let a = s.create_question(question("", "")).unwrap();
    assert_eq!(a.title, "");
    assert_eq!(s.get_questions().unwrap().len(), 1);
}

#[test]
fn malformed_identifiers_are_invalid() {
    let mut s = MemoryStore::new();
    s.create_question(question("T", "D")).unwrap();
    for bad in ["", "x", "1234", "00000000-0000-0000-0000-00000000000z"] {
        assert!(matches!(s.delete_question(bad.to_string()), Err(DBError::InvalidUUID(_))));
        assert!(matches!(s.delete_answer(bad.to_string()), Err(DBError::InvalidUUID(_))));
        assert!(matches!(s.get_answers(bad.to_string()), Err(DBError::InvalidUUID(_))));
        assert!(matches!(s.create_answer(answer(bad, "C")), Err(DBError::InvalidUUID(_))));
    }
    assert_eq!(s.get_questions().unwrap().len(), 1);
}

#[test]
fn answer_to_missing_question_is_invalid() {
    let mut s = MemoryStore::new();
    let missing = "550e8400-e29b-41d4-a716-446655440000";
    assert_eq!(
        s.create_answer(answer(missing, "C")),
        Err(DBError::InvalidUUID(format!("Invalid uuid {}", missing)))
    );
    assert!(s.get_answers(missing.to_string()).unwrap().is_empty());
}

#[test]
fn answer_to_existing_question_refers_to_it() {
    let mut s = MemoryStore::new();
    let q = s.create_question(question("T", "D")).unwrap();
    let a = s.create_answer(answer(&q.question_uuid, "C")).unwrap();
    assert_eq!(a.question_uuid, q.question_uuid);
    assert_eq!(a.content, "C");
    assert_ne!(a.answer_uuid, q.question_uuid);
    let upper = q.question_uuid.to_uppercase();
    let b = s.create_answer(answer(&upper, "C2")).unwrap();
    assert_eq!(b.question_uuid, q.question_uuid);
}

#[test]
fn deleting_absent_identifiers_succeeds() {
    let mut s = MemoryStore::new();
    let q = s.create_question(question("T", "D")).unwrap();
    let absent = "550e8400-e29b-41d4-a716-446655440000".to_string();
    assert_eq!(s.delete_question(absent.clone()), Ok(()));
    assert_eq!(s.delete_answer(absent), Ok(()));
    assert_eq!(s.get_questions().unwrap(), vec![q.clone()]);
    assert_eq!(s.delete_question(q.question_uuid.clone()), Ok(()));
    assert_eq!(s.delete_question(q.question_uuid), Ok(()));
    assert!(s.get_questions().unwrap().is_empty());
}

#[test]
fn answers_are_listed_by_their_question() {
    let mut s = MemoryStore::new();
    let q1 = s.create_question(question("one", "1")).unwrap();
    let q2 = s.create_question(question("two", "2")).unwrap();
    let a1 = s.create_answer(answer(&q1.question_uuid, "a1")).unwrap();
    let b1 = s.create_answer(answer(&q2.question_uuid, "b1")).unwrap();
    let a2 = s.create_answer(answer(&q1.question_uuid, "a2")).unwrap();
    assert_eq!(s.get_answers(q1.question_uuid.clone()).unwrap(), vec![a1, a2]);
    assert_eq!(s.get_answers(q2.question_uuid.clone()).unwrap(), vec![b1]);
}

#[test]
fn deleting_a_question_keeps_its_answers() {
    let mut s = MemoryStore::new();
    let q = s.create_question(question("T", "D")).unwrap();
    let a = s.create_answer(answer(&q.question_uuid, "C")).unwrap();
    assert_eq!(s.delete_question(q.question_uuid.clone()), Ok(()));
    assert_eq!(s.get_answers(q.question_uuid.clone()).unwrap(), vec![a]);
    assert!(matches!(s.create_answer(answer(&q.question_uuid, "late")), Err(DBError::InvalidUUID(_))));
}

#[test]
fn question_answer_round_trip_through_the_logic_layer() {
    let mut s = MemoryStore::new();
    let q = create_question(&mut s, question("T", "D")).unwrap();
    assert_eq!(q.title, "T");
    assert_eq!(q.description, "D");
    let a = create_answer(&mut s, answer(&q.question_uuid, "C")).unwrap();
    let listed = read_answers(&s, QuestionId { question_uuid: q.question_uuid.clone() }).unwrap();
    assert_eq!(listed.len(), 1);
    assert_eq!(listed[0].answer_uuid, a.answer_uuid);
    assert_eq!(listed[0].content, "C");
    assert_eq!(delete_answer(&mut s, AnswerId { answer_uuid: a.answer_uuid.clone() }), Ok(()));
    let listed = read_answers(&s, QuestionId { question_uuid: q.question_uuid.clone() }).unwrap();
    assert!(listed.is_empty());
    assert_eq!(read_questions(&s).unwrap(), vec![q]);
}

#[test]
fn logic_layer_reports_bad_requests() {
    let mut s = MemoryStore::new();
    let r = delete_question(&mut s, QuestionId { question_uuid: "nope".to_string() });
    assert!(matches!(r, Err(HandlerError::BadRequest(_))));
    let r = read_answers(&s, QuestionId { question_uuid: "nope".to_string() });
    assert!(matches!(r, Err(HandlerError::BadRequest(_))));
    let r = create_answer(&mut s, answer("00000000-0000-0000-0000-000000000009", "C"));
    assert_eq!(
        r,
        Err(HandlerError::BadRequest("Invalid uuid 00000000-0000-0000-0000-000000000009".to_string()))
    );
    let r = delete_answer(&mut s, AnswerId { answer_uuid: "{bad}".to_string() });
    assert!(matches!(r, Err(HandlerError::BadRequest(_))));
}
