//! The logic layer: one operation per request, each handing its work to a
//! store and re-typing the store's errors for the transport layer.
use crate::answers_dao::{answers_for, answers_without, created_answer, AnswersDao};
use crate::model::{
    Answer, AnswerDetail, AnswerId, DBError, HandlerError, Question, QuestionDetail, QuestionId,
};
use crate::questions_dao::{created_question, questions_without, QuestionsDao};
use crate::records::{answer_details_of_rows, question_details_of_rows};
use crate::uuid_text::{is_uuid_text, uuid_value};
use vstd::prelude::*;

verus! {

/// The message a client gets for a failure of the store; the cause stays
/// inside.
pub open spec fn internal_error_message() -> Seq<char> {
    "Internal server error"@
}

/// `h` is how `e` is reported: a bad identifier is the client's fault, with
/// the store's message; anything else is an internal error.
pub open spec fn reports(h: HandlerError, e: DBError) -> bool {
    match e {
        DBError::InvalidUUID(m) => h == HandlerError::BadRequest(m),
        DBError::Other(_) => h is InternalError && h->InternalError_0@ == internal_error_message(),
    }
}

pub open spec fn is_internal(h: HandlerError) -> bool {
    h is InternalError && h->InternalError_0@ == internal_error_message()
}

/// Re-types a storage failure for the transport layer.
pub fn handler_error_of(e: DBError) -> (h: HandlerError)
    ensures
        reports(h, e),
{
    match e {
        DBError::InvalidUUID(m) => HandlerError::BadRequest(m),
        DBError::Other(_) => HandlerError::InternalError(String::from_str("Internal server error")),
    }
}

/// The HTTP status that reports `e`.
pub fn status_code(e: &HandlerError) -> (s: u16)
    ensures
        e is BadRequest ==> s == 400,
        e is InternalError ==> s == 500,
{
    match e {
        HandlerError::BadRequest(_) => 400,
        HandlerError::InternalError(_) => 500,
    }
}

/// Stores a new question.
pub fn create_question<D: QuestionsDao>(dao: &mut D, question: Question) -> (r: Result<
    QuestionDetail,
    HandlerError,
>)
    requires
        old(dao).well_formed(),
    ensures
        final(dao).well_formed(),
        r is Ok ==> created_question(
            old(dao).question_rows(),
            final(dao).question_rows(),
            question,
            r->Ok_0,
        ),
        r is Err ==> is_internal(r->Err_0) && final(dao).question_rows() == old(
            dao,
        ).question_rows(),
{
    match dao.create_question(question) {
        Ok(d) => Ok(d),
        Err(e) => Err(handler_error_of(e)),
    }
}

/// All stored questions.
pub fn read_questions<D: QuestionsDao>(dao: &D) -> (r: Result<Vec<QuestionDetail>, HandlerError>)
    requires
        dao.well_formed(),
    ensures
        r is Ok ==> question_details_of_rows(r->Ok_0@, dao.question_rows()),
        r is Err ==> is_internal(r->Err_0),
{
    match dao.get_questions() {
        Ok(ds) => Ok(ds),
        Err(e) => Err(handler_error_of(e)),
    }
}

/// Removes a question; one that is not there is no error.
pub fn delete_question<D: QuestionsDao>(dao: &mut D, question_uuid: QuestionId) -> (r: Result<
    (),
    HandlerError,
>)
    requires
        old(dao).well_formed(),
    ensures
        final(dao).well_formed(),
        !is_uuid_text(question_uuid.question_uuid@) ==> r is Err && r->Err_0 is BadRequest,
        is_uuid_text(question_uuid.question_uuid@) && r is Err ==> is_internal(r->Err_0),
        r is Ok ==> final(dao).question_rows() == questions_without(
            old(dao).question_rows(),
            uuid_value(question_uuid.question_uuid@),
        ),
        r is Err ==> final(dao).question_rows() == old(dao).question_rows(),
{
    match dao.delete_question(question_uuid.question_uuid) {
        Ok(()) => Ok(()),
        Err(e) => Err(handler_error_of(e)),
    }
}

/// Stores a new answer to an existing question.
pub fn create_answer<D: AnswersDao>(dao: &mut D, answer: Answer) -> (r: Result<
    AnswerDetail,
    HandlerError,
>)
    requires
        old(dao).well_formed(),
    ensures
        final(dao).well_formed(),
        !is_uuid_text(answer.question_uuid@) ==> r is Err && r->Err_0 is BadRequest,
        r is Err && r->Err_0 is BadRequest ==> !is_uuid_text(answer.question_uuid@) || !old(
            dao,
        ).has_question(uuid_value(answer.question_uuid@)),
        r is Err && r->Err_0 is InternalError ==> is_internal(r->Err_0),
        r is Ok ==> is_uuid_text(answer.question_uuid@) && old(dao).has_question(
            uuid_value(answer.question_uuid@),
        ),
        r is Ok ==> created_answer(old(dao).answer_rows(), final(dao).answer_rows(), answer, r->Ok_0),
        r is Err ==> final(dao).answer_rows() == old(dao).answer_rows(),
{
    match dao.create_answer(answer) {
        Ok(d) => Ok(d),
        Err(e) => Err(handler_error_of(e)),
    }
}

/// The answers to one question.
pub fn read_answers<D: AnswersDao>(dao: &D, question_uuid: QuestionId) -> (r: Result<
    Vec<AnswerDetail>,
    HandlerError,
>)
    requires
        dao.well_formed(),
    ensures
        !is_uuid_text(question_uuid.question_uuid@) ==> r is Err && r->Err_0 is BadRequest,
        is_uuid_text(question_uuid.question_uuid@) && r is Err ==> is_internal(r->Err_0),
        r is Ok ==> answer_details_of_rows(
            r->Ok_0@,
            answers_for(dao.answer_rows(), uuid_value(question_uuid.question_uuid@)),
        ),
{
    match dao.get_answers(question_uuid.question_uuid) {
        Ok(ds) => Ok(ds),
        Err(e) => Err(handler_error_of(e)),
    }
}

/// Removes an answer; one that is not there is no error.
pub fn delete_answer<D: AnswersDao>(dao: &mut D, answer_uuid: AnswerId) -> (r: Result<
    (),
    HandlerError,
>)
    requires
        old(dao).well_formed(),
    ensures
        final(dao).well_formed(),
        !is_uuid_text(answer_uuid.answer_uuid@) ==> r is Err && r->Err_0 is BadRequest,
        is_uuid_text(answer_uuid.answer_uuid@) && r is Err ==> is_internal(r->Err_0),
        r is Ok ==> final(dao).answer_rows() == answers_without(
            old(dao).answer_rows(),
            uuid_value(answer_uuid.answer_uuid@),
        ),
        r is Err ==> final(dao).answer_rows() == old(dao).answer_rows(),
{
    match dao.delete_answer(answer_uuid.answer_uuid) {
        Ok(()) => Ok(()),
        Err(e) => Err(handler_error_of(e)),
    }
}

} // verus!
