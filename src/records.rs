//! The storage layer's own decisions: reading identifiers, turning stored rows
//! into client records, and classifying what the store reported.
use crate::model::{AnswerDetail, AnswerRow, DBError, QuestionDetail, QuestionRow};
use crate::uuid_text::{format_uuid, is_uuid_text, parse_uuid, uuid_text, uuid_value};
use vstd::prelude::*;

verus! {

/// The code by which PostgreSQL reports a foreign-key violation.
pub open spec fn foreign_key_violation_code() -> Seq<char> {
    seq!['2', '3', '5', '0', '3']
}

pub open spec fn question_detail_of_row(d: QuestionDetail, r: QuestionRow) -> bool {
    &&& d.question_uuid@ == uuid_text(r.question_uuid as nat)
    &&& d.title@ == r.title@
    &&& d.description@ == r.description@
    &&& d.created_at@ == r.created_at@
}

pub open spec fn answer_detail_of_row(d: AnswerDetail, r: AnswerRow) -> bool {
    &&& d.answer_uuid@ == uuid_text(r.answer_uuid as nat)
    &&& d.question_uuid@ == uuid_text(r.question_uuid as nat)
    &&& d.content@ == r.content@
    &&& d.created_at@ == r.created_at@
}

pub open spec fn question_details_of_rows(ds: Seq<QuestionDetail>, rs: Seq<QuestionRow>) -> bool {
    &&& ds.len() == rs.len()
    &&& forall|i: int| 0 <= i < ds.len() ==> question_detail_of_row(#[trigger] ds[i], rs[i])
}

pub open spec fn answer_details_of_rows(ds: Seq<AnswerDetail>, rs: Seq<AnswerRow>) -> bool {
    &&& ds.len() == rs.len()
    &&& forall|i: int| 0 <= i < ds.len() ==> answer_detail_of_row(#[trigger] ds[i], rs[i])
}

/// Reads a client's identifier: its value when it is a UUID, else `InvalidUUID`.
pub fn parse_identifier(id: &str) -> (r: Result<u128, DBError>)
    ensures
        r is Ok <==> is_uuid_text(id@),
        r is Ok ==> r->Ok_0 as nat == uuid_value(id@),
        r is Err ==> r->Err_0 is InvalidUUID,
{
    match parse_uuid(id) {
        Ok(v) => Ok(v),
        Err(msg) => Err(DBError::InvalidUUID(msg)),
    }
}

pub fn question_detail_of(row: &QuestionRow) -> (d: QuestionDetail)
    ensures
        question_detail_of_row(d, *row),
{
    QuestionDetail {
        question_uuid: format_uuid(row.question_uuid),
        title: row.title.clone(),
        description: row.description.clone(),
        created_at: row.created_at.clone(),
    }
}

pub fn answer_detail_of(row: &AnswerRow) -> (d: AnswerDetail)
    ensures
        answer_detail_of_row(d, *row),
{
    AnswerDetail {
        answer_uuid: format_uuid(row.answer_uuid),
        question_uuid: format_uuid(row.question_uuid),
        content: row.content.clone(),
        created_at: row.created_at.clone(),
    }
}

pub fn question_details_of(rows: &Vec<QuestionRow>) -> (ds: Vec<QuestionDetail>)
    ensures
        question_details_of_rows(ds@, rows@),
{
    let mut ds: Vec<QuestionDetail> = Vec::new();
    let mut i: usize = 0;
    while i < rows.len()
        invariant
            i <= rows.len(),
            question_details_of_rows(ds@, rows@.subrange(0, i as int)),
        decreases rows.len() - i,
    {
        ds.push(question_detail_of(&rows[i]));
        i = i + 1;
    }
    assert(rows@.subrange(0, rows.len() as int) =~= rows@);
    ds
}

pub fn answer_details_of(rows: &Vec<AnswerRow>) -> (ds: Vec<AnswerDetail>)
    ensures
        answer_details_of_rows(ds@, rows@),
{
    let mut ds: Vec<AnswerDetail> = Vec::new();
    let mut i: usize = 0;
    while i < rows.len()
        invariant
            i <= rows.len(),
            answer_details_of_rows(ds@, rows@.subrange(0, i as int)),
        decreases rows.len() - i,
    {
        ds.push(answer_detail_of(&rows[i]));
        i = i + 1;
    }
    assert(rows@.subrange(0, rows.len() as int) =~= rows@);
    ds
}

/// Whether a database error code is the foreign-key violation.
pub fn is_foreign_key_violation(code: &String) -> (r: bool)
    ensures
        r == (code@ == foreign_key_violation_code()),
{
    let fk = String::from_str("23503");
    proof {
        reveal_strlit("23503");
    }
    assert(fk@ =~= foreign_key_violation_code());
    *code == fk
}

/// The error for an answer whose question does not exist.
pub fn unknown_question_error(question_uuid: &str) -> (e: DBError)
    ensures
        e is InvalidUUID,
        e->InvalidUUID_0@ == "Invalid uuid "@ + question_uuid@,
{
    let mut msg = String::from_str("Invalid uuid ");
    msg.append(question_uuid);
    DBError::InvalidUUID(msg)
}

/// What a failed insert of an answer means: a foreign-key violation says that
/// the question it refers to does not exist; anything else is a store failure.
/// `code` is the database's error code, where the failure came with one.
pub fn answer_insert_error(code: Option<String>, message: String, question_uuid: &str) -> (e:
    DBError)
    ensures
        (code is Some && code->0@ == foreign_key_violation_code()) ==> e is InvalidUUID
            && e->InvalidUUID_0@ == "Invalid uuid "@ + question_uuid@,
        !(code is Some && code->0@ == foreign_key_violation_code()) ==> e == DBError::Other(
            message,
        ),
{
    match code {
        Some(c) => {
            if is_foreign_key_violation(&c) {
                unknown_question_error(question_uuid)
            } else {
                DBError::Other(message)
            }
        },
        None => DBError::Other(message),
    }
}

} // verus!
