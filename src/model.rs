//! The records that pass between the layers, and the errors of each layer.
use vstd::prelude::*;

verus! {

/// A question as a client submits it.
#[derive(Clone, Debug, PartialEq, Eq)]
pub struct Question {
    pub title: String,
    pub description: String,
}

/// A stored question as a client sees it.
#[derive(Clone, Debug, PartialEq, Eq)]
pub struct QuestionDetail {
    pub question_uuid: String,
    pub title: String,
    pub description: String,
    pub created_at: String,
}

/// The identifier of a question, as a client names it.
#[derive(Clone, Debug, PartialEq, Eq)]
pub struct QuestionId {
    pub question_uuid: String,
}

/// An answer as a client submits it.
#[derive(Clone, Debug, PartialEq, Eq)]
pub struct Answer {
    pub question_uuid: String,
    pub content: String,
}

/// A stored answer as a client sees it.
#[derive(Clone, Debug, PartialEq, Eq)]
pub struct AnswerDetail {
    pub answer_uuid: String,
    pub question_uuid: String,
    pub content: String,
    pub created_at: String,
}

/// The identifier of an answer, as a client names it.
#[derive(Clone, Debug, PartialEq, Eq)]
pub struct AnswerId {
    pub answer_uuid: String,
}

/// A stored question as the store holds it: its identifier as a number.
#[derive(Clone, Debug, PartialEq, Eq)]
pub struct QuestionRow {
    pub question_uuid: u128,
    pub title: String,
    pub description: String,
    pub created_at: String,
}

/// A stored answer as the store holds it.
#[derive(Clone, Debug, PartialEq, Eq)]
pub struct AnswerRow {
    pub answer_uuid: u128,
    pub question_uuid: u128,
    pub content: String,
    pub created_at: String,
}

/// Failures of the storage layer.
#[derive(Clone, Debug, PartialEq, Eq)]
pub enum DBError {
    /// An identifier is not a UUID, or names no question an answer could refer to.
    InvalidUUID(String),
    /// Any other failure of the store; the text describes it.
    Other(String),
}

/// Failures of the logic layer, as the transport layer reports them.
#[derive(Clone, Debug, PartialEq, Eq)]
pub enum HandlerError {
    BadRequest(String),
    InternalError(String),
}

} // verus!
