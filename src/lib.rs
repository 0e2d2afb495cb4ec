//! A small question-and-answer store: questions and the answers given to them,
//! each identified by a UUID, behind storage interfaces with stated behaviour.
use vstd::prelude::*;

pub mod answers_dao;
pub mod handlers;
pub mod memory_store;
pub mod model;
pub mod questions_dao;
pub mod records;
pub mod uuid_text;

verus! {

} // verus!
