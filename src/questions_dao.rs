//! The storage interface for questions.
use crate::model::{DBError, Question, QuestionDetail, QuestionRow};
use crate::records::{question_detail_of_row, question_details_of_rows};
use crate::uuid_text::{is_uuid_text, lemma_uuid_text_round_trip, uuid_text, uuid_value};
use vstd::prelude::*;

verus! {

/// `rows` without the question whose identifier is `id`, order kept.
pub open spec fn questions_without(rows: Seq<QuestionRow>, id: nat) -> Seq<QuestionRow>
    decreases rows.len(),
{
    if rows.len() == 0 {
        rows
    } else if rows.last().question_uuid as nat == id {
        questions_without(rows.drop_last(), id)
    } else {
        questions_without(rows.drop_last(), id).push(rows.last())
    }
}

/// Whether some row of `rows` is the question `id`.
pub open spec fn holds_question(rows: Seq<QuestionRow>, id: nat) -> bool {
    exists|i: int| 0 <= i < rows.len() && rows[i].question_uuid as nat == id
}

/// `after` is `before` with one question added, made from `question`, that
/// `d` shows; its identifier is new.
pub open spec fn created_question(
    before: Seq<QuestionRow>,
    after: Seq<QuestionRow>,
    question: Question,
    d: QuestionDetail,
) -> bool {
    &&& after.len() == before.len() + 1
    &&& after.drop_last() == before
    &&& question_detail_of_row(d, after.last())
    &&& d.title@ == question.title@
    &&& d.description@ == question.description@
    &&& is_uuid_text(d.question_uuid@)
    &&& forall|i: int|
        0 <= i < before.len() ==> uuid_text((#[trigger] before[i]).question_uuid as nat)
            != d.question_uuid@
}

/// Deleting an identifier that no stored question has leaves the questions as
/// they were.
pub proof fn lemma_delete_absent_question(rows: Seq<QuestionRow>, id: nat)
    requires
        !holds_question(rows, id),
    ensures
        questions_without(rows, id) == rows,
    decreases rows.len(),
{
    if rows.len() > 0 {
        let init = rows.drop_last();
        assert forall|i: int| 0 <= i < init.len() implies (#[trigger] init[i]).question_uuid as nat
            != id by {
            assert(rows[i] == init[i]);
        }
        assert(rows[rows.len() - 1] == rows.last());
        lemma_delete_absent_question(init, id);
        assert(init.push(rows.last()) =~= rows);
    }
}

/// After a question is created, the identifier it was given names a stored
/// question: an answer may refer to it.
pub proof fn lemma_created_question_is_held(
    before: Seq<QuestionRow>,
    after: Seq<QuestionRow>,
    question: Question,
    d: QuestionDetail,
)
    requires
        created_question(before, after, question, d),
    ensures
        is_uuid_text(d.question_uuid@),
        holds_question(after, uuid_value(d.question_uuid@)),
{
    let last = after.last();
    lemma_uuid_text_round_trip(last.question_uuid);
    assert(after[after.len() - 1] == last);
}

/// Storage of questions. The store is seen as the sequence of its rows.
pub trait QuestionsDao {
    spec fn question_rows(&self) -> Seq<QuestionRow>;

    spec fn well_formed(&self) -> bool;

    /// Stores a new question, with an identifier and a creation time that the
    /// store chooses, and returns it as a client sees it.
    fn create_question(&mut self, question: Question) -> (r: Result<QuestionDetail, DBError>)
        requires
            old(self).well_formed(),
        ensures
            final(self).well_formed(),
            r is Ok ==> created_question(
                old(self).question_rows(),
                final(self).question_rows(),
                question,
                r->Ok_0,
            ),
            r is Err ==> r->Err_0 is Other && final(self).question_rows() == old(
                self,
            ).question_rows(),
    ;

    /// Removes the question that `question_uuid` names; removing one that is
    /// not there is no error.
    fn delete_question(&mut self, question_uuid: String) -> (r: Result<(), DBError>)
        requires
            old(self).well_formed(),
        ensures
            final(self).well_formed(),
            !is_uuid_text(question_uuid@) ==> r is Err && r->Err_0 is InvalidUUID,
            is_uuid_text(question_uuid@) && r is Err ==> r->Err_0 is Other,
            r is Ok ==> final(self).question_rows() == questions_without(
                old(self).question_rows(),
                uuid_value(question_uuid@),
            ),
            r is Err ==> final(self).question_rows() == old(self).question_rows(),
    ;

    /// All stored questions, in the store's order.
    fn get_questions(&self) -> (r: Result<Vec<QuestionDetail>, DBError>)
        requires
            self.well_formed(),
        ensures
            r is Ok ==> question_details_of_rows(r->Ok_0@, self.question_rows()),
            r is Err ==> r->Err_0 is Other,
    ;
}

} // verus!
