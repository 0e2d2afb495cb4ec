//! The storage interface for answers.
use crate::model::{Answer, AnswerDetail, AnswerRow, DBError};
use crate::records::{answer_detail_of_row, answer_details_of_rows};
use crate::uuid_text::{is_uuid_text, uuid_value};
use vstd::prelude::*;

verus! {

/// The rows of `rows` that answer question `q`, order kept.
pub open spec fn answers_for(rows: Seq<AnswerRow>, q: nat) -> Seq<AnswerRow>
    decreases rows.len(),
{
    if rows.len() == 0 {
        rows
    } else if rows.last().question_uuid as nat == q {
        answers_for(rows.drop_last(), q).push(rows.last())
    } else {
        answers_for(rows.drop_last(), q)
    }
}

/// `rows` without the answer whose identifier is `id`, order kept.
pub open spec fn answers_without(rows: Seq<AnswerRow>, id: nat) -> Seq<AnswerRow>
    decreases rows.len(),
{
    if rows.len() == 0 {
        rows
    } else if rows.last().answer_uuid as nat == id {
        answers_without(rows.drop_last(), id)
    } else {
        answers_without(rows.drop_last(), id).push(rows.last())
    }
}

/// `after` is `before` with one answer added, made from `answer`, that `d`
/// shows; its identifier is new.
pub open spec fn created_answer(
    before: Seq<AnswerRow>,
    after: Seq<AnswerRow>,
    answer: Answer,
    d: AnswerDetail,
) -> bool {
    &&& after.len() == before.len() + 1
    &&& after.drop_last() == before
    &&& after.last().question_uuid as nat == uuid_value(answer.question_uuid@)
    &&& after.last().content@ == answer.content@
    &&& answer_detail_of_row(d, after.last())
    &&& forall|i: int|
        0 <= i < before.len() ==> (#[trigger] before[i]).answer_uuid != after.last().answer_uuid
}

/// Whether some row of `rows` is the answer `id`.
pub open spec fn holds_answer(rows: Seq<AnswerRow>, id: nat) -> bool {
    exists|i: int| 0 <= i < rows.len() && rows[i].answer_uuid as nat == id
}

/// Deleting an identifier that no stored answer has leaves the answers as
/// they were.
pub proof fn lemma_delete_absent_answer(rows: Seq<AnswerRow>, id: nat)
    requires
        !holds_answer(rows, id),
    ensures
        answers_without(rows, id) == rows,
    decreases rows.len(),
{
    if rows.len() > 0 {
        let init = rows.drop_last();
        assert forall|i: int| 0 <= i < init.len() implies (#[trigger] init[i]).answer_uuid as nat
            != id by {
            assert(rows[i] == init[i]);
        }
        assert(rows[rows.len() - 1] == rows.last());
        lemma_delete_absent_answer(init, id);
        assert(init.push(rows.last()) =~= rows);
    }
}

/// The answers listed for question `q` are exactly the stored answers whose
/// question is `q`: each listed one is for `q`, and each stored one for `q`
/// is listed.
pub proof fn lemma_answers_for_exact(rows: Seq<AnswerRow>, q: nat)
    ensures
        forall|i: int|
            0 <= i < answers_for(rows, q).len() ==> (#[trigger] answers_for(rows, q)[i]).question_uuid
                as nat == q,
        forall|i: int|
            0 <= i < rows.len() && (#[trigger] rows[i]).question_uuid as nat == q ==> answers_for(
                rows,
                q,
            ).contains(rows[i]),
    decreases rows.len(),
{
    if rows.len() > 0 {
        let init = rows.drop_last();
        lemma_answers_for_exact(init, q);
        let sub = answers_for(init, q);
        assert forall|i: int|
            0 <= i < rows.len() && (#[trigger] rows[i]).question_uuid as nat == q implies answers_for(
                rows,
                q,
            ).contains(rows[i]) by {
            if i < rows.len() - 1 {
                assert(rows[i] == init[i]);
                let k = choose|k: int| 0 <= k < sub.len() && sub[k] == init[i];
                if rows.last().question_uuid as nat == q {
                    assert(answers_for(rows, q)[k] == sub[k]);
                }
            } else {
                assert(rows[i] == rows.last());
                assert(answers_for(rows, q)[sub.len() as int] == rows.last());
            }
        }
    }
}

/// Creating an answer adds it to the list of its own question, at the end,
/// and leaves the list of every other question as it was.
pub proof fn lemma_answers_for_after_create(
    before: Seq<AnswerRow>,
    after: Seq<AnswerRow>,
    answer: Answer,
    d: AnswerDetail,
    q: nat,
)
    requires
        created_answer(before, after, answer, d),
    ensures
        q == uuid_value(answer.question_uuid@) ==> answers_for(after, q) == answers_for(
            before,
            q,
        ).push(after.last()),
        q != uuid_value(answer.question_uuid@) ==> answers_for(after, q) == answers_for(before, q),
{
}

/// Storage of answers. The store is seen as the sequence of its rows, and
/// knows which questions exist for an answer to refer to.
pub trait AnswersDao {
    spec fn answer_rows(&self) -> Seq<AnswerRow>;

    spec fn has_question(&self, id: nat) -> bool;

    spec fn well_formed(&self) -> bool;

    /// Stores a new answer to the question that `answer.question_uuid` names.
    /// That question must exist.
    fn create_answer(&mut self, answer: Answer) -> (r: Result<AnswerDetail, DBError>)
        requires
            old(self).well_formed(),
        ensures
            final(self).well_formed(),
            forall|id: nat| final(self).has_question(id) == old(self).has_question(id),
            !is_uuid_text(answer.question_uuid@) ==> r is Err && r->Err_0 is InvalidUUID,
            r is Err && r->Err_0 is InvalidUUID ==> !is_uuid_text(answer.question_uuid@)
                || !old(self).has_question(uuid_value(answer.question_uuid@)),
            r is Ok ==> is_uuid_text(answer.question_uuid@) && old(self).has_question(
                uuid_value(answer.question_uuid@),
            ),
            r is Ok ==> created_answer(
                old(self).answer_rows(),
                final(self).answer_rows(),
                answer,
                r->Ok_0,
            ),
            r is Err ==> final(self).answer_rows() == old(self).answer_rows(),
    ;

    /// Removes the answer that `answer_uuid` names; removing one that is not
    /// there is no error.
    fn delete_answer(&mut self, answer_uuid: String) -> (r: Result<(), DBError>)
        requires
            old(self).well_formed(),
        ensures
            final(self).well_formed(),
            forall|id: nat| final(self).has_question(id) == old(self).has_question(id),
            !is_uuid_text(answer_uuid@) ==> r is Err && r->Err_0 is InvalidUUID,
            is_uuid_text(answer_uuid@) && r is Err ==> r->Err_0 is Other,
            r is Ok ==> final(self).answer_rows() == answers_without(
                old(self).answer_rows(),
                uuid_value(answer_uuid@),
            ),
            r is Err ==> final(self).answer_rows() == old(self).answer_rows(),
    ;

    /// The answers to the question that `question_uuid` names, in the store's
    /// order.
    fn get_answers(&self, question_uuid: String) -> (r: Result<Vec<AnswerDetail>, DBError>)
        requires
            self.well_formed(),
        ensures
            !is_uuid_text(question_uuid@) ==> r is Err && r->Err_0 is InvalidUUID,
            is_uuid_text(question_uuid@) && r is Err ==> r->Err_0 is Other,
            r is Ok ==> answer_details_of_rows(
                r->Ok_0@,
                answers_for(self.answer_rows(), uuid_value(question_uuid@)),
            ),
    ;
}

} // verus!
