//! A store held in memory that implements both storage interfaces, for use
//! where no database is at hand. Identifiers are issued in increasing order
//! from 1; the creation time of a record is the store's clock, which its owner
//! sets.
use crate::answers_dao::{answers_for, answers_without, AnswersDao};
use crate::model::{
    Answer, AnswerDetail, AnswerRow, DBError, Question, QuestionDetail, QuestionRow,
};
use crate::questions_dao::{holds_question, questions_without, QuestionsDao};
use crate::records::{
    answer_detail_of, answer_details_of_rows, parse_identifier, question_detail_of,
    question_details_of, unknown_question_error,
};
use crate::uuid_text::{is_uuid_text, lemma_uuid_text_injective, lemma_uuid_text_round_trip, uuid_value};
use vstd::prelude::*;

verus! {

pub struct MemoryStore {
    questions: Vec<QuestionRow>,
    answers: Vec<AnswerRow>,
    next_id: u128,
    clock: String,
}

fn copy_question_row(r: &QuestionRow) -> (c: QuestionRow)
    ensures
        c == *r,
{
    QuestionRow {
        question_uuid: r.question_uuid,
        title: r.title.clone(),
        description: r.description.clone(),
        created_at: r.created_at.clone(),
    }
}

fn copy_answer_row(r: &AnswerRow) -> (c: AnswerRow)
    ensures
        c == *r,
{
    AnswerRow {
        answer_uuid: r.answer_uuid,
        question_uuid: r.question_uuid,
        content: r.content.clone(),
        created_at: r.created_at.clone(),
    }
}

impl MemoryStore {
    pub closed spec fn questions_view(&self) -> Seq<QuestionRow> {
        self.questions@
    }

    pub closed spec fn answers_view(&self) -> Seq<AnswerRow> {
        self.answers@
    }

    /// The identifier that the next record will get.
    pub closed spec fn next_identifier(&self) -> nat {
        self.next_id as nat
    }

    /// The creation time given to new records.
    pub closed spec fn clock_view(&self) -> Seq<char> {
        self.clock@
    }

    /// Every identifier issued lies below the next one.
    pub closed spec fn inv(&self) -> bool {
        &&& self.next_id >= 1
        &&& forall|i: int|
            0 <= i < self.questions@.len() ==> (#[trigger] self.questions@[i]).question_uuid
                < self.next_id
        &&& forall|i: int|
            0 <= i < self.answers@.len() ==> (#[trigger] self.answers@[i]).answer_uuid
                < self.next_id
    }

    /// An empty store whose clock reads the empty string.
    pub fn new() -> (s: MemoryStore)
        ensures
            s.inv(),
            s.questions_view().len() == 0,
            s.answers_view().len() == 0,
            s.next_identifier() == 1,
            s.clock_view().len() == 0,
    {
        MemoryStore { questions: Vec::new(), answers: Vec::new(), next_id: 1, clock: String::new() }
    }

    /// Sets the creation time given to records created from now on.
    pub fn set_clock(&mut self, now: String)
        ensures
            final(self).clock_view() == now@,
            final(self).questions_view() == old(self).questions_view(),
            final(self).answers_view() == old(self).answers_view(),
            final(self).next_identifier() == old(self).next_identifier(),
            old(self).inv() ==> final(self).inv(),
    {
        self.clock = now;
    }

    fn find_question(&self, id: u128) -> (b: bool)
        ensures
            b == holds_question(self.questions@, id as nat),
    {
        let mut i: usize = 0;
        while i < self.questions.len()
            invariant
                i <= self.questions@.len(),
                forall|j: int| 0 <= j < i ==> self.questions@[j].question_uuid != id,
            decreases self.questions.len() - i,
        {
            if self.questions[i].question_uuid == id {
                return true;
            }
            i = i + 1;
        }
        false
    }
}

impl QuestionsDao for MemoryStore {
    open spec fn question_rows(&self) -> Seq<QuestionRow> {
        self.questions_view()
    }

    open spec fn well_formed(&self) -> bool {
        self.inv()
    }

    fn create_question(&mut self, question: Question) -> (r: Result<QuestionDetail, DBError>)
        ensures
            r is Ok <==> old(self).next_identifier() < u128::MAX,
            r is Ok ==> final(self).next_identifier() == old(self).next_identifier() + 1,
            r is Ok ==> final(self).questions_view().last().question_uuid as nat == old(
                self,
            ).next_identifier(),
            r is Ok ==> r->Ok_0.created_at@ == old(self).clock_view(),
            final(self).answers_view() == old(self).answers_view(),
            final(self).clock_view() == old(self).clock_view(),
    {
        if self.next_id == u128::MAX {
            return Err(DBError::Other(String::from_str("no identifiers left")));
        }
        let id = self.next_id;
        let row = QuestionRow {
            question_uuid: id,
            title: question.title,
            description: question.description,
            created_at: self.clock.clone(),
        };
        let d = question_detail_of(&row);
        proof {
            lemma_uuid_text_round_trip(id);
            assert forall|i: int| 0 <= i < self.questions@.len() implies #[trigger] self.questions@[i].question_uuid != id by {}
            assert forall|i: int| 0 <= i < self.questions@.len() implies crate::uuid_text::uuid_text(
                (#[trigger] self.questions@[i]).question_uuid as nat,
            ) != d.question_uuid@ by {
                lemma_uuid_text_injective(self.questions@[i].question_uuid, id);
            }
        }
        self.questions.push(row);
        self.next_id = id + 1;
        proof {
            assert(self.questions@.drop_last() =~= old(self).questions@);
        }
        Ok(d)
    }

    fn delete_question(&mut self, question_uuid: String) -> (r: Result<(), DBError>)
        ensures
            r is Ok <==> is_uuid_text(question_uuid@),
            final(self).answers_view() == old(self).answers_view(),
            final(self).next_identifier() == old(self).next_identifier(),
            final(self).clock_view() == old(self).clock_view(),
    {
        let id = match parse_identifier(question_uuid.as_str()) {
            Ok(v) => v,
            Err(e) => {
                return Err(e);
            },
        };
        let mut kept: Vec<QuestionRow> = Vec::new();
        let mut i: usize = 0;
        while i < self.questions.len()
            invariant
                i <= self.questions@.len(),
                self.inv(),
                kept@ == questions_without(self.questions@.subrange(0, i as int), id as nat),
                forall|j: int|
                    0 <= j < kept@.len() ==> (#[trigger] kept@[j]).question_uuid < self.next_id,
            decreases self.questions.len() - i,
        {
            proof {
                assert(self.questions@.subrange(0, i + 1).drop_last() =~= self.questions@.subrange(
                    0,
                    i as int,
                ));
            }
            if self.questions[i].question_uuid != id {
                kept.push(copy_question_row(&self.questions[i]));
            }
            i = i + 1;
        }
        proof {
            assert(self.questions@.subrange(0, self.questions@.len() as int) =~= self.questions@);
        }
        self.questions = kept;
        Ok(())
    }

    fn get_questions(&self) -> (r: Result<Vec<QuestionDetail>, DBError>)
        ensures
            r is Ok,
    {
        Ok(question_details_of(&self.questions))
    }
}

impl AnswersDao for MemoryStore {
    open spec fn answer_rows(&self) -> Seq<AnswerRow> {
        self.answers_view()
    }

    open spec fn has_question(&self, id: nat) -> bool {
        holds_question(self.questions_view(), id)
    }

    open spec fn well_formed(&self) -> bool {
        self.inv()
    }

    fn create_answer(&mut self, answer: Answer) -> (r: Result<AnswerDetail, DBError>)
        ensures
            r is Ok <==> is_uuid_text(answer.question_uuid@) && holds_question(
                old(self).questions_view(),
                uuid_value(answer.question_uuid@),
            ) && old(self).next_identifier() < u128::MAX,
            r is Ok ==> final(self).next_identifier() == old(self).next_identifier() + 1,
            r is Ok ==> final(self).answers_view().last().answer_uuid as nat == old(
                self,
            ).next_identifier(),
            r is Ok ==> r->Ok_0.created_at@ == old(self).clock_view(),
            is_uuid_text(answer.question_uuid@) && !holds_question(
                old(self).questions_view(),
                uuid_value(answer.question_uuid@),
            ) ==> r is Err && r->Err_0 is InvalidUUID,
            final(self).questions_view() == old(self).questions_view(),
            final(self).clock_view() == old(self).clock_view(),
    {
        let q = match parse_identifier(answer.question_uuid.as_str()) {
            Ok(v) => v,
            Err(e) => {
                return Err(e);
            },
        };
        if !self.find_question(q) {
            return Err(unknown_question_error(answer.question_uuid.as_str()));
        }
        if self.next_id == u128::MAX {
            return Err(DBError::Other(String::from_str("no identifiers left")));
        }
        let id = self.next_id;
        let row = AnswerRow {
            answer_uuid: id,
            question_uuid: q,
            content: answer.content,
            created_at: self.clock.clone(),
        };
        let d = answer_detail_of(&row);
        self.answers.push(row);
        self.next_id = id + 1;
        proof {
            assert(self.answers@.drop_last() =~= old(self).answers@);
        }
        Ok(d)
    }

    fn delete_answer(&mut self, answer_uuid: String) -> (r: Result<(), DBError>)
        ensures
            r is Ok <==> is_uuid_text(answer_uuid@),
            final(self).questions_view() == old(self).questions_view(),
            final(self).next_identifier() == old(self).next_identifier(),
            final(self).clock_view() == old(self).clock_view(),
    {
        let id = match parse_identifier(answer_uuid.as_str()) {
            Ok(v) => v,
            Err(e) => {
                return Err(e);
            },
        };
        let mut kept: Vec<AnswerRow> = Vec::new();
        let mut i: usize = 0;
        while i < self.answers.len()
            invariant
                i <= self.answers@.len(),
                self.inv(),
                kept@ == answers_without(self.answers@.subrange(0, i as int), id as nat),
                forall|j: int|
                    0 <= j < kept@.len() ==> (#[trigger] kept@[j]).answer_uuid < self.next_id,
            decreases self.answers.len() - i,
        {
            proof {
                assert(self.answers@.subrange(0, i + 1).drop_last() =~= self.answers@.subrange(
                    0,
                    i as int,
                ));
            }
            if self.answers[i].answer_uuid != id {
                kept.push(copy_answer_row(&self.answers[i]));
            }
            i = i + 1;
        }
        proof {
            assert(self.answers@.subrange(0, self.answers@.len() as int) =~= self.answers@);
        }
        self.answers = kept;
        Ok(())
    }

    fn get_answers(&self, question_uuid: String) -> (r: Result<Vec<AnswerDetail>, DBError>)
        ensures
            r is Ok <==> is_uuid_text(question_uuid@),
    {
        let q = match parse_identifier(question_uuid.as_str()) {
            Ok(v) => v,
            Err(e) => {
                return Err(e);
            },
        };
        let mut ds: Vec<AnswerDetail> = Vec::new();
        let mut i: usize = 0;
        while i < self.answers.len()
            invariant
                i <= self.answers@.len(),
                answer_details_of_rows(ds@, answers_for(self.answers@.subrange(0, i as int), q as nat)),
            decreases self.answers.len() - i,
        {
            proof {
                assert(self.answers@.subrange(0, i + 1).drop_last() =~= self.answers@.subrange(
                    0,
                    i as int,
                ));
            }
            if self.answers[i].question_uuid == q {
                ds.push(answer_detail_of(&self.answers[i]));
            }
            i = i + 1;
        }
        proof {
            assert(self.answers@.subrange(0, self.answers@.len() as int) =~= self.answers@);
        }
        Ok(ds)
    }
}

} // verus!
