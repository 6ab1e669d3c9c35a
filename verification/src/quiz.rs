//! The question bank: multiple-choice questions, random selection, answering
//! and scoring.
//!
//! Each question is asked at most once per run: answering it, rightly or
//! wrongly, marks it used. Entering the console picks a question at random
//! among those not yet used; when none is left the game is over. A correct
//! answer raises the score, and the fifth correct answer wins the game.

use crate::rng::{random_below, shuffle_strings};
use crate::ui::Score;
use vstd::prelude::*;

verus! {

/// Correct answers needed to win the game.
pub const WIN_SCORE: u32 = 5;

/// A multiple-choice trivia question.
#[derive(Debug)]
pub struct Question {
    /// The text shown at the top of the console.
    pub description: String,
    /// The choices offered, the correct one among them.
    pub options: Vec<String>,
    /// The correct choice.
    pub answer: String,
    /// Whether the question has already been asked this run.
    pub used: bool,
}

impl Question {
    /// A question freshly built from game data has not been asked yet.
    pub fn new(description: String, options: Vec<String>, answer: String) -> (r: Self)
        ensures
            r.description == description,
            r.options == options,
            r.answer == answer,
            !r.used,
    {
        Question { description, options, answer, used: false }
    }
}

impl Clone for Question {
    /// A copy of the question, field for field.
    fn clone(&self) -> (r: Self)
        ensures
            r.description == self.description,
            r.options@ == self.options@,
            r.answer == self.answer,
            r.used == self.used,
    {
        Question {
            description: self.description.clone(),
            options: clone_strings(&self.options),
            answer: self.answer.clone(),
            used: self.used,
        }
    }
}

/// A copy of a vector of strings, element for element.
fn clone_strings(values: &Vec<String>) -> (r: Vec<String>)
    ensures
        r@ == values@,
{
    let mut out: Vec<String> = Vec::new();
    let n = values.len();
    let mut idx: usize = 0;
    while idx < n
        invariant
            n == values.len(),
            idx <= n,
            out@ == values@.subrange(0, idx as int),
        decreases n - idx,
    {
        out.push(values[idx].clone());
        proof {
            assert(out@ =~= values@.subrange(0, idx + 1));
        }
        idx = idx + 1;
    }
    proof {
        assert(out@ =~= values@);
    }
    out
}

/// Whether every question of the bank has been asked.
pub open spec fn spec_all_used(questions: Seq<Question>) -> bool {
    forall|i: int| 0 <= i < questions.len() ==> questions[i].used
}

/// How many questions of the bank have not been asked yet.
pub open spec fn spec_unused_count(questions: Seq<Question>) -> nat
    decreases questions.len(),
{
    if questions.len() == 0 {
        0
    } else {
        spec_unused_count(questions.drop_last()) + if questions.last().used {
            0nat
        } else {
            1nat
        }
    }
}

/// A bank has no unused question exactly when every question is used.
proof fn lemma_unused_count_zero(questions: Seq<Question>)
    ensures
        (spec_unused_count(questions) == 0) == spec_all_used(questions),
    decreases questions.len(),
{
    if questions.len() > 0 {
        lemma_unused_count_zero(questions.drop_last());
        if spec_unused_count(questions) == 0 {
            assert(forall|i: int|
                0 <= i < questions.len() - 1 ==> #[trigger] questions[i].used
                    == questions.drop_last()[i].used);
        }
    }
}

/// Whether every question of the bank has been asked.
pub fn all_questions_used(questions: &Vec<Question>) -> (r: bool)
    ensures
        r == spec_all_used(questions@),
{
    let n = questions.len();
    let mut idx: usize = 0;
    while idx < n
        invariant
            n == questions.len(),
            idx <= n,
            forall|i: int| 0 <= i < idx ==> questions@[i].used,
        decreases n - idx,
    {
        if !questions[idx].used {
            return false;
        }
        idx = idx + 1;
    }
    true
}

/// How many questions of the bank have not been asked yet.
fn count_unused(questions: &Vec<Question>) -> (r: usize)
    ensures
        r == spec_unused_count(questions@),
{
    let n = questions.len();
    let mut count: usize = 0;
    let mut idx: usize = 0;
    while idx < n
        invariant
            n == questions.len(),
            idx <= n,
            count <= idx,
            count == spec_unused_count(questions@.subrange(0, idx as int)),
        decreases n - idx,
    {
        if !questions[idx].used {
            count = count + 1;
        }
        proof {
            assert(questions@.subrange(0, idx + 1).drop_last() =~= questions@.subrange(
                0,
                idx as int,
            ));
        }
        idx = idx + 1;
    }
    proof {
        assert(questions@.subrange(0, n as int) =~= questions@);
    }
    count
}

/// Picks the question asked on entering the console: one drawn at random
/// among the questions not yet asked, or nothing when every question has
/// been asked already.
pub fn choose_question(questions: &Vec<Question>) -> (r: Option<usize>)
    ensures
        r is Some <==> !spec_all_used(questions@),
        r matches Some(i) ==> i < questions@.len() && !questions@[i as int].used,
{
    let unused = count_unused(questions);
    proof {
        lemma_unused_count_zero(questions@);
    }
    if unused == 0 {
        return None;
    }
    let pick = random_below(unused);

    let n = questions.len();
    let mut seen: usize = 0;
    let mut idx: usize = 0;
    while idx < n
        invariant
            n == questions.len(),
            idx <= n,
            seen == spec_unused_count(questions@.subrange(0, idx as int)),
            seen <= pick,
            pick < spec_unused_count(questions@),
        decreases n - idx,
    {
        if !questions[idx].used {
            if seen == pick {
                return Some(idx);
            }
            seen = seen + 1;
        }
        proof {
            assert(questions@.subrange(0, idx + 1).drop_last() =~= questions@.subrange(
                0,
                idx as int,
            ));
        }
        idx = idx + 1;
    }
    proof {
        assert(questions@.subrange(0, n as int) =~= questions@);
    }
    None
}

/// The choices of a question in the order they are shown: the question's own
/// options, shuffled.
pub fn presented_options(question: &Question) -> (r: Vec<String>)
    ensures
        r@.len() == question.options@.len(),
        r@.to_multiset() == question.options@.to_multiset(),
{
    let mut shown = clone_strings(&question.options);
    shuffle_strings(&mut shown);
    shown
}

/// What answering a question did to the run.
#[derive(Clone, Copy, Debug, PartialEq, Eq, Structural)]
pub enum AnswerOutcome {
    /// The chosen option was the question's answer; `won` says whether this
    /// was the correct answer that reached the winning score.
    Correct { won: bool },
    /// The chosen option was not the question's answer.
    Wrong,
}

/// Answers a question with the chosen option. The question is spent either
/// way. A correct choice raises the score by one and wins the game when the
/// winning score is reached; a wrong choice leaves the score alone.
pub fn answer_question(question: &mut Question, choice: &String, score: &mut Score) -> (r:
    AnswerOutcome)
    requires
        old(score).0 < u32::MAX,
    ensures
        final(question).used,
        final(question).description == old(question).description,
        final(question).options == old(question).options,
        final(question).answer == old(question).answer,
        choice@ == old(question).answer@ ==> {
            &&& final(score).0 == old(score).0 + 1
            &&& r == (AnswerOutcome::Correct { won: final(score).0 >= WIN_SCORE })
        },
        choice@ != old(question).answer@ ==> {
            &&& *final(score) == *old(score)
            &&& r == AnswerOutcome::Wrong
        },
{
    question.used = true;
    if *choice == question.answer {
        score.0 = score.0 + 1;
        AnswerOutcome::Correct { won: score.0 >= WIN_SCORE }
    } else {
        AnswerOutcome::Wrong
    }
}

/// Marks every question unasked again, leaving its text untouched; done when
/// a new run starts.
pub fn reset_questions(questions: &mut Vec<Question>)
    ensures
        final(questions)@.len() == old(questions)@.len(),
        forall|i: int|
            0 <= i < final(questions)@.len() ==> {
                &&& !(#[trigger] final(questions)@[i]).used
                &&& final(questions)@[i].description == old(questions)@[i].description
                &&& final(questions)@[i].options@ == old(questions)@[i].options@
                &&& final(questions)@[i].answer == old(questions)@[i].answer
            },
{
    let n = questions.len();
    let mut idx: usize = 0;
    while idx < n
        invariant
            n == questions.len(),
            idx <= n,
            forall|i: int|
                idx <= i < n ==> #[trigger] questions@[i] == old(questions)@[i],
            forall|i: int|
                0 <= i < idx ==> {
                    &&& !(#[trigger] questions@[i]).used
                    &&& questions@[i].description == old(questions)@[i].description
                    &&& questions@[i].options@ == old(questions)@[i].options@
                    &&& questions@[i].answer == old(questions)@[i].answer
                },
        decreases n - idx,
    {
        let mut refreshed = questions[idx].clone();
        refreshed.used = false;
        questions.set(idx, refreshed);
        idx = idx + 1;
    }
}

} // verus!
