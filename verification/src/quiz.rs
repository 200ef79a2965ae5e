//! The quiz-progression state machine. A session owns an immutable ordered
//! question list and a cursor that only ever advances; each answer or skip
//! moves the cursor by exactly one, and the session is finished once the
//! cursor reaches the end of the list.

use vstd::prelude::*;
use crate::types::{Question, QuestionView, Language, lang_code};
use crate::data_loader::{DataLoader, localized_of};
use crate::clock::{now_millis, elapsed_millis};

verus! {

/// Points awarded for one correctly answered question.
pub const POINTS_PER_QUESTION: u32 = 100;

/// Snapshot returned for each answered question; immutable after creation.
pub struct QuizResult {
    pub is_correct: bool,
    pub correct_answer_index: usize,
    pub selected_answer_index: usize,
    /// Time from the start of the answer call to its completion, in
    /// milliseconds (the fine-grained per-answer timer, not the session one).
    pub time_taken_ms: u64,
}

/// The mathematical state of a quiz session.
pub struct QuizView {
    pub questions: Seq<QuestionView>,
    pub index: nat,
    pub score: nat,
    pub correct: nat,
    pub total: nat,
    pub started: bool,
    pub language: Language,
}

/// The session invariant: counters never run ahead of the cursor, the cursor
/// never runs past the end, the score is exactly the per-question points times
/// the number of correct answers, and the whole score range fits in its
/// counter.
pub open spec fn quiz_wf(v: QuizView) -> bool {
    &&& v.correct <= v.total <= v.index <= v.questions.len()
    &&& v.score == 100 * v.correct
    &&& 100 * v.questions.len() <= u32::MAX
}

/// A quiz session: an ordered question list, a monotonic cursor, and the
/// cumulative counters.
pub struct QuizGame {
    questions: Vec<Question>,
    current_question_index: usize,
    score: u32,
    correct_answers: u32,
    total_answers: u32,
    start_ms: Option<u64>,
    language: Language,
}

impl View for QuizGame {
    type V = QuizView;

    closed spec fn view(&self) -> QuizView {
        QuizView {
            questions: self.questions.deep_view(),
            index: self.current_question_index as nat,
            score: self.score as nat,
            correct: self.correct_answers as nat,
            total: self.total_answers as nat,
            started: self.start_ms is Some,
            language: self.language,
        }
    }
}

impl QuizGame {
    /// A fresh, unstarted session over `questions`. An empty list is a valid,
    /// degenerate input: the session is then finished immediately.
    pub fn new(questions: Vec<Question>, language: Language) -> (r: Self)
        requires
            100 * questions@.len() <= u32::MAX,
        ensures
            r@ == (QuizView {
                questions: questions.deep_view(),
                index: 0,
                score: 0,
                correct: 0,
                total: 0,
                started: false,
                language: language,
            }),
            quiz_wf(r@),
    {
        Self {
            questions,
            current_question_index: 0,
            score: 0,
            correct_answers: 0,
            total_answers: 0,
            start_ms: None,
            language,
        }
    }

    /// Records the reference instant for total-elapsed-time queries. Calling
    /// it again resets the reference to the later call.
    pub fn start(&mut self)
        ensures
            final(self)@ == (QuizView { started: true, ..old(self)@ }),
    {
        self.start_ms = Some(now_millis());
    }

    /// The question at the cursor, or none once the session is finished.
    pub fn get_current_question(&self) -> (r: Option<&Question>)
        ensures
            r is Some <==> self@.index < self@.questions.len(),
            r is Some ==> r.unwrap()@ == self@.questions[self@.index as int],
    {
        if self.current_question_index < self.questions.len() {
            let q = &self.questions[self.current_question_index];
            proof {
                assert(q@ == self.questions.deep_view()[self@.index as int]);
            }
            Some(q)
        } else {
            None
        }
    }

    /// The prompt of `question` for the session's language, by the fallback
    /// rule.
    pub fn get_question_text(&self, question: &Question) -> (r: String)
        ensures
            r@ == localized_of(question@.question_text, lang_code(self@.language)),
    {
        DataLoader::get_question_text(question, &self.language)
    }

    /// The text of each choice of `question` for the session's language, by
    /// the fallback rule, in order.
    pub fn get_choice_texts(&self, question: &Question) -> (r: Vec<String>)
        ensures
            r@.len() == question@.choices.len(),
            forall|i: int|
                0 <= i < r@.len() ==> r@[i]@ == localized_of(
                    question@.choices[i],
                    lang_code(self@.language),
                ),
    {
        let mut r: Vec<String> = Vec::new();
        let mut i: usize = 0;
        while i < question.choices.len()
            invariant
                i <= question.choices@.len(),
                question@.choices.len() == question.choices@.len(),
                r@.len() == i as int,
                forall|j: int|
                    0 <= j < i ==> r@[j]@ == localized_of(
                        question@.choices[j],
                        lang_code(self@.language),
                    ),
            decreases question.choices@.len() - i,
        {
            proof {
                assert(question.choices.deep_view()[i as int] == question.choices@[
                    i as int
                ].deep_view());
            }
            let text = DataLoader::get_choice_text(&question.choices[i], &self.language);
            r.push(text);
            i += 1;
        }
        r
    }

    /// Answers the current question. On an unfinished session: compares the
    /// selected index with the question's correct index, awards the fixed
    /// points on a match, counts the answer, advances the cursor by one, and
    /// returns the result snapshot. On a finished session: a no-op returning
    /// none.
    pub fn answer_question(&mut self, answer_index: usize) -> (r: Option<QuizResult>)
        requires
            quiz_wf(old(self)@),
        ensures
            quiz_wf(final(self)@),
            final(self)@.questions == old(self)@.questions,
            final(self)@.language == old(self)@.language,
            final(self)@.started == old(self)@.started,
            old(self)@.index >= old(self)@.questions.len() ==> r is None && final(self)@ == old(self)@,
            old(self)@.index < old(self)@.questions.len() ==> ({
                let q = old(self)@.questions[old(self)@.index as int];
                let was_correct = answer_index as nat == q.correct_answer_index;
                &&& r is Some
                &&& r.unwrap().is_correct == was_correct
                &&& r.unwrap().correct_answer_index as nat == q.correct_answer_index
                &&& r.unwrap().selected_answer_index == answer_index
                &&& final(self)@.index == old(self)@.index + 1
                &&& final(self)@.total == old(self)@.total + 1
                &&& final(self)@.correct == old(self)@.correct + (if was_correct {
                    1int
                } else {
                    0int
                })
                &&& final(self)@.score == old(self)@.score + (if was_correct {
                    100int
                } else {
                    0int
                })
            }),
    {
        let t0 = now_millis();
        if self.current_question_index < self.questions.len() {
            proof {
                assert(self.questions.deep_view()[self.current_question_index as int]
                    == self.questions@[self.current_question_index as int]@);
            }
            let correct_answer_index = self.questions[self.current_question_index]
                .correct_answer_index;
            let is_correct = answer_index == correct_answer_index;
            if is_correct {
                self.correct_answers = self.correct_answers + 1;
                self.score = self.score + self.calculate_score_for_question();
            }
            self.total_answers = self.total_answers + 1;
            let t1 = now_millis();
            let result = QuizResult {
                is_correct,
                correct_answer_index,
                selected_answer_index: answer_index,
                time_taken_ms: elapsed_millis(t0, t1),
            };
            self.current_question_index = self.current_question_index + 1;
            Some(result)
        } else {
            None
        }
    }

    /// Advances the cursor past the current question and counts the answer
    /// without touching score or correctness; reports whether a skip
    /// occurred. On a finished session: a no-op returning false.
    pub fn skip_question(&mut self) -> (r: bool)
        requires
            quiz_wf(old(self)@),
        ensures
            quiz_wf(final(self)@),
            r == (old(self)@.index < old(self)@.questions.len()),
            !r ==> final(self)@ == old(self)@,
            r ==> final(self)@ == (QuizView {
                index: old(self)@.index + 1,
                total: old(self)@.total + 1,
                ..old(self)@
            }),
    {
        if self.current_question_index < self.questions.len() {
            self.current_question_index = self.current_question_index + 1;
            self.total_answers = self.total_answers + 1;
            true
        } else {
            false
        }
    }

    /// The session is finished once the cursor has passed every question.
    pub fn is_game_finished(&self) -> (r: bool)
        ensures
            r == (self@.index >= self@.questions.len()),
    {
        self.current_question_index >= self.questions.len()
    }

    /// The cumulative score: exactly the per-question points times the number
    /// of correct answers.
    pub fn get_final_score(&self) -> (r: u32)
        requires
            quiz_wf(self@),
        ensures
            r == self@.score,
            r == 100 * self@.correct,
    {
        self.score
    }

    /// The accuracy so far, as the exact fraction
    /// `(correct answers, total answered)`. The fraction is always in
    /// `[0, 1]`, and the numerator is zero whenever nothing was answered yet
    /// (so the ratio is read as zero, never as a division by zero).
    pub fn get_accuracy(&self) -> (r: (u32, u32))
        requires
            quiz_wf(self@),
        ensures
            r.0 == self@.correct,
            r.1 == self@.total,
            r.0 <= r.1,
            r.1 == 0 ==> r.0 == 0,
    {
        (self.correct_answers, self.total_answers)
    }

    /// Milliseconds since `start` was called, or none if it never was.
    pub fn get_total_time(&self) -> (r: Option<u64>)
        ensures
            r is Some <==> self@.started,
    {
        match self.start_ms {
            Some(s) => Some(elapsed_millis(s, now_millis())),
            None => None,
        }
    }

    /// `(cursor, total questions)` for display.
    pub fn get_progress(&self) -> (r: (usize, usize))
        ensures
            r.0 == self@.index,
            r.1 == self@.questions.len(),
    {
        (self.current_question_index, self.questions.len())
    }

    /// Every question is worth the same fixed number of points.
    fn calculate_score_for_question(&self) -> (r: u32)
        ensures
            r == POINTS_PER_QUESTION,
    {
        POINTS_PER_QUESTION
    }
}

/// One observable answer-or-skip event: on an unfinished session the cursor
/// advances by exactly one over the same question list; on a finished session
/// nothing changes. Both `answer_question` and `skip_question` guarantee this
/// relation between their pre- and post-states.
pub open spec fn quiz_event_step(pre: QuizView, post: QuizView) -> bool {
    &&& post.questions == pre.questions
    &&& if pre.index < pre.questions.len() {
        post.index == pre.index + 1
    } else {
        post == pre
    }
}

proof fn lemma_quiz_index_after(trace: Seq<QuizView>, k: int)
    requires
        0 <= k < trace.len(),
        trace[0].index == 0,
        forall|j: int| 0 <= j < trace.len() - 1 ==> #[trigger] quiz_event_step(trace[j], trace[j + 1]),
    ensures
        trace[k].questions == trace[0].questions,
        trace[k].index == if k <= trace[0].questions.len() {
            k
        } else {
            trace[0].questions.len() as int
        },
    decreases k,
{
    if k > 0 {
        lemma_quiz_index_after(trace, k - 1);
        assert(quiz_event_step(trace[k - 1], trace[k - 1 + 1]));
        assert(quiz_event_step(trace[k - 1], trace[k]));
    }
}

/// Law: starting at the first question, after one answer-or-skip event per
/// question the session is finished, and every further event leaves the
/// state unchanged. The trace lists the observed session states, one per
/// event, as the contracts of `answer_question` and `skip_question` relate
/// them.
pub proof fn lemma_quiz_finishes_after_all_events(trace: Seq<QuizView>)
    requires
        trace.len() > trace[0].questions.len(),
        trace[0].index == 0,
        forall|j: int| 0 <= j < trace.len() - 1 ==> #[trigger] quiz_event_step(trace[j], trace[j + 1]),
    ensures
        trace.last().index >= trace.last().questions.len(),
        forall|j: int|
            trace[0].questions.len() <= j < trace.len() ==> #[trigger] trace[j] == trace[
                trace[0].questions.len() as int
            ],
{
    let n = trace[0].questions.len() as int;
    lemma_quiz_index_after(trace, trace.len() - 1);
    assert forall|j: int| n <= j < trace.len() implies trace[j] == trace[n] by {
        lemma_quiz_steady_after(trace, j);
    }
}

proof fn lemma_quiz_steady_after(trace: Seq<QuizView>, j: int)
    requires
        trace.len() > trace[0].questions.len(),
        trace[0].index == 0,
        forall|k: int| 0 <= k < trace.len() - 1 ==> #[trigger] quiz_event_step(trace[k], trace[k + 1]),
        trace[0].questions.len() <= j < trace.len(),
    ensures
        trace[j] == trace[trace[0].questions.len() as int],
    decreases j,
{
    let n = trace[0].questions.len() as int;
    if j > n {
        lemma_quiz_steady_after(trace, j - 1);
        lemma_quiz_index_after(trace, j - 1);
        assert(quiz_event_step(trace[j - 1], trace[j - 1 + 1]));
        assert(quiz_event_step(trace[j - 1], trace[j]));
    }
}

/// Law: under the session invariant the score is exactly the per-question
/// points times the number of correct answers.
pub proof fn lemma_score_is_points_times_correct(v: QuizView)
    requires
        quiz_wf(v),
    ensures
        v.score == 100 * v.correct,
{
}

} // verus!
