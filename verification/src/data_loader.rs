//! Question handling: localized-text lookup with its fallback rule, genre
//! filtering, and the built-in sample questions.
//!
//! The fallback rule, shared by every text lookup in the system: try the
//! active language code; if it is absent, fall back to the first available
//! translation; if none exists, return the empty string.

use vstd::prelude::*;
use crate::types::{Question, QuestionView, Language, lang_code};
use crate::text::str_eq;

verus! {

/// Index of the first entry whose code matches, or `entries.len()` if none.
pub open spec fn first_match_idx(entries: Seq<(Seq<char>, Seq<char>)>, code: Seq<char>) -> int
    decreases entries.len(),
{
    if entries.len() == 0 {
        0
    } else if entries[0].0 == code {
        0
    } else {
        1 + first_match_idx(entries.skip(1), code)
    }
}

/// The text the fallback rule selects: the first entry whose code matches,
/// else the first entry at all, else the empty string.
pub open spec fn localized_of(entries: Seq<(Seq<char>, Seq<char>)>, code: Seq<char>) -> Seq<char> {
    if entries.len() == 0 {
        Seq::empty()
    } else if first_match_idx(entries, code) < entries.len() {
        entries[first_match_idx(entries, code)].1
    } else {
        entries[0].1
    }
}

proof fn lemma_first_match(entries: Seq<(Seq<char>, Seq<char>)>, code: Seq<char>)
    ensures
        0 <= first_match_idx(entries, code) <= entries.len(),
        first_match_idx(entries, code) < entries.len() ==> entries[first_match_idx(entries, code)].0
            == code,
        forall|j: int|
            0 <= j < first_match_idx(entries, code) ==> entries[j].0 != code,
        first_match_idx(entries, code) == entries.len() ==> forall|j: int|
            0 <= j < entries.len() ==> entries[j].0 != code,
    decreases entries.len(),
{
    if entries.len() == 0 {
    } else if entries[0].0 == code {
    } else {
        lemma_first_match(entries.skip(1), code);
        assert forall|j: int| 0 <= j < first_match_idx(entries, code) implies entries[j].0
            != code by {
            if j > 0 {
                assert(entries.skip(1)[j - 1] == entries[j]);
            }
        }
        if first_match_idx(entries, code) == entries.len() {
            assert forall|j: int| 0 <= j < entries.len() implies entries[j].0 != code by {
                if j > 0 {
                    assert(entries.skip(1)[j - 1] == entries[j]);
                }
            }
        }
    }
}

/// The text for `code` in `entries`, by the fallback rule.
pub fn lookup_localized(entries: &Vec<(String, String)>, code: &str) -> (r: String)
    ensures
        r@ == localized_of(entries.deep_view(), code@),
{
    let ghost dentries = entries.deep_view();
    proof {
        lemma_first_match(dentries, code@);
        assert forall|j: int| 0 <= j < entries@.len() implies dentries[j] == (
        entries@[j].0@,
        entries@[j].1@,
        ) by {
            assert(dentries[j] == entries@[j].deep_view());
        }
    }
    let ghost idx = first_match_idx(dentries, code@);
    let mut i: usize = 0;
    while i < entries.len()
        invariant
            dentries == entries.deep_view(),
            dentries.len() == entries@.len(),
            idx == first_match_idx(dentries, code@),
            0 <= idx <= dentries.len(),
            idx < dentries.len() ==> dentries[idx].0 == code@,
            forall|j: int| 0 <= j < idx ==> dentries[j].0 != code@,
            idx == dentries.len() ==> forall|j: int|
                0 <= j < dentries.len() ==> dentries[j].0 != code@,
            forall|j: int| 0 <= j < dentries.len() ==> dentries[j] == (
            entries@[j].0@,
            entries@[j].1@,
            ),
            i <= entries@.len(),
            forall|j: int| 0 <= j < i ==> dentries[j].0 != code@,
        decreases entries@.len() - i,
    {
        if str_eq(entries[i].0.as_str(), code) {
            proof {
                assert(dentries[i as int].0 == code@);
                assert(idx == i);
            }
            return entries[i].1.clone();
        }
        i += 1;
    }
    proof {
        assert(idx == dentries.len());
    }
    if entries.len() > 0 {
        entries[0].1.clone()
    } else {
        String::new()
    }
}

/// The questions whose genre equals `g`, kept in order.
pub open spec fn genre_filter(qs: Seq<QuestionView>, g: Seq<char>) -> Seq<QuestionView>
    decreases qs.len(),
{
    if qs.len() == 0 {
        Seq::empty()
    } else if qs.last().genre == g {
        genre_filter(qs.drop_last(), g).push(qs.last())
    } else {
        genre_filter(qs.drop_last(), g)
    }
}

pub struct DataLoader;

impl DataLoader {
    /// With a genre, keeps exactly the questions of that genre, in order;
    /// without one, returns the whole list.
    pub fn filter_questions_by_genre(questions: &[Question], genre: Option<&str>) -> (r: Vec<
        Question,
    >)
        ensures
            match genre {
                Some(g) => r.deep_view() == genre_filter(questions.deep_view(), g@),
                None => r.deep_view() == questions.deep_view(),
            },
    {
        proof {
            assert forall|j: int|
                0 <= j < questions@.len() implies #[trigger] questions.deep_view()[j]
                == questions@[j]@ by {}
        }
        match genre {
            None => {
                let mut r: Vec<Question> = Vec::new();
                let mut i: usize = 0;
                while i < questions.len()
                    invariant
                        i <= questions@.len(),
                        r.deep_view().len() == i as int,
                        forall|j: int|
                            0 <= j < i ==> #[trigger] r.deep_view()[j] == questions@[j]@,
                        forall|j: int|
                            0 <= j < questions@.len() ==> #[trigger] questions.deep_view()[j]
                                == questions@[j]@,
                    decreases questions@.len() - i,
                {
                    let ghost prev = r.deep_view();
                    let q = questions[i].clone();
                    r.push(q);
                    proof {
                        assert forall|j: int| 0 <= j < i + 1 implies #[trigger] r.deep_view()[j]
                            == questions@[j]@ by {
                            assert(r.deep_view()[j] == r@[j].deep_view());
                            if j < i {
                                assert(r.deep_view()[j] == prev[j]);
                            }
                        }
                    }
                    i += 1;
                }
                proof {
                    assert(r.deep_view() =~= questions.deep_view());
                }
                r
            },
            Some(g) => {
                let mut r: Vec<Question> = Vec::new();
                let mut i: usize = 0;
                while i < questions.len()
                    invariant
                        i <= questions@.len(),
                        r.deep_view() == genre_filter(questions.deep_view().take(i as int), g@),
                        forall|j: int|
                            0 <= j < questions@.len() ==> #[trigger] questions.deep_view()[j]
                                == questions@[j]@,
                    decreases questions@.len() - i,
                {
                    let ghost pre = questions.deep_view().take(i as int);
                    let ghost post = questions.deep_view().take(i + 1);
                    proof {
                        assert(post.drop_last() =~= pre);
                        assert(post.last() == questions@[i as int]@);
                    }
                    if str_eq(questions[i].genre.as_str(), g) {
                        let q = questions[i].clone();
                        r.push(q);
                    }
                    i += 1;
                }
                proof {
                    assert(questions.deep_view().take(questions@.len() as int) =~= questions.deep_view());
                }
                r
            },
        }
    }

    /// The prompt of `question` for `language`, by the fallback rule.
    pub fn get_question_text(question: &Question, language: &Language) -> (r: String)
        ensures
            r@ == localized_of(question@.question_text, lang_code(*language)),
    {
        lookup_localized(&question.question_text, language.code())
    }

    /// The text of one choice for `language`, by the fallback rule.
    pub fn get_choice_text(choice: &Vec<(String, String)>, language: &Language) -> (r: String)
        ensures
            r@ == localized_of(choice.deep_view(), lang_code(*language)),
    {
        lookup_localized(choice, language.code())
    }

    /// The built-in sample questions, exactly as [`sample_questions`] lists
    /// them; both are well formed.
    pub fn create_sample_questions() -> (r: Vec<Question>)
        ensures
            r.deep_view() == sample_questions(),
            r@.len() == 2,
            forall|i: int| 0 <= i < r.deep_view().len() ==> (#[trigger] r.deep_view()[i]).wf(),
    {
        let mut choices1: Vec<Vec<(String, String)>> = Vec::new();
        choices1.push(bilingual("CO2", "CO2"));
        choices1.push(bilingual("H2O", "H2O"));
        choices1.push(bilingual("O2", "O2"));
        choices1.push(bilingual("N2", "N2"));
        let q1 = Question {
            id: "q001".to_owned(),
            genre: "science".to_owned(),
            question_text: bilingual("水の化学式は？", "What is the chemical formula for water?"),
            choices: choices1,
            correct_answer_index: 1,
            image_path: None,
        };
        let mut choices2: Vec<Vec<(String, String)>> = Vec::new();
        choices2.push(bilingual("大阪", "Osaka"));
        choices2.push(bilingual("東京", "Tokyo"));
        choices2.push(bilingual("京都", "Kyoto"));
        choices2.push(bilingual("名古屋", "Nagoya"));
        let q2 = Question {
            id: "q002".to_owned(),
            genre: "geography".to_owned(),
            question_text: bilingual("日本の首都は？", "What is the capital of Japan?"),
            choices: choices2,
            correct_answer_index: 1,
            image_path: None,
        };
        let mut r: Vec<Question> = Vec::new();
        r.push(q1);
        r.push(q2);
        proof {
            assert(r.deep_view() =~~= sample_questions());
        }
        r
    }
}

/// A `(code, text)` pair per language, Japanese first.
fn bilingual(ja: &str, en: &str) -> (r: Vec<(String, String)>)
    ensures
        r.deep_view() == seq![("ja"@, ja@), ("en"@, en@)],
{
    let mut r: Vec<(String, String)> = Vec::new();
    r.push(("ja".to_owned(), ja.to_owned()));
    r.push(("en".to_owned(), en.to_owned()));
    proof {
        assert(r.deep_view() =~= seq![("ja"@, ja@), ("en"@, en@)]);
    }
    r
}

/// The two built-in sample questions: one science, one geography, each with
/// four choices and the second choice correct.
pub open spec fn sample_questions() -> Seq<QuestionView> {
    seq![
        QuestionView {
            id: "q001"@,
            genre: "science"@,
            question_text: seq![
                ("ja"@, "水の化学式は？"@),
                ("en"@, "What is the chemical formula for water?"@),
            ],
            choices: seq![
                seq![("ja"@, "CO2"@), ("en"@, "CO2"@)],
                seq![("ja"@, "H2O"@), ("en"@, "H2O"@)],
                seq![("ja"@, "O2"@), ("en"@, "O2"@)],
                seq![("ja"@, "N2"@), ("en"@, "N2"@)],
            ],
            correct_answer_index: 1,
            image_path: None,
        },
        QuestionView {
            id: "q002"@,
            genre: "geography"@,
            question_text: seq![
                ("ja"@, "日本の首都は？"@),
                ("en"@, "What is the capital of Japan?"@),
            ],
            choices: seq![
                seq![("ja"@, "大阪"@), ("en"@, "Osaka"@)],
                seq![("ja"@, "東京"@), ("en"@, "Tokyo"@)],
                seq![("ja"@, "京都"@), ("en"@, "Kyoto"@)],
                seq![("ja"@, "名古屋"@), ("en"@, "Nagoya"@)],
            ],
            correct_answer_index: 1,
            image_path: None,
        },
    ]
}

} // verus!
