//! Plain data types shared by both game engines: questions, players,
//! rankings, and the game-mode and language selectors.

use vstd::prelude::*;

verus! {

/// A quiz question. The prompt and every choice carry one localized text per
/// language code, kept as an ordered list of `(code, text)` pairs so that the
/// fallback rule ("first available translation") is deterministic.
pub struct Question {
    pub id: String,
    pub genre: String,
    pub question_text: Vec<(String, String)>,
    pub choices: Vec<Vec<(String, String)>>,
    pub correct_answer_index: usize,
    pub image_path: Option<String>,
}

/// The mathematical value of a [`Question`]: every text is a character
/// sequence, every list a sequence.
#[verifier::ext_equal]
pub struct QuestionView {
    pub id: Seq<char>,
    pub genre: Seq<char>,
    pub question_text: Seq<(Seq<char>, Seq<char>)>,
    pub choices: Seq<Seq<(Seq<char>, Seq<char>)>>,
    pub correct_answer_index: nat,
    pub image_path: Option<Seq<char>>,
}

impl QuestionView {
    /// The stored correct-answer index must point at one of the choices.
    pub open spec fn wf(&self) -> bool {
        self.correct_answer_index < self.choices.len()
    }
}

impl View for Question {
    type V = QuestionView;

    open spec fn view(&self) -> QuestionView {
        QuestionView {
            id: self.id@,
            genre: self.genre@,
            question_text: self.question_text.deep_view(),
            choices: self.choices.deep_view(),
            correct_answer_index: self.correct_answer_index as nat,
            image_path: self.image_path.deep_view(),
        }
    }
}

impl DeepView for Question {
    type V = QuestionView;

    open spec fn deep_view(&self) -> QuestionView {
        self.view()
    }
}

/// A copy of a list of `(code, text)` pairs.
fn clone_entries(v: &Vec<(String, String)>) -> (r: Vec<(String, String)>)
    ensures
        r@ == v@,
{
    let mut r: Vec<(String, String)> = Vec::new();
    let mut i: usize = 0;
    while i < v.len()
        invariant
            i <= v@.len(),
            r@ =~= v@.subrange(0, i as int),
        decreases v@.len() - i,
    {
        r.push((v[i].0.clone(), v[i].1.clone()));
        i += 1;
    }
    proof {
        assert(r@ =~= v@);
    }
    r
}

impl Clone for Question {
    fn clone(&self) -> (r: Self)
        ensures
            r@ == self@,
    {
        let mut choices: Vec<Vec<(String, String)>> = Vec::new();
        let mut i: usize = 0;
        while i < self.choices.len()
            invariant
                i <= self.choices@.len(),
                choices@.len() == i,
                forall|j: int| 0 <= j < i ==> choices@[j]@ == self.choices@[j]@,
            decreases self.choices@.len() - i,
        {
            choices.push(clone_entries(&self.choices[i]));
            i += 1;
        }
        let r = Question {
            id: self.id.clone(),
            genre: self.genre.clone(),
            question_text: clone_entries(&self.question_text),
            choices,
            correct_answer_index: self.correct_answer_index,
            image_path: match &self.image_path {
                Some(p) => Some(p.clone()),
                None => None,
            },
        };
        proof {
            assert(r.question_text.deep_view() =~~= self.question_text.deep_view());
            assert(r.choices.deep_view() =~~= self.choices.deep_view());
            assert(r.image_path.deep_view() =~~= self.image_path.deep_view());
        }
        r
    }
}

pub struct Player {
    pub player_name: String,
    pub language: String,
    pub rpg_stats: RpgStats,
}

pub struct RpgStats {
    pub level: u32,
    pub exp: u32,
}

pub struct ScoreEntry {
    pub name: String,
    pub score: u32,
}

pub struct TimeEntry {
    pub name: String,
    pub time_seconds: u32,
}

pub struct Ranking {
    pub quiz_mode: Vec<ScoreEntry>,
    pub typing_mode: Vec<ScoreEntry>,
    pub quiz_typing_mode: Vec<ScoreEntry>,
    pub time_attack: Vec<TimeEntry>,
    pub rpg_mode: Vec<ScoreEntry>,
}

#[derive(Debug, Clone)]
pub enum GameMode {
    Quiz,
    Typing,
    QuizTyping,
    TimeAttack,
    Rpg,
    Stealth,
}

#[derive(Debug, Clone, PartialEq, Eq, Structural)]
pub enum Language {
    Japanese,
    English,
}

/// The two-letter code used to look texts up for a language.
pub open spec fn lang_code(l: Language) -> Seq<char> {
    match l {
        Language::Japanese => "ja"@,
        Language::English => "en"@,
    }
}

impl Language {
    pub fn code(&self) -> (r: &str)
        ensures
            r@ == lang_code(*self),
    {
        match self {
            Language::Japanese => "ja",
            Language::English => "en",
        }
    }
}

impl Default for Player {
    fn default() -> (r: Self)
        ensures
            r.player_name@ == "Player"@,
            r.language@ == "ja"@,
            r.rpg_stats.level == 1,
            r.rpg_stats.exp == 0,
    {
        Player {
            player_name: "Player".to_owned(),
            language: "ja".to_owned(),
            rpg_stats: RpgStats { level: 1, exp: 0 },
        }
    }
}

impl Default for Ranking {
    fn default() -> (r: Self)
        ensures
            r.quiz_mode@.len() == 0,
            r.typing_mode@.len() == 0,
            r.quiz_typing_mode@.len() == 0,
            r.time_attack@.len() == 0,
            r.rpg_mode@.len() == 0,
    {
        Ranking {
            quiz_mode: Vec::new(),
            typing_mode: Vec::new(),
            quiz_typing_mode: Vec::new(),
            time_attack: Vec::new(),
            rpg_mode: Vec::new(),
        }
    }
}

} // verus!
