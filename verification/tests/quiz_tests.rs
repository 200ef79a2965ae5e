use typeglobe::types::{Question, Language};
use typeglobe::quiz::QuizGame;

fn entry(code: &str, text: &str) -> (String, String) {
    (code.to_string(), text.to_string())
}

fn question(id: &str, genre: &str, prompt_en: &str, choices_en: &[&str], correct: usize) -> Question {
    Question {
        id: id.to_string(),
        genre: genre.to_string(),
        question_text: vec![entry("en", prompt_en)],
        choices: choices_en.iter().map(|c| vec![entry("en", c)]).collect(),
        correct_answer_index: correct,
        image_path: None,
    }
}

#[test]
fn two_questions_one_correct_one_wrong() {
    let questions = vec![
        question("q1", "g", "first", &["a", "b"], 1),
        question("q2", "g", "second", &["a", "b"], 1),
    ];
    let mut game = QuizGame::new(questions, Language::English);
    game.start();

    let r1 = game.answer_question(1).expect("first answer accepted");
    assert!(r1.is_correct);
    assert_eq!(r1.correct_answer_index, 1);
    assert_eq!(r1.selected_answer_index, 1);
    assert!(!game.is_game_finished());

    let r2 = game.answer_question(0).expect("second answer accepted");
    assert!(!r2.is_correct);
    assert_eq!(r2.correct_answer_index, 1);
    assert_eq!(r2.selected_answer_index, 0);

    assert!(game.is_game_finished());
    assert_eq!(game.get_final_score(), 100);
    assert_eq!(game.get_accuracy(), (1, 2));
    assert_eq!(game.get_progress(), (2, 2));
}

#[test]
fn empty_question_list_is_finished_immediately() {
    let mut game = QuizGame::new(Vec::new(), Language::English);
    assert!(game.is_game_finished());
    assert!(game.get_current_question().is_none());
    assert!(game.answer_question(0).is_none());
    assert!(!game.skip_question());
    assert_eq!(game.get_final_score(), 0);
    assert_eq!(game.get_accuracy(), (0, 0));
    assert_eq!(game.get_progress(), (0, 0));
}

#[test]
fn session_finishes_after_one_event_per_question() {
    let questions = vec![
        question("q1", "g", "first", &["a", "b"], 0),
        question("q2", "g", "second", &["a", "b"], 0),
        question("q3", "g", "third", &["a", "b"], 0),
    ];
    let mut game = QuizGame::new(questions, Language::English);
    assert!(game.answer_question(0).is_some());
    assert!(game.skip_question());
    assert!(game.answer_question(1).is_some());
    assert!(game.is_game_finished());
    // Further events are no-ops.
    assert!(game.answer_question(0).is_none());
    assert!(!game.skip_question());
    assert_eq!(game.get_progress(), (3, 3));
    assert_eq!(game.get_accuracy(), (1, 3));
}

#[test]
fn score_is_always_hundred_per_correct_answer() {
    let questions = vec![
        question("q1", "g", "first", &["a", "b"], 0),
        question("q2", "g", "second", &["a", "b"], 1),
        question("q3", "g", "third", &["a", "b"], 1),
    ];
    let mut game = QuizGame::new(questions, Language::English);
    assert_eq!(game.get_final_score(), 0);
    game.answer_question(0);
    assert_eq!(game.get_final_score(), 100);
    game.answer_question(1);
    assert_eq!(game.get_final_score(), 200);
    game.answer_question(0);
    assert_eq!(game.get_final_score(), 200);
    let (correct, _) = game.get_accuracy();
    assert_eq!(game.get_final_score(), 100 * correct);
}

#[test]
fn skip_touches_neither_score_nor_correctness() {
    let questions = vec![question("q1", "g", "first", &["a", "b"], 0)];
    let mut game = QuizGame::new(questions, Language::English);
    assert!(game.skip_question());
    assert_eq!(game.get_final_score(), 0);
    assert_eq!(game.get_accuracy(), (0, 1));
    assert!(game.is_game_finished());
}

#[test]
fn current_question_follows_the_cursor() {
    let questions = vec![
        question("q1", "g", "first", &["a", "b"], 0),
        question("q2", "g", "second", &["a", "b"], 0),
    ];
    let mut game = QuizGame::new(questions, Language::English);
    assert_eq!(game.get_current_question().unwrap().id, "q1");
    game.skip_question();
    assert_eq!(game.get_current_question().unwrap().id, "q2");
    game.skip_question();
    assert!(game.get_current_question().is_none());
}

#[test]
fn total_time_needs_start() {
    let mut game = QuizGame::new(Vec::new(), Language::English);
    assert!(game.get_total_time().is_none());
    game.start();
    assert!(game.get_total_time().is_some());
}

#[test]
fn question_text_prefers_active_language() {
    let q = Question {
        id: "q".to_string(),
        genre: "g".to_string(),
        question_text: vec![entry("ja", "mizu"), entry("en", "water")],
        choices: vec![vec![entry("ja", "hai"), entry("en", "yes")]],
        correct_answer_index: 0,
        image_path: None,
    };
    let game_en = QuizGame::new(Vec::new(), Language::English);
    assert_eq!(game_en.get_question_text(&q), "water");
    assert_eq!(game_en.get_choice_texts(&q), vec!["yes".to_string()]);
    let game_ja = QuizGame::new(Vec::new(), Language::Japanese);
    assert_eq!(game_ja.get_question_text(&q), "mizu");
    assert_eq!(game_ja.get_choice_texts(&q), vec!["hai".to_string()]);
}

#[test]
fn question_text_falls_back_to_first_available_translation() {
    let q = Question {
        id: "q".to_string(),
        genre: "g".to_string(),
        question_text: vec![entry("fr", "eau"), entry("de", "wasser")],
        choices: Vec::new(),
        correct_answer_index: 0,
        image_path: None,
    };
    let game = QuizGame::new(Vec::new(), Language::English);
    assert_eq!(game.get_question_text(&q), "eau");
}

#[test]
fn question_text_empty_when_no_translation_exists() {
    let q = Question {
        id: "q".to_string(),
        genre: "g".to_string(),
        question_text: Vec::new(),
        choices: Vec::new(),
        correct_answer_index: 0,
        image_path: None,
    };
    let game = QuizGame::new(Vec::new(), Language::English);
    assert_eq!(game.get_question_text(&q), "");
}

#[test]
fn out_of_range_answer_counts_as_incorrect() {
    let questions = vec![question("q1", "g", "first", &["a", "b"], 1)];
    let mut game = QuizGame::new(questions, Language::English);
    let r = game.answer_question(7).expect("answer accepted while unfinished");
    assert!(!r.is_correct);
    assert_eq!(r.selected_answer_index, 7);
    assert_eq!(r.correct_answer_index, 1);
    assert_eq!(game.get_final_score(), 0);
    assert_eq!(game.get_accuracy(), (0, 1));
    assert!(game.is_game_finished());
}
