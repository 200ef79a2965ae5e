use typeglobe::types::{Question, Language, Player, Ranking, GameMode};
use typeglobe::data_loader::DataLoader;
use typeglobe::typing_texts::TypingTexts;
use typeglobe::config::Config;
use typeglobe::text::{str_eq, chars_of, string_from_chars, replace_placeholder};

fn entry(code: &str, text: &str) -> (String, String) {
    (code.to_string(), text.to_string())
}

fn tagged(id: &str, genre: &str) -> Question {
    Question {
        id: id.to_string(),
        genre: genre.to_string(),
        question_text: Vec::new(),
        choices: Vec::new(),
        correct_answer_index: 0,
        image_path: None,
    }
}

#[test]
fn filter_by_genre_keeps_matching_questions_in_order() {
    let questions = vec![tagged("a", "science"), tagged("b", "geography"), tagged("c", "science")];
    let filtered = DataLoader::filter_questions_by_genre(&questions, Some("science"));
    let ids: Vec<&str> = filtered.iter().map(|q| q.id.as_str()).collect();
    assert_eq!(ids, vec!["a", "c"]);
    let none_match = DataLoader::filter_questions_by_genre(&questions, Some("history"));
    assert!(none_match.is_empty());
}

#[test]
fn filter_without_genre_returns_everything() {
    let questions = vec![tagged("a", "science"), tagged("b", "geography")];
    let all = DataLoader::filter_questions_by_genre(&questions, None);
    assert_eq!(all.len(), 2);
    assert_eq!(all[0].id, "a");
    assert_eq!(all[1].id, "b");
}

#[test]
fn choice_text_uses_the_fallback_rule() {
    let choice = vec![entry("ja", "hai"), entry("en", "yes")];
    assert_eq!(DataLoader::get_choice_text(&choice, &Language::English), "yes");
    assert_eq!(DataLoader::get_choice_text(&choice, &Language::Japanese), "hai");
    let only_french = vec![entry("fr", "oui")];
    assert_eq!(DataLoader::get_choice_text(&only_french, &Language::English), "oui");
    let empty: Vec<(String, String)> = Vec::new();
    assert_eq!(DataLoader::get_choice_text(&empty, &Language::English), "");
}

#[test]
fn sample_questions_are_well_formed() {
    let questions = DataLoader::create_sample_questions();
    assert_eq!(questions.len(), 2);
    assert_eq!(questions[0].id, "q001");
    assert_eq!(questions[0].genre, "science");
    assert_eq!(questions[0].correct_answer_index, 1);
    assert_eq!(questions[0].choices.len(), 4);
    assert_eq!(questions[0].choices[1][1], entry("en", "H2O"));
    assert_eq!(questions[1].id, "q002");
    assert_eq!(questions[1].genre, "geography");
    assert_eq!(questions[1].correct_answer_index, 1);
    assert_eq!(questions[1].choices[1][1], entry("en", "Tokyo"));
    for q in &questions {
        assert!(q.correct_answer_index < q.choices.len());
    }
}

#[test]
fn text_lists_have_the_fixed_contents() {
    let sample = TypingTexts::get_sample_texts(&Language::English);
    assert_eq!(sample.len(), 10);
    assert_eq!(sample[0], "hello world");
    let sample_ja = TypingTexts::get_sample_texts(&Language::Japanese);
    assert_eq!(sample_ja.len(), 10);
    assert_eq!(sample_ja[0], "konnichiwa sekai");
    assert_eq!(TypingTexts::get_beginner_texts(&Language::English).len(), 5);
    assert_eq!(TypingTexts::get_intermediate_texts(&Language::Japanese).len(), 5);
    assert_eq!(TypingTexts::get_advanced_texts(&Language::English).len(), 5);
}

#[test]
fn random_text_comes_from_the_sample_list() {
    let text = TypingTexts::get_random_text(&Language::English);
    let sample = TypingTexts::get_sample_texts(&Language::English);
    assert!(sample.contains(&text));
}

#[test]
fn config_paths_fill_in_the_language_code() {
    let config = Config::default();
    assert_eq!(config.questions_file_path(&Language::Japanese), "data/questions_ja.json");
    assert_eq!(config.questions_file_path(&Language::English), "data/questions_en.json");
    assert_eq!(config.player_data_file_path(), "data/player.json");
    assert_eq!(config.ranking_file_path(&Language::English), "data/ranking_en.json");
}

#[test]
fn language_codes_are_two_letter() {
    assert_eq!(Language::Japanese.code(), "ja");
    assert_eq!(Language::English.code(), "en");
}

#[test]
fn default_player_and_ranking() {
    let player = Player::default();
    assert_eq!(player.player_name, "Player");
    assert_eq!(player.language, "ja");
    assert_eq!(player.rpg_stats.level, 1);
    assert_eq!(player.rpg_stats.exp, 0);
    let ranking = Ranking::default();
    assert!(ranking.quiz_mode.is_empty());
    assert!(ranking.typing_mode.is_empty());
    assert!(ranking.quiz_typing_mode.is_empty());
    assert!(ranking.time_attack.is_empty());
    assert!(ranking.rpg_mode.is_empty());
    let _mode = GameMode::Quiz;
}

#[test]
fn string_helpers_work_character_wise() {
    assert!(str_eq("", ""));
    assert!(str_eq("東京", "東京"));
    assert!(!str_eq("abc", "abd"));
    assert!(!str_eq("abc", "ab"));
    let chars = chars_of("東京");
    assert_eq!(chars, vec!['東', '京']);
    assert_eq!(string_from_chars(&chars), "東京");
    assert_eq!(replace_placeholder("a{}b{}", "X"), "aXbX");
    assert_eq!(replace_placeholder("no placeholder", "X"), "no placeholder");
    assert_eq!(replace_placeholder("{}", "sub"), "sub");
}
