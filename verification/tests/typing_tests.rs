use typeglobe::typing::{TypingGame, CharacterStatus};

#[test]
fn cat_with_one_wrong_character() {
    let mut game = TypingGame::new("cat".to_string());
    assert!(game.type_character('c'));
    assert!(game.type_character('a'));
    assert!(game.type_character('x'));
    let status = game.get_character_status();
    assert_eq!(
        status,
        vec![CharacterStatus::Correct, CharacterStatus::Correct, CharacterStatus::Incorrect]
    );
    assert!(game.is_finished());
    let result = game.get_result().expect("finished session has a result");
    assert_eq!(result.errors, 1);
    assert_eq!(result.total_characters, 3);
    assert_eq!(result.correct_characters, 2);
    // 100 * 2 / 3 percent, in hundredths of a percent, rounded down.
    assert_eq!(result.accuracy_permyriad, 6666);
}

#[test]
fn typing_the_whole_target_correctly_is_perfect() {
    let mut game = TypingGame::new("cat".to_string());
    for ch in ['c', 'a', 't'] {
        assert!(game.type_character(ch));
    }
    assert!(game.is_finished());
    let result = game.get_result().unwrap();
    assert_eq!(result.errors, 0);
    assert_eq!(result.accuracy_permyriad, 10000);
    assert_eq!(result.correct_characters, 3);
    // A finished session accepts no further characters.
    assert!(!game.type_character('x'));
}

#[test]
fn backspace_never_decreases_the_error_counter() {
    let mut game = TypingGame::new("ab".to_string());
    assert!(game.type_character('x'));
    assert_eq!(game.count_correct_characters(), 0);
    assert!(game.backspace());
    assert!(game.type_character('a'));
    assert!(game.type_character('b'));
    let result = game.get_result().unwrap();
    assert!(result.errors >= 1);
    assert_eq!(result.errors, 1);
    assert_eq!(result.correct_characters, 2);
}

#[test]
fn backspace_on_empty_buffer_does_nothing() {
    let mut game = TypingGame::new("ab".to_string());
    assert!(!game.backspace());
    assert_eq!(game.get_current_position(), 0);
}

#[test]
fn exactly_one_current_position_until_finished() {
    let mut game = TypingGame::new("ab".to_string());
    let status = game.get_character_status();
    assert_eq!(status.len(), 2);
    assert_eq!(status.iter().filter(|s| **s == CharacterStatus::Current).count(), 1);
    assert_eq!(status[0], CharacterStatus::Current);

    game.type_character('a');
    let status = game.get_character_status();
    assert_eq!(status.len(), 2);
    assert_eq!(status[0], CharacterStatus::Correct);
    assert_eq!(status[1], CharacterStatus::Current);

    game.type_character('b');
    let status = game.get_character_status();
    assert_eq!(status.len(), 2);
    assert_eq!(status.iter().filter(|s| **s == CharacterStatus::Current).count(), 0);
}

#[test]
fn empty_buffer_is_vacuously_accurate() {
    let game = TypingGame::new("abc".to_string());
    assert_eq!(game.calculate_accuracy(), 10000);
}

#[test]
fn empty_target_is_finished_immediately() {
    let mut game = TypingGame::new(String::new());
    assert!(game.is_finished());
    assert!(!game.type_character('a'));
    assert_eq!(game.get_progress(), (0, 0));
    let result = game.get_result().unwrap();
    assert_eq!(result.total_characters, 0);
    assert_eq!(result.errors, 0);
    assert_eq!(result.accuracy_permyriad, 10000);
    assert_eq!(result.wpm_centi, 0);
    assert_eq!(result.total_time_ms, 0);
}

#[test]
fn multibyte_targets_are_compared_by_character() {
    let mut game = TypingGame::new("東京".to_string());
    assert!(game.type_character('大'));
    let status = game.get_character_status();
    assert_eq!(status[0], CharacterStatus::Incorrect);
    assert!(game.backspace());
    assert!(game.type_character('東'));
    assert!(game.type_character('京'));
    assert!(game.is_finished());
    let result = game.get_result().unwrap();
    assert_eq!(result.errors, 1);
    assert_eq!(result.correct_characters, 2);
    assert_eq!(result.total_characters, 2);
}

#[test]
fn typed_text_reflects_the_buffer() {
    let mut game = TypingGame::new("abc".to_string());
    game.type_character('a');
    game.type_character('b');
    assert_eq!(game.get_typed_text(), "ab");
    assert_eq!(game.get_target_text(), "abc");
    assert_eq!(game.get_current_position(), 2);
    assert_eq!(game.get_progress(), (2, 3));
    game.backspace();
    assert_eq!(game.get_typed_text(), "a");
}

#[test]
fn result_absent_while_unfinished() {
    let mut game = TypingGame::new("ab".to_string());
    assert!(game.get_result().is_none());
    game.type_character('a');
    assert!(game.get_result().is_none());
    game.type_character('b');
    assert!(game.get_result().is_some());
    // Backspacing off the end leaves the session unfinished again.
    assert!(game.backspace());
    assert!(!game.is_finished());
    assert!(game.get_result().is_none());
}

#[test]
fn wpm_is_zero_without_captured_instants() {
    let game = TypingGame::new("ab".to_string());
    assert_eq!(game.calculate_wpm(), 0);
}
