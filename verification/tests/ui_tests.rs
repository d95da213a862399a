use froginity::ui::{decimal_digits, GameStatus, Panel, UI};

#[test]
fn digits_of_zero() {
    assert_eq!(decimal_digits(0), vec![0]);
}

#[test]
fn digits_of_numbers() {
    assert_eq!(decimal_digits(7), vec![7]);
    assert_eq!(decimal_digits(10), vec![1, 0]);
    assert_eq!(decimal_digits(305), vec![3, 0, 5]);
    assert_eq!(decimal_digits(u32::MAX), vec![4, 2, 9, 4, 9, 6, 7, 2, 9, 5]);
}

#[test]
fn digits_match_to_string() {
    for n in [0u32, 1, 9, 10, 99, 100, 1234, 65535, 1_000_000, 4_000_000_000] {
        let expected: Vec<u8> = n.to_string().bytes().map(|b| b - b'0').collect();
        assert_eq!(decimal_digits(n), expected);
    }
}

#[test]
fn new_ui_is_empty() {
    let ui = UI::new();
    assert!(ui.items.is_empty());
    assert!(ui.score_digits.is_empty());
    assert!(ui.high_score_digits.is_empty());
}

#[test]
fn running_game_shows_only_scores() {
    let mut ui = UI::new();
    ui.update(&GameStatus { score: 42, high_score: 120, game_over: false, game_started: true });
    assert!(ui.sprites().is_empty());
    assert_eq!(ui.score_digits, vec![4, 2]);
    assert_eq!(ui.high_score_digits, vec![1, 2, 0]);
}

#[test]
fn game_over_shows_banner_and_hint() {
    let mut ui = UI::new();
    ui.update(&GameStatus { score: 5, high_score: 5, game_over: true, game_started: true });
    assert_eq!(ui.sprites(), &[Panel::GameOverBanner, Panel::RestartHint][..]);
}

#[test]
fn unstarted_game_shows_start_hint() {
    let mut ui = UI::new();
    ui.update(&GameStatus { score: 0, high_score: 0, game_over: false, game_started: false });
    assert_eq!(ui.sprites(), &[Panel::StartHint][..]);
    ui.update(&GameStatus { score: 0, high_score: 0, game_over: true, game_started: false });
    assert_eq!(ui.sprites(), &[Panel::GameOverBanner, Panel::RestartHint, Panel::StartHint][..]);
}

#[test]
fn update_replaces_previous_display() {
    let mut ui = UI::new();
    ui.update(&GameStatus { score: 999, high_score: 999, game_over: true, game_started: false });
    ui.update(&GameStatus { score: 3, high_score: 999, game_over: false, game_started: true });
    assert!(ui.items.is_empty());
    assert_eq!(ui.score_digits, vec![3]);
    assert_eq!(ui.high_score_digits, vec![9, 9, 9]);
}
