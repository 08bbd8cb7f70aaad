use snake_game::game::init_game_state;
use snake_game::leaderboard::{
    check_if_new_record, check_new_leaderboard_score, process_keyboard_event, sort_scores,
};
use snake_game::models::{KeyInput, ScreensEnum};

#[test]
fn admit_into_middle() {
    let mut st = init_game_state();
    let saved = check_if_new_record(&mut st, 95, vec![100, 90, 80]);
    assert_eq!(saved, Some(vec![100, 95, 90, 80]));
    assert_eq!(st.app_state.leaderboard, Some(vec![100, 95, 90, 80]));
}

#[test]
fn admit_same_score_twice_is_idempotent() {
    let mut st = init_game_state();
    let saved = check_if_new_record(&mut st, 95, vec![100, 90, 80]);
    let list = saved.expect("95 is new");
    let again = check_if_new_record(&mut st, 95, list.clone());
    assert_eq!(again, None);
    assert_eq!(st.app_state.leaderboard, Some(list));
}

#[test]
fn full_list_rejects_equal_lowest() {
    let mut st = init_game_state();
    let stored = vec![140, 130, 120, 110, 100, 90, 80, 70, 60, 50];
    assert_eq!(check_if_new_record(&mut st, 50, stored), None);
    assert_eq!(st.app_state.leaderboard, None);
}

#[test]
fn full_list_admits_and_truncates() {
    let mut st = init_game_state();
    let stored = vec![140, 130, 120, 110, 100, 90, 80, 70, 60, 50];
    let saved = check_if_new_record(&mut st, 51, stored).expect("51 beats the lowest");
    assert_eq!(saved, vec![140, 130, 120, 110, 100, 90, 80, 70, 60, 51]);
    assert_eq!(saved.len(), 10);
}

#[test]
fn zero_score_never_admitted() {
    let mut st = init_game_state();
    assert_eq!(check_if_new_record(&mut st, 0, vec![]), None);
    assert_eq!(st.app_state.leaderboard, None);
}

#[test]
fn duplicate_never_admitted() {
    let mut st = init_game_state();
    assert_eq!(check_if_new_record(&mut st, 90, vec![100, 90, 80]), None);
}

#[test]
fn short_list_admits_low_score() {
    let mut st = init_game_state();
    let saved = check_if_new_record(&mut st, 5, vec![100, 90, 80]);
    assert_eq!(saved, Some(vec![100, 90, 80, 5]));
}

#[test]
fn empty_list_admits_first_score() {
    let mut st = init_game_state();
    let saved = check_if_new_record(&mut st, 7, vec![]);
    assert_eq!(saved, Some(vec![7]));
}

#[test]
fn ordering_kept_over_many_admissions() {
    let mut st = init_game_state();
    let mut stored: Vec<u64> = Vec::new();
    for v in [30u64, 10, 50, 20, 10, 40, 60, 5, 80, 70, 90, 100, 65] {
        if let Some(list) = check_if_new_record(&mut st, v, stored.clone()) {
            stored = list;
        }
        assert!(stored.len() <= 10);
        for a in 0..stored.len() {
            for b in (a + 1)..stored.len() {
                assert!(stored[a] > stored[b]);
            }
        }
    }
}

#[test]
fn pending_score_is_submitted_once() {
    let mut st = init_game_state();
    st.app_state.new_score = Some(42);
    let saved = check_new_leaderboard_score(&mut st, vec![100]);
    assert_eq!(saved, Some(vec![100, 42]));
    assert_eq!(st.app_state.new_score, None);
    assert_eq!(st.app_state.leaderboard, Some(vec![100, 42]));
    let again = check_new_leaderboard_score(&mut st, vec![100, 42]);
    assert_eq!(again, None);
}

#[test]
fn pending_zero_score_is_dropped() {
    let mut st = init_game_state();
    st.app_state.new_score = Some(0);
    let saved = check_new_leaderboard_score(&mut st, vec![100]);
    assert_eq!(saved, None);
    assert_eq!(st.app_state.new_score, None);
    assert_eq!(st.app_state.leaderboard, None);
}

#[test]
fn no_pending_score_is_a_no_op() {
    let mut st = init_game_state();
    let saved = check_new_leaderboard_score(&mut st, vec![100]);
    assert_eq!(saved, None);
}

#[test]
fn loaded_scores_are_sorted_descending() {
    let mut scores = vec![3u64, 100, 7, 7, 50];
    sort_scores(&mut scores);
    assert_eq!(scores, vec![100, 50, 7, 7, 3]);
    let mut empty: Vec<u64> = vec![];
    sort_scores(&mut empty);
    assert_eq!(empty, Vec::<u64>::new());
}

#[test]
fn leaderboard_escape_returns_to_menu() {
    let mut st = init_game_state();
    st.app_state.selected_screen = ScreensEnum::Leaderboard;
    process_keyboard_event(&mut st, KeyInput::Enter);
    assert_eq!(st.app_state.selected_screen, ScreensEnum::Leaderboard);
    process_keyboard_event(&mut st, KeyInput::Esc);
    assert_eq!(st.app_state.selected_screen, ScreensEnum::Menu);
    assert!(st.app_state.screen_changed);
    assert!(!st.app_state.dirty);
}
