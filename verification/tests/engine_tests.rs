use snake_game::game::{
    gen_grid, get_bonus_position, get_food_value, init_game_state, set_grid_values,
    state_is_valid, update_game_state,
};
use snake_game::game::process_keyboard_event as game_key_event;
use snake_game::models::{
    DirectionsEnum, GameState, KeyInput, ScreensEnum, State, FIELD_SIZE, WALL,
};
use snake_game::utils::{check_view_offset, get_random_free_cell, get_view_offset};

/// A state on the given level with the body, heading and food pinned down,
/// and the grid re-projected so ticks behave deterministically.
fn test_state(
    level: u16,
    body: Vec<(usize, usize)>,
    dir: DirectionsEnum,
    food: (usize, usize),
) -> State {
    let mut st = init_game_state();
    st.app_state.difficulty = 1;
    st.game_state = GameState::new(1, level);
    st.game_state.snake_body = body;
    st.game_state.snake_direction = dir;
    st.game_state.next_direction = dir;
    st.game_state.food_position = food;
    set_grid_values(&mut st);
    st
}

#[test]
fn scenario_two_ticks_to_food() {
    // Empty 15x15 level, snake at (7,7) heading right, food at (7,9).
    let mut st = test_state(0, vec![(7, 7)], DirectionsEnum::Right, (7, 9));
    update_game_state(&mut st);
    assert_eq!(st.game_state.snake_body[0], (7, 8));
    assert_eq!(st.game_state.snake_body.len(), 1);
    assert!(!st.game_state.ate_food);
    update_game_state(&mut st);
    // The head reaches the food: it is consumed and a new position chosen.
    assert_eq!(st.game_state.snake_body[0], (7, 9));
    assert!(st.game_state.ate_food);
    assert_eq!(st.game_state.score, 1);
    assert_eq!(st.game_state.food_eaten, 1);
    assert_eq!(st.game_state.food_for_bonus_needed, 4);
    let new_food = st.game_state.food_position;
    assert_ne!(new_food, (7, 9));
    assert!(new_food.0 < FIELD_SIZE && new_food.1 < FIELD_SIZE);
    // The growth is realized on the tick after the pickup.
    update_game_state(&mut st);
    assert_eq!(st.game_state.snake_body.len(), 2);
    assert_eq!(st.game_state.snake_body[0], (7, 10));
    assert_eq!(st.game_state.snake_body[1], (7, 9));
}

#[test]
fn scenario_reversal_rejected() {
    // Heading right; a pending left turn is the exact reverse and is dropped.
    let mut st = test_state(0, vec![(7, 7)], DirectionsEnum::Right, (0, 0));
    st.game_state.next_direction = DirectionsEnum::Left;
    update_game_state(&mut st);
    assert_eq!(st.game_state.snake_direction, DirectionsEnum::Right);
    assert_eq!(st.game_state.snake_body[0], (7, 8));
    assert!(!st.game_state.game_over);
}

#[test]
fn perpendicular_turn_honored() {
    let mut st = test_state(0, vec![(7, 7)], DirectionsEnum::Right, (0, 0));
    st.game_state.next_direction = DirectionsEnum::Up;
    update_game_state(&mut st);
    assert_eq!(st.game_state.snake_direction, DirectionsEnum::Up);
    assert_eq!(st.game_state.snake_body[0], (6, 7));
}

#[test]
fn wrap_up_edge() {
    let mut st = test_state(0, vec![(0, 5)], DirectionsEnum::Up, (9, 9));
    update_game_state(&mut st);
    assert_eq!(st.game_state.snake_body[0], (14, 5));
}

#[test]
fn wrap_down_edge() {
    let mut st = test_state(0, vec![(14, 5)], DirectionsEnum::Down, (9, 9));
    update_game_state(&mut st);
    assert_eq!(st.game_state.snake_body[0], (0, 5));
}

#[test]
fn wrap_left_edge() {
    let mut st = test_state(0, vec![(5, 0)], DirectionsEnum::Left, (9, 9));
    update_game_state(&mut st);
    assert_eq!(st.game_state.snake_body[0], (5, 14));
}

#[test]
fn wrap_right_edge() {
    let mut st = test_state(0, vec![(5, 14)], DirectionsEnum::Right, (9, 9));
    update_game_state(&mut st);
    assert_eq!(st.game_state.snake_body[0], (5, 0));
}

#[test]
fn growth_only_after_pickup_tick() {
    let mut st = test_state(0, vec![(3, 3), (3, 2), (3, 1)], DirectionsEnum::Right, (0, 0));
    update_game_state(&mut st);
    assert_eq!(st.game_state.snake_body.len(), 3);
    st.game_state.ate_food = true;
    update_game_state(&mut st);
    assert_eq!(st.game_state.snake_body.len(), 4);
}

#[test]
fn bonus_decays_by_three() {
    let mut st = test_state(0, vec![(7, 7)], DirectionsEnum::Right, (0, 0));
    st.game_state.bonus_position = Some((2, 2));
    st.game_state.bonus_value = 100;
    set_grid_values(&mut st);
    update_game_state(&mut st);
    assert_eq!(st.game_state.bonus_value, 97);
    assert_eq!(st.game_state.bonus_position, Some((2, 2)));
    update_game_state(&mut st);
    assert_eq!(st.game_state.bonus_value, 94);
}

#[test]
fn bonus_cleared_when_value_runs_out() {
    let mut st = test_state(0, vec![(7, 7)], DirectionsEnum::Right, (0, 0));
    st.game_state.bonus_position = Some((2, 2));
    st.game_state.bonus_value = 3;
    set_grid_values(&mut st);
    update_game_state(&mut st);
    assert_eq!(st.game_state.bonus_value, 0);
    assert_eq!(st.game_state.bonus_position, None);
}

#[test]
fn bonus_pickup_awards_decayed_value() {
    let mut st = test_state(0, vec![(2, 1)], DirectionsEnum::Right, (9, 9));
    st.game_state.bonus_position = Some((2, 2));
    st.game_state.bonus_value = 100;
    set_grid_values(&mut st);
    update_game_state(&mut st);
    // The head lands on the anchor after the decay to 97 ran.
    assert_eq!(st.game_state.snake_body[0], (2, 2));
    assert_eq!(st.game_state.score, 97);
    assert_eq!(st.game_state.bonus_position, None);
    assert_eq!(st.game_state.bonus_value, 100);
}

#[test]
fn scenario_no_block_for_bonus() {
    // Walls on every cell with two even coordinates: every 2x2 block holds
    // one, so no bonus can spawn; the countdown still resets.
    let mut st = test_state(0, vec![(1, 1)], DirectionsEnum::Right, (1, 2));
    for i in 0..FIELD_SIZE {
        for j in 0..FIELD_SIZE {
            if i % 2 == 0 && j % 2 == 0 {
                st.game_state.grid[i][j] = WALL;
            }
        }
    }
    set_grid_values(&mut st);
    st.game_state.food_for_bonus_needed = 1;
    update_game_state(&mut st);
    assert!(!st.game_state.game_over);
    assert_eq!(st.game_state.snake_body[0], (1, 2));
    assert_eq!(st.game_state.bonus_position, None);
    assert_eq!(st.game_state.food_for_bonus_needed, 5);
    assert_eq!(st.game_state.bonus_value, 100);
}

#[test]
fn bonus_spawns_when_countdown_runs_out() {
    let mut st = test_state(0, vec![(7, 7)], DirectionsEnum::Right, (7, 8));
    st.game_state.food_for_bonus_needed = 1;
    update_game_state(&mut st);
    assert_eq!(st.game_state.food_for_bonus_needed, 5);
    let anchor = st.game_state.bonus_position.expect("an empty level has room");
    assert!(anchor.0 < FIELD_SIZE - 1 && anchor.1 < FIELD_SIZE - 1);
    assert_eq!(st.game_state.bonus_value, 100);
    assert!(st.game_state.ate_food);
}

#[test]
fn wall_collision_ends_round() {
    // Level 1 is a bordered box; walking up from (1,1) hits the border.
    let mut st = test_state(1, vec![(1, 1)], DirectionsEnum::Up, (7, 8));
    st.game_state.score = 42;
    st.app_state.game_started = true;
    update_game_state(&mut st);
    assert!(st.game_state.game_over);
    assert_eq!(st.app_state.new_score, Some(42));
    assert!(!st.app_state.game_started);
    assert!(st.app_state.screen_changed);
    // The body did not move.
    assert_eq!(st.game_state.snake_body, vec![(1, 1)]);
}

#[test]
fn self_collision_ends_round() {
    let mut st = test_state(0, vec![(5, 5), (5, 6)], DirectionsEnum::Right, (0, 0));
    update_game_state(&mut st);
    assert!(st.game_state.game_over);
    assert_eq!(st.game_state.snake_body.len(), 2);
}

#[test]
fn game_over_tick_is_a_no_op() {
    let mut st = test_state(0, vec![(7, 7)], DirectionsEnum::Right, (0, 0));
    st.game_state.game_over = true;
    update_game_state(&mut st);
    assert_eq!(st.game_state.snake_body, vec![(7, 7)]);
    assert!(st.game_state.game_over);
}

#[test]
fn frozen_tick_is_a_no_op() {
    let mut st = test_state(0, vec![(7, 7)], DirectionsEnum::Right, (0, 0));
    st.game_state.freeze = true;
    update_game_state(&mut st);
    assert_eq!(st.game_state.snake_body, vec![(7, 7)]);
    assert!(st.game_state.freeze);
}

#[test]
fn body_never_self_intersects_over_many_ticks() {
    let mut st = test_state(0, vec![(7, 7)], DirectionsEnum::Right, (7, 9));
    let turns = [
        DirectionsEnum::Down,
        DirectionsEnum::Left,
        DirectionsEnum::Up,
        DirectionsEnum::Right,
    ];
    for t in 0..40 {
        st.game_state.next_direction = turns[t % 4];
        update_game_state(&mut st);
        if st.game_state.game_over {
            break;
        }
        let body = &st.game_state.snake_body;
        for a in 0..body.len() {
            for b in (a + 1)..body.len() {
                assert_ne!(body[a], body[b]);
            }
        }
    }
}

#[test]
fn new_game_fields() {
    let gs = GameState::new(1, 0);
    assert_eq!(gs.snake_body, vec![(7, 7)]);
    assert_eq!(gs.snake_direction, DirectionsEnum::Right);
    assert_eq!(gs.required_ticks, 20);
    assert_eq!(gs.score, 0);
    assert_eq!(gs.bonus_value, 50);
    assert_eq!(gs.bonus_position, None);
    assert_eq!(gs.food_for_bonus_needed, 5);
    assert!(!gs.game_over && !gs.freeze && !gs.ate_food);
    let gs2 = GameState::new(2, 2);
    assert_eq!(gs2.snake_body, vec![(4, 0)]);
    assert_eq!(gs2.required_ticks, 15);
    let gs3 = GameState::new(3, 3);
    assert_eq!(gs3.snake_body, vec![(0, 0)]);
    assert_eq!(gs3.required_ticks, 10);
    let gs4 = GameState::new(4, 4);
    assert_eq!(gs4.required_ticks, 2);
    let gs5 = GameState::new(9, 0);
    assert_eq!(gs5.required_ticks, 2);
}

#[test]
fn food_value_per_difficulty() {
    let mut st = init_game_state();
    let expect = [(1u16, 1u64), (2, 3), (3, 5), (4, 8), (7, 8)];
    for (d, v) in expect {
        st.app_state.difficulty = d;
        assert_eq!(get_food_value(&st.app_state), v);
    }
}

#[test]
fn grid_layouts() {
    let open_field = gen_grid(15, 0);
    for i in 0..15 {
        for j in 0..15 {
            assert_eq!(open_field[i][j], 0);
        }
    }
    let boxed = gen_grid(15, 1);
    assert_eq!(boxed[0][0], WALL);
    assert_eq!(boxed[0][14], WALL);
    assert_eq!(boxed[14][0], WALL);
    assert_eq!(boxed[13][14], WALL);
    assert_eq!(boxed[7][7], 0);
    assert_eq!(boxed[1][1], 0);
    let labyrinth = gen_grid(15, 2);
    assert_eq!(labyrinth[6][0], WALL);
    assert_eq!(labyrinth[7][7], WALL);
    assert_eq!(labyrinth[0][0], WALL);
    assert_eq!(labyrinth[0][2], WALL);
    assert_eq!(labyrinth[14][12], WALL);
    assert_eq!(labyrinth[3][0], 0);
    assert_eq!(labyrinth[4][0], 0);
    assert_eq!(labyrinth[3][3], 0);
    let corridors = gen_grid(15, 3);
    assert_eq!(corridors[0][6], WALL);
    assert_eq!(corridors[14][8], WALL);
    assert_eq!(corridors[7][5], 0);
    let room = gen_grid(15, 4);
    assert_eq!(room[5][5], WALL);
    assert_eq!(room[9][9], WALL);
    assert_eq!(room[4][4], 0);
    // Out-of-catalog ids fall back to the last layout.
    let fallback = gen_grid(15, 9);
    assert_eq!(fallback[5][5], WALL);
    assert_eq!(fallback[4][4], 0);
}

#[test]
fn random_free_cell_is_empty() {
    let grid = gen_grid(15, 1);
    for _ in 0..20 {
        let c = get_random_free_cell(&grid);
        assert_eq!(grid[c.0][c.1], 0);
    }
}

#[test]
fn bonus_position_found_and_missed() {
    let st = test_state(0, vec![(7, 7)], DirectionsEnum::Right, (0, 0));
    let anchor = get_bonus_position(&st.game_state).expect("open field has blocks");
    assert!(anchor.0 < 14 && anchor.1 < 14);
    let mut blocked = test_state(0, vec![(1, 1)], DirectionsEnum::Right, (1, 3));
    for i in 0..FIELD_SIZE {
        for j in 0..FIELD_SIZE {
            if i % 2 == 0 && j % 2 == 0 {
                blocked.game_state.grid[i][j] = WALL;
            }
        }
    }
    set_grid_values(&mut blocked);
    assert_eq!(get_bonus_position(&blocked.game_state), None);
}

#[test]
fn validity_checker() {
    let st = test_state(0, vec![(7, 7)], DirectionsEnum::Right, (0, 0));
    assert!(state_is_valid(&st.game_state));
    let mut dup = test_state(0, vec![(7, 7), (7, 7)], DirectionsEnum::Right, (0, 0));
    set_grid_values(&mut dup);
    assert!(!state_is_valid(&dup.game_state));
    let mut ragged = test_state(0, vec![(7, 7)], DirectionsEnum::Right, (0, 0));
    ragged.game_state.grid[3].pop();
    assert!(!state_is_valid(&ragged.game_state));
    let mut hot = test_state(0, vec![(7, 7)], DirectionsEnum::Right, (0, 0));
    hot.game_state.bonus_value = 101;
    assert!(!state_is_valid(&hot.game_state));
    let mut off = test_state(0, vec![(7, 7)], DirectionsEnum::Right, (0, 0));
    off.game_state.food_position = (15, 0);
    assert!(!state_is_valid(&off.game_state));
}

#[test]
fn game_keys_queue_directions() {
    let mut st = test_state(0, vec![(7, 7)], DirectionsEnum::Right, (0, 0));
    st.game_state.freeze = true;
    game_key_event(&mut st, KeyInput::Down);
    assert_eq!(st.game_state.next_direction, DirectionsEnum::Down);
    assert!(!st.game_state.freeze);
    game_key_event(&mut st, KeyInput::Up);
    assert_eq!(st.game_state.next_direction, DirectionsEnum::Up);
    game_key_event(&mut st, KeyInput::Left);
    assert_eq!(st.game_state.next_direction, DirectionsEnum::Left);
    game_key_event(&mut st, KeyInput::Right);
    assert_eq!(st.game_state.next_direction, DirectionsEnum::Right);
}

#[test]
fn game_escape_returns_to_menu() {
    let mut st = test_state(0, vec![(7, 7)], DirectionsEnum::Right, (0, 0));
    game_key_event(&mut st, KeyInput::Esc);
    assert_eq!(st.app_state.selected_screen, ScreensEnum::Menu);
    assert!(st.app_state.screen_changed);
    assert!(st.app_state.dirty);
}

#[test]
fn game_enter_restarts_after_game_over() {
    let mut st = test_state(0, vec![(7, 7)], DirectionsEnum::Right, (0, 0));
    st.game_state.game_over = true;
    st.game_state.score = 10;
    st.app_state.difficulty = 3;
    st.app_state.level = 1;
    game_key_event(&mut st, KeyInput::Enter);
    assert!(!st.game_state.game_over);
    assert_eq!(st.game_state.score, 0);
    assert_eq!(st.game_state.snake_body, vec![(7, 7)]);
    assert_eq!(st.game_state.required_ticks, 10);
}

#[test]
fn view_offset_centering() {
    assert_eq!(get_view_offset(30, 30, 100, 50), (35, 10));
    assert_eq!(get_view_offset(30, 30, 20, 10), (0, 0));
    let mut st = init_game_state();
    assert!(check_view_offset(&mut st.app_state, 35, 10));
    assert_eq!(st.app_state.view_offset, (35, 10));
    assert!(!check_view_offset(&mut st.app_state, 35, 10));
}
