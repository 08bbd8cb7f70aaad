//! The menu state machine: navigating the main, difficulty and level menus
//! and applying a selection to the application state.

use vstd::prelude::*;
use crate::game::spec_fresh_game;
use crate::models::{
    AppState, GameState, KeyInput, MainMenuItemsEnum, MenuItem, MenusEnum, ScreensEnum, State,
    spec_menu_len,
};

verus! {

/// The entries of the main menu, with Continue present only while a round is
/// in progress.
pub open spec fn spec_main_menu(game_started: bool) -> Seq<MainMenuItemsEnum> {
    if game_started {
        seq![
            MainMenuItemsEnum::Continue,
            MainMenuItemsEnum::NewGame,
            MainMenuItemsEnum::Leaderboard,
            MainMenuItemsEnum::Difficulty,
            MainMenuItemsEnum::LevelSelection,
            MainMenuItemsEnum::Exit,
        ]
    } else {
        seq![
            MainMenuItemsEnum::NewGame,
            MainMenuItemsEnum::Leaderboard,
            MainMenuItemsEnum::Difficulty,
            MainMenuItemsEnum::LevelSelection,
            MainMenuItemsEnum::Exit,
        ]
    }
}

/// Where the cursor moves on one up or down step, wrapping at both ends.
pub open spec fn spec_next_menu_item(app: AppState, is_increment: bool) -> int {
    let max = spec_menu_len(app.selected_menu, app.game_started);
    let sel = app.selected_menu_item as int;
    if is_increment {
        if sel == max - 1 {
            0
        } else {
            sel + 1
        }
    } else {
        if sel == 0 {
            max - 1
        } else {
            sel - 1
        }
    }
}

/// The application state after one main-menu entry is applied (the game
/// screen, a fresh or continued round, a submenu, or shutdown).
pub open spec fn spec_main_menu_applied(app: AppState, item: MainMenuItemsEnum) -> AppState {
    match item {
        MainMenuItemsEnum::Continue => (AppState {
            selected_menu_item: 0,
            selected_screen: ScreensEnum::Game,
            ..app
        }),
        MainMenuItemsEnum::NewGame => (AppState {
            selected_screen: ScreensEnum::Game,
            game_started: true,
            selected_menu_item: 0,
            ..app
        }),
        MainMenuItemsEnum::Leaderboard => (AppState {
            selected_menu_item: 0,
            selected_screen: ScreensEnum::Leaderboard,
            ..app
        }),
        MainMenuItemsEnum::Difficulty => (AppState {
            selected_menu: MenusEnum::SelectDifficulty,
            selected_menu_item: (app.difficulty - 1) as usize,
            ..app
        }),
        MainMenuItemsEnum::LevelSelection => (AppState {
            selected_menu: MenusEnum::SelectLevel,
            selected_menu_item: app.level as usize,
            ..app
        }),
        MainMenuItemsEnum::Exit => (AppState { app_running: false, selected_menu_item: 0, ..app }),
    }
}

/// What a main-menu selection does to the round state: Continue freezes the
/// running round for one tick, NewGame replaces it, everything else leaves
/// it alone.
pub open spec fn spec_main_menu_game_effect(pre: State, post: State) -> bool {
    let item = spec_main_menu(pre.app_state.game_started)[pre.app_state.selected_menu_item as int];
    match item {
        MainMenuItemsEnum::Continue => post.game_state == (GameState {
            freeze: true,
            ..pre.game_state
        }),
        MainMenuItemsEnum::NewGame => spec_fresh_game(
            post.game_state,
            pre.app_state.difficulty,
            pre.app_state.level,
        ),
        _ => post.game_state == pre.game_state,
    }
}

/// Builds the entries of the main menu for the current application state.
pub fn get_main_menu_items(state: &State) -> (items: Vec<MenuItem<MainMenuItemsEnum>>)
    ensures
        items@.len() == spec_main_menu(state.app_state.game_started).len(),
        forall|k: int|
            0 <= k < items@.len() ==> (#[trigger] items@[k]).value == spec_main_menu(
                state.app_state.game_started,
            )[k],
{
    let mut items: Vec<MenuItem<MainMenuItemsEnum>> = Vec::new();
    if state.app_state.game_started {
        items.push(MenuItem { label: "Continue", value: MainMenuItemsEnum::Continue });
    }
    items.push(MenuItem { label: "New Game", value: MainMenuItemsEnum::NewGame });
    items.push(MenuItem { label: "Leaderboard", value: MainMenuItemsEnum::Leaderboard });
    items.push(MenuItem { label: "Difficulty", value: MainMenuItemsEnum::Difficulty });
    items.push(MenuItem { label: "Select Level", value: MainMenuItemsEnum::LevelSelection });
    items.push(MenuItem { label: "Exit", value: MainMenuItemsEnum::Exit });
    items
}

/// The index of a main-menu entry, which must be present.
pub fn main_menu_item_index(state: &State, item_type: MainMenuItemsEnum) -> (r: usize)
    requires
        spec_main_menu(state.app_state.game_started).contains(item_type),
    ensures
        r < spec_main_menu(state.app_state.game_started).len(),
        spec_main_menu(state.app_state.game_started)[r as int] == item_type,
        forall|k: int|
            0 <= k < r ==> spec_main_menu(state.app_state.game_started)[k] != item_type,
{
    let menu = get_main_menu_items(state);
    let ghost m = spec_main_menu(state.app_state.game_started);
    let mut k: usize = 0;
    while k < menu.len()
        invariant
            m == spec_main_menu(state.app_state.game_started),
            m.contains(item_type),
            menu@.len() == m.len(),
            forall|i: int| 0 <= i < menu@.len() ==> (#[trigger] menu@[i]).value == m[i],
            k <= m.len(),
            forall|i: int| 0 <= i < k ==> m[i] != item_type,
        decreases m.len() - k,
    {
        if menu[k].value == item_type {
            return k;
        }
        k += 1;
    }
    proof {
        let w = choose|w: int| 0 <= w < m.len() && m[w] == item_type;
        assert(m[w] == item_type);
        assert(false);
    }
    0
}

/// Moves the menu cursor one step up or down, wrapping at both ends.
pub fn set_selected_menu(state: &mut State, is_increment: bool)
    requires
        (old(state).app_state.selected_menu_item as int) < spec_menu_len(
            old(state).app_state.selected_menu,
            old(state).app_state.game_started,
        ),
    ensures
        final(state).game_state == old(state).game_state,
        final(state).app_state == (AppState {
            selected_menu_item: final(state).app_state.selected_menu_item,
            ..old(state).app_state
        }),
        final(state).app_state.selected_menu_item as int == spec_next_menu_item(
            old(state).app_state,
            is_increment,
        ),
{
    let max_items: usize = match state.app_state.selected_menu {
        MenusEnum::MainMenu => if state.app_state.game_started {
            6
        } else {
            5
        },
        MenusEnum::SelectDifficulty => 4,
        MenusEnum::SelectLevel => 5,
    };
    let selected = state.app_state.selected_menu_item;
    let is_first = selected == 0;
    let is_last = selected == max_items - 1;
    if is_increment {
        state.app_state.selected_menu_item = if is_last {
            0
        } else {
            selected + 1
        };
    } else {
        state.app_state.selected_menu_item = if is_first {
            max_items - 1
        } else {
            selected - 1
        };
    }
}

/// Applies the highlighted main-menu entry.
pub fn process_main_menu_selection(state: &mut State)
    requires
        (old(state).app_state.selected_menu_item as int) < spec_main_menu(
            old(state).app_state.game_started,
        ).len(),
        1 <= old(state).app_state.difficulty <= 4,
        old(state).app_state.level <= 4,
    ensures
        final(state).app_state == spec_main_menu_applied(
            old(state).app_state,
            spec_main_menu(old(state).app_state.game_started)[old(
                state,
            ).app_state.selected_menu_item as int],
        ),
        spec_main_menu_game_effect(*old(state), *final(state)),
{
    let menu = get_main_menu_items(state);
    let menu_index = state.app_state.selected_menu_item;
    match menu[menu_index].value {
        MainMenuItemsEnum::Continue => {
            state.app_state.selected_menu_item = 0;
            state.app_state.selected_screen = ScreensEnum::Game;
            state.game_state.freeze = true;
        },
        MainMenuItemsEnum::NewGame => {
            state.app_state.selected_screen = ScreensEnum::Game;
            state.app_state.game_started = true;
            state.app_state.selected_menu_item = 0;
            state.game_state = GameState::new(state.app_state.difficulty, state.app_state.level);
        },
        MainMenuItemsEnum::Leaderboard => {
            state.app_state.selected_menu_item = 0;
            state.app_state.selected_screen = ScreensEnum::Leaderboard;
        },
        MainMenuItemsEnum::Difficulty => {
            state.app_state.selected_menu = MenusEnum::SelectDifficulty;
            state.app_state.selected_menu_item = (state.app_state.difficulty - 1) as usize;
        },
        MainMenuItemsEnum::LevelSelection => {
            state.app_state.selected_menu = MenusEnum::SelectLevel;
            state.app_state.selected_menu_item = state.app_state.level as usize;
        },
        MainMenuItemsEnum::Exit => {
            state.app_state.app_running = false;
            state.app_state.selected_menu_item = 0;
        },
    }
}

/// Applies the highlighted difficulty entry and returns to the main menu,
/// with the cursor back on the Difficulty line.
pub fn process_difficulty_menu_selection(state: &mut State)
    requires
        old(state).app_state.selected_menu_item < 4,
    ensures
        final(state).game_state == old(state).game_state,
        final(state).app_state == (AppState {
            game_started: false,
            difficulty: (old(state).app_state.selected_menu_item + 1) as u16,
            selected_menu: MenusEnum::MainMenu,
            selected_menu_item: 2,
            dirty: true,
            ..old(state).app_state
        }),
{
    let menu_index = state.app_state.selected_menu_item;
    let difficulty = (menu_index as u16) + 1;
    state.app_state.game_started = false;
    state.app_state.difficulty = difficulty;
    state.app_state.selected_menu = MenusEnum::MainMenu;
    let idx = main_menu_item_index(state, MainMenuItemsEnum::Difficulty);
    proof {
        assert(spec_main_menu(false)[2] == MainMenuItemsEnum::Difficulty);
        assert(idx == 2);
    }
    state.app_state.selected_menu_item = idx;
    state.app_state.dirty = true;
}

/// Applies the highlighted level entry and returns to the main menu, with
/// the cursor back on the level-selection line.
pub fn process_level_menu_selection(state: &mut State)
    requires
        old(state).app_state.selected_menu_item < 5,
    ensures
        final(state).game_state == old(state).game_state,
        final(state).app_state == (AppState {
            game_started: false,
            level: old(state).app_state.selected_menu_item as u16,
            selected_menu: MenusEnum::MainMenu,
            selected_menu_item: 3,
            dirty: true,
            ..old(state).app_state
        }),
{
    let menu_index = state.app_state.selected_menu_item;
    let level = menu_index as u16;
    state.app_state.game_started = false;
    state.app_state.level = level;
    state.app_state.selected_menu = MenusEnum::MainMenu;
    let idx = main_menu_item_index(state, MainMenuItemsEnum::LevelSelection);
    proof {
        assert(spec_main_menu(false)[3] == MainMenuItemsEnum::LevelSelection);
        assert(idx == 3);
    }
    state.app_state.selected_menu_item = idx;
    state.app_state.dirty = true;
}

/// Applies the highlighted entry of whichever menu page is open and marks
/// the screen for a redraw.
pub fn process_menu_selection(state: &mut State)
    requires
        old(state).app_state.menu_wf(),
    ensures
        final(state).app_state.screen_changed == true,
        final(state).app_state.menu_wf(),
        match old(state).app_state.selected_menu {
            MenusEnum::MainMenu => {
                &&& final(state).app_state == (AppState {
                    screen_changed: true,
                    ..spec_main_menu_applied(
                        old(state).app_state,
                        spec_main_menu(old(state).app_state.game_started)[old(
                            state,
                        ).app_state.selected_menu_item as int],
                    )
                })
                &&& spec_main_menu_game_effect(*old(state), *final(state))
            },
            MenusEnum::SelectDifficulty => {
                &&& final(state).game_state == old(state).game_state
                &&& final(state).app_state == (AppState {
                    game_started: false,
                    difficulty: (old(state).app_state.selected_menu_item + 1) as u16,
                    selected_menu: MenusEnum::MainMenu,
                    selected_menu_item: 2,
                    dirty: true,
                    screen_changed: true,
                    ..old(state).app_state
                })
            },
            MenusEnum::SelectLevel => {
                &&& final(state).game_state == old(state).game_state
                &&& final(state).app_state == (AppState {
                    game_started: false,
                    level: old(state).app_state.selected_menu_item as u16,
                    selected_menu: MenusEnum::MainMenu,
                    selected_menu_item: 3,
                    dirty: true,
                    screen_changed: true,
                    ..old(state).app_state
                })
            },
        },
{
    match state.app_state.selected_menu {
        MenusEnum::MainMenu => process_main_menu_selection(state),
        MenusEnum::SelectDifficulty => process_difficulty_menu_selection(state),
        MenusEnum::SelectLevel => process_level_menu_selection(state),
    }
    state.app_state.screen_changed = true;
}

/// Reacts to one key while a menu is open: arrows move the cursor, enter
/// applies the highlighted entry, escape returns to the main menu.
pub fn process_keyboard_event(state: &mut State, key: KeyInput)
    requires
        old(state).app_state.menu_wf(),
    ensures
        final(state).app_state.menu_wf(),
        match key {
            KeyInput::Down => {
                &&& final(state).game_state == old(state).game_state
                &&& final(state).app_state == (AppState {
                    selected_menu_item: final(state).app_state.selected_menu_item,
                    ..old(state).app_state
                })
                &&& final(state).app_state.selected_menu_item as int == spec_next_menu_item(
                    old(state).app_state,
                    true,
                )
            },
            KeyInput::Up => {
                &&& final(state).game_state == old(state).game_state
                &&& final(state).app_state == (AppState {
                    selected_menu_item: final(state).app_state.selected_menu_item,
                    ..old(state).app_state
                })
                &&& final(state).app_state.selected_menu_item as int == spec_next_menu_item(
                    old(state).app_state,
                    false,
                )
            },
            KeyInput::Enter => final(state).app_state.screen_changed == true,
            KeyInput::Esc => {
                &&& final(state).game_state == old(state).game_state
                &&& final(state).app_state == (AppState {
                    selected_menu: MenusEnum::MainMenu,
                    selected_menu_item: 0,
                    ..old(state).app_state
                })
            },
            _ => *final(state) == *old(state),
        },
        key is Enter ==> match old(state).app_state.selected_menu {
            MenusEnum::MainMenu => {
                &&& final(state).app_state == (AppState {
                    screen_changed: true,
                    ..spec_main_menu_applied(
                        old(state).app_state,
                        spec_main_menu(old(state).app_state.game_started)[old(
                            state,
                        ).app_state.selected_menu_item as int],
                    )
                })
                &&& spec_main_menu_game_effect(*old(state), *final(state))
            },
            MenusEnum::SelectDifficulty => {
                &&& final(state).game_state == old(state).game_state
                &&& final(state).app_state == (AppState {
                    game_started: false,
                    difficulty: (old(state).app_state.selected_menu_item + 1) as u16,
                    selected_menu: MenusEnum::MainMenu,
                    selected_menu_item: 2,
                    dirty: true,
                    screen_changed: true,
                    ..old(state).app_state
                })
            },
            MenusEnum::SelectLevel => {
                &&& final(state).game_state == old(state).game_state
                &&& final(state).app_state == (AppState {
                    game_started: false,
                    level: old(state).app_state.selected_menu_item as u16,
                    selected_menu: MenusEnum::MainMenu,
                    selected_menu_item: 3,
                    dirty: true,
                    screen_changed: true,
                    ..old(state).app_state
                })
            },
        },
{
    match key {
        KeyInput::Down => set_selected_menu(state, true),
        KeyInput::Up => set_selected_menu(state, false),
        KeyInput::Enter => process_menu_selection(state),
        KeyInput::Esc => {
            state.app_state.selected_menu = MenusEnum::MainMenu;
            state.app_state.selected_menu_item = 0;
        },
        _ => {},
    }
}

} // verus!
