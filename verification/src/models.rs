//! Data model of the game: cell tags, directions, menus, the round state and
//! the application state, and the fixed catalog of level layouts.

use vstd::prelude::*;

verus! {

/// Width and height of the square play field.
pub const FIELD_SIZE: usize = 15;

/// Width of the drawing area, in terminal columns.
pub const SCREEN_WIDTH: u16 = 30;

/// Height of the drawing area, in terminal rows.
pub const SCREEN_HEIGHT: u16 = 30;

/// Grid tag for a cell covered by the snake's body.
pub const SNAKE: u16 = 1;

/// Grid tag for the cell holding the food item.
pub const FOOD: u16 = 2;

/// Grid tag for a cell covered by the 2x2 bonus block.
pub const BONUS: u16 = 3;

/// Grid tag for a wall cell; walls are fixed for the whole round.
pub const WALL: u16 = 4;

/// A row/column pair indexing into the square grid.
pub type Coord = (usize, usize);

/// A heading of the snake.
#[derive(Clone, Copy, Debug, PartialEq, Eq, Structural)]
pub enum DirectionsEnum {
    Up,
    Down,
    Left,
    Right,
}

/// Which menu page is open.
#[derive(Clone, Copy, Debug, PartialEq, Eq, Structural)]
pub enum MenusEnum {
    MainMenu,
    SelectDifficulty,
    SelectLevel,
}

/// Which screen the application shows.
#[derive(Clone, Copy, Debug, PartialEq, Eq, Structural)]
pub enum ScreensEnum {
    Game,
    Menu,
    Leaderboard,
}

/// The entries of the main menu.
#[derive(Clone, Copy, Debug, PartialEq, Eq, Structural)]
pub enum MainMenuItemsEnum {
    Continue,
    NewGame,
    Leaderboard,
    Difficulty,
    LevelSelection,
    Exit,
}

/// A keyboard intent, already reduced to the keys the game reacts to.
#[derive(Clone, Copy, Debug, PartialEq, Eq, Structural)]
pub enum KeyInput {
    Up,
    Down,
    Left,
    Right,
    Enter,
    Esc,
    Other,
}

/// One line of a menu: a label to draw and the value it selects.
pub struct MenuItem<T> {
    pub label: &'static str,
    pub value: T,
}

/// The full mutable state of the application: one round plus the state
/// around it.
pub struct State {
    pub game_state: GameState,
    pub app_state: AppState,
}

/// State outside the round itself: navigation, settings, and the cached
/// leaderboard.
pub struct AppState {
    pub app_running: bool,
    pub selected_screen: ScreensEnum,
    pub selected_menu: MenusEnum,
    pub selected_menu_item: usize,
    pub view_offset: (u16, u16),
    pub screen_changed: bool,
    pub difficulty: u16,
    pub level: u16,
    pub game_started: bool,
    pub new_score: Option<u64>,
    pub leaderboard: Option<Vec<u64>>,
    pub dirty: bool,
}

/// The authoritative state of one round, owned by the game engine.
pub struct GameState {
    pub grid: Vec<Vec<u16>>,
    pub snake_direction: DirectionsEnum,
    pub next_direction: DirectionsEnum,
    pub snake_body: Vec<Coord>,
    pub food_position: Coord,
    pub bonus_position: Option<Coord>,
    pub bonus_value: u64,
    pub food_eaten: u64,
    pub ate_food: bool,
    pub game_over: bool,
    pub score: u64,
    pub required_ticks: u64,
    pub food_for_bonus_needed: u64,
    pub freeze: bool,
}

/// A coordinate lies on the play field.
pub open spec fn spec_in_bounds(c: Coord) -> bool {
    c.0 < FIELD_SIZE && c.1 < FIELD_SIZE
}

/// Level ids outside the catalog fall back to the last defined layout.
pub open spec fn spec_level_clamped(level: u16) -> u16 {
    if level > 4 {
        4u16
    } else {
        level
    }
}

/// The wall set of each layout in the catalog: open field, bordered box,
/// cross-shaped labyrinth with blocked corners, two vertical corridors,
/// and a centered room.
pub open spec fn spec_is_wall(level: u16, i: int, j: int) -> bool {
    let l = spec_level_clamped(level);
    if l == 0 {
        false
    } else if l == 1 {
        i == 0 || i == 14 || j == 0 || j == 14
    } else if l == 2 {
        ||| 6 <= i && i <= 8
        ||| 6 <= j && j <= 8
        ||| i == 0 && j <= 2
        ||| j == 0 && i <= 2
        ||| i == 0 && j >= 12
        ||| j == 14 && i <= 2
        ||| j == 0 && i >= 12
        ||| i == 14 && j <= 2
        ||| j == 14 && i >= 12
        ||| i == 14 && j >= 12
    } else if l == 3 {
        6 <= j && j <= 8
    } else {
        5 <= i && i <= 9 && 5 <= j && j <= 9
    }
}

/// Decides wall membership for one cell of a layout.
pub fn is_wall_cell(level: u16, i: usize, j: usize) -> (r: bool)
    ensures
        r == spec_is_wall(level, i as int, j as int),
{
    let l: u16 = if level > 4 {
        4
    } else {
        level
    };
    if l == 0 {
        false
    } else if l == 1 {
        i == 0 || i == 14 || j == 0 || j == 14
    } else if l == 2 {
        (6 <= i && i <= 8) || (6 <= j && j <= 8) || (i == 0 && j <= 2) || (j == 0 && i <= 2) || (i
            == 0 && j >= 12) || (j == 14 && i <= 2) || (j == 0 && i >= 12) || (i == 14 && j <= 2)
            || (j == 14 && i >= 12) || (i == 14 && j >= 12)
    } else if l == 3 {
        6 <= j && j <= 8
    } else {
        (5 <= i && i <= 9) && (5 <= j && j <= 9)
    }
}

/// Where the snake starts on each level.
pub open spec fn spec_starting_position(level: u16) -> Coord {
    if level == 0 || level == 1 {
        (7usize, 7usize)
    } else if level == 2 {
        (4usize, 0usize)
    } else {
        (0usize, 0usize)
    }
}

/// How many entries the currently open menu page has.
pub open spec fn spec_menu_len(menu: MenusEnum, game_started: bool) -> int {
    match menu {
        MenusEnum::MainMenu => if game_started {
            6
        } else {
            5
        },
        MenusEnum::SelectDifficulty => 4,
        MenusEnum::SelectLevel => 5,
    }
}

impl GameState {
    /// The grid is a full square of side `FIELD_SIZE`.
    pub open spec fn grid_wf(self) -> bool {
        &&& self.grid@.len() == FIELD_SIZE
        &&& forall|i: int| 0 <= i < FIELD_SIZE ==> (#[trigger] self.grid@[i])@.len() == FIELD_SIZE
    }

    /// The body is non-empty, on the field, and never crosses itself.
    pub open spec fn body_wf(self) -> bool {
        &&& self.snake_body@.len() >= 1
        &&& forall|k: int|
            0 <= k < self.snake_body@.len() ==> spec_in_bounds(#[trigger] self.snake_body@[k])
        &&& forall|k1: int, k2: int|
            #![trigger self.snake_body@[k1], self.snake_body@[k2]]
            0 <= k1 < k2 < self.snake_body@.len() ==> self.snake_body@[k1] != self.snake_body@[k2]
    }

    /// A bonus anchor leaves room for its 2x2 block on the field.
    pub open spec fn bonus_wf(self) -> bool {
        match self.bonus_position {
            Option::Some(a) => a.0 < FIELD_SIZE - 1 && a.1 < FIELD_SIZE - 1,
            Option::None => true,
        }
    }

    /// Invariant of every reachable round state.
    pub open spec fn wf(self) -> bool {
        &&& self.grid_wf()
        &&& self.body_wf()
        &&& spec_in_bounds(self.food_position)
        &&& self.bonus_wf()
        &&& self.bonus_value <= 100
    }
}

impl AppState {
    /// Invariant needed by the menu state machine: the cursor stays on the
    /// open page and difficulty and level are catalog entries.
    pub open spec fn menu_wf(self) -> bool {
        &&& (self.selected_menu_item as int) < spec_menu_len(self.selected_menu, self.game_started)
        &&& 1 <= self.difficulty <= 4
        &&& self.level <= 4
    }
}

} // verus!
