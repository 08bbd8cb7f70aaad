//! The game engine: the per-tick transition of the round state, with
//! toroidal movement, reverse-rejection of pending input, collision
//! detection, bonus decay, food and bonus pickup, and spawn selection.

use vstd::prelude::*;
use crate::models::{
    AppState, Coord, DirectionsEnum, GameState, KeyInput, ScreensEnum, State, FIELD_SIZE, WALL,
    FOOD, SNAKE, BONUS, spec_in_bounds, spec_is_wall, spec_starting_position, is_wall_cell,
};
use crate::utils::get_random_free_cell;

verus! {

/// The heading that exactly reverses the given one.
pub open spec fn spec_opposite_direction(d: DirectionsEnum) -> DirectionsEnum {
    match d {
        DirectionsEnum::Up => DirectionsEnum::Down,
        DirectionsEnum::Down => DirectionsEnum::Up,
        DirectionsEnum::Left => DirectionsEnum::Right,
        DirectionsEnum::Right => DirectionsEnum::Left,
    }
}

/// A pending heading is honored unless it reverses the current one.
pub open spec fn spec_resolved_direction(
    cur: DirectionsEnum,
    pending: DirectionsEnum,
) -> DirectionsEnum {
    if pending == spec_opposite_direction(cur) {
        cur
    } else {
        pending
    }
}

/// One step from `head` along `d`, wrapping at the edges of the field.
pub open spec fn spec_next_head(d: DirectionsEnum, head: Coord) -> Coord {
    match d {
        DirectionsEnum::Up => (
            if head.0 == 0 {
                (FIELD_SIZE - 1) as usize
            } else {
                (head.0 - 1) as usize
            },
            head.1,
        ),
        DirectionsEnum::Down => (
            if head.0 == FIELD_SIZE - 1 {
                0usize
            } else {
                (head.0 + 1) as usize
            },
            head.1,
        ),
        DirectionsEnum::Left => (
            head.0,
            if head.1 == 0 {
                (FIELD_SIZE - 1) as usize
            } else {
                (head.1 - 1) as usize
            },
        ),
        DirectionsEnum::Right => (
            head.0,
            if head.1 == FIELD_SIZE - 1 {
                0usize
            } else {
                (head.1 + 1) as usize
            },
        ),
    }
}

/// Whether `c` lies on the 2x2 block anchored at the bonus position.
pub open spec fn spec_in_bonus_block(bonus: Option<Coord>, c: Coord) -> bool {
    match bonus {
        Option::Some(a) => {
            ||| c.0 == a.0 && c.1 == a.1
            ||| c.0 == a.0 + 1 && c.1 == a.1
            ||| c.0 == a.0 && c.1 == a.1 + 1
            ||| c.0 == a.0 + 1 && c.1 == a.1 + 1
        },
        Option::None => false,
    }
}

/// The tag of one cell of the grid projection: walls persist; otherwise food
/// beats snake beats bonus beats empty.
pub open spec fn spec_proj_cell(
    wall: bool,
    body: Seq<Coord>,
    food: Coord,
    bonus: Option<Coord>,
    c: Coord,
) -> u16 {
    if wall {
        WALL
    } else if c == food {
        FOOD
    } else if body.contains(c) {
        SNAKE
    } else if spec_in_bonus_block(bonus, c) {
        BONUS
    } else {
        0u16
    }
}

/// The grid equals the projection of the state's own body, food and bonus,
/// relative to its own wall cells.
pub open spec fn spec_grid_projected(g: GameState) -> bool {
    forall|i: int, j: int|
        0 <= i < FIELD_SIZE && 0 <= j < FIELD_SIZE ==> #[trigger] g.grid@[i]@[j]
            == spec_proj_cell(
            g.grid@[i]@[j] == WALL,
            g.snake_body@,
            g.food_position,
            g.bonus_position,
            (i as usize, j as usize),
        )
}

/// Scheduler ticks a round must accumulate between transitions, per
/// difficulty tier; unknown tiers run at the fastest cadence.
pub open spec fn spec_required_ticks(difficulty: u16) -> u64 {
    if difficulty == 1 {
        20u64
    } else if difficulty == 2 {
        15u64
    } else if difficulty == 3 {
        10u64
    } else {
        2u64
    }
}

/// Points one food item is worth, per difficulty tier.
pub open spec fn spec_food_value(difficulty: u16) -> u64 {
    if difficulty == 1 {
        1u64
    } else if difficulty == 2 {
        3u64
    } else if difficulty == 3 {
        5u64
    } else {
        8u64
    }
}

/// A tick advances the round only when it is neither over nor frozen.
pub open spec fn spec_tick_runs(g: GameState) -> bool {
    !g.game_over && !g.freeze
}

/// The heading the tick moves along, after reverse-rejection.
pub open spec fn spec_dir(g: GameState) -> DirectionsEnum {
    spec_resolved_direction(g.snake_direction, g.next_direction)
}

/// The cell the head moves into this tick.
pub open spec fn spec_next(g: GameState) -> Coord {
    spec_next_head(spec_dir(g), g.snake_body@[0])
}

/// The tick is terminal: the next head hits the body or a wall.
pub open spec fn spec_collision(g: GameState) -> bool {
    g.snake_body@.contains(spec_next(g)) || g.grid@[spec_next(g).0 as int]@[spec_next(g).1 as int]
        == WALL
}

/// The bonus value after this tick's decay of 3, floored at zero.
pub open spec fn spec_decayed_value(g: GameState) -> u64 {
    if g.bonus_position is Some {
        if g.bonus_value >= 3 {
            (g.bonus_value - 3) as u64
        } else {
            0u64
        }
    } else {
        g.bonus_value
    }
}

/// The bonus anchor after decay: cleared when the value reaches zero.
pub open spec fn spec_decayed_bonus(g: GameState) -> Option<Coord> {
    match g.bonus_position {
        Option::Some(a) => if spec_decayed_value(g) == 0 {
            Option::None
        } else {
            Option::Some(a)
        },
        Option::None => Option::None,
    }
}

/// The body after the move: the next head in front, and the tail kept
/// exactly when food was consumed on the previous tick.
pub open spec fn spec_new_body(g: GameState) -> Seq<Coord> {
    if g.ate_food {
        seq![spec_next(g)] + g.snake_body@
    } else {
        seq![spec_next(g)] + g.snake_body@.drop_last()
    }
}

/// The new head lands on the (decayed) bonus block this tick.
pub open spec fn spec_bonus_picked(g: GameState) -> bool {
    spec_in_bonus_block(spec_decayed_bonus(g), spec_next(g))
}

/// The new head lands on the food this tick.
pub open spec fn spec_eats_food(g: GameState) -> bool {
    spec_next(g) == g.food_position
}

/// The bonus countdown after a food pickup, floored at zero.
pub open spec fn spec_fbn_after_food(g: GameState) -> u64 {
    if spec_eats_food(g) {
        if g.food_for_bonus_needed >= 1 {
            (g.food_for_bonus_needed - 1) as u64
        } else {
            0u64
        }
    } else {
        g.food_for_bonus_needed
    }
}

/// The countdown reaching zero triggers a bonus spawn cycle this tick.
pub open spec fn spec_bonus_cycle(g: GameState) -> bool {
    spec_fbn_after_food(g) == 0
}

/// The score after the tick: bonus points for a bonus pickup, then
/// difficulty-scaled points for a food pickup.
pub open spec fn spec_new_score(g: GameState, difficulty: u16) -> int {
    g.score + (if spec_bonus_picked(g) {
        spec_decayed_value(g) as int
    } else {
        0int
    }) + (if spec_eats_food(g) {
        spec_food_value(difficulty) as int
    } else {
        0int
    })
}

/// The tag a cell carries when the grid is rescanned right after the move,
/// before pickups are resolved: the new body, the old food, the decayed
/// bonus. New food and a new bonus block are chosen against this view.
pub open spec fn spec_mid_cell(g: GameState, i: int, j: int) -> u16 {
    spec_proj_cell(
        g.grid@[i]@[j] == WALL,
        spec_new_body(g),
        g.food_position,
        spec_decayed_bonus(g),
        (i as usize, j as usize),
    )
}

/// Some cell is empty in the post-move rescan, so food can respawn.
pub open spec fn spec_has_free_mid_cell(g: GameState) -> bool {
    exists|i: int, j: int|
        0 <= i < FIELD_SIZE && 0 <= j < FIELD_SIZE && spec_mid_cell(g, i, j) == 0
}

/// The 2x2 block anchored at (i, j) is empty in the post-move rescan.
pub open spec fn spec_free_block_at(g: GameState, i: int, j: int) -> bool {
    &&& spec_mid_cell(g, i, j) == 0
    &&& spec_mid_cell(g, i, j + 1) == 0
    &&& spec_mid_cell(g, i + 1, j) == 0
    &&& spec_mid_cell(g, i + 1, j + 1) == 0
}

/// Some 2x2 block is empty in the post-move rescan, so a bonus can spawn.
pub open spec fn spec_has_free_block(g: GameState) -> bool {
    exists|i: int, j: int|
        0 <= i < FIELD_SIZE - 1 && 0 <= j < FIELD_SIZE - 1 && spec_free_block_at(g, i, j)
}

/// What a freshly created round looks like: a length-one body at the level's
/// start, heading right, score zero, no bonus, and food on a non-wall cell.
pub open spec fn spec_fresh_game(gs: GameState, difficulty: u16, level: u16) -> bool {
    &&& gs.wf()
    &&& gs.snake_direction == DirectionsEnum::Right
    &&& gs.next_direction == DirectionsEnum::Right
    &&& gs.snake_body@ == seq![spec_starting_position(level)]
    &&& gs.ate_food == false
    &&& gs.game_over == false
    &&& gs.score == 0
    &&& gs.bonus_position is None
    &&& gs.food_eaten == 0
    &&& gs.bonus_value == 50
    &&& gs.food_for_bonus_needed == 5
    &&& gs.freeze == false
    &&& gs.required_ticks == spec_required_ticks(difficulty)
    &&& forall|i: int, j: int|
        0 <= i < FIELD_SIZE && 0 <= j < FIELD_SIZE ==> #[trigger] gs.grid@[i]@[j] == (
        if spec_is_wall(level, i, j) {
            WALL
        } else {
            0u16
        })
    &&& !spec_is_wall(level, gs.food_position.0 as int, gs.food_position.1 as int)
}

/// Moving off any edge of the field re-enters on the opposite edge, and a
/// step never leaves the field.
pub proof fn lemma_wrap_invariant(d: DirectionsEnum, head: Coord)
    requires
        spec_in_bounds(head),
    ensures
        spec_in_bounds(spec_next_head(d, head)),
        d == DirectionsEnum::Up && head.0 == 0 ==> spec_next_head(d, head) == (
        (FIELD_SIZE - 1) as usize,
        head.1,
        ),
        d == DirectionsEnum::Down && head.0 == FIELD_SIZE - 1 ==> spec_next_head(d, head) == (
        0usize,
        head.1,
        ),
        d == DirectionsEnum::Left && head.1 == 0 ==> spec_next_head(d, head) == (
        head.0,
        (FIELD_SIZE - 1) as usize,
        ),
        d == DirectionsEnum::Right && head.1 == FIELD_SIZE - 1 ==> spec_next_head(d, head) == (
        head.0,
        0usize,
        ),
{
}

/// A pending heading that exactly reverses the current one is never applied:
/// the resolved heading is the current one, unchanged.
pub proof fn lemma_reverse_rejected(d: DirectionsEnum)
    ensures
        spec_resolved_direction(d, spec_opposite_direction(d)) == d,
{
}

/// The moved body is one longer exactly when food was consumed on the
/// previous tick, and still has no duplicate cell when the move was not a
/// collision.
pub proof fn lemma_new_body_no_dup(g: GameState)
    requires
        g.body_wf(),
        !g.snake_body@.contains(spec_next(g)),
    ensures
        spec_new_body(g).len() == g.snake_body@.len() + (if g.ate_food {
            1int
        } else {
            0int
        }),
        forall|k1: int, k2: int|
            #![trigger spec_new_body(g)[k1], spec_new_body(g)[k2]]
            0 <= k1 < k2 < spec_new_body(g).len() ==> spec_new_body(g)[k1] != spec_new_body(g)[k2],
        forall|k: int|
            0 <= k < spec_new_body(g).len() ==> (#[trigger] spec_new_body(g)[k] == spec_next(g)
                || g.snake_body@.contains(spec_new_body(g)[k])),
{
    let nb = spec_new_body(g);
    let s = if g.ate_food {
        g.snake_body@
    } else {
        g.snake_body@.drop_last()
    };
    assert(nb == seq![spec_next(g)] + s);
    assert(forall|k: int| 0 <= k < s.len() ==> s[k] == g.snake_body@[k]);
    assert forall|k: int| 0 <= k < nb.len() implies (#[trigger] nb[k] == spec_next(g)
        || g.snake_body@.contains(nb[k])) by {
        if k >= 1 {
            assert(nb[k] == g.snake_body@[k - 1]);
            assert(g.snake_body@.contains(nb[k]));
        }
    }
    assert forall|k1: int, k2: int|
        #![trigger nb[k1], nb[k2]]
        0 <= k1 < k2 < nb.len() implies nb[k1] != nb[k2] by {
        if k1 == 0 {
            assert(nb[k2] == g.snake_body@[k2 - 1]);
            assert(g.snake_body@.contains(g.snake_body@[k2 - 1]));
        } else {
            assert(nb[k1] == g.snake_body@[k1 - 1]);
            assert(nb[k2] == g.snake_body@[k2 - 1]);
        }
    }
}

/// Decides whether the body covers a cell.
pub fn body_contains(body: &Vec<Coord>, c: Coord) -> (r: bool)
    ensures
        r == body@.contains(c),
{
    let mut k: usize = 0;
    while k < body.len()
        invariant
            k <= body@.len(),
            forall|m: int| 0 <= m < k ==> body@[m] != c,
        decreases body@.len() - k,
    {
        if body[k].0 == c.0 && body[k].1 == c.1 {
            assert(body@[k as int] == c);
            return true;
        }
        k += 1;
    }
    false
}

/// Applies the pending heading unless it reverses the current one.
pub fn update_curr_direction(state: &mut GameState)
    ensures
        *final(state) == (GameState {
            snake_direction: spec_resolved_direction(
                old(state).snake_direction,
                old(state).next_direction,
            ),
            ..*old(state)
        }),
{
    match (state.snake_direction, state.next_direction) {
        (DirectionsEnum::Up, DirectionsEnum::Down) => (),
        (DirectionsEnum::Down, DirectionsEnum::Up) => (),
        (DirectionsEnum::Left, DirectionsEnum::Right) => (),
        (DirectionsEnum::Right, DirectionsEnum::Left) => (),
        _ => {
            state.snake_direction = state.next_direction;
        },
    }
}

/// Decays an active bonus by 3 points and clears it when it reaches zero.
pub fn update_bonus_value(game_state: &mut GameState)
    ensures
        *final(game_state) == (GameState {
            bonus_value: spec_decayed_value(*old(game_state)),
            bonus_position: spec_decayed_bonus(*old(game_state)),
            ..*old(game_state)
        }),
{
    if game_state.bonus_position.is_none() {
        return ;
    }
    game_state.bonus_value = game_state.bonus_value.saturating_sub(3);
    if game_state.bonus_value == 0 {
        game_state.bonus_position = None;
    }
}

/// Whether a cell lies on the active bonus's 2x2 block.
pub fn is_bonus(game_state: &GameState, coord: Coord) -> (r: bool)
    requires
        game_state.bonus_wf(),
    ensures
        r == spec_in_bonus_block(game_state.bonus_position, coord),
{
    match &game_state.bonus_position {
        Option::None => false,
        Option::Some(a) => {
            let x = a.0;
            let y = a.1;
            (coord.0 == x && coord.1 == y) || (coord.0 == x + 1 && coord.1 == y) || (coord.0 == x
                && coord.1 == y + 1) || (coord.0 == x + 1 && coord.1 == y + 1)
        },
    }
}

/// One step of the head along the current heading, wrapping at the edges.
pub fn get_next_head(game_state: &GameState, head: Coord) -> (r: Coord)
    requires
        spec_in_bounds(head),
    ensures
        r == spec_next_head(game_state.snake_direction, head),
        spec_in_bounds(r),
{
    let max = FIELD_SIZE - 1;
    let mut curr_row = head.0;
    let mut curr_col = head.1;
    match game_state.snake_direction {
        DirectionsEnum::Up => {
            curr_row = if curr_row == 0 {
                max
            } else {
                curr_row - 1
            };
        },
        DirectionsEnum::Down => {
            curr_row = if curr_row == max {
                0
            } else {
                curr_row + 1
            };
        },
        DirectionsEnum::Left => {
            curr_col = if curr_col == 0 {
                max
            } else {
                curr_col - 1
            };
        },
        DirectionsEnum::Right => {
            curr_col = if curr_col == max {
                0
            } else {
                curr_col + 1
            };
        },
    }
    (curr_row, curr_col)
}

/// Points a food pickup is worth at the application's difficulty.
pub fn get_food_value(state: &AppState) -> (r: u64)
    ensures
        r == spec_food_value(state.difficulty),
{
    match state.difficulty {
        1 => 1,
        2 => 3,
        3 => 5,
        4 => 8,
        _ => 8,
    }
}

/// Where the snake starts on the given level.
pub fn get_starting_position(level: u16) -> (c: Coord)
    ensures
        c == spec_starting_position(level),
{
    match level {
        0 | 1 => (7, 7),
        2 => (4, 0),
        _ => (0, 0),
    }
}

/// Builds the level's grid: walls from the catalog, all other cells empty.
pub fn gen_grid(size: usize, level: u16) -> (grid: Vec<Vec<u16>>)
    requires
        size == FIELD_SIZE,
    ensures
        grid@.len() == FIELD_SIZE,
        forall|i: int| 0 <= i < FIELD_SIZE ==> (#[trigger] grid@[i])@.len() == FIELD_SIZE,
        forall|i: int, j: int|
            0 <= i < FIELD_SIZE && 0 <= j < FIELD_SIZE ==> #[trigger] grid@[i]@[j] == (
            if spec_is_wall(level, i, j) {
                WALL
            } else {
                0u16
            }),
{
    let mut grid: Vec<Vec<u16>> = Vec::new();
    let mut i: usize = 0;
    while i < size
        invariant
            size == FIELD_SIZE,
            i <= FIELD_SIZE,
            grid@.len() == i,
            forall|a: int| 0 <= a < i ==> (#[trigger] grid@[a])@.len() == FIELD_SIZE,
            forall|a: int, b: int|
                0 <= a < i && 0 <= b < FIELD_SIZE ==> #[trigger] grid@[a]@[b] == (
                if spec_is_wall(level, a, b) {
                    WALL
                } else {
                    0u16
                }),
        decreases size - i,
    {
        let mut row: Vec<u16> = Vec::new();
        let mut j: usize = 0;
        while j < size
            invariant
                size == FIELD_SIZE,
                i < FIELD_SIZE,
                j <= FIELD_SIZE,
                row@.len() == j,
                forall|b: int|
                    0 <= b < j ==> #[trigger] row@[b] == (if spec_is_wall(level, i as int, b) {
                        WALL
                    } else {
                        0u16
                    }),
            decreases size - j,
        {
            if is_wall_cell(level, i, j) {
                row.push(WALL);
            } else {
                row.push(0);
            }
            j += 1;
        }
        grid.push(row);
        i += 1;
    }
    grid
}

/// Rescans the grid projection from the current body, food and bonus; wall
/// cells are left untouched.
pub fn set_grid_values(state: &mut State)
    requires
        old(state).game_state.grid_wf(),
        old(state).game_state.bonus_wf(),
    ensures
        final(state).game_state.grid_wf(),
        forall|i: int, j: int|
            0 <= i < FIELD_SIZE && 0 <= j < FIELD_SIZE ==> #[trigger] final(state).game_state.grid@[i]@[j] == spec_proj_cell(
                old(state).game_state.grid@[i]@[j] == WALL,
                old(state).game_state.snake_body@,
                old(state).game_state.food_position,
                old(state).game_state.bonus_position,
                (i as usize, j as usize),
            ),
        final(state).game_state == (GameState {
            grid: final(state).game_state.grid,
            ..old(state).game_state
        }),
        final(state).app_state == old(state).app_state,
{
    let mut new_grid: Vec<Vec<u16>> = Vec::new();
    let mut i: usize = 0;
    while i < FIELD_SIZE
        invariant
            state.game_state == old(state).game_state,
            state.app_state == old(state).app_state,
            state.game_state.grid_wf(),
            state.game_state.bonus_wf(),
            i <= FIELD_SIZE,
            new_grid@.len() == i,
            forall|a: int| 0 <= a < i ==> (#[trigger] new_grid@[a])@.len() == FIELD_SIZE,
            forall|a: int, b: int|
                0 <= a < i && 0 <= b < FIELD_SIZE ==> #[trigger] new_grid@[a]@[b]
                    == spec_proj_cell(
                    state.game_state.grid@[a]@[b] == WALL,
                    state.game_state.snake_body@,
                    state.game_state.food_position,
                    state.game_state.bonus_position,
                    (a as usize, b as usize),
                ),
        decreases FIELD_SIZE - i,
    {
        let mut row: Vec<u16> = Vec::new();
        let mut j: usize = 0;
        while j < FIELD_SIZE
            invariant
                state.game_state == old(state).game_state,
                state.app_state == old(state).app_state,
                state.game_state.grid_wf(),
                state.game_state.bonus_wf(),
                i < FIELD_SIZE,
                j <= FIELD_SIZE,
                row@.len() == j,
                forall|b: int|
                    0 <= b < j ==> #[trigger] row@[b] == spec_proj_cell(
                        state.game_state.grid@[i as int]@[b] == WALL,
                        state.game_state.snake_body@,
                        state.game_state.food_position,
                        state.game_state.bonus_position,
                        (i as usize, b as usize),
                    ),
            decreases FIELD_SIZE - j,
        {
            let food = state.game_state.food_position;
            let tag: u16 = if state.game_state.grid[i][j] == WALL {
                WALL
            } else if food.0 == i && food.1 == j {
                FOOD
            } else if body_contains(&state.game_state.snake_body, (i, j)) {
                SNAKE
            } else if is_bonus(&state.game_state, (i, j)) {
                BONUS
            } else {
                0
            };
            row.push(tag);
            j += 1;
        }
        new_grid.push(row);
        i += 1;
    }
    state.game_state.grid = new_grid;
}

/// Collects every anchor whose 2x2 block is empty and picks one uniformly at
/// random; yields nothing exactly when no such block exists.
pub fn get_bonus_position(game_state: &GameState) -> (r: Option<Coord>)
    requires
        game_state.grid_wf(),
    ensures
        match r {
            Option::Some(a) => a.0 < FIELD_SIZE - 1 && a.1 < FIELD_SIZE - 1 && spec_block_free(
                game_state.grid@,
                a.0 as int,
                a.1 as int,
            ),
            Option::None => forall|i: int, j: int|
                0 <= i < FIELD_SIZE - 1 && 0 <= j < FIELD_SIZE - 1 ==> !spec_block_free(
                    game_state.grid@,
                    i,
                    j,
                ),
        },
{
    let mut free_cells: Vec<Coord> = Vec::new();
    let mut i: usize = 0;
    while i < FIELD_SIZE - 1
        invariant
            game_state.grid_wf(),
            i <= FIELD_SIZE - 1,
            forall|k: int|
                0 <= k < free_cells@.len() ==> {
                    let c = #[trigger] free_cells@[k];
                    c.0 < FIELD_SIZE - 1 && c.1 < FIELD_SIZE - 1 && spec_block_free(
                        game_state.grid@,
                        c.0 as int,
                        c.1 as int,
                    )
                },
            forall|a: int, b: int|
                0 <= a < i && 0 <= b < FIELD_SIZE - 1 && spec_block_free(game_state.grid@, a, b)
                    ==> free_cells@.contains((a as usize, b as usize)),
        decreases FIELD_SIZE - 1 - i,
    {
        let mut j: usize = 0;
        while j < FIELD_SIZE - 1
            invariant
                game_state.grid_wf(),
                i < FIELD_SIZE - 1,
                j <= FIELD_SIZE - 1,
                forall|k: int|
                    0 <= k < free_cells@.len() ==> {
                        let c = #[trigger] free_cells@[k];
                        c.0 < FIELD_SIZE - 1 && c.1 < FIELD_SIZE - 1 && spec_block_free(
                            game_state.grid@,
                            c.0 as int,
                            c.1 as int,
                        )
                    },
                forall|a: int, b: int|
                    0 <= a < i && 0 <= b < FIELD_SIZE - 1 && spec_block_free(
                        game_state.grid@,
                        a,
                        b,
                    ) ==> free_cells@.contains((a as usize, b as usize)),
                forall|b: int|
                    0 <= b < j && spec_block_free(game_state.grid@, i as int, b)
                        ==> free_cells@.contains((i, b as usize)),
            decreases FIELD_SIZE - 1 - j,
        {
            let free = game_state.grid[i][j] == 0 && game_state.grid[i][j + 1] == 0
                && game_state.grid[i + 1][j] == 0 && game_state.grid[i + 1][j + 1] == 0;
            if free {
                let ghost prev = free_cells@;
                free_cells.push((i, j));
                proof {
                    assert forall|x: Coord| prev.contains(x) implies free_cells@.contains(x) by {
                        let k = choose|k: int| 0 <= k < prev.len() && prev[k] == x;
                        assert(free_cells@[k] == x);
                    }
                    assert(free_cells@[prev.len() as int] == (i, j));
                    assert(free_cells@.contains((i, j)));
                }
            }
            j += 1;
        }
        i += 1;
    }
    if free_cells.len() != 0 {
        let idx = crate::utils::get_random_int(0, free_cells.len());
        Some(free_cells[idx])
    } else {
        None
    }
}

/// The 2x2 block anchored at (i, j) of this grid is entirely empty.
pub open spec fn spec_block_free(grid: Seq<Vec<u16>>, i: int, j: int) -> bool {
    &&& grid[i]@[j] == 0
    &&& grid[i]@[j + 1] == 0
    &&& grid[i + 1]@[j] == 0
    &&& grid[i + 1]@[j + 1] == 0
}

/// Creates the round state for a new game on the given difficulty and level.
pub fn get_new_game_state(difficulty: u16, level: u16) -> (gs: GameState)
    ensures
        spec_fresh_game(gs, difficulty, level),
{
    let grid = gen_grid(FIELD_SIZE, level);
    proof {
        assert(!spec_is_wall(level, 3, 3));
        assert(grid@[3]@[3] == 0);
    }
    let food_position = get_random_free_cell(&grid);
    let required_ticks: u64 = match difficulty {
        1 => 20,
        2 => 15,
        3 => 10,
        4 => 2,
        _ => 2,
    };
    let mut snake_body: Vec<Coord> = Vec::new();
    snake_body.push(get_starting_position(level));
    let game_state = GameState {
        snake_direction: DirectionsEnum::Right,
        next_direction: DirectionsEnum::Right,
        snake_body,
        ate_food: false,
        game_over: false,
        score: 0,
        bonus_position: None,
        food_eaten: 0,
        bonus_value: 50,
        food_for_bonus_needed: 5,
        freeze: false,
        grid,
        food_position,
        required_ticks,
    };
    game_state
}

impl GameState {
    /// Creates the round state for a new game; see `get_new_game_state`.
    pub fn new(difficulty: u16, level: u16) -> (gs: Self)
        ensures
            spec_fresh_game(gs, difficulty, level),
    {
        get_new_game_state(difficulty, level)
    }
}

/// Advances the round by one tick: resolves the pending heading, decays the
/// bonus, moves the head one wrapped step, ends the round on a body or wall
/// hit, applies the growth rule, resolves bonus and food pickups, spawns a
/// new bonus when the countdown runs out, and rescans the grid.
///
/// A tick that eats the food needs an empty cell in the post-move rescan to
/// respawn it; the level designs guarantee one.
pub fn update_game_state(state: &mut State)
    requires
        old(state).game_state.wf(),
        old(state).game_state.score + 108 <= u64::MAX,
        old(state).game_state.food_eaten < u64::MAX,
        spec_tick_runs(old(state).game_state) && !spec_collision(old(state).game_state)
            && spec_eats_food(old(state).game_state) ==> spec_has_free_mid_cell(
            old(state).game_state,
        ),
    ensures
        final(state).game_state.wf(),
        !spec_tick_runs(old(state).game_state) ==> *final(state) == *old(state),
        spec_tick_runs(old(state).game_state) && spec_collision(old(state).game_state) ==> {
            let g = old(state).game_state;
            &&& final(state).game_state == (GameState {
                snake_direction: spec_dir(g),
                ate_food: false,
                bonus_value: spec_decayed_value(g),
                bonus_position: spec_decayed_bonus(g),
                game_over: true,
                ..g
            })
            &&& final(state).app_state == (AppState {
                game_started: false,
                screen_changed: true,
                new_score: Option::Some(g.score),
                ..old(state).app_state
            })
        },
        spec_tick_runs(old(state).game_state) && !spec_collision(old(state).game_state) ==> {
            let g = old(state).game_state;
            let gs = final(state).game_state;
            &&& gs.snake_direction == spec_dir(g)
            &&& gs.next_direction == g.next_direction
            &&& gs.snake_body@ == spec_new_body(g)
            &&& gs.game_over == false
            &&& gs.freeze == g.freeze
            &&& gs.required_ticks == g.required_ticks
            &&& gs.score == spec_new_score(g, old(state).app_state.difficulty)
            &&& gs.food_eaten == g.food_eaten + (if spec_eats_food(g) {
                1int
            } else {
                0int
            })
            &&& gs.ate_food == (spec_eats_food(g) || spec_bonus_cycle(g))
            &&& gs.food_for_bonus_needed == (if spec_bonus_cycle(g) {
                5int
            } else {
                spec_fbn_after_food(g) as int
            })
            &&& gs.bonus_value == (if spec_bonus_cycle(g) || spec_bonus_picked(g) {
                100int
            } else {
                spec_decayed_value(g) as int
            })
            &&& (if spec_bonus_cycle(g) {
                &&& (gs.bonus_position is Some <==> spec_has_free_block(g))
                &&& (match gs.bonus_position {
                    Option::Some(a) => spec_free_block_at(g, a.0 as int, a.1 as int),
                    Option::None => true,
                })
            } else if spec_bonus_picked(g) {
                gs.bonus_position is None
            } else {
                gs.bonus_position == spec_decayed_bonus(g)
            })
            &&& (if spec_eats_food(g) {
                spec_in_bounds(gs.food_position) && spec_mid_cell(
                    g,
                    gs.food_position.0 as int,
                    gs.food_position.1 as int,
                ) == 0
            } else {
                gs.food_position == g.food_position
            })
            &&& forall|i: int, j: int|
                0 <= i < FIELD_SIZE && 0 <= j < FIELD_SIZE ==> ((#[trigger] gs.grid@[i]@[j]
                    == WALL) <==> (g.grid@[i]@[j] == WALL))
            &&& spec_grid_projected(gs)
            &&& final(state).app_state == old(state).app_state
        },
{
    let ghost g = old(state).game_state;
    let ate_food = state.game_state.ate_food;

    if state.game_state.game_over || state.game_state.freeze {
        return ;
    }
    state.game_state.ate_food = false;
    update_curr_direction(&mut state.game_state);
    update_bonus_value(&mut state.game_state);
    proof {
        assert(state.game_state.snake_direction == spec_dir(g));
        assert(state.game_state.bonus_value == spec_decayed_value(g));
        assert(state.game_state.bonus_position == spec_decayed_bonus(g));
        assert(state.game_state.snake_body@[0] == g.snake_body@[0]);
        assert(spec_in_bounds(g.snake_body@[0]));
    }
    let head = state.game_state.snake_body[0];
    let next_head = get_next_head(&state.game_state, head);
    assert(next_head == spec_next(g));

    if body_contains(&state.game_state.snake_body, next_head)
        || state.game_state.grid[next_head.0][next_head.1] == WALL {
        assert(spec_collision(g));
        state.game_state.game_over = true;
        state.app_state.game_started = false;
        state.app_state.screen_changed = true;
        state.app_state.new_score = Some(state.game_state.score);
        return ;
    }
    assert(!spec_collision(g));

    if !ate_food {
        state.game_state.snake_body.pop();
    }
    state.game_state.snake_body.insert(0, next_head);
    proof {
        lemma_new_body_no_dup(g);
        assert(state.game_state.snake_body@ =~= spec_new_body(g));
    }
    set_grid_values(state);
    proof {
        assert forall|i: int, j: int| 0 <= i < FIELD_SIZE && 0 <= j < FIELD_SIZE implies
            #[trigger] state.game_state.grid@[i]@[j] == spec_mid_cell(g, i, j) by {
            assert(state.game_state.grid@[i]@[j] == spec_proj_cell(
                g.grid@[i]@[j] == WALL,
                spec_new_body(g),
                g.food_position,
                spec_decayed_bonus(g),
                (i as usize, j as usize),
            ));
        }
    }

    if is_bonus(&state.game_state, next_head) {
        assert(spec_bonus_picked(g));
        state.game_state.score = state.game_state.score + state.game_state.bonus_value;
        state.game_state.bonus_position = None;
        state.game_state.bonus_value = 100;
    } else {
        assert(!spec_bonus_picked(g));
    }

    if state.game_state.food_position.0 == next_head.0 && state.game_state.food_position.1
        == next_head.1 {
        assert(spec_eats_food(g));
        state.game_state.ate_food = true;
        proof {
            let (wi, wj) = choose|i: int, j: int|
                0 <= i < FIELD_SIZE && 0 <= j < FIELD_SIZE && spec_mid_cell(g, i, j) == 0;
            assert(state.game_state.grid@[wi]@[wj] == 0);
        }
        let new_food = get_random_free_cell(&state.game_state.grid);
        state.game_state.food_position = new_food;
        let food_value = get_food_value(&state.app_state);
        state.game_state.score = state.game_state.score + food_value;
        state.game_state.food_eaten = state.game_state.food_eaten + 1;
        state.game_state.food_for_bonus_needed =
            state.game_state.food_for_bonus_needed.saturating_sub(1);
    } else {
        assert(!spec_eats_food(g));
    }
    assert(state.game_state.food_for_bonus_needed == spec_fbn_after_food(g));

    if state.game_state.food_for_bonus_needed == 0 {
        assert(spec_bonus_cycle(g));
        state.game_state.ate_food = true;
        let bp = get_bonus_position(&state.game_state);
        proof {
            assert forall|i: int, j: int|
                0 <= i < FIELD_SIZE - 1 && 0 <= j < FIELD_SIZE - 1 implies (spec_block_free(
                state.game_state.grid@,
                i,
                j,
            ) <==> #[trigger] spec_free_block_at(g, i, j)) by {
                assert(state.game_state.grid@[i]@[j] == spec_mid_cell(g, i, j));
                assert(state.game_state.grid@[i]@[j + 1] == spec_mid_cell(g, i, j + 1));
                assert(state.game_state.grid@[i + 1]@[j] == spec_mid_cell(g, i + 1, j));
                assert(state.game_state.grid@[i + 1]@[j + 1] == spec_mid_cell(g, i + 1, j + 1));
            }
            if bp is None {
                assert(!spec_has_free_block(g));
            } else {
                assert(spec_has_free_block(g)) by {
                    let a = bp.unwrap();
                    assert(spec_free_block_at(g, a.0 as int, a.1 as int));
                }
            }
        }
        state.game_state.bonus_position = bp;
        state.game_state.bonus_value = 100;
        state.game_state.food_for_bonus_needed = 5;
    } else {
        assert(!spec_bonus_cycle(g));
    }

    set_grid_values(state);
    proof {
        assert(state.game_state.snake_body@ == spec_new_body(g));
        assert forall|i: int, j: int| 0 <= i < FIELD_SIZE && 0 <= j < FIELD_SIZE implies ((
        #[trigger] state.game_state.grid@[i]@[j] == WALL) <==> (g.grid@[i]@[j] == WALL)) by {
            assert(spec_mid_cell(g, i, j) == WALL <==> g.grid@[i]@[j] == WALL);
        }
        assert(spec_grid_projected(state.game_state));
        assert(state.game_state.body_wf());
    }
}

/// The body after a move is one cell longer exactly when food was consumed
/// on the immediately preceding tick, and otherwise keeps its length.
pub proof fn lemma_growth_law(g: GameState)
    requires
        g.snake_body@.len() >= 1,
    ensures
        spec_new_body(g).len() == g.snake_body@.len() + (if g.ate_food {
            1int
        } else {
            0int
        }),
{
}

/// An active bonus decays by exactly 3 per tick while its value is above 3,
/// and is cleared within the tick its value reaches zero.
pub proof fn lemma_bonus_decay(g: GameState)
    requires
        g.bonus_position is Some,
    ensures
        g.bonus_value > 3 ==> spec_decayed_value(g) == g.bonus_value - 3 && spec_decayed_bonus(g)
            == g.bonus_position,
        g.bonus_value <= 3 ==> spec_decayed_value(g) == 0 && spec_decayed_bonus(g) is None,
{
}

/// Leaves the game for the main menu and marks the settings dirty.
pub fn back_to_menu(app_state: &mut AppState)
    ensures
        *final(app_state) == (AppState {
            selected_screen: ScreensEnum::Menu,
            screen_changed: true,
            dirty: true,
            ..*old(app_state)
        }),
{
    app_state.selected_screen = ScreensEnum::Menu;
    app_state.screen_changed = true;
    app_state.dirty = true;
}

/// Reacts to one key while the game screen is open: any key unfreezes the
/// round, arrows queue a heading, escape returns to the menu, and enter
/// restarts after a game over.
pub fn process_keyboard_event(state: &mut State, key: KeyInput)
    ensures
        final(state).app_state == (match key {
            KeyInput::Esc => (AppState {
                selected_screen: ScreensEnum::Menu,
                screen_changed: true,
                dirty: true,
                ..old(state).app_state
            }),
            _ => old(state).app_state,
        }),
        (match key {
            KeyInput::Down => final(state).game_state == (GameState {
                freeze: false,
                next_direction: DirectionsEnum::Down,
                ..old(state).game_state
            }),
            KeyInput::Up => final(state).game_state == (GameState {
                freeze: false,
                next_direction: DirectionsEnum::Up,
                ..old(state).game_state
            }),
            KeyInput::Left => final(state).game_state == (GameState {
                freeze: false,
                next_direction: DirectionsEnum::Left,
                ..old(state).game_state
            }),
            KeyInput::Right => final(state).game_state == (GameState {
                freeze: false,
                next_direction: DirectionsEnum::Right,
                ..old(state).game_state
            }),
            KeyInput::Enter => if old(state).game_state.game_over {
                spec_fresh_game(
                    final(state).game_state,
                    old(state).app_state.difficulty,
                    old(state).app_state.level,
                )
            } else {
                final(state).game_state == (GameState { freeze: false, ..old(state).game_state })
            },
            _ => final(state).game_state == (GameState {
                freeze: false,
                ..old(state).game_state
            }),
        }),
{
    state.game_state.freeze = false;
    match key {
        KeyInput::Down => {
            state.game_state.next_direction = DirectionsEnum::Down;
        },
        KeyInput::Up => {
            state.game_state.next_direction = DirectionsEnum::Up;
        },
        KeyInput::Left => {
            state.game_state.next_direction = DirectionsEnum::Left;
        },
        KeyInput::Right => {
            state.game_state.next_direction = DirectionsEnum::Right;
        },
        KeyInput::Esc => {
            back_to_menu(&mut state.app_state);
        },
        KeyInput::Enter => {
            if state.game_state.game_over {
                state.game_state = GameState::new(
                    state.app_state.difficulty,
                    state.app_state.level,
                );
            }
        },
        KeyInput::Other => {},
    }
}

/// The state the application starts from before any saved round is loaded:
/// a fresh easy round on the labyrinth level, main menu open.
pub fn init_game_state() -> (r: State)
    ensures
        spec_fresh_game(r.game_state, 1, 2),
        r.app_state == (AppState {
            app_running: true,
            selected_screen: ScreensEnum::Menu,
            selected_menu: crate::models::MenusEnum::MainMenu,
            selected_menu_item: 0,
            view_offset: (0u16, 0u16),
            screen_changed: false,
            difficulty: 1u16,
            level: 2u16,
            game_started: false,
            new_score: Option::None,
            leaderboard: Option::None,
            dirty: false,
        }),
{
    let difficulty: u16 = 1;
    let level: u16 = 2;
    let game_state = GameState::new(difficulty, level);
    let app_state = AppState {
        difficulty,
        level,
        dirty: false,
        selected_menu: crate::models::MenusEnum::MainMenu,
        app_running: true,
        selected_screen: ScreensEnum::Menu,
        selected_menu_item: 0,
        view_offset: (0, 0),
        screen_changed: false,
        game_started: false,
        new_score: None,
        leaderboard: None,
    };
    State { game_state, app_state }
}

/// Decides at run time whether a round state satisfies the engine's
/// invariant, so that an externally loaded round can be checked before use.
pub fn state_is_valid(gs: &GameState) -> (r: bool)
    ensures
        r == gs.wf(),
{
    if gs.grid.len() != FIELD_SIZE {
        return false;
    }
    let mut i: usize = 0;
    while i < FIELD_SIZE
        invariant
            gs.grid@.len() == FIELD_SIZE,
            i <= FIELD_SIZE,
            forall|a: int| 0 <= a < i ==> (#[trigger] gs.grid@[a])@.len() == FIELD_SIZE,
        decreases FIELD_SIZE - i,
    {
        if gs.grid[i].len() != FIELD_SIZE {
            return false;
        }
        i += 1;
    }
    let n = gs.snake_body.len();
    if n == 0 {
        return false;
    }
    let mut k: usize = 0;
    while k < n
        invariant
            n == gs.snake_body@.len(),
            k <= n,
            forall|m: int| 0 <= m < k ==> spec_in_bounds(#[trigger] gs.snake_body@[m]),
        decreases n - k,
    {
        let c = gs.snake_body[k];
        if !(c.0 < FIELD_SIZE && c.1 < FIELD_SIZE) {
            return false;
        }
        k += 1;
    }
    k = 0;
    while k < n
        invariant
            n == gs.snake_body@.len(),
            k <= n,
            forall|a: int, b: int|
                #![trigger gs.snake_body@[a], gs.snake_body@[b]]
                0 <= a < k && a < b < n ==> gs.snake_body@[a] != gs.snake_body@[b],
        decreases n - k,
    {
        let mut m: usize = k + 1;
        while m < n
            invariant
                n == gs.snake_body@.len(),
                k < m <= n,
                forall|b: int|
                    k < b < m ==> gs.snake_body@[k as int] != #[trigger] gs.snake_body@[b],
            decreases n - m,
        {
            if gs.snake_body[k].0 == gs.snake_body[m].0 && gs.snake_body[k].1
                == gs.snake_body[m].1 {
                assert(gs.snake_body@[k as int] == gs.snake_body@[m as int]);
                return false;
            }
            m += 1;
        }
        k += 1;
    }
    if !(gs.food_position.0 < FIELD_SIZE && gs.food_position.1 < FIELD_SIZE) {
        return false;
    }
    let bonus_ok = match &gs.bonus_position {
        Option::None => true,
        Option::Some(a) => a.0 < FIELD_SIZE - 1 && a.1 < FIELD_SIZE - 1,
    };
    if !bonus_ok {
        return false;
    }
    if gs.bonus_value > 100 {
        return false;
    }
    true
}

} // verus!
