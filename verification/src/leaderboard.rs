//! The leaderboard: a strictly descending top-10 list of scores and its
//! admission rule. Loading and saving the score file stay outside; this
//! module receives the stored scores as plain values and hands back the
//! canonical list to persist.

use vstd::prelude::*;
use vstd::seq_lib::{to_multiset_build, to_multiset_insert};
use crate::models::{AppState, KeyInput, ScreensEnum, State};

verus! {

/// The scores never increase along the list.
pub open spec fn spec_sorted_desc(s: Seq<u64>) -> bool {
    forall|a: int, b: int|
        #![trigger s[a], s[b]]
        0 <= a < b < s.len() ==> s[a] >= s[b]
}

/// The scores strictly decrease along the list; this also rules out
/// duplicates.
pub open spec fn spec_sorted_strict_desc(s: Seq<u64>) -> bool {
    forall|a: int, b: int|
        #![trigger s[a], s[b]]
        0 <= a < b < s.len() ==> s[a] > s[b]
}

/// The admission rule: a zero score and an already-present score are never
/// admitted; otherwise the score enters while the list is short or when it
/// strictly exceeds the current lowest entry.
pub open spec fn spec_admitted(s: Seq<u64>, v: u64) -> bool {
    v != 0 && !s.contains(v) && (s.len() < 10 || v > s.last())
}

/// Where a new score lands in a descending list: right after the prefix of
/// entries that are at least as large.
pub open spec fn spec_insert_pos(s: Seq<u64>, v: u64) -> int
    decreases s.len(),
{
    if s.len() == 0 {
        0
    } else if s.first() >= v {
        1 + spec_insert_pos(s.drop_first(), v)
    } else {
        0
    }
}

/// The list after one admission attempt: unchanged on rejection, otherwise
/// the score inserted at its rank and the list cut back to 10 entries.
pub open spec fn spec_admit(s: Seq<u64>, v: u64) -> Seq<u64> {
    if spec_admitted(s, v) {
        let t = s.insert(spec_insert_pos(s, v), v);
        if t.len() > 10 {
            t.subrange(0, 10)
        } else {
            t
        }
    } else {
        s
    }
}

/// The insertion position is a valid index, everything before it is at least
/// the new score, and the entry at it (if any) is below the new score.
pub proof fn lemma_insert_pos_props(s: Seq<u64>, v: u64)
    ensures
        0 <= spec_insert_pos(s, v) <= s.len(),
        forall|k: int| 0 <= k < spec_insert_pos(s, v) ==> s[k] >= v,
        spec_insert_pos(s, v) < s.len() ==> s[spec_insert_pos(s, v)] < v,
    decreases s.len(),
{
    if s.len() == 0 {
    } else if s.first() >= v {
        lemma_insert_pos_props(s.drop_first(), v);
        let p = spec_insert_pos(s, v);
        assert forall|k: int| 0 <= k < p implies s[k] >= v by {
            if k >= 1 {
                assert(s.drop_first()[k - 1] == s[k]);
            }
        }
        if p < s.len() {
            assert(s.drop_first()[p - 1] == s[p]);
        }
    }
}

/// Inserting at the rank keeps a descending list descending, and a strictly
/// descending list strictly descending when the score is not yet present.
pub proof fn lemma_insert_sorted(s: Seq<u64>, v: u64)
    requires
        spec_sorted_desc(s),
    ensures
        spec_sorted_desc(s.insert(spec_insert_pos(s, v), v)),
        spec_sorted_strict_desc(s) && !s.contains(v) ==> spec_sorted_strict_desc(
            s.insert(spec_insert_pos(s, v), v),
        ),
{
    lemma_insert_pos_props(s, v);
    let p = spec_insert_pos(s, v);
    let t = s.insert(p, v);
    s.insert_ensures(p, v);
    assert forall|a: int, b: int|
        #![trigger t[a], t[b]]
        0 <= a < b < t.len() implies t[a] >= t[b] by {
        if a < p && b < p {
        } else if a < p && b == p {
            assert(t[a] == s[a] && t[b] == v);
        } else if a < p && b > p {
            assert(t[a] == s[a] && t[b] == s[b - 1]);
            if b - 1 > a {
                assert(s[a] >= s[b - 1]);
            }
        } else if a == p {
            assert(t[a] == v && t[b] == s[b - 1]);
            assert(s[p] < v);
            if b - 1 > p {
                assert(s[p] >= s[b - 1]);
            }
        } else {
            assert(t[a] == s[a - 1] && t[b] == s[b - 1]);
        }
    }
    if spec_sorted_strict_desc(s) && !s.contains(v) {
        assert forall|k: int| 0 <= k < s.len() implies s[k] != v by {
            if s[k] == v {
                assert(s.contains(v));
            }
        }
        assert forall|a: int, b: int|
            #![trigger t[a], t[b]]
            0 <= a < b < t.len() implies t[a] > t[b] by {
            if a < p && b < p {
            } else if a < p && b == p {
                assert(t[a] == s[a] && t[b] == v && s[a] >= v && s[a] != v);
            } else if a < p && b > p {
                assert(t[a] == s[a] && t[b] == s[b - 1]);
                if b - 1 > a {
                    assert(s[a] > s[b - 1]);
                }
            } else if a == p {
                assert(t[a] == v && t[b] == s[b - 1]);
                assert(s[p] < v);
                if b - 1 > p {
                    assert(s[p] > s[b - 1]);
                }
            } else {
                assert(t[a] == s[a - 1] && t[b] == s[b - 1]);
            }
        }
    }
}

/// After any admission into a canonical list, the list is still strictly
/// descending, holds at most 10 entries, and contains no duplicate value.
pub proof fn lemma_admit_invariant(s: Seq<u64>, v: u64)
    requires
        spec_sorted_strict_desc(s),
        s.len() <= 10,
    ensures
        spec_sorted_strict_desc(spec_admit(s, v)),
        spec_admit(s, v).len() <= 10,
        forall|a: int, b: int|
            #![trigger spec_admit(s, v)[a], spec_admit(s, v)[b]]
            0 <= a < b < spec_admit(s, v).len() ==> spec_admit(s, v)[a] != spec_admit(s, v)[b],
{
    if spec_admitted(s, v) {
        lemma_insert_pos_props(s, v);
        lemma_insert_sorted(s, v);
        let t = s.insert(spec_insert_pos(s, v), v);
        if t.len() > 10 {
            let r = t.subrange(0, 10);
            assert forall|a: int, b: int|
                #![trigger r[a], r[b]]
                0 <= a < b < r.len() implies r[a] > r[b] by {
                assert(r[a] == t[a] && r[b] == t[b]);
            }
        }
    }
}

/// Admitting the same score twice in a row yields the same list as
/// admitting it once.
pub proof fn lemma_admit_idempotent(s: Seq<u64>, v: u64)
    requires
        spec_sorted_strict_desc(s),
        s.len() <= 10,
    ensures
        spec_admit(spec_admit(s, v), v) == spec_admit(s, v),
{
    if spec_admitted(s, v) {
        lemma_insert_pos_props(s, v);
        let p = spec_insert_pos(s, v);
        let t = s.insert(p, v);
        s.insert_ensures(p, v);
        let r = spec_admit(s, v);
        if t.len() > 10 {
            assert(s.len() == 10);
            assert(v > s.last());
            if p == 10 {
                assert(s[9] >= v);
            }
            assert(p <= 9);
            assert(r == t.subrange(0, 10));
            assert(r[p] == t[p] && t[p] == v);
        } else {
            assert(r == t);
            assert(r[p] == v);
        }
        assert(r.contains(v));
        assert(!spec_admitted(r, v));
    }
}

/// Decides whether a score is already present in the list.
fn contains_score(scores: &Vec<u64>, v: u64) -> (r: bool)
    ensures
        r == scores@.contains(v),
{
    let mut k: usize = 0;
    while k < scores.len()
        invariant
            k <= scores@.len(),
            forall|m: int| 0 <= m < k ==> scores@[m] != v,
        decreases scores@.len() - k,
    {
        if scores[k] == v {
            assert(scores@[k as int] == v);
            return true;
        }
        k += 1;
    }
    false
}

/// Applies the admission rule to the stored scores. On admission the new
/// canonical list is cached in the application state and returned so the
/// caller can persist it; on rejection nothing changes and nothing is
/// returned.
pub fn check_if_new_record(state: &mut State, score: u64, stored: Vec<u64>) -> (to_save: Option<
    Vec<u64>,
>)
    ensures
        (to_save is Some <==> spec_admitted(stored@, score)),
        to_save is Some ==> to_save.unwrap()@ == spec_admit(stored@, score),
        spec_admitted(stored@, score) ==> {
            &&& final(state).app_state.leaderboard is Some
            &&& final(state).app_state.leaderboard.unwrap()@ == spec_admit(stored@, score)
            &&& final(state).app_state == (AppState {
                leaderboard: final(state).app_state.leaderboard,
                ..old(state).app_state
            })
            &&& final(state).game_state == old(state).game_state
        },
        !spec_admitted(stored@, score) ==> *final(state) == *old(state),
{
    let mut top_scores = stored;
    let is_new_record = top_scores.len() == 0 || top_scores.len() < 10 || score > top_scores[
        top_scores.len() - 1
    ];
    if !is_new_record || score == 0 || contains_score(&top_scores, score) {
        return None;
    }
    assert(spec_admitted(top_scores@, score));
    let ghost s = top_scores@;
    let mut pos: usize = 0;
    while pos < top_scores.len() && top_scores[pos] >= score
        invariant
            top_scores@ == s,
            pos <= s.len(),
            forall|k: int| 0 <= k < pos ==> s[k] >= score,
        decreases s.len() - pos,
    {
        pos += 1;
    }
    proof {
        lemma_insert_pos_props(s, score);
        let p = spec_insert_pos(s, score);
        if pos < p {
            assert(s[pos as int] >= score);
        }
        if pos > p {
            assert(s[p] >= score);
        }
        assert(pos == p);
    }
    top_scores.insert(pos, score);
    top_scores.truncate(10);
    assert(top_scores@ == spec_admit(s, score));
    let result = top_scores.clone();
    assert(result@ == top_scores@);
    state.app_state.leaderboard = Some(top_scores);
    Some(result)
}

/// Submits a pending final score (if any) to the leaderboard and clears the
/// pending mark; returns the new canonical list when the score was admitted,
/// so the caller can persist it.
pub fn check_new_leaderboard_score(state: &mut State, stored: Vec<u64>) -> (to_save: Option<
    Vec<u64>,
>)
    ensures
        old(state).app_state.new_score is None ==> *final(state) == *old(state) && to_save
            is None,
        old(state).app_state.new_score is Some ==> {
            let v = old(state).app_state.new_score.unwrap();
            &&& (to_save is Some <==> spec_admitted(stored@, v))
            &&& to_save is Some ==> to_save.unwrap()@ == spec_admit(stored@, v)
            &&& final(state).app_state == (AppState {
                new_score: Option::None,
                leaderboard: final(state).app_state.leaderboard,
                ..old(state).app_state
            })
            &&& (spec_admitted(stored@, v) ==> final(state).app_state.leaderboard is Some
                && final(state).app_state.leaderboard.unwrap()@ == spec_admit(stored@, v))
            &&& (!spec_admitted(stored@, v) ==> final(state).app_state.leaderboard == old(
                state,
            ).app_state.leaderboard)
            &&& final(state).game_state == old(state).game_state
        },
{
    let new_score = state.app_state.new_score;
    match new_score {
        Option::Some(v) => {
            let to_save = check_if_new_record(state, v, stored);
            state.app_state.new_score = None;
            to_save
        },
        Option::None => None,
    }
}

/// Orders scores descending; used to canonicalize a freshly loaded list.
pub fn sort_scores(scores: &mut Vec<u64>)
    ensures
        spec_sorted_desc(final(scores)@),
        final(scores)@.to_multiset() == old(scores)@.to_multiset(),
{
    let mut sorted: Vec<u64> = Vec::new();
    proof {
        assert(sorted@ =~= scores@.subrange(0, 0));
    }
    let mut i: usize = 0;
    while i < scores.len()
        invariant
            *scores == *old(scores),
            i <= scores@.len(),
            spec_sorted_desc(sorted@),
            sorted@.to_multiset() == scores@.subrange(0, i as int).to_multiset(),
        decreases scores@.len() - i,
    {
        let v = scores[i];
        let ghost prev = sorted@;
        let mut pos: usize = 0;
        while pos < sorted.len() && sorted[pos] >= v
            invariant
                sorted@ == prev,
                pos <= prev.len(),
                forall|k: int| 0 <= k < pos ==> prev[k] >= v,
            decreases prev.len() - pos,
        {
            pos += 1;
        }
        sorted.insert(pos, v);
        proof {
            prev.insert_ensures(pos as int, v);
            assert forall|a: int, b: int|
                #![trigger sorted@[a], sorted@[b]]
                0 <= a < b < sorted@.len() implies sorted@[a] >= sorted@[b] by {
                let t = sorted@;
                if a < pos && b < pos {
                    assert(t[a] == prev[a] && t[b] == prev[b]);
                } else if a < pos && b == pos {
                    assert(t[a] == prev[a] && t[b] == v);
                } else if a < pos && b > pos {
                    assert(t[a] == prev[a] && t[b] == prev[b - 1]);
                    if b - 1 > a {
                        assert(prev[a] >= prev[b - 1]);
                    }
                } else if a == pos {
                    assert(t[a] == v && t[b] == prev[b - 1]);
                    assert(prev[pos as int] < v);
                    if b - 1 > pos {
                        assert(prev[pos as int] >= prev[b - 1]);
                    }
                } else {
                    assert(t[a] == prev[a - 1] && t[b] == prev[b - 1]);
                }
            }
            to_multiset_insert(prev, pos as int, v);
            let pre = scores@.subrange(0, i as int);
            assert(scores@.subrange(0, i + 1) =~= pre.push(scores@[i as int]));
            to_multiset_build(pre, scores@[i as int]);
        }
        i += 1;
    }
    proof {
        assert(scores@.subrange(0, scores@.len() as int) =~= scores@);
    }
    *scores = sorted;
}

/// Leaves the leaderboard screen for the main menu.
pub fn back_to_menu(app_state: &mut AppState)
    ensures
        *final(app_state) == (AppState {
            selected_screen: ScreensEnum::Menu,
            screen_changed: true,
            ..*old(app_state)
        }),
{
    app_state.selected_screen = ScreensEnum::Menu;
    app_state.screen_changed = true;
}

/// Reacts to one key while the leaderboard screen is open: escape returns to
/// the menu, every other key does nothing.
pub fn process_keyboard_event(state: &mut State, key: KeyInput)
    ensures
        final(state).game_state == old(state).game_state,
        final(state).app_state == (match key {
            KeyInput::Esc => (AppState {
                selected_screen: ScreensEnum::Menu,
                screen_changed: true,
                ..old(state).app_state
            }),
            _ => old(state).app_state,
        }),
{
    match key {
        KeyInput::Esc => back_to_menu(&mut state.app_state),
        _ => {},
    }
}

} // verus!
