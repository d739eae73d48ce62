//! How long a streak lives, and what holds of it on the way.
//!
//! The laws here speak of `RainState::after`, the streak as repeated ticks
//! leave it. They are what `Rain::drop` does, seen over a whole life, and
//! what `Grid::tick` does to a column, seen over a run of ticks.

use crate::grid::{lemma_tick_keeps_well_formed, GridState};
use crate::rain::RainState;
use vstd::prelude::*;

verus! {

/// The number of ticks a new streak lives: the rows from its start row to
/// the bottom row plus its glyphs, divided by the speed and rounded up. For
/// a streak that starts on row 0 this is `ceil((height - 1 + len) / speed)`.
pub open spec fn lifetime(height: nat, start_row: nat, len: nat, speed: nat) -> int {
    (height - 1 - start_row + len + speed - 1) / (speed as int)
}

/// Where a new streak is after `ticks` ticks. Its head and its retired
/// glyphs together have covered `speed` rows per tick: the head has the
/// part of the way that lies inside the grid, the retired glyphs the rest.
pub proof fn lemma_after_closed_form(state: RainState, height: nat, speed: nat, ticks: nat)
    requires
        state.revealed == 0,
        state.head_row < height,
    ensures
        ({
            let reach = (state.head_row + speed * ticks) as int;
            let later = state.after(height, speed, ticks);
            &&& later.column == state.column
            &&& later.glyphs == state.glyphs
            &&& later.head_row == if reach < height {
                reach
            } else {
                height - 1
            }
            &&& later.revealed == if reach < height {
                0
            } else {
                reach - (height - 1)
            }
        }),
    decreases ticks,
{
    if ticks > 0 {
        lemma_after_closed_form(state, height, speed, (ticks - 1) as nat);
        assert(speed * ticks == speed * (ticks - 1) + speed) by (nonlinear_arith);
    } else {
        assert(speed * ticks == 0) by (nonlinear_arith)
            requires
                ticks == 0,
        ;
    }
}

/// The retired glyphs never become fewer, and the head never leaves the
/// grid: both hold from one tick to the next, at every point of a life.
pub proof fn lemma_progress_is_monotone(state: RainState, height: nat, speed: nat, ticks: nat)
    requires
        state.head_row < height,
    ensures
        state.after(height, speed, ticks).head_row < height,
        state.after(height, speed, ticks).revealed <= state.after(
            height,
            speed,
            ticks + 1,
        ).revealed,
        state.after(height, speed, ticks).head_row <= state.after(
            height,
            speed,
            ticks + 1,
        ).head_row,
        state.revealed <= state.after(height, speed, ticks).revealed,
        state.head_row <= state.after(height, speed, ticks).head_row,
    decreases ticks,
{
    if ticks > 0 {
        lemma_progress_is_monotone(state, height, speed, (ticks - 1) as nat);
    }
}

/// A streak that is alive has retired fewer glyphs than it has, and the
/// tick that ends its life retires less than `speed` glyphs too many. At
/// speed 1 the count of retired glyphs therefore never exceeds the length.
pub proof fn lemma_revealed_in_bounds(state: RainState, height: nat, speed: nat, ticks: nat)
    requires
        state.head_row < height,
        speed >= 1,
        state.after(height, speed, ticks).alive(),
    ensures
        state.after(height, speed, ticks).revealed < state.len(),
        state.after(height, speed, ticks + 1).revealed < state.len() + speed,
        speed == 1 ==> state.after(height, speed, ticks + 1).revealed <= state.len(),
        state.after(height, speed, ticks + 1).len() == state.len(),
{
    lemma_progress_is_monotone(state, height, speed, ticks);
    lemma_glyphs_are_kept(state, height, speed, ticks);
}

/// Ticks change neither the glyphs of a streak nor its column.
pub proof fn lemma_glyphs_are_kept(state: RainState, height: nat, speed: nat, ticks: nat)
    ensures
        state.after(height, speed, ticks).glyphs == state.glyphs,
        state.after(height, speed, ticks).column == state.column,
    decreases ticks,
{
    if ticks > 0 {
        lemma_glyphs_are_kept(state, height, speed, (ticks - 1) as nat);
    }
}

/// A new streak is destroyed by tick number `lifetime`, and by no earlier
/// one: it is alive after every smaller number of ticks and not alive after
/// that many.
pub proof fn lemma_lifetime(state: RainState, height: nat, speed: nat)
    requires
        state.revealed == 0,
        state.head_row < height,
        state.len() >= 1,
        speed >= 1,
    ensures
        lifetime(height, state.head_row, state.len(), speed) >= 1,
        forall|ticks: nat|
            ticks < lifetime(height, state.head_row, state.len(), speed) ==> (
            #[trigger] state.after(height, speed, ticks)).alive(),
        !state.after(
            height,
            speed,
            lifetime(height, state.head_row, state.len(), speed) as nat,
        ).alive(),
{
    let way: int = height - 1 - state.head_row + state.len();
    let total = lifetime(height, state.head_row, state.len(), speed);
    assert(speed * total >= way && speed * (total - 1) < way && total >= 1) by (nonlinear_arith)
        requires
            total == (way + speed - 1) / (speed as int),
            speed >= 1,
            way >= 1,
    ;
    assert forall|ticks: nat| ticks < total implies (#[trigger] state.after(
        height,
        speed,
        ticks,
    )).alive() by {
        lemma_after_closed_form(state, height, speed, ticks);
        assert(speed * ticks <= speed * (total - 1)) by (nonlinear_arith)
            requires
                ticks <= total - 1,
                speed >= 1,
        ;
    }
    lemma_after_closed_form(state, height, speed, total as nat);
}

/// `run` is a history of one grid: each entry is what a tick made of the
/// entry before it.
pub open spec fn is_run(run: Seq<GridState>) -> bool {
    forall|k: int| 0 <= k && k + 1 < run.len() ==> (#[trigger] run[k]).ticked(run[k + 1])
}

/// Every grid of a run is well formed if the first one is. At every tick,
/// then, every streak of the grid is alive: it has retired fewer glyphs
/// than it has.
pub proof fn lemma_run_stays_well_formed(run: Seq<GridState>, ticks: nat)
    requires
        is_run(run),
        run.len() > ticks,
        run[0].well_formed(),
        run[0].can_tick(),
    ensures
        run[ticks as int].well_formed(),
        run[ticks as int].can_tick(),
        forall|i: int|
            0 <= i < run[ticks as int].columns.len()
                && (#[trigger] run[ticks as int].columns[i]) is Some
                ==> run[ticks as int].columns[i]->0.alive(),
    decreases ticks,
{
    if ticks > 0 {
        let before = (ticks - 1) as nat;
        lemma_run_stays_well_formed(run, before);
        assert(run[before as int].ticked(run[before as int + 1]));
        lemma_tick_keeps_well_formed(run[before as int], run[ticks as int]);
    }
    let now = run[ticks as int];
    assert forall|i: int| 0 <= i < now.columns.len() && (#[trigger] now.columns[i]) is Some implies (
    now.columns[i]->0).alive() by {
        assert(now.fits(now.columns[i]->0, i));
    }
}

/// The lifetime of the streak that stands in `column` of `grid`.
pub open spec fn lifetime_in(grid: GridState, column: int) -> int {
    let streak = grid.columns[column]->0;
    lifetime(grid.height as nat, streak.head_row, streak.len(), grid.config.speed as nat)
}

/// The streak that stands in `column` of `grid`, as `ticks` ticks of that
/// grid leave it.
pub open spec fn later_in(grid: GridState, column: int, ticks: nat) -> RainState {
    grid.columns[column]->0.after(grid.height as nat, grid.config.speed as nat, ticks)
}

/// A new streak stays in its column for its whole lifetime and not a tick
/// longer. In a run of ticks that starts with the streak in a column, the
/// column holds the streak as `ticks` ticks have left it after every number
/// of ticks below its lifetime, and is empty after exactly that many,
/// whatever spawns elsewhere.
pub proof fn lemma_streak_in_a_run(run: Seq<GridState>, column: int, ticks: nat)
    requires
        is_run(run),
        run.len() > ticks,
        run[0].well_formed(),
        0 <= column < run[0].columns.len(),
        run[0].columns[column] is Some,
        run[0].columns[column]->0.revealed == 0,
        ticks <= lifetime_in(run[0], column),
    ensures
        run[ticks as int].height == run[0].height,
        run[ticks as int].config == run[0].config,
        run[ticks as int].columns.len() == run[0].columns.len(),
        ticks < lifetime_in(run[0], column) ==> run[ticks as int].columns[column] == Some(
            later_in(run[0], column, ticks),
        ),
        ticks == lifetime_in(run[0], column) ==> run[ticks as int].columns[column] is None,
    decreases ticks,
{
    let streak = run[0].columns[column]->0;
    assert(run[0].fits(streak, column));
    lemma_lifetime(streak, run[0].height as nat, run[0].config.speed as nat);
    if ticks > 0 {
        let before = (ticks - 1) as nat;
        lemma_streak_in_a_run(run, column, before);
        assert(run[before as int].ticked(run[before as int + 1]));
        assert(run[before as int].slot_ticked(column, run[ticks as int].columns[column]));
        assert(later_in(run[0], column, before).alive());
    }
}

} // verus!
