//! Tunable parameters of the animation.

use vstd::prelude::*;

verus! {

/// How stale glyphs are removed from the screen between two ticks.
#[derive(Clone, Copy, Debug, PartialEq, Eq, Structural)]
pub enum RefreshStrategy {
    /// The whole screen is cleared at the start of every tick.
    FullClear,
    /// Only the rows a streak has just vacated are blanked.
    TailErase,
}

/// Parameters shared by every streak of a grid.
#[derive(Clone, Copy, Debug, PartialEq, Eq, Structural)]
pub struct Config {
    /// Rows a streak's head moves per tick.
    pub speed: u16,
    /// Row at which a new streak's head starts.
    pub spawn_start_row: u16,
    /// Whether each glyph is drawn on a dark green background.
    pub draw_background: bool,
    /// How stale glyphs are removed.
    pub refresh: RefreshStrategy,
    /// Smallest number of glyphs a spawned streak carries.
    pub chars_min_len: u16,
    /// An empty column spawns a streak with probability
    /// `spawn_numerator / spawn_denominator` on each tick.
    pub spawn_numerator: u32,
    /// See `spawn_numerator`.
    pub spawn_denominator: u32,
}

impl Config {
    /// The parameters are usable: the speed is positive, a spawned streak has
    /// at least one glyph, and the spawn probability lies in `[0, 1]`.
    pub open spec fn well_formed(self) -> bool {
        &&& self.speed >= 1
        &&& self.chars_min_len >= 1
        &&& self.spawn_denominator >= 1
        &&& self.spawn_numerator <= self.spawn_denominator
    }

    /// A grid of the given height has room to spawn a streak: the range of
    /// extra glyph counts, `[0, height / 5)`, is not empty and the start row
    /// lies inside the grid.
    pub open spec fn can_spawn(self, height: u16) -> bool {
        &&& height / 5 >= 1
        &&& self.spawn_start_row < height
    }

    /// Tail-erasing animation at one row per tick: streaks start on row 1,
    /// carry at least ten glyphs, have no background, and an empty column
    /// spawns with probability 1/20.
    pub fn standard() -> (config: Config)
        ensures
            config == (Config {
                speed: 1,
                spawn_start_row: 1,
                draw_background: false,
                refresh: RefreshStrategy::TailErase,
                chars_min_len: 10,
                spawn_numerator: 1,
                spawn_denominator: 20,
            }),
            config.well_formed(),
    {
        Config {
            speed: 1,
            spawn_start_row: 1,
            draw_background: false,
            refresh: RefreshStrategy::TailErase,
            chars_min_len: 10,
            spawn_numerator: 1,
            spawn_denominator: 20,
        }
    }

    /// Decides `well_formed`.
    pub fn is_well_formed(&self) -> (ok: bool)
        ensures
            ok == self.well_formed(),
    {
        self.speed >= 1 && self.chars_min_len >= 1 && self.spawn_denominator >= 1
            && self.spawn_numerator <= self.spawn_denominator
    }

    /// Decides `can_spawn`.
    pub fn has_room_to_spawn(&self, height: u16) -> (ok: bool)
        ensures
            ok == self.can_spawn(height),
    {
        height >= 5 && self.spawn_start_row < height
    }
}

} // verus!
