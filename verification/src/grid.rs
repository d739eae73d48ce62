//! The animation surface: one optional streak per terminal column.
//!
//! The grid decides where streaks appear and when they go. A tick advances
//! every streak, draws those that are still alive, discards the others, and
//! lets every empty column try its luck at spawning a new one. A resize
//! throws all streaks away.

use crate::config::{Config, RefreshStrategy};
use crate::paint::Paint;
use crate::rain::{Rain, RainState};
use crate::random::bernoulli;
use vstd::prelude::*;

verus! {

/// The mathematical content of a grid.
pub struct GridState {
    /// Number of columns.
    pub width: u16,
    /// Number of rows.
    pub height: u16,
    /// What each column holds, by x-coordinate.
    pub columns: Seq<Option<RainState>>,
    /// The parameters the grid was made with.
    pub config: Config,
}

impl GridState {
    /// The streak `rain` may stand in column `i` of this grid: it is well
    /// formed and alive, knows its column, and its head is inside the grid.
    pub open spec fn fits(self, rain: RainState, i: int) -> bool {
        &&& rain.well_formed()
        &&& rain.alive()
        &&& rain.column == i
        &&& rain.head_row < self.height
    }

    /// There is one slot per column, and every streak fits its slot.
    pub open spec fn well_formed(self) -> bool {
        &&& self.config.well_formed()
        &&& self.columns.len() == self.width
        &&& forall|i: int|
            0 <= i < self.columns.len() && (#[trigger] self.columns[i]) is Some ==> self.fits(
                self.columns[i]->0,
                i,
            )
    }

    /// No column holds a streak.
    pub open spec fn is_empty(self) -> bool {
        forall|i: int| 0 <= i < self.columns.len() ==> (#[trigger] self.columns[i]) is None
    }

    /// A tick can be taken: where streaks can spawn at all, the grid has
    /// room for them.
    pub open spec fn can_tick(self) -> bool {
        self.config.spawn_numerator > 0 ==> self.config.can_spawn(self.height)
    }

    /// What a tick leaves of the streak `rain`: the streak one step later
    /// if that is alive, else nothing.
    pub open spec fn survivor(self, rain: RainState) -> Option<RainState> {
        let next = rain.advance(self.height as nat, self.config.speed as nat);
        if next.alive() {
            Some(next)
        } else {
            None
        }
    }

    /// What column `i` holds once its step is taken with `newcomer` standing
    /// by: the survivor of the streak it held, or else the newcomer if that
    /// fits the column.
    pub open spec fn settled_slot(self, i: int, newcomer: Option<RainState>) -> Option<RainState> {
        match self.columns[i] {
            Some(rain) => self.survivor(rain),
            None => if newcomer is Some && self.fits(newcomer->0, i) {
                newcomer
            } else {
                None
            },
        }
    }

    /// What a tick draws for column `i`: the streak that survives there. An
    /// empty column draws nothing, also when a streak spawns in it.
    pub open spec fn column_paints(self, i: int) -> Seq<Paint> {
        match self.columns[i] {
            Some(rain) => match self.survivor(rain) {
                Some(next) => next.paints(self.config),
                None => Seq::empty(),
            },
            None => Seq::empty(),
        }
    }

    /// What a tick draws for the first `n` columns, left to right.
    pub open spec fn paints_upto(self, n: nat) -> Seq<Paint>
        decreases n,
    {
        if n == 0 {
            Seq::empty()
        } else {
            self.paints_upto((n - 1) as nat) + self.column_paints(n - 1)
        }
    }

    /// What comes before the columns in a frame: a clear under `FullClear`,
    /// nothing under `TailErase`.
    pub open spec fn preamble(self) -> Seq<Paint> {
        if self.config.refresh == RefreshStrategy::FullClear {
            seq![Paint::Clear]
        } else {
            Seq::empty()
        }
    }

    /// Everything a tick draws.
    pub open spec fn frame(self) -> Seq<Paint> {
        self.preamble() + self.paints_upto(self.columns.len())
    }

    /// What a tick may leave in column `i`. A streak is replaced by its
    /// survivor. An empty column stays empty or holds a fresh streak; it
    /// stays empty for certain when the spawn probability is 0, and is
    /// filled for certain when it is 1.
    pub open spec fn slot_ticked(self, i: int, next: Option<RainState>) -> bool {
        match self.columns[i] {
            Some(rain) => next == self.survivor(rain),
            None => match next {
                Some(spawned) => {
                    &&& self.config.spawn_numerator > 0
                    &&& spawned.fresh(i as u16, self.height, self.config)
                },
                None => self.config.spawn_numerator < self.config.spawn_denominator,
            },
        }
    }

    /// `next` is a grid that a tick of this grid may produce.
    pub open spec fn ticked(self, next: GridState) -> bool {
        &&& next.width == self.width
        &&& next.height == self.height
        &&& next.config == self.config
        &&& next.columns.len() == self.columns.len()
        &&& forall|i: int|
            0 <= i < self.columns.len() ==> self.slot_ticked(i, #[trigger] next.columns[i])
    }

    /// The grid after a resize: the new dimensions, and every slot empty.
    pub open spec fn resized(self, width: u16, height: u16) -> GridState {
        GridState {
            width,
            height,
            columns: Seq::new(width as nat, |i: int| None::<RainState>),
            config: self.config,
        }
    }
}

/// A tick keeps a grid well formed: every streak it leaves in a column is
/// alive, so has retired fewer glyphs than it has, and has its head inside
/// the grid.
pub proof fn lemma_tick_keeps_well_formed(grid: GridState, next: GridState)
    requires
        grid.well_formed(),
        grid.can_tick(),
        grid.ticked(next),
    ensures
        next.well_formed(),
        next.can_tick(),
{
    assert forall|i: int|
        0 <= i < next.columns.len() && (#[trigger] next.columns[i]) is Some implies next.fits(
        next.columns[i]->0,
        i,
    ) by {
        assert(grid.slot_ticked(i, next.columns[i]));
        if grid.columns[i] is Some {
            assert(grid.fits(grid.columns[i]->0, i));
        }
    }
}

/// Where nothing can spawn, a tick has one outcome.
pub proof fn lemma_tick_without_spawning_is_determined(
    grid: GridState,
    one: GridState,
    other: GridState,
)
    requires
        grid.config.spawn_numerator == 0,
        grid.ticked(one),
        grid.ticked(other),
    ensures
        one == other,
{
    assert forall|i: int| 0 <= i < one.columns.len() implies one.columns[i] == other.columns[i] by {
        assert(grid.slot_ticked(i, one.columns[i]));
        assert(grid.slot_ticked(i, other.columns[i]));
    }
    assert(one.columns =~= other.columns);
}

/// The content of one slot.
pub open spec fn slot_view(slot: Option<Rain>) -> Option<RainState> {
    match slot {
        Some(rain) => Some(rain@),
        None => None,
    }
}

/// The animation surface.
pub struct Grid {
    width: u16,
    height: u16,
    columns: Vec<Option<Rain>>,
    config: Config,
    rng: rand::rngs::StdRng,
}

impl View for Grid {
    type V = GridState;

    closed spec fn view(&self) -> GridState {
        GridState {
            width: self.width,
            height: self.height,
            columns: Seq::new(self.columns@.len(), |i: int| slot_view(self.columns@[i])),
            config: self.config,
        }
    }
}

/// `width` empty slots.
fn empty_columns(width: u16) -> (columns: Vec<Option<Rain>>)
    ensures
        columns@.len() == width,
        forall|i: int| 0 <= i < width ==> (#[trigger] columns@[i]) is None,
{
    let mut columns: Vec<Option<Rain>> = Vec::with_capacity(width as usize);
    let mut i: u16 = 0;
    while i < width
        invariant
            i <= width,
            columns@.len() == i,
            forall|j: int| 0 <= j < i ==> (#[trigger] columns@[j]) is None,
        decreases width - i,
    {
        columns.push(None);
        i += 1;
    }
    columns
}

impl Grid {
    /// An empty grid of the given dimensions that draws its randomness from
    /// `rng`.
    pub fn new(width: u16, height: u16, config: Config, rng: rand::rngs::StdRng) -> (grid: Grid)
        requires
            config.well_formed(),
        ensures
            grid@.well_formed(),
            grid@.is_empty(),
            grid@.width == width,
            grid@.height == height,
            grid@.config == config,
    {
        Grid { width, height, columns: empty_columns(width), config, rng }
    }

    /// Gives the grid new dimensions and discards every streak.
    pub fn resize(&mut self, width: u16, height: u16)
        ensures
            final(self)@ == old(self)@.resized(width, height),
            final(self)@.columns.len() == width,
            final(self)@.is_empty(),
            old(self)@.config.well_formed() ==> final(self)@.well_formed(),
    {
        self.columns = empty_columns(width);
        self.width = width;
        self.height = height;
        assert(self@.columns =~= old(self)@.resized(width, height).columns);
    }

    /// Puts `rain` into its column if it fits there, replacing what the
    /// column held. A streak that does not fit is dropped and the grid stays
    /// as it is.
    pub fn place(&mut self, rain: Rain) -> (placed: bool)
        requires
            old(self)@.well_formed(),
        ensures
            placed == (rain@.column < old(self)@.width && old(self)@.fits(
                rain@,
                rain@.column as int,
            )),
            placed ==> final(self)@ == (GridState {
                columns: old(self)@.columns.update(rain@.column as int, Some(rain@)),
                ..old(self)@
            }),
            !placed ==> final(self)@ == old(self)@,
            final(self)@.well_formed(),
    {
        proof {
            use_type_invariant(&rain);
        }
        let column: u16 = rain.column();
        if column < self.width && rain.head_row() < self.height && rain.is_alive() {
            let ghost shown = rain@;
            self.columns.set(column as usize, Some(rain));
            assert(self@.columns =~= old(self)@.columns.update(column as int, Some(shown)));
            true
        } else {
            false
        }
    }

    /// Takes the step of one column and appends to `out` what it draws. A
    /// streak in the column moves on and is drawn, or is discarded if it
    /// has run out. Into an empty column goes `newcomer`, undrawn, if there
    /// is one and it fits. A column the grid does not have changes nothing.
    pub fn settle(&mut self, column: u16, newcomer: Option<Rain>, out: &mut Vec<Paint>)
        requires
            old(self)@.well_formed(),
        ensures
            final(self)@.well_formed(),
            column < old(self)@.width ==> final(self)@ == (GridState {
                columns: old(self)@.columns.update(
                    column as int,
                    old(self)@.settled_slot(column as int, slot_view(newcomer)),
                ),
                ..old(self)@
            }),
            column < old(self)@.width ==> final(out)@ == old(out)@ + old(self)@.column_paints(
                column as int,
            ),
            column >= old(self)@.width ==> final(self)@ == old(self)@ && final(out)@ == old(out)@,
    {
        if column >= self.width {
            return ;
        }
        let i: usize = column as usize;
        let mut slot: Option<Rain> = None;
        self.columns.set_and_swap(i, &mut slot);
        assert(old(self)@.columns[i as int] == slot_view(slot));
        match slot {
            Some(mut rain) => {
                assert(old(self)@.fits(rain@, i as int));
                if rain.drop(self.height, self.config.speed) {
                    rain.draw(&self.config, out);
                    self.columns.set(i, Some(rain));
                }
            },
            None => {
                match newcomer {
                    Some(rain) => {
                        proof {
                            use_type_invariant(&rain);
                        }
                        if rain.column() == column && rain.head_row() < self.height
                            && rain.is_alive() {
                            self.columns.set(i, Some(rain));
                        }
                    },
                    None => {},
                }
            },
        }
        assert(self@.columns =~= old(self)@.columns.update(
            column as int,
            old(self)@.settled_slot(column as int, slot_view(newcomer)),
        ));
        assert(out@ =~= old(out)@ + old(self)@.column_paints(column as int));
    }

    /// One tick. Appends the frame to `out`: every streak moves one step,
    /// the survivors are drawn, the others leave their column empty. Every
    /// column that was empty then spawns a streak with the configured
    /// probability; such a streak is first drawn on the next tick.
    pub fn tick(&mut self, out: &mut Vec<Paint>)
        requires
            old(self)@.well_formed(),
            old(self)@.can_tick(),
        ensures
            old(self)@.ticked(final(self)@),
            final(self)@.well_formed(),
            final(out)@ == old(out)@ + old(self)@.frame(),
    {
        match self.config.refresh {
            RefreshStrategy::FullClear => {
                out.push(Paint::Clear);
            },
            RefreshStrategy::TailErase => {},
        }
        assert(out@ =~= old(out)@ + old(self)@.preamble());
        let mut i: u16 = 0;
        while i < self.width
            invariant
                i <= self.width,
                self@.well_formed(),
                self@.width == old(self)@.width,
                self@.height == old(self)@.height,
                self@.config == old(self)@.config,
                self@.columns.len() == old(self)@.columns.len(),
                old(self)@.well_formed(),
                old(self)@.can_tick(),
                forall|j: int|
                    i <= j < self@.columns.len() ==> self@.columns[j] == old(self)@.columns[j],
                forall|j: int|
                    0 <= j < i ==> old(self)@.slot_ticked(j, #[trigger] self@.columns[j]),
                out@ == old(out)@ + old(self)@.preamble() + old(self)@.paints_upto(i as nat),
            decreases self.width - i,
        {
            let mut newcomer: Option<Rain> = None;
            if self.columns[i as usize].is_none() {
                if bernoulli(
                    &mut self.rng,
                    self.config.spawn_numerator,
                    self.config.spawn_denominator,
                ) {
                    newcomer = Some(Rain::new(i, self.height, &self.config, &mut self.rng));
                }
            }
            let ghost before = self@;
            assert(before.columns[i as int] == old(self)@.columns[i as int]);
            self.settle(i, newcomer, out);
            assert forall|j: int| 0 <= j < i implies old(self)@.slot_ticked(
                j,
                #[trigger] self@.columns[j],
            ) by {
                assert(self@.columns[j] == before.columns[j]);
            }
            assert(out@ =~= old(out)@ + old(self)@.preamble() + old(self)@.paints_upto(
                (i + 1) as nat,
            ));
            i += 1;
        }
    }

    /// Number of columns.
    pub fn width(&self) -> (width: u16)
        ensures
            width == self@.width,
    {
        self.width
    }

    /// Number of rows.
    pub fn height(&self) -> (height: u16)
        ensures
            height == self@.height,
    {
        self.height
    }

    /// The parameters the grid was made with.
    pub fn config(&self) -> (config: Config)
        ensures
            config == self@.config,
    {
        self.config
    }

    /// The streak in `column`, if the grid has that column and it holds one.
    pub fn streak(&self, column: u16) -> (found: Option<&Rain>)
        ensures
            found is Some <==> column < self@.columns.len() && self@.columns[column as int] is Some,
            found is Some ==> self@.columns[column as int] == Some(found->0@),
    {
        if (column as usize) < self.columns.len() {
            self.columns[column as usize].as_ref()
        } else {
            None
        }
    }

    /// Decides `can_tick`.
    pub fn is_ready(&self) -> (ready: bool)
        ensures
            ready == self@.can_tick(),
    {
        self.config.spawn_numerator == 0 || self.config.has_room_to_spawn(self.height)
    }
}

} // verus!
