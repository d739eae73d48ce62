//! The render loop's decisions, one step at a time.
//!
//! The driver is a machine with two phases. While it runs, each step drains
//! the mailbox and does exactly one thing: it stops if a key was pressed,
//! else it resizes the grid if a new size waits, else it lets the grid tick.
//! Once terminated it stays so and draws nothing. Reading events, writing
//! the paints to the terminal, flushing and sleeping happen around it.

use crate::config::Config;
use crate::events::{lemma_quit_is_sticky, lemma_resize_burst_coalesces};
use crate::events::{Event, Mailbox};
use crate::grid::{Grid, GridState};
use crate::paint::Paint;
use vstd::prelude::*;

verus! {

/// The two phases of the driver.
#[derive(Clone, Copy, Debug, PartialEq, Eq, Structural)]
pub enum Phase {
    /// The animation goes on.
    Running,
    /// A key was pressed: nothing is drawn any more, and the terminal is to
    /// be restored.
    Terminated,
}

/// The mathematical content of a driver.
pub struct DriverState {
    pub phase: Phase,
    pub grid: GridState,
    pub mailbox: Mailbox,
}

impl DriverState {
    /// The grid is well formed.
    pub open spec fn well_formed(self) -> bool {
        self.grid.well_formed()
    }

    /// The next step stops the animation.
    pub open spec fn will_quit(self) -> bool {
        self.phase is Running && self.mailbox.quit
    }

    /// The next step resizes the grid.
    pub open spec fn will_resize(self) -> bool {
        self.phase is Running && !self.mailbox.quit && self.mailbox.resize is Some
    }

    /// The next step is a tick of the grid.
    pub open spec fn will_tick(self) -> bool {
        self.phase is Running && !self.mailbox.quit && self.mailbox.resize is None
    }

    /// The next step can be taken: if it is a tick, the grid can tick.
    pub open spec fn can_step(self) -> bool {
        self.will_tick() ==> self.grid.can_tick()
    }

    /// The driver with `events` posted to its mailbox.
    pub open spec fn received(self, events: Seq<Event>) -> DriverState {
        DriverState { mailbox: self.mailbox.posted_all(events), ..self }
    }

    /// What the next step draws: nothing when it stops or has stopped, a
    /// clear of the screen when it resizes, the grid's frame when it ticks.
    pub open spec fn step_paints(self) -> Seq<Paint> {
        if self.will_resize() {
            seq![Paint::Clear]
        } else if self.will_tick() {
            self.grid.frame()
        } else {
            Seq::empty()
        }
    }

    /// `next` is a state that one step from this state may lead to.
    pub open spec fn stepped(self, next: DriverState) -> bool {
        if self.phase is Terminated {
            next == self
        } else if self.mailbox.quit {
            &&& next.phase is Terminated
            &&& next.grid == self.grid
            &&& next.mailbox == Mailbox::empty()
        } else if self.mailbox.resize is Some {
            &&& next.phase is Running
            &&& next.grid == self.grid.resized(
                self.mailbox.resize->0.width,
                self.mailbox.resize->0.height,
            )
            &&& next.mailbox == Mailbox::empty()
        } else {
            &&& next.phase is Running
            &&& self.grid.ticked(next.grid)
            &&& next.mailbox == Mailbox::empty()
        }
    }
}

/// The render loop's state: the grid, the mailbox, and the phase.
pub struct Driver {
    phase: Phase,
    grid: Grid,
    mailbox: Mailbox,
}

impl View for Driver {
    type V = DriverState;

    closed spec fn view(&self) -> DriverState {
        DriverState { phase: self.phase, grid: self.grid@, mailbox: self.mailbox }
    }
}

impl Driver {
    /// A running driver over an empty grid of the given dimensions, with
    /// nothing in its mailbox.
    pub fn new(
        width: u16,
        height: u16,
        config: Config,
        rng: rand::rngs::StdRng,
    ) -> (driver: Driver)
        requires
            config.well_formed(),
        ensures
            driver@.well_formed(),
            driver@.phase is Running,
            driver@.mailbox == Mailbox::empty(),
            driver@.grid.is_empty(),
            driver@.grid.width == width,
            driver@.grid.height == height,
            driver@.grid.config == config,
    {
        Driver {
            phase: Phase::Running,
            grid: Grid::new(width, height, config, rng),
            mailbox: Mailbox::new(),
        }
    }

    /// Posts one event to the mailbox.
    pub fn post(&mut self, event: Event)
        ensures
            final(self)@ == (DriverState {
                mailbox: old(self)@.mailbox.posted(event),
                ..old(self)@
            }),
    {
        self.mailbox.post(event);
    }

    /// Takes one step and appends to `out` what it draws. Returns the phase
    /// the driver is in afterwards.
    pub fn step(&mut self, out: &mut Vec<Paint>) -> (phase: Phase)
        requires
            old(self)@.well_formed(),
            old(self)@.can_step(),
        ensures
            old(self)@.stepped(final(self)@),
            final(self)@.well_formed(),
            final(out)@ == old(out)@ + old(self)@.step_paints(),
            phase == final(self)@.phase,
    {
        match self.phase {
            Phase::Terminated => {
                assert(out@ =~= old(out)@ + old(self)@.step_paints());
            },
            Phase::Running => {
                let waiting = self.mailbox.drain();
                if waiting.quit {
                    self.phase = Phase::Terminated;
                    assert(out@ =~= old(out)@ + old(self)@.step_paints());
                } else {
                    match waiting.resize {
                        Some(size) => {
                            self.grid.resize(size.width, size.height);
                            out.push(Paint::Clear);
                            assert(out@ =~= old(out)@ + old(self)@.step_paints());
                        },
                        None => {
                            self.grid.tick(out);
                        },
                    }
                }
            },
        }
        self.phase
    }

    /// The phase the driver is in.
    pub fn phase(&self) -> (phase: Phase)
        ensures
            phase == self@.phase,
    {
        self.phase
    }

    /// The grid.
    pub fn grid(&self) -> (grid: &Grid)
        ensures
            grid@ == self@.grid,
    {
        &self.grid
    }

    /// What waits in the mailbox.
    pub fn mailbox(&self) -> (mailbox: Mailbox)
        ensures
            mailbox == self@.mailbox,
    {
        self.mailbox
    }

    /// Decides `can_step`.
    pub fn is_ready(&self) -> (ready: bool)
        ensures
            ready == self@.can_step(),
    {
        match self.phase {
            Phase::Terminated => true,
            Phase::Running => self.mailbox.quit || self.mailbox.resize.is_some()
                || self.grid.is_ready(),
        }
    }
}

/// A key press stops the animation within one step. Whatever else was
/// posted with it, the step that follows a key press draws nothing, leaves
/// the grid as it was, and ends in `Terminated`.
pub proof fn lemma_quit_stops_drawing(driver: DriverState, events: Seq<Event>, next: DriverState)
    requires
        driver.phase is Running,
        exists|i: int| 0 <= i < events.len() && (#[trigger] events[i]) is Key,
        driver.received(events).stepped(next),
    ensures
        next.phase is Terminated,
        next.grid == driver.grid,
        driver.received(events).step_paints() == Seq::<Paint>::empty(),
{
    lemma_quit_is_sticky(driver.mailbox, events);
}

/// `Terminated` is final: a step from it changes nothing and draws nothing,
/// whatever waits in the mailbox.
pub proof fn lemma_terminated_is_final(driver: DriverState, next: DriverState)
    requires
        driver.phase is Terminated,
        driver.stepped(next),
    ensures
        next == driver,
        driver.step_paints() == Seq::<Paint>::empty(),
{
}

/// A burst of resize events costs one resize. If only resize events were
/// posted to a running driver since its last step, the next step resizes
/// the grid once, to the size of the last event, and clears the screen; the
/// mailbox is empty afterwards, so the step after it is a tick again.
pub proof fn lemma_burst_applies_last_resize(
    driver: DriverState,
    burst: Seq<Event>,
    next: DriverState,
)
    requires
        driver.phase is Running,
        !driver.mailbox.quit,
        burst.len() >= 1,
        forall|i: int| 0 <= i < burst.len() ==> (#[trigger] burst[i]) is Resize,
        driver.received(burst).stepped(next),
    ensures
        next.grid == driver.grid.resized(
            burst.last()->Resize_0.width,
            burst.last()->Resize_0.height,
        ),
        driver.received(burst).step_paints() == seq![Paint::Clear],
        next.will_tick(),
{
    lemma_resize_burst_coalesces(driver.mailbox, burst);
}

} // verus!
