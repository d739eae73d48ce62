//! One falling streak of glyphs.
//!
//! A streak lives in one column. Its head moves down until it reaches the
//! bottom row; from then on the head stays there and the glyphs retire one
//! after another, which the count `revealed` records. The streak is alive
//! while some glyph is left.

use crate::config::{Config, RefreshStrategy};
use crate::paint::{ground, ground_of, ink, ink_of, Paint, Rgb, FULL};
use crate::random::uniform;
use vstd::prelude::*;

verus! {

/// Code of the first printable character a streak may carry (`!`).
pub const FIRST_GLYPH: u8 = 33;

/// Code of the last printable character a streak may carry (`~`).
pub const LAST_GLYPH: u8 = 126;

/// Largest number of glyphs a streak may carry. With this bound, retiring
/// glyphs never overflows the counter, whatever the target's word size.
pub const MAX_GLYPHS: usize = 0x7fff_ffff;

/// Whether `code` is a visible ASCII character other than space.
pub open spec fn printable(code: u8) -> bool {
    FIRST_GLYPH <= code <= LAST_GLYPH
}

/// The mathematical content of a streak.
pub struct RainState {
    /// The column the streak falls in.
    pub column: u16,
    /// The row of the head, the lowest and brightest glyph.
    pub head_row: nat,
    /// The glyph codes, head first.
    pub glyphs: Seq<u8>,
    /// How many glyphs have retired past the bottom edge.
    pub revealed: nat,
}

impl RainState {
    /// Number of glyphs, retired ones included.
    pub open spec fn len(self) -> nat {
        self.glyphs.len()
    }

    /// The glyph buffer is not empty, not longer than `MAX_GLYPHS`, and holds
    /// printable codes only.
    pub open spec fn well_formed(self) -> bool {
        &&& 1 <= self.glyphs.len() <= MAX_GLYPHS
        &&& forall|i: int| 0 <= i < self.glyphs.len() ==> printable(#[trigger] self.glyphs[i])
    }

    /// A streak is alive while a glyph is left to draw.
    pub open spec fn alive(self) -> bool {
        self.revealed < self.glyphs.len()
    }

    /// The streak as `Rain::new` may return it for a grid of the given
    /// height: at the start row, nothing retired, and a length in
    /// `[chars_min_len, chars_min_len + height / 5)`.
    pub open spec fn fresh(self, column: u16, height: u16, config: Config) -> bool {
        &&& self.well_formed()
        &&& self.column == column
        &&& self.head_row == config.spawn_start_row
        &&& self.revealed == 0
        &&& config.chars_min_len <= self.glyphs.len() < config.chars_min_len + height / 5
    }

    /// By how many rows a move of `speed` rows would carry the head past the
    /// bottom row of a grid of `height` rows (zero or less: it stays inside).
    pub open spec fn overshoot(self, height: nat, speed: nat) -> int {
        self.head_row + speed - (height - 1)
    }

    /// The streak one tick later. While the head stays above the bottom row
    /// it moves down by `speed`. Otherwise it stops on the bottom row, and
    /// the part of the move that would have left the grid retires glyphs.
    pub open spec fn advance(self, height: nat, speed: nat) -> RainState {
        if self.head_row + speed < height {
            RainState { head_row: self.head_row + speed, ..self }
        } else {
            RainState {
                head_row: (height - 1) as nat,
                revealed: (self.revealed + self.overshoot(height, speed)) as nat,
                ..self
            }
        }
    }

    /// The streak `ticks` ticks later.
    pub open spec fn after(self, height: nat, speed: nat, ticks: nat) -> RainState
        decreases ticks,
    {
        if ticks == 0 {
            self
        } else {
            self.after(height, speed, (ticks - 1) as nat).advance(height, speed)
        }
    }

    /// Number of glyphs that have not retired.
    pub open spec fn visible(self) -> nat {
        if self.revealed < self.glyphs.len() {
            (self.glyphs.len() - self.revealed) as nat
        } else {
            0
        }
    }

    /// Number of glyphs that are drawn: the visible ones, as far as there
    /// are rows for them from the head's row up to row 0.
    pub open spec fn drawn(self) -> nat {
        if self.visible() <= self.head_row {
            self.visible()
        } else {
            self.head_row + 1
        }
    }

    /// Brightness lost from one glyph to the next.
    pub open spec fn fade(self) -> int {
        FULL as int / self.glyphs.len() as int
    }

    /// Brightness of the `k`-th visible glyph, counted from the head: full
    /// at the head, one `fade` less with every glyph after it.
    pub open spec fn shade(self, k: int) -> int {
        FULL - k * self.fade()
    }

    /// How the `k`-th visible glyph is drawn: `k` rows above the head, in
    /// its shade, and with `draw_background` on the shade of the glyph that
    /// follows it.
    pub open spec fn glyph_paint(self, config: Config, k: int) -> Paint {
        Paint::Glyph {
            column: self.column,
            row: (self.head_row - k) as u16,
            code: self.glyphs[self.revealed + k],
            ink: ink_of(self.shade(k)),
            ground: if config.draw_background {
                Some(ground_of(self.shade(k + 1)))
            } else {
                None
            },
        }
    }

    /// The glyphs of the streak as they are drawn, head first.
    pub open spec fn glyph_paints(self, config: Config) -> Seq<Paint> {
        Seq::new(self.drawn(), |k: int| self.glyph_paint(config, k))
    }

    /// The first row above the visible glyphs.
    pub open spec fn tail_row(self) -> int {
        self.head_row - self.visible()
    }

    /// Number of rows that are blanked above the visible glyphs. None under
    /// `FullClear`, and none before the head has come as far down as the
    /// streak is long. After that, `speed` rows from `tail_row` upwards, as
    /// far as the grid reaches.
    pub open spec fn erased(self, config: Config) -> nat {
        if config.refresh == RefreshStrategy::TailErase && self.head_row >= self.glyphs.len() {
            if config.speed <= self.tail_row() {
                config.speed as nat
            } else {
                (self.tail_row() + 1) as nat
            }
        } else {
            0
        }
    }

    /// The `i`-th blank above the streak: `i` rows above `tail_row`.
    pub open spec fn blank_paint(self, i: int) -> Paint {
        Paint::Blank { column: self.column, row: (self.tail_row() - i) as u16 }
    }

    /// The blanks above the streak, lowest row first.
    pub open spec fn erase_paints(self, config: Config) -> Seq<Paint> {
        Seq::new(self.erased(config), |i: int| self.blank_paint(i))
    }

    /// Everything one tick draws for the streak: its glyphs, then the blanks
    /// above them.
    pub open spec fn paints(self, config: Config) -> Seq<Paint> {
        self.glyph_paints(config) + self.erase_paints(config)
    }
}

/// Every shade a streak uses is a colour channel value: the `k`-th of `len`
/// glyphs loses at most the full brightness.
pub proof fn lemma_shade_in_range(state: RainState, k: int)
    requires
        0 <= k <= state.glyphs.len(),
        state.glyphs.len() >= 1,
    ensures
        0 <= state.fade() <= FULL,
        0 <= state.shade(k) <= FULL,
        state.shade(k + 1) == state.shade(k) - state.fade(),
{
    let len = state.glyphs.len() as int;
    let fade = FULL as int / len;
    assert(0 <= fade * len <= 255 && 0 <= fade <= 255) by (nonlinear_arith)
        requires
            len >= 1,
            fade == 255int / len,
    ;
    assert(0 <= k * fade <= fade * len) by (nonlinear_arith)
        requires
            0 <= k <= len,
            0 <= fade,
    ;
    assert((k + 1) * fade == k * fade + fade) by (nonlinear_arith);
}

/// One falling streak.
#[derive(Debug)]
pub struct Rain {
    column: u16,
    head_row: u16,
    glyphs: Vec<u8>,
    revealed: usize,
}

impl View for Rain {
    type V = RainState;

    closed spec fn view(&self) -> RainState {
        RainState {
            column: self.column,
            head_row: self.head_row as nat,
            glyphs: self.glyphs@,
            revealed: self.revealed as nat,
        }
    }
}

/// Whether every code in `glyphs` is printable.
fn all_printable(glyphs: &Vec<u8>) -> (ok: bool)
    ensures
        ok == (forall|i: int| 0 <= i < glyphs@.len() ==> printable(#[trigger] glyphs@[i])),
{
    let mut i: usize = 0;
    while i < glyphs.len()
        invariant
            i <= glyphs@.len(),
            forall|j: int| 0 <= j < i ==> printable(#[trigger] glyphs@[j]),
        decreases glyphs@.len() - i,
    {
        if glyphs[i] < FIRST_GLYPH || glyphs[i] > LAST_GLYPH {
            return false;
        }
        i += 1;
    }
    true
}

impl Rain {
    /// Every streak is well formed, at all times.
    #[verifier::type_invariant]
    pub open spec fn valid(&self) -> bool {
        self@.well_formed()
    }

    /// A streak with the given glyphs, its head on `head_row` and nothing
    /// retired. Refused when the glyphs do not make a well-formed streak.
    pub fn with_glyphs(column: u16, head_row: u16, glyphs: Vec<u8>) -> (made: Option<Rain>)
        ensures
            made is Some <==> (RainState {
                column,
                head_row: head_row as nat,
                glyphs: glyphs@,
                revealed: 0,
            }).well_formed(),
            made is Some ==> made->0@ == (RainState {
                column,
                head_row: head_row as nat,
                glyphs: glyphs@,
                revealed: 0,
            }),
    {
        if glyphs.len() >= 1 && glyphs.len() <= MAX_GLYPHS && all_printable(&glyphs) {
            Some(Rain { column, head_row, glyphs, revealed: 0 })
        } else {
            None
        }
    }

    /// Spawns a streak in `column` of a grid of `height` rows. The number of
    /// glyphs is `chars_min_len` plus a draw from `[0, height / 5)`, and each
    /// glyph is a draw from the printable codes.
    pub fn new(
        column: u16,
        height: u16,
        config: &Config,
        rng: &mut rand::rngs::StdRng,
    ) -> (rain: Rain)
        requires
            config.chars_min_len >= 1,
            height / 5 >= 1,
        ensures
            rain@.fresh(column, height, *config),
    {
        let extra: usize = uniform(rng, 0, (height / 5) as usize);
        let len: usize = extra + config.chars_min_len as usize;
        let mut glyphs: Vec<u8> = Vec::with_capacity(len);
        let mut i: usize = 0;
        while i < len
            invariant
                i <= len,
                glyphs@.len() == i,
                forall|j: int| 0 <= j < i ==> printable(#[trigger] glyphs@[j]),
            decreases len - i,
        {
            let code: usize = uniform(rng, FIRST_GLYPH as usize, LAST_GLYPH as usize + 1);
            glyphs.push(code as u8);
            i += 1;
        }
        Rain { column, head_row: config.spawn_start_row, glyphs, revealed: 0 }
    }

    /// Advances the streak by one tick in a grid of `height` rows and tells
    /// whether it is still alive. A streak that is not must be discarded.
    pub fn drop(&mut self, height: u16, speed: u16) -> (alive: bool)
        requires
            old(self)@.alive(),
            height >= 1,
            speed >= 1,
        ensures
            final(self)@ == old(self)@.advance(height as nat, speed as nat),
            alive == final(self)@.alive(),
            final(self)@.well_formed(),
            final(self)@.head_row < height,
            old(self)@.revealed <= final(self)@.revealed,
            old(self)@.head_row < height ==> old(self)@.head_row <= final(self)@.head_row,
            old(self)@.head_row < height ==> final(self)@.revealed < old(self)@.len() + speed,
    {
        proof {
            use_type_invariant(&*self);
        }
        let reach: u32 = self.head_row as u32 + speed as u32;
        if reach < height as u32 {
            self.head_row = reach as u16;
        } else {
            let overshoot: u32 = reach - (height as u32 - 1);
            self.head_row = height - 1;
            self.revealed = self.revealed + overshoot as usize;
        }
        self.revealed < self.glyphs.len()
    }

    /// Appends to `out` what one tick draws for the streak: each visible
    /// glyph from the head upwards, fading, and after them the blanks that
    /// erase the rows the streak has left.
    pub fn draw(&self, config: &Config, out: &mut Vec<Paint>)
        ensures
            final(out)@ == old(out)@ + self@.paints(*config),
    {
        let len: usize = self.glyphs.len();
        let visible: usize = if self.revealed < len {
            len - self.revealed
        } else {
            0
        };
        if visible > 0 {
            let fade: u8 = (FULL as usize / len) as u8;
            let mut shade: u8 = FULL;
            let mut k: usize = 0;
            proof {
                lemma_shade_in_range(self@, 0);
            }
            while k < visible && k <= self.head_row as usize
                invariant
                    visible == self@.visible(),
                    visible >= 1,
                    self.revealed + visible == len,
                    len == self.glyphs@.len(),
                    k <= self@.drawn(),
                    fade == self@.fade(),
                    shade == self@.shade(k as int),
                    out@ == old(out)@ + Seq::new(k as nat, |j: int| self@.glyph_paint(*config, j)),
                decreases self@.drawn() - k,
            {
                proof {
                    lemma_shade_in_range(self@, k as int);
                    lemma_shade_in_range(self@, k as int + 1);
                }
                let next: u8 = shade - fade;
                let backdrop: Option<Rgb> = if config.draw_background {
                    Some(ground(next))
                } else {
                    None
                };
                let row: u16 = self.head_row - k as u16;
                out.push(
                    Paint::Glyph {
                        column: self.column,
                        row,
                        code: self.glyphs[self.revealed + k],
                        ink: ink(shade),
                        ground: backdrop,
                    },
                );
                assert(out@ =~= old(out)@ + Seq::new(
                    (k + 1) as nat,
                    |j: int| self@.glyph_paint(*config, j),
                ));
                shade = next;
                k += 1;
            }
        }
        assert(out@ == old(out)@ + self@.glyph_paints(*config));
        let erase: bool = match config.refresh {
            RefreshStrategy::TailErase => self.head_row as usize >= len,
            RefreshStrategy::FullClear => false,
        };
        if erase {
            let tail: u16 = self.head_row - visible as u16;
            let mut i: u16 = 0;
            while i < config.speed && i <= tail
                invariant
                    tail == self@.tail_row(),
                    i <= self@.erased(*config),
                    config.refresh == RefreshStrategy::TailErase,
                    self@.head_row >= self@.glyphs.len(),
                    out@ == old(out)@ + self@.glyph_paints(*config) + Seq::new(
                        i as nat,
                        |j: int| self@.blank_paint(j),
                    ),
                decreases self@.erased(*config) - i,
            {
                out.push(Paint::Blank { column: self.column, row: tail - i });
                assert(out@ =~= old(out)@ + self@.glyph_paints(*config) + Seq::new(
                    (i + 1) as nat,
                    |j: int| self@.blank_paint(j),
                ));
                i += 1;
            }
        }
        assert(out@ =~= old(out)@ + self@.paints(*config));
    }

    /// The column the streak falls in.
    pub fn column(&self) -> (column: u16)
        ensures
            column == self@.column,
    {
        self.column
    }

    /// The row of the head.
    pub fn head_row(&self) -> (row: u16)
        ensures
            row == self@.head_row,
    {
        self.head_row
    }

    /// How many glyphs have retired.
    pub fn revealed(&self) -> (count: usize)
        ensures
            count == self@.revealed,
    {
        self.revealed
    }

    /// Number of glyphs, retired ones included.
    pub fn len(&self) -> (count: usize)
        ensures
            count == self@.len(),
    {
        self.glyphs.len()
    }

    /// The glyph codes, head first.
    pub fn glyphs(&self) -> (codes: &Vec<u8>)
        ensures
            codes@ == self@.glyphs,
    {
        &self.glyphs
    }

    /// Whether a glyph is left to draw.
    pub fn is_alive(&self) -> (alive: bool)
        ensures
            alive == self@.alive(),
    {
        self.revealed < self.glyphs.len()
    }
}

} // verus!
