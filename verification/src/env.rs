//! The environment of a simulation: the terminal's size, the limits on the
//! streams, the speed, and the random source that every draw comes from.

use crate::random::random_between;
use rand::rngs::ThreadRng;
use vstd::prelude::*;

verus! {

/// First code point of the block that glyphs are drawn from.
pub const GLYPH_FIRST: u32 = 0xFF65;

/// Last code point of the block that glyphs are drawn from.
pub const GLYPH_LAST: u32 = 0xFF9F;

/// Length limit of a stream in a fresh environment.
pub const DEFAULT_MAX_LENGTH: u16 = 10;

/// Speed of a fresh environment: the fastest.
pub const DEFAULT_SPEED: u16 = 10;

/// Milliseconds that one unit of the tick interval lasts in a fresh environment.
pub const DEFAULT_DELAY_BASE: u32 = 50;

/// Slowest speed.
pub const MIN_SPEED: u16 = 1;

/// Fastest speed.
pub const MAX_SPEED: u16 = 10;

/// Whether `c` lies in the block that glyphs are drawn from, both ends included.
pub open spec fn is_glyph(c: char) -> bool {
    GLYPH_FIRST <= c as u32 <= GLYPH_LAST
}

/// The length limit that a stream is held to: the configured one, but at least 1,
/// so that a stream never loses its only glyph.
pub open spec fn effective_max_length(max_length: u16) -> nat {
    if max_length == 0 {
        1
    } else {
        max_length as nat
    }
}

/// The speed that the tick interval is computed from: the configured one, brought
/// into the range from `MIN_SPEED` to `MAX_SPEED`.
pub open spec fn effective_speed(speed: u16) -> nat {
    if speed < MIN_SPEED {
        MIN_SPEED as nat
    } else if speed > MAX_SPEED {
        MAX_SPEED as nat
    } else {
        speed as nat
    }
}

/// Dimensions of the terminal, fixed for the lifetime of a simulation.
#[derive(Clone, Copy, Debug, PartialEq, Eq, Structural)]
pub struct Size {
    pub rows: u16,
    pub cols: u16,
}

/// What an environment is configured with: all of it but the random source.
pub struct Config {
    pub size: Size,
    pub max_flakes: u16,
    pub max_length: u16,
    pub delay_base: u32,
    pub speed: u16,
}

impl Config {
    /// Milliseconds between two ticks: the faster the speed, the shorter.
    pub open spec fn tick_interval(self) -> nat {
        ((MAX_SPEED + 1 - effective_speed(self.speed)) * self.delay_base) as nat
    }

    /// The configuration with another speed.
    pub open spec fn with_speed(self, speed: u16) -> Config {
        Config { speed, ..self }
    }

    /// Whether a column can be drawn whenever a flake may be spawned: a terminal
    /// without columns has no room for flakes.
    pub open spec fn wf(self) -> bool {
        self.max_flakes > 0 ==> self.size.cols > 0
    }
}

/// Configuration and random source of a simulation.
pub struct Env {
    /// The random source. Only `new_flake_column` and `random_char` draw from it.
    pub rng: ThreadRng,
    pub size: Size,
    pub max_flakes: u16,
    pub max_length: u16,
    /// Milliseconds that one unit of the tick interval lasts.
    pub delay_base: u32,
    pub speed: u16,
}

impl View for Env {
    type V = Config;

    open spec fn view(&self) -> Config {
        Config {
            size: self.size,
            max_flakes: self.max_flakes,
            max_length: self.max_length,
            delay_base: self.delay_base,
            speed: self.speed,
        }
    }
}

impl Env {
    /// An environment for a terminal of the given size, with the default limits:
    /// room for two flakes per column, at full speed.
    pub fn make(size: Size) -> (env: Env)
        requires
            2 * size.cols <= u16::MAX,
        ensures
            env@ == (Config {
                size,
                max_flakes: (2 * size.cols) as u16,
                max_length: DEFAULT_MAX_LENGTH,
                delay_base: DEFAULT_DELAY_BASE,
                speed: DEFAULT_SPEED,
            }),
            env@.wf(),
    {
        let max_flakes: u16 = size.cols * 2;
        Env {
            size,
            max_flakes,
            rng: rand::thread_rng(),
            max_length: DEFAULT_MAX_LENGTH,
            speed: DEFAULT_SPEED,
            delay_base: DEFAULT_DELAY_BASE,
        }
    }

    /// Draws the column of a new flake: any column of the terminal.
    pub fn new_flake_column(&mut self) -> (column: u16)
        requires
            old(self).size.cols > 0,
        ensures
            column < old(self).size.cols,
            final(self)@ == old(self)@,
    {
        let last: u16 = self.size.cols - 1;
        let drawn: u32 = random_between(&mut self.rng, 0, last as u32);
        drawn as u16
    }

    /// Draws a glyph: any character of the block from `GLYPH_FIRST` to `GLYPH_LAST`.
    pub fn random_char(&mut self) -> (glyph: char)
        ensures
            is_glyph(glyph),
            final(self)@ == old(self)@,
    {
        let code: u32 = random_between(&mut self.rng, GLYPH_FIRST, GLYPH_LAST);
        std::char::from_u32(code).unwrap()
    }

    /// Milliseconds to wait between two ticks.
    pub fn tick_interval(&self) -> (millis: u64)
        ensures
            millis == self@.tick_interval(),
    {
        let speed: u16 = if self.speed < MIN_SPEED {
            MIN_SPEED
        } else if self.speed > MAX_SPEED {
            MAX_SPEED
        } else {
            self.speed
        };
        let units: u64 = (MAX_SPEED + 1 - speed) as u64;
        let base: u64 = self.delay_base as u64;
        assert(units * base <= 10 * 0xFFFF_FFFF) by (nonlinear_arith)
            requires
                units <= 10,
                base <= 0xFFFF_FFFF,
        ;
        units * base
    }
}

} // verus!
