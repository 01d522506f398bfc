//! The simulation: the live flakes, their environment, and the tick that moves
//! them.

use crate::env::{is_glyph, Config, Env, Size};
use crate::flake::{Cell, Flake, FlakeView};
use crate::input::{command_of, Command, KeyPress};
use vstd::prelude::*;

verus! {

/// Whether the terminal has been handed back. Handing it back is due once, however
/// often it is asked for.
pub struct Cleanup {
    pub cleaned: bool,
}

impl Cleanup {
    /// Whether handing the terminal back is still due.
    pub open spec fn restore_due(self) -> bool {
        !self.cleaned
    }

    /// The guard once the terminal has been asked back.
    pub open spec fn after_cleanup(self) -> Cleanup {
        Cleanup { cleaned: true }
    }

    /// A guard for a terminal that has not been handed back.
    pub fn new() -> (guard: Cleanup)
        ensures
            guard.restore_due(),
    {
        Cleanup { cleaned: false }
    }

    /// Asks for the terminal to be handed back, and says whether that is due
    /// now. It is due the first time only: whoever gets `true` restores the
    /// terminal, and no one gets it again.
    pub fn cleanup(&mut self) -> (due: bool)
        ensures
            due == old(self).restore_due(),
            *final(self) == old(self).after_cleanup(),
    {
        let due: bool = !self.cleaned;
        self.cleaned = true;
        due
    }
}

/// What the caller has to do after a step of the simulation.
#[derive(Debug, Clone, Copy, PartialEq, Eq, Structural)]
pub enum Directive {
    /// Stop. The terminal has to be restored first if `restore` is set.
    Quit { restore: bool },
    /// Wait for so many milliseconds, then paint the next frame.
    Sleep { millis: u64 },
}

/// The simulation's state.
pub struct State {
    pub flakes: Vec<Flake>,
    pub env: Env,
    pub cleanup: Cleanup,
}

/// A state as a mathematical value: the flakes in order, the configuration, and
/// whether the terminal has been handed back.
pub struct StateView {
    pub flakes: Seq<FlakeView>,
    pub env: Config,
    pub cleaned: bool,
}

/// The random values that one tick consumes: a glyph for each flake that stays,
/// in order, then the column and the glyph of the flake to spawn.
pub struct Draws {
    pub glyphs: Seq<char>,
    pub column: nat,
    pub glyph: char,
}

/// The flakes of `flakes` as mathematical values.
pub open spec fn views(flakes: Seq<Flake>) -> Seq<FlakeView> {
    flakes.map_values(|f: Flake| f@)
}

impl View for State {
    type V = StateView;

    open spec fn view(&self) -> StateView {
        StateView { flakes: views(self.flakes@), env: self.env@, cleaned: self.cleanup.cleaned }
    }
}

/// The flakes of `flakes` whose oldest glyph is still above the bottom of a
/// terminal of `rows` rows, in their order.
pub open spec fn on_screen(flakes: Seq<FlakeView>, rows: u16) -> Seq<FlakeView> {
    flakes.filter(|f: FlakeView| f.start < rows)
}

/// The cells that painting `flakes` touches: those of each flake, flake by flake.
pub open spec fn render_all(flakes: Seq<FlakeView>, size: Size) -> Seq<Cell>
    decreases flakes.len(),
{
    if flakes.len() == 0 {
        Seq::empty()
    } else {
        render_all(flakes.drop_last(), size) + flakes.last().render(size)
    }
}

impl StateView {
    /// The flakes that the next tick keeps.
    pub open spec fn survivors(self) -> Seq<FlakeView> {
        on_screen(self.flakes, self.env.size.rows)
    }

    /// Whether the next tick spawns a flake: it does while the flakes that it
    /// keeps are fewer than the environment allows.
    pub open spec fn spawns(self) -> bool {
        self.survivors().len() < self.env.max_flakes
    }

    /// Whether `draws` can be what the next tick draws: a glyph of the block for
    /// each flake that stays and, where a flake is spawned, a column of the
    /// terminal and a glyph of the block for it.
    pub open spec fn accepts(self, draws: Draws) -> bool {
        &&& draws.glyphs.len() == self.survivors().len()
        &&& forall|i: int| 0 <= i < draws.glyphs.len() ==> is_glyph(#[trigger] draws.glyphs[i])
        &&& self.spawns() ==> draws.column < self.env.size.cols && is_glyph(draws.glyph)
    }

    /// The state after a tick that draws `draws`: the flakes that have scrolled
    /// off the bottom are gone, each of the others has advanced with its glyph,
    /// and below the limit a new flake stands at the end.
    pub open spec fn tick(self, draws: Draws) -> StateView {
        let kept = self.survivors();
        let moved = Seq::new(
            kept.len(),
            |i: int| kept[i].advance(self.env.max_length, draws.glyphs[i]),
        );
        let flakes = if self.spawns() {
            moved.push(FlakeView::fresh(draws.column, draws.glyph))
        } else {
            moved
        };
        StateView { flakes, env: self.env, cleaned: self.cleaned }
    }

    /// The state once `command` has been obeyed, before any tick: a speed is
    /// taken over, quitting asks the terminal back, and the rest changes nothing.
    pub open spec fn obey(self, command: Command) -> StateView {
        match command {
            Command::Speed(speed) => StateView {
                flakes: self.flakes,
                env: self.env.with_speed(speed),
                cleaned: self.cleaned,
            },
            Command::Quit => StateView { flakes: self.flakes, env: self.env, cleaned: true },
            Command::Ignore => self,
        }
    }
}

/// Filtering one more flake: it is kept exactly if it is still on the screen.
proof fn lemma_on_screen_step(flakes: Seq<FlakeView>, rows: u16, i: int)
    requires
        0 <= i < flakes.len(),
    ensures
        on_screen(flakes.take(i + 1), rows) == if flakes[i].start < rows {
            on_screen(flakes.take(i), rows).push(flakes[i])
        } else {
            on_screen(flakes.take(i), rows)
        },
{
    reveal(Seq::filter);
    assert(flakes.take(i + 1).drop_last() =~= flakes.take(i));
}

impl State {
    /// A simulation of the given flakes in the given environment, with the
    /// terminal not yet handed back.
    pub fn make(env: Env, flakes: Vec<Flake>) -> (state: State)
        ensures
            state@ == (StateView { flakes: views(flakes@), env: env@, cleaned: false }),
    {
        State { env, flakes, cleanup: Cleanup::new() }
    }

    /// Asks for the terminal to be handed back, and says whether that is due now.
    pub fn cleanup(&mut self) -> (due: bool)
        ensures
            due == !old(self)@.cleaned,
            final(self)@ == old(self)@.obey(Command::Quit),
    {
        self.cleanup.cleanup()
    }

    /// The cells to repaint for this frame, in painting order.
    pub fn render(&self) -> (cells: Vec<Cell>)
        ensures
            cells@ == render_all(self@.flakes, self@.env.size),
    {
        let mut cells: Vec<Cell> = Vec::new();
        let n: usize = self.flakes.len();
        let ghost all = self@.flakes;
        let size = self.env.size;
        for i in 0..n
            invariant
                n == self.flakes.len(),
                all == self@.flakes,
                size == self@.env.size,
                cells@ == render_all(all.take(i as int), size),
        {
            let mut part: Vec<Cell> = self.flakes[i].render(size);
            proof {
                assert(all.take(i + 1).drop_last() =~= all.take(i as int));
                assert(all.take(i + 1).last() == self.flakes[i as int]@);
            }
            cells.append(&mut part);
        }
        proof {
            assert(all.take(n as int) =~= all);
        }
        cells
    }

    /// One tick: drops the flakes that have scrolled off the bottom, advances the
    /// others, each with a glyph drawn for it, and spawns a flake while there is
    /// room for one.
    pub fn next(self) -> (next: State)
        requires
            self@.env.wf(),
        ensures
            exists|draws: Draws| #[trigger] self@.accepts(draws) && next@ == self@.tick(draws),
    {
        let ghost before = self@;
        let mut env = self.env;
        let cleanup = self.cleanup;
        let flakes = self.flakes;
        let rows: u16 = env.size.rows;
        let ghost all = views(flakes@);
        let mut fs: Vec<Flake> = Vec::new();
        let ghost mut glyphs: Seq<char> = Seq::empty();
        for flake in it: flakes
            invariant
                env@ == before.env,
                rows == before.env.size.rows,
                views(it.seq()) == all,
                glyphs.len() == fs.len(),
                fs.len() == on_screen(all.take(it.index()), rows).len(),
                forall|k: int| 0 <= k < glyphs.len() ==> is_glyph(#[trigger] glyphs[k]),
                forall|k: int|
                    0 <= k < fs.len() ==> (#[trigger] fs[k])@ == on_screen(
                        all.take(it.index()),
                        rows,
                    )[k].advance(before.env.max_length, glyphs[k]),
        {
            proof {
                lemma_on_screen_step(all, rows, it.index());
            }
            if flake.start < rows {
                let ghost prior = flake@;
                let moved = flake.next(&mut env);
                proof {
                    let glyph = choose|glyph: char|
                        is_glyph(glyph) && moved@ == #[trigger] prior.advance(
                            before.env.max_length,
                            glyph,
                        );
                    glyphs = glyphs.push(glyph);
                }
                fs.push(moved);
            }
        }
        let ghost mut spawned: (nat, char) = (0, ' ');
        if fs.len() < env.max_flakes as usize {
            let column = env.new_flake_column();
            let glyph = env.random_char();
            fs.push(Flake::fresh(column, glyph));
            proof {
                spawned = (column as nat, glyph);
            }
        }
        let next = State { env, flakes: fs, cleanup };
        proof {
            let draws = Draws { glyphs, column: spawned.0, glyph: spawned.1 };
            assert(all.take(all.len() as int) =~= all);
            assert(before.accepts(draws));
            assert(next@.flakes =~= before.tick(draws).flakes);
        }
        next
    }

    /// One round of the simulation, between painting a frame and waiting for the
    /// next: obeys the key that was pressed, if any, and then either stops or
    /// makes one tick and says how long to wait.
    pub fn step(self, input: Option<KeyPress>) -> (out: (State, Directive))
        requires
            self@.env.wf(),
        ensures
            out.0@.env.wf(),
            command_of(input) == Command::Quit ==> {
                &&& out.0@ == self@.obey(Command::Quit)
                &&& out.1 == Directive::Quit { restore: !self@.cleaned }
            },
            command_of(input) != Command::Quit ==> {
                let ready = self@.obey(command_of(input));
                &&& exists|draws: Draws| #[trigger] ready.accepts(draws) && out.0@ == ready.tick(draws)
                &&& out.1 matches Directive::Sleep { millis }
                &&& millis == ready.env.tick_interval()
            },
    {
        let command = match input {
            Some(press) => press.command(),
            None => Command::Ignore,
        };
        let mut state = self;
        match command {
            Command::Quit => {
                let restore = state.cleanup();
                (state, Directive::Quit { restore })
            },
            Command::Speed(speed) => {
                state.env.speed = speed;
                let next = state.next();
                let millis = next.env.tick_interval();
                (next, Directive::Sleep { millis })
            },
            Command::Ignore => {
                let next = state.next();
                let millis = next.env.tick_interval();
                (next, Directive::Sleep { millis })
            },
        }
    }
}

} // verus!
