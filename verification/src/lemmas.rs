//! What holds of the simulation, tick after tick. Each statement is proved from
//! the definitions that the contracts of the other modules are written in.

use crate::env::{effective_max_length, effective_speed, is_glyph, Config, Size, MAX_SPEED, MIN_SPEED};
use crate::flake::{Cell, FlakeView};
use crate::input::{is_digit, Command, Key, KeyPress, Modifiers};
use crate::state::{on_screen, render_all, Cleanup, Draws, StateView};
use vstd::prelude::*;

verus! {

/// Whether no flake of `flakes` is longer than the length that flakes are held to.
pub open spec fn within_length(flakes: Seq<FlakeView>, max_length: u16) -> bool {
    forall|i: int|
        0 <= i < flakes.len() ==> (#[trigger] flakes[i]).content.len() <= effective_max_length(
            max_length,
        )
}

/// Whether every flake of `flakes` stands in a column of a terminal of `cols`
/// columns.
pub open spec fn within_columns(flakes: Seq<FlakeView>, cols: u16) -> bool {
    forall|i: int| 0 <= i < flakes.len() ==> (#[trigger] flakes[i]).column < cols
}

/// Whether no flake of `flakes` has its oldest glyph below the row just under a
/// terminal of `rows` rows.
pub open spec fn within_rows(flakes: Seq<FlakeView>, rows: u16) -> bool {
    forall|i: int| 0 <= i < flakes.len() ==> (#[trigger] flakes[i]).start <= rows
}

/// Whether every glyph of every flake of `flakes` lies in the block that glyphs
/// are drawn from.
pub open spec fn only_glyphs(flakes: Seq<FlakeView>) -> bool {
    forall|i: int, j: int|
        0 <= i < flakes.len() && 0 <= j < flakes[i].content.len() ==> is_glyph(
            #[trigger] flakes[i].content[j],
        )
}

/// A flake within the length limit stays within it when it advances. The limit
/// is the configured one wherever that is at least 1.
pub proof fn lemma_advance_keeps_length(flake: FlakeView, max_length: u16, glyph: char)
    requires
        flake.content.len() <= effective_max_length(max_length),
    ensures
        flake.advance(max_length, glyph).content.len() <= effective_max_length(max_length),
        max_length >= 1 ==> flake.advance(max_length, glyph).content.len() <= max_length,
        flake.advance(max_length, glyph).content.len() >= 1,
{
}

/// A flake that has reached its full length scrolls: each advance moves it down
/// by exactly one row and leaves its length as it was, so that it is full again.
pub proof fn lemma_full_flake_scrolls(flake: FlakeView, max_length: u16, glyph: char)
    requires
        flake.is_full(max_length),
    ensures
        flake.advance(max_length, glyph).start == flake.start + 1,
        flake.advance(max_length, glyph).content.len() == flake.content.len(),
        flake.advance(max_length, glyph).is_full(max_length),
        flake.advance(max_length, glyph).content =~= flake.content.subrange(
            1,
            flake.content.len() as int,
        ).push(glyph),
{
}

/// A flake that has not reached its full length grows: an advance leaves it where
/// it is and appends the glyph.
pub proof fn lemma_short_flake_grows(flake: FlakeView, max_length: u16, glyph: char)
    requires
        !flake.is_full(max_length),
    ensures
        flake.advance(max_length, glyph).start == flake.start,
        flake.advance(max_length, glyph).content == flake.content.push(glyph),
{
}

/// An advance never moves a flake sideways, and the glyph it appends is the one
/// drawn for it.
pub proof fn lemma_advance_keeps_column(flake: FlakeView, max_length: u16, glyph: char)
    ensures
        flake.advance(max_length, glyph).column == flake.column,
        flake.advance(max_length, glyph).content.last() == glyph,
{
}

/// The flakes that a tick keeps are those whose oldest glyph is above the bottom
/// of the terminal: each of them is one of the flakes before, none of them has
/// scrolled off, none that is on the screen is lost, and they are no more than
/// before.
pub proof fn lemma_on_screen(flakes: Seq<FlakeView>, rows: u16)
    ensures
        on_screen(flakes, rows).len() <= flakes.len(),
        forall|k: int|
            0 <= k < on_screen(flakes, rows).len() ==> {
                &&& (#[trigger] on_screen(flakes, rows)[k]).start < rows
                &&& flakes.contains(on_screen(flakes, rows)[k])
            },
        forall|i: int|
            0 <= i < flakes.len() ==> (on_screen(flakes, rows).contains(#[trigger] flakes[i])
                <==> flakes[i].start < rows),
        (forall|i: int| 0 <= i < flakes.len() ==> (#[trigger] flakes[i]).start < rows)
            ==> on_screen(flakes, rows) == flakes,
    decreases flakes.len(),
{
    reveal(Seq::filter);
    let kept = on_screen(flakes, rows);
    if flakes.len() > 0 {
        let rest = flakes.drop_last();
        let last = flakes.last();
        lemma_on_screen(rest, rows);
        let kept_rest = on_screen(rest, rows);
        assert forall|k: int| 0 <= k < kept.len() implies {
            &&& (#[trigger] kept[k]).start < rows
            &&& flakes.contains(kept[k])
        } by {
            if k < kept_rest.len() {
                assert(kept[k] == kept_rest[k]);
                assert(rest.contains(kept_rest[k]));
                let i = choose|i: int| 0 <= i < rest.len() && rest[i] == kept_rest[k];
                assert(flakes[i] == kept[k]);
            } else {
                assert(kept[k] == last);
                assert(flakes[flakes.len() - 1] == last);
            }
        }
        assert forall|i: int| 0 <= i < flakes.len() implies (kept.contains(#[trigger] flakes[i])
            <==> flakes[i].start < rows) by {
            if flakes[i].start < rows {
                if i < rest.len() {
                    assert(rest[i] == flakes[i]);
                    assert(kept_rest.contains(rest[i]));
                    let k = choose|k: int| 0 <= k < kept_rest.len() && kept_rest[k] == rest[i];
                    assert(kept[k] == flakes[i]);
                } else {
                    assert(kept[kept.len() - 1] == flakes[i]);
                }
            } else {
                if kept.contains(flakes[i]) {
                    let k = choose|k: int| 0 <= k < kept.len() && kept[k] == flakes[i];
                    assert(kept[k].start < rows);
                }
            }
        }
        if forall|i: int| 0 <= i < flakes.len() ==> (#[trigger] flakes[i]).start < rows {
            assert forall|i: int| 0 <= i < rest.len() implies (#[trigger] rest[i]).start
                < rows by {
                assert(rest[i] == flakes[i]);
            }
            assert(kept_rest == rest);
            assert(last == flakes[flakes.len() - 1]);
            assert(kept =~= flakes);
        }
    }
}

/// A flake leaves the live set on the first tick that finds its oldest glyph at
/// or below the bottom of the terminal: such a flake is not among those that the
/// tick keeps, and after any tick no flake stands lower than just under the last
/// row.
pub proof fn lemma_tick_removes_scrolled_off(state: StateView, draws: Draws)
    requires
        state.accepts(draws),
    ensures
        forall|i: int|
            0 <= i < state.flakes.len() && (#[trigger] state.flakes[i]).start
                >= state.env.size.rows ==> !state.survivors().contains(state.flakes[i]),
        forall|k: int|
            0 <= k < state.survivors().len() ==> (#[trigger] state.survivors()[k]).start
                < state.env.size.rows,
        within_rows(state.tick(draws).flakes, state.env.size.rows),
{
    lemma_on_screen(state.flakes, state.env.size.rows);
}

/// A tick keeps the flakes that stay in their order and advances each with the
/// glyph drawn for it; where it spawns, the new flake comes last, in the top row
/// of the column drawn, with the glyph drawn.
pub proof fn lemma_tick_flakes(state: StateView, draws: Draws)
    requires
        state.accepts(draws),
    ensures
        state.tick(draws).env == state.env,
        state.tick(draws).cleaned == state.cleaned,
        forall|k: int|
            0 <= k < state.survivors().len() ==> #[trigger] state.tick(draws).flakes[k]
                == state.survivors()[k].advance(state.env.max_length, draws.glyphs[k]),
        state.spawns() ==> state.tick(draws).flakes.last() == FlakeView::fresh(
            draws.column,
            draws.glyph,
        ),
{
}

/// The number of live flakes never exceeds the limit once it is within it, and a
/// tick spawns a flake exactly while the flakes that it keeps are fewer than the
/// limit: one flake, and only then.
pub proof fn lemma_tick_capacity(state: StateView, draws: Draws)
    ensures
        state.tick(draws).flakes.len() == state.survivors().len() + if state.spawns() {
            1nat
        } else {
            0nat
        },
        state.spawns() <==> state.survivors().len() < state.env.max_flakes,
        state.tick(draws).flakes.len() <= state.flakes.len() + 1,
        state.flakes.len() <= state.env.max_flakes ==> state.tick(draws).flakes.len()
            <= state.env.max_flakes,
{
    lemma_on_screen(state.flakes, state.env.size.rows);
}

/// Every flake stands in a column of the terminal: a spawned flake does, and a
/// tick keeps it so.
pub proof fn lemma_tick_keeps_columns(state: StateView, draws: Draws)
    requires
        state.accepts(draws),
        within_columns(state.flakes, state.env.size.cols),
    ensures
        within_columns(state.tick(draws).flakes, state.env.size.cols),
        state.spawns() ==> state.tick(draws).flakes.last().column < state.env.size.cols,
{
    let cols = state.env.size.cols;
    let kept = state.survivors();
    let after = state.tick(draws).flakes;
    lemma_on_screen(state.flakes, state.env.size.rows);
    assert forall|k: int| 0 <= k < after.len() implies (#[trigger] after[k]).column < cols by {
        if k < kept.len() {
            assert(state.flakes.contains(kept[k]));
            let i = choose|i: int| 0 <= i < state.flakes.len() && state.flakes[i] == kept[k];
            assert(state.flakes[i].column < cols);
        }
    }
}

/// No flake is longer than the length that flakes are held to: a spawned flake is
/// not, and a tick keeps it so. That length is the configured limit wherever the
/// limit is at least 1.
pub proof fn lemma_tick_keeps_length(state: StateView, draws: Draws)
    requires
        state.accepts(draws),
        within_length(state.flakes, state.env.max_length),
    ensures
        within_length(state.tick(draws).flakes, state.env.max_length),
        state.env.max_length >= 1 ==> forall|k: int|
            0 <= k < state.tick(draws).flakes.len() ==> (#[trigger] state.tick(
                draws,
            ).flakes[k]).content.len() <= state.env.max_length,
{
    let kept = state.survivors();
    let after = state.tick(draws).flakes;
    let max_length = state.env.max_length;
    lemma_on_screen(state.flakes, state.env.size.rows);
    assert forall|k: int| 0 <= k < after.len() implies (#[trigger] after[k]).content.len()
        <= effective_max_length(max_length) by {
        if k < kept.len() {
            assert(state.flakes.contains(kept[k]));
            let i = choose|i: int| 0 <= i < state.flakes.len() && state.flakes[i] == kept[k];
            assert(state.flakes[i].content.len() <= effective_max_length(max_length));
            lemma_advance_keeps_length(kept[k], max_length, draws.glyphs[k]);
        }
    }
}

/// Every glyph on the screen lies in the block that glyphs are drawn from: those
/// of a spawned flake do, and a tick keeps it so.
pub proof fn lemma_tick_keeps_glyphs(state: StateView, draws: Draws)
    requires
        state.accepts(draws),
        only_glyphs(state.flakes),
    ensures
        only_glyphs(state.tick(draws).flakes),
{
    let kept = state.survivors();
    let after = state.tick(draws).flakes;
    let max_length = state.env.max_length;
    lemma_on_screen(state.flakes, state.env.size.rows);
    assert forall|k: int, j: int|
        0 <= k < after.len() && 0 <= j < after[k].content.len() implies is_glyph(
        #[trigger] after[k].content[j],
    ) by {
        if k < kept.len() {
            assert(state.flakes.contains(kept[k]));
            let i = choose|i: int| 0 <= i < state.flakes.len() && state.flakes[i] == kept[k];
            let old_content = state.flakes[i].content;
            assert(is_glyph(draws.glyphs[k]));
            if kept[k].is_full(max_length) {
                if j < old_content.len() - 1 {
                    assert(after[k].content[j] == old_content[j + 1]);
                }
            } else {
                if j < old_content.len() {
                    assert(after[k].content[j] == old_content[j]);
                }
            }
        }
    }
}

/// Asking for the terminal back twice comes to the same as asking once: the
/// second time nothing is due and nothing changes.
pub proof fn lemma_cleanup_idempotent(guard: Cleanup)
    ensures
        !guard.after_cleanup().restore_due(),
        guard.after_cleanup().after_cleanup() == guard.after_cleanup(),
{
}

/// A digit sets the speed, whatever is held down with it: `'0'` to the fastest,
/// each other digit to its value. The tick interval follows the speed: eleven less
/// the speed, times the base delay.
pub proof fn lemma_digit_sets_speed(state: StateView, digit: char, modifiers: Modifiers)
    requires
        is_digit(digit),
    ensures
        ({
            let press = KeyPress { key: Key::Char(digit), modifiers };
            let speed = if digit == '0' {
                10int
            } else {
                digit as u32 - '0' as u32
            };
            let after = state.obey(press.spec_command());
            &&& press.spec_command() == Command::Speed(speed as u16)
            &&& MIN_SPEED <= speed <= MAX_SPEED
            &&& after.env.speed == speed
            &&& after.env.tick_interval() == (11 - speed) * state.env.delay_base
            &&& after.flakes == state.flakes
            &&& after.cleaned == state.cleaned
        }),
{
}

/// The tick interval of a speed within range is eleven less the speed, times the
/// base delay, and a higher speed never makes it longer.
pub proof fn lemma_tick_interval(config: Config, slower: u16, faster: u16)
    requires
        slower <= faster,
    ensures
        MIN_SPEED <= config.speed <= MAX_SPEED ==> config.tick_interval() == (11 - config.speed)
            * config.delay_base,
        config.with_speed(faster).tick_interval() <= config.with_speed(slower).tick_interval(),
{
    let a = (MAX_SPEED + 1 - effective_speed(faster)) as int;
    let b = (MAX_SPEED + 1 - effective_speed(slower)) as int;
    let base = config.delay_base as int;
    assert(a * base <= b * base) by (nonlinear_arith)
        requires
            0 <= a <= b,
            0 <= base,
    ;
}

/// Painting a flake touches at most three cells, all of them inside the terminal
/// and in the flake's own column.
pub proof fn lemma_render_bounded(flake: FlakeView, size: Size)
    ensures
        flake.render(size).len() <= 3,
        forall|k: int|
            0 <= k < flake.render(size).len() ==> {
                let cell: Cell = #[trigger] flake.render(size)[k];
                &&& cell.row < size.rows
                &&& cell.column < size.cols
                &&& cell.column == flake.column
                &&& flake.start <= cell.row <= flake.head()
            },
{
}

/// Painting a frame touches at most three cells for each flake, whatever the size
/// of the terminal.
pub proof fn lemma_render_all_bounded(flakes: Seq<FlakeView>, size: Size)
    ensures
        render_all(flakes, size).len() <= 3 * flakes.len(),
    decreases flakes.len(),
{
    if flakes.len() > 0 {
        lemma_render_all_bounded(flakes.drop_last(), size);
        lemma_render_bounded(flakes.last(), size);
    }
}

} // verus!
