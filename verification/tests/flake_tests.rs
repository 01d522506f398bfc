use digital_rain::env::{Env, Size, GLYPH_FIRST, GLYPH_LAST};
use digital_rain::flake::{push, Cell, Flake, Tone, BLANK};

fn flake(start: u16, column: u16, content: &str) -> Flake {
    Flake { start, column, content: content.chars().collect() }
}

fn size(rows: u16, cols: u16) -> Size {
    Size { rows, cols }
}

#[test]
fn push_appends_the_item() {
    assert_eq!(push(vec![1, 2], 3), vec![1, 2, 3]);
    assert_eq!(push(Vec::<char>::new(), 'a'), vec!['a']);
}

#[test]
fn fresh_flake_holds_one_glyph_in_the_top_row() {
    assert_eq!(Flake::fresh(7, 'q'), flake(0, 7, "q"));
}

#[test]
fn flake_grows_to_its_limit_and_then_scrolls() {
    let a = flake(0, 2, "A");
    let b = a.advance(3, 'B');
    assert_eq!(b, flake(0, 2, "AB"));
    let c = b.advance(3, 'C');
    assert_eq!(c, flake(0, 2, "ABC"));
    let d = c.advance(3, 'D');
    assert_eq!(d, flake(1, 2, "BCD"));
    let e = d.advance(3, 'E');
    assert_eq!(e, flake(2, 2, "CDE"));
}

#[test]
fn flake_at_the_last_row_scrolls_past_it() {
    let f = flake(4, 0, "abc").advance(3, 'd');
    assert_eq!(f.start, 5);
    assert_eq!(f.content, vec!['b', 'c', 'd']);
}

#[test]
fn limit_below_one_counts_as_one() {
    assert_eq!(flake(3, 1, "a").advance(0, 'b'), flake(4, 1, "b"));
    assert_eq!(flake(3, 1, "a").advance(1, 'b'), flake(4, 1, "b"));
    assert_eq!(flake(3, 1, "").advance(0, 'b'), flake(3, 1, "b"));
}

#[test]
fn flake_longer_than_its_limit_keeps_its_length() {
    assert_eq!(flake(0, 0, "abcd").advance(2, 'e'), flake(1, 0, "bcde"));
}

#[test]
fn next_draws_a_glyph_of_the_block() {
    let mut env = Env::make(size(24, 80));
    env.max_length = 3;
    let mut f = flake(0, 5, "A");
    let mut expected_start = 0;
    for round in 1..=20usize {
        let before = f.clone();
        f = f.next(&mut env);
        let drawn = *f.content.last().unwrap() as u32;
        assert!(GLYPH_FIRST <= drawn && drawn <= GLYPH_LAST);
        assert_eq!(f.column, 5);
        if round < 3 {
            assert_eq!(f.content.len(), round + 1);
            assert_eq!(&f.content[..round], &before.content[..]);
        } else {
            expected_start += 1;
            assert_eq!(f.content.len(), 3);
            assert_eq!(&f.content[..2], &before.content[1..]);
        }
        assert_eq!(f.start, expected_start);
    }
    assert_eq!(env.max_length, 3);
    assert_eq!(env.size, size(24, 80));
}

#[test]
fn render_paints_newest_then_the_one_above_then_wipes_the_oldest() {
    let cells = flake(2, 4, "abc").render(size(10, 10));
    assert_eq!(
        cells,
        vec![
            Cell { column: 4, row: 4, tone: Tone::Bright, glyph: 'c' },
            Cell { column: 4, row: 3, tone: Tone::Dim, glyph: 'b' },
            Cell { column: 4, row: 2, tone: Tone::Bright, glyph: BLANK },
        ]
    );
}

#[test]
fn render_of_a_single_glyph_has_no_cell_above() {
    assert_eq!(
        flake(0, 1, "a").render(size(5, 5)),
        vec![
            Cell { column: 1, row: 0, tone: Tone::Bright, glyph: 'a' },
            Cell { column: 1, row: 0, tone: Tone::Bright, glyph: BLANK },
        ]
    );
    assert_eq!(
        flake(3, 1, "a").render(size(5, 5)),
        vec![
            Cell { column: 1, row: 3, tone: Tone::Bright, glyph: 'a' },
            Cell { column: 1, row: 3, tone: Tone::Bright, glyph: BLANK },
        ]
    );
}

#[test]
fn render_leaves_out_cells_below_the_terminal() {
    // newest glyph in row 5, just below a terminal of five rows
    assert_eq!(
        flake(3, 0, "abc").render(size(5, 1)),
        vec![
            Cell { column: 0, row: 4, tone: Tone::Dim, glyph: 'b' },
            Cell { column: 0, row: 3, tone: Tone::Bright, glyph: BLANK },
        ]
    );
    // only the oldest row is left on the screen
    assert_eq!(
        flake(4, 0, "abc").render(size(5, 1)),
        vec![Cell { column: 0, row: 4, tone: Tone::Bright, glyph: BLANK }]
    );
    // wholly below
    assert_eq!(flake(5, 0, "abc").render(size(5, 1)), vec![]);
    assert_eq!(flake(65535, 0, "abc").render(size(65535, 1)), vec![]);
}

#[test]
fn render_leaves_out_a_flake_beside_the_terminal_or_without_glyphs() {
    assert_eq!(flake(0, 5, "abc").render(size(10, 5)), vec![]);
    assert_eq!(flake(0, 0, "").render(size(10, 5)), vec![]);
    assert_eq!(flake(0, 0, "abc").render(size(0, 0)), vec![]);
}

#[test]
fn render_at_the_far_corner() {
    assert_eq!(
        flake(65533, 65534, "ab").render(size(65535, 65535)),
        vec![
            Cell { column: 65534, row: 65534, tone: Tone::Bright, glyph: 'b' },
            Cell { column: 65534, row: 65533, tone: Tone::Dim, glyph: 'a' },
            Cell { column: 65534, row: 65533, tone: Tone::Bright, glyph: BLANK },
        ]
    );
}
