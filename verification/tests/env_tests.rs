use digital_rain::env::{
    Env, Size, DEFAULT_DELAY_BASE, DEFAULT_MAX_LENGTH, DEFAULT_SPEED, GLYPH_FIRST, GLYPH_LAST,
};

#[test]
fn make_sets_the_defaults() {
    let env = Env::make(Size { rows: 24, cols: 80 });
    assert_eq!(env.size, Size { rows: 24, cols: 80 });
    assert_eq!(env.max_flakes, 160);
    assert_eq!(env.max_length, 10);
    assert_eq!(env.speed, 10);
    assert_eq!(env.delay_base, 50);
    assert_eq!(DEFAULT_MAX_LENGTH, 10);
    assert_eq!(DEFAULT_SPEED, 10);
    assert_eq!(DEFAULT_DELAY_BASE, 50);
}

#[test]
fn make_at_the_edges() {
    assert_eq!(Env::make(Size { rows: 0, cols: 0 }).max_flakes, 0);
    assert_eq!(Env::make(Size { rows: 65535, cols: 32767 }).max_flakes, 65534);
}

#[test]
fn glyph_block_is_the_halfwidth_katakana() {
    assert_eq!(GLYPH_FIRST, 0xFF65);
    assert_eq!(GLYPH_LAST, 0xFF9F);
}

#[test]
fn random_char_stays_in_the_block() {
    let mut env = Env::make(Size { rows: 24, cols: 80 });
    for _ in 0..2000 {
        let code = env.random_char() as u32;
        assert!(GLYPH_FIRST <= code && code <= GLYPH_LAST);
    }
}

#[test]
fn random_char_draws_more_than_one_glyph() {
    let mut env = Env::make(Size { rows: 24, cols: 80 });
    let first = env.random_char();
    let mut other = false;
    for _ in 0..500 {
        if env.random_char() != first {
            other = true;
        }
    }
    assert!(other);
}

#[test]
fn new_flake_column_stays_in_the_terminal() {
    let mut env = Env::make(Size { rows: 24, cols: 80 });
    for _ in 0..2000 {
        assert!(env.new_flake_column() < 80);
    }
    let mut narrow = Env::make(Size { rows: 24, cols: 1 });
    for _ in 0..50 {
        assert_eq!(narrow.new_flake_column(), 0);
    }
}

#[test]
fn new_flake_column_reaches_more_than_one_column() {
    let mut env = Env::make(Size { rows: 24, cols: 1000 });
    let first = env.new_flake_column();
    let mut other = false;
    let mut inner = false;
    for _ in 0..500 {
        let column = env.new_flake_column();
        if column != first {
            other = true;
        }
        if column != 0 && column != 999 {
            inner = true;
        }
    }
    assert!(other);
    assert!(inner);
}

#[test]
fn draws_leave_the_configuration_alone() {
    let mut env = Env::make(Size { rows: 7, cols: 9 });
    env.speed = 4;
    env.max_length = 6;
    env.random_char();
    env.new_flake_column();
    assert_eq!(env.size, Size { rows: 7, cols: 9 });
    assert_eq!(env.max_flakes, 18);
    assert_eq!(env.max_length, 6);
    assert_eq!(env.speed, 4);
    assert_eq!(env.delay_base, 50);
}

#[test]
fn tick_interval_is_eleven_less_the_speed_times_the_base() {
    let mut env = Env::make(Size { rows: 24, cols: 80 });
    assert_eq!(env.tick_interval(), 50);
    env.speed = 1;
    assert_eq!(env.tick_interval(), 500);
    env.speed = 5;
    assert_eq!(env.tick_interval(), 300);
    env.speed = 9;
    assert_eq!(env.tick_interval(), 100);
    env.delay_base = 7;
    assert_eq!(env.tick_interval(), 14);
}

#[test]
fn tick_interval_falls_as_the_speed_rises() {
    let mut env = Env::make(Size { rows: 24, cols: 80 });
    let mut last = u64::MAX;
    for speed in 1..=10u16 {
        env.speed = speed;
        let interval = env.tick_interval();
        assert!(interval < last);
        last = interval;
    }
}

#[test]
fn tick_interval_clamps_a_speed_out_of_range() {
    let mut env = Env::make(Size { rows: 24, cols: 80 });
    env.speed = 0;
    assert_eq!(env.tick_interval(), 500);
    env.speed = 11;
    assert_eq!(env.tick_interval(), 50);
    env.speed = 65535;
    env.delay_base = u32::MAX;
    assert_eq!(env.tick_interval(), 4294967295);
    env.speed = 1;
    assert_eq!(env.tick_interval(), 42949672950);
}
