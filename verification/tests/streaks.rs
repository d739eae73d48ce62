use digital_rain::config::{Config, RefreshStrategy};
use digital_rain::paint::{ground, ink, Paint, Rgb};
use digital_rain::rain::{Rain, FIRST_GLYPH, LAST_GLYPH, MAX_GLYPHS};
use rand::rngs::StdRng;
use rand::SeedableRng;

fn config(speed: u16, start: u16, refresh: RefreshStrategy, background: bool) -> Config {
    Config {
        speed,
        spawn_start_row: start,
        draw_background: background,
        refresh,
        chars_min_len: 10,
        spawn_numerator: 1,
        spawn_denominator: 20,
    }
}

fn streak(column: u16, head_row: u16, glyphs: &[u8]) -> Rain {
    Rain::with_glyphs(column, head_row, glyphs.to_vec()).unwrap()
}

fn ticks_until_destroyed(mut rain: Rain, height: u16, speed: u16) -> u64 {
    let mut ticks = 0u64;
    loop {
        ticks += 1;
        if !rain.drop(height, speed) {
            return ticks;
        }
    }
}

fn glyph(column: u16, row: u16, code: u8, shade: u8) -> Paint {
    Paint::Glyph { column, row, code, ink: ink(shade), ground: None }
}

#[test]
fn standard_config_has_the_documented_values() {
    let c = Config::standard();
    assert_eq!(c.speed, 1);
    assert_eq!(c.spawn_start_row, 1);
    assert!(!c.draw_background);
    assert_eq!(c.refresh, RefreshStrategy::TailErase);
    assert_eq!(c.chars_min_len, 10);
    assert_eq!((c.spawn_numerator, c.spawn_denominator), (1, 20));
    assert!(c.is_well_formed());
}

#[test]
fn config_validity_is_decided() {
    let good = Config::standard();
    assert!(!Config { speed: 0, ..good }.is_well_formed());
    assert!(!Config { chars_min_len: 0, ..good }.is_well_formed());
    assert!(!Config { spawn_denominator: 0, spawn_numerator: 0, ..good }.is_well_formed());
    assert!(!Config { spawn_numerator: 21, ..good }.is_well_formed());
    assert!(Config { spawn_numerator: 0, ..good }.is_well_formed());
    assert!(Config { spawn_numerator: 20, ..good }.is_well_formed());
}

#[test]
fn room_to_spawn_needs_five_rows_and_the_start_row() {
    let c = Config::standard();
    assert!(!c.has_room_to_spawn(0));
    assert!(!c.has_room_to_spawn(4));
    assert!(c.has_room_to_spawn(5));
    assert!(c.has_room_to_spawn(24));
    let low = Config { spawn_start_row: 7, ..c };
    assert!(!low.has_room_to_spawn(7));
    assert!(low.has_room_to_spawn(8));
}

#[test]
fn ink_is_a_white_to_green_fade() {
    assert_eq!(ink(255), Rgb { red: 255, green: 255, blue: 255 });
    assert_eq!(ink(0), Rgb { red: 0, green: 255, blue: 0 });
    assert_eq!(ink(170), Rgb { red: 170, green: 255, blue: 170 });
    assert_eq!(ground(85), Rgb { red: 0, green: 85, blue: 0 });
}

#[test]
fn with_glyphs_keeps_what_it_is_given() {
    let rain = streak(7, 3, b"abc");
    assert_eq!(rain.column(), 7);
    assert_eq!(rain.head_row(), 3);
    assert_eq!(rain.revealed(), 0);
    assert_eq!(rain.len(), 3);
    assert_eq!(rain.glyphs(), &b"abc".to_vec());
    assert!(rain.is_alive());
}

#[test]
fn with_glyphs_refuses_an_empty_buffer() {
    assert!(Rain::with_glyphs(0, 0, Vec::new()).is_none());
}

#[test]
fn with_glyphs_refuses_codes_that_do_not_print() {
    assert!(Rain::with_glyphs(0, 0, vec![b'a', b' ', b'b']).is_none());
    assert!(Rain::with_glyphs(0, 0, vec![127]).is_none());
    assert!(Rain::with_glyphs(0, 0, vec![0]).is_none());
    assert!(Rain::with_glyphs(0, 0, vec![200]).is_none());
    assert!(Rain::with_glyphs(0, 0, vec![FIRST_GLYPH - 1]).is_none());
    assert!(Rain::with_glyphs(0, 0, vec![LAST_GLYPH + 1]).is_none());
}

#[test]
fn with_glyphs_accepts_the_ends_of_the_printable_range() {
    assert!(Rain::with_glyphs(0, 0, vec![FIRST_GLYPH, LAST_GLYPH]).is_some());
    assert_eq!((FIRST_GLYPH, LAST_GLYPH), (33, 126));
    assert_eq!(MAX_GLYPHS, 0x7fff_ffff);
}

#[test]
fn new_streaks_start_at_the_start_row_with_nothing_retired() {
    let mut rng = StdRng::seed_from_u64(1);
    for start in [0u16, 1] {
        let c = config(1, start, RefreshStrategy::TailErase, false);
        let rain = Rain::new(9, 24, &c, &mut rng);
        assert_eq!(rain.column(), 9);
        assert_eq!(rain.head_row(), start);
        assert_eq!(rain.revealed(), 0);
        assert!(rain.is_alive());
    }
}

#[test]
fn new_streaks_have_lengths_and_glyphs_in_range() {
    let mut rng = StdRng::seed_from_u64(2);
    let c = config(1, 1, RefreshStrategy::TailErase, false);
    for _ in 0..500 {
        let rain = Rain::new(0, 24, &c, &mut rng);
        assert!(rain.len() >= 10 && rain.len() < 10 + 24 / 5);
        assert!(rain.glyphs().iter().all(|g| (33..=126).contains(g)));
    }
    for _ in 0..100 {
        let rain = Rain::new(0, 5, &c, &mut rng);
        assert_eq!(rain.len(), 10);
    }
    for _ in 0..100 {
        let rain = Rain::new(0, 100, &c, &mut rng);
        assert!(rain.len() >= 10 && rain.len() < 30);
    }
}

#[test]
fn new_streaks_draw_from_the_whole_range() {
    let mut rng = StdRng::seed_from_u64(3);
    let c = config(1, 1, RefreshStrategy::TailErase, false);
    let mut lengths = [false; 4];
    let mut codes = [false; 256];
    for _ in 0..2000 {
        let rain = Rain::new(0, 24, &c, &mut rng);
        lengths[rain.len() - 10] = true;
        for g in rain.glyphs() {
            codes[*g as usize] = true;
        }
    }
    assert!(lengths.iter().all(|seen| *seen));
    for code in 0..256usize {
        assert_eq!(codes[code], (33..=126).contains(&code));
    }
}

#[test]
fn min_length_moves_the_length_range() {
    let mut rng = StdRng::seed_from_u64(4);
    let c = Config { chars_min_len: 3, ..Config::standard() };
    for _ in 0..200 {
        let rain = Rain::new(0, 10, &c, &mut rng);
        assert!(rain.len() >= 3 && rain.len() < 5);
    }
}

#[test]
fn drop_moves_the_head_down_by_the_speed() {
    let mut rain = streak(0, 0, b"abcd");
    assert!(rain.drop(10, 1));
    assert_eq!((rain.head_row(), rain.revealed()), (1, 0));
    assert!(rain.drop(10, 3));
    assert_eq!((rain.head_row(), rain.revealed()), (4, 0));
    assert!(rain.drop(10, 5));
    assert_eq!((rain.head_row(), rain.revealed()), (9, 0));
}

#[test]
fn drop_stops_the_head_on_the_bottom_row_and_retires_the_rest() {
    let mut rain = streak(0, 8, b"abcd");
    assert!(rain.drop(10, 3));
    assert_eq!((rain.head_row(), rain.revealed()), (9, 2));
    assert!(rain.drop(10, 1));
    assert_eq!((rain.head_row(), rain.revealed()), (9, 3));
    assert!(!rain.drop(10, 1));
    assert_eq!((rain.head_row(), rain.revealed()), (9, 4));
    assert!(!rain.is_alive());
}

#[test]
fn drop_reaching_exactly_the_row_below_the_grid_retires_one() {
    let mut rain = streak(0, 7, b"abcd");
    assert!(rain.drop(10, 3));
    assert_eq!((rain.head_row(), rain.revealed()), (9, 1));
}

#[test]
fn drop_may_retire_more_glyphs_than_are_left() {
    let mut rain = streak(0, 9, b"ab");
    assert!(rain.drop(10, 1));
    assert_eq!(rain.revealed(), 1);
    assert!(!rain.drop(10, 3));
    assert_eq!(rain.revealed(), 4);
    assert_eq!(rain.len(), 2);
}

#[test]
fn drop_in_a_grid_of_one_row() {
    let mut rain = streak(0, 0, b"ab");
    assert!(rain.drop(1, 1));
    assert_eq!((rain.head_row(), rain.revealed()), (0, 1));
    assert!(!rain.drop(1, 1));
}

#[test]
fn drop_pulls_a_head_below_the_grid_back_to_the_bottom_row() {
    let mut rain = streak(0, 20, b"abcdefghijklmnopqrstuvwxyz");
    assert!(rain.drop(10, 2));
    assert_eq!((rain.head_row(), rain.revealed()), (9, 13));
}

#[test]
fn drop_keeps_glyphs_and_column() {
    let mut rain = streak(5, 0, b"xyz");
    while rain.drop(6, 2) {}
    assert_eq!(rain.column(), 5);
    assert_eq!(rain.glyphs(), &b"xyz".to_vec());
}

#[test]
fn revealed_stays_within_the_length_and_never_decreases_at_speed_one() {
    for height in [1u16, 2, 5, 24] {
        for len in [1usize, 2, 10, 13] {
            let mut rain = streak(0, 0, &vec![b'#'; len]);
            let mut before = rain.revealed();
            loop {
                let alive = rain.drop(height, 1);
                assert!(rain.revealed() >= before);
                assert!(rain.revealed() <= rain.len());
                assert_eq!(alive, rain.revealed() < rain.len());
                before = rain.revealed();
                if !alive {
                    break;
                }
            }
        }
    }
}

#[test]
fn revealed_of_a_live_streak_is_below_the_length_at_any_speed() {
    for speed in [1u16, 2, 3, 7, 100] {
        let mut rain = streak(0, 0, &vec![b'#'; 10]);
        let mut before = 0;
        loop {
            let alive = rain.drop(24, speed);
            assert!(rain.revealed() >= before);
            assert!(rain.revealed() < rain.len() + speed as usize);
            before = rain.revealed();
            if !alive {
                break;
            }
            assert!(rain.revealed() < rain.len());
        }
    }
}

#[test]
fn lifetime_matches_the_closed_form() {
    for height in [1u16, 2, 5, 24, 50] {
        for len in [1usize, 2, 10, 14] {
            for speed in [1u16, 2, 3, 5, 24, 77] {
                let rain = streak(0, 0, &vec![b'#'; len]);
                let way = height as u64 - 1 + len as u64;
                let expected = (way + speed as u64 - 1) / speed as u64;
                assert_eq!(ticks_until_destroyed(rain, height, speed), expected);
            }
        }
    }
}

#[test]
fn lifetime_of_a_streak_that_starts_on_row_one() {
    let rain = streak(0, 1, &vec![b'#'; 10]);
    assert_eq!(ticks_until_destroyed(rain, 24, 1), 32);
    let rain = streak(0, 1, &vec![b'#'; 10]);
    assert_eq!(ticks_until_destroyed(rain, 24, 5), 7);
}

#[test]
fn lifetime_exact_values() {
    assert_eq!(ticks_until_destroyed(streak(0, 0, &vec![b'#'; 10]), 24, 1), 33);
    assert_eq!(ticks_until_destroyed(streak(0, 0, &vec![b'#'; 14]), 24, 1), 37);
    assert_eq!(ticks_until_destroyed(streak(0, 0, &vec![b'#'; 10]), 24, 2), 17);
    assert_eq!(ticks_until_destroyed(streak(0, 0, &vec![b'#'; 10]), 24, 33), 1);
    assert_eq!(ticks_until_destroyed(streak(0, 0, &vec![b'#'; 10]), 24, 32), 2);
}

#[test]
fn draw_paints_the_glyphs_upwards_from_the_head() {
    let rain = streak(4, 1, b"abc");
    let mut out = Vec::new();
    rain.draw(&config(1, 1, RefreshStrategy::TailErase, false), &mut out);
    assert_eq!(out, vec![glyph(4, 1, b'a', 255), glyph(4, 0, b'b', 170)]);
}

#[test]
fn draw_fades_by_the_full_brightness_over_the_length() {
    let rain = streak(0, 9, b"abcde");
    let mut out = Vec::new();
    rain.draw(&config(1, 0, RefreshStrategy::FullClear, false), &mut out);
    assert_eq!(
        out,
        vec![
            glyph(0, 9, b'a', 255),
            glyph(0, 8, b'b', 204),
            glyph(0, 7, b'c', 153),
            glyph(0, 6, b'd', 102),
            glyph(0, 5, b'e', 51),
        ]
    );
}

#[test]
fn draw_rounds_the_fade_down() {
    let rain = streak(0, 9, b"abcdefg");
    let mut out = Vec::new();
    rain.draw(&config(1, 0, RefreshStrategy::FullClear, false), &mut out);
    let shades: Vec<u8> = out
        .iter()
        .map(|p| match p {
            Paint::Glyph { ink, .. } => ink.red,
            _ => panic!("only glyphs are expected"),
        })
        .collect();
    assert_eq!(shades, vec![255, 219, 183, 147, 111, 75, 39]);
}

#[test]
fn draw_erases_the_row_above_the_tail() {
    let rain = streak(2, 5, b"abc");
    let mut out = Vec::new();
    rain.draw(&config(1, 1, RefreshStrategy::TailErase, false), &mut out);
    assert_eq!(
        out,
        vec![
            glyph(2, 5, b'a', 255),
            glyph(2, 4, b'b', 170),
            glyph(2, 3, b'c', 85),
            Paint::Blank { column: 2, row: 2 },
        ]
    );
}

#[test]
fn draw_erases_as_many_rows_as_the_speed() {
    let rain = streak(2, 9, b"abc");
    let mut out = Vec::new();
    rain.draw(&config(3, 1, RefreshStrategy::TailErase, false), &mut out);
    assert_eq!(
        out[3..],
        [
            Paint::Blank { column: 2, row: 6 },
            Paint::Blank { column: 2, row: 5 },
            Paint::Blank { column: 2, row: 4 },
        ]
    );
}

#[test]
fn draw_clips_the_erased_rows_at_the_top() {
    let rain = streak(2, 4, b"abc");
    let mut out = Vec::new();
    rain.draw(&config(5, 1, RefreshStrategy::TailErase, false), &mut out);
    assert_eq!(out.len(), 5);
    assert_eq!(out[3..], [Paint::Blank { column: 2, row: 1 }, Paint::Blank { column: 2, row: 0 }]);
}

#[test]
fn draw_does_not_erase_before_the_head_is_a_length_down() {
    let rain = streak(2, 2, b"abc");
    let mut out = Vec::new();
    rain.draw(&config(1, 1, RefreshStrategy::TailErase, false), &mut out);
    assert_eq!(out.len(), 3);
    let rain = streak(2, 3, b"abc");
    let mut out = Vec::new();
    rain.draw(&config(1, 1, RefreshStrategy::TailErase, false), &mut out);
    assert_eq!(out.len(), 4);
    assert_eq!(out[3], Paint::Blank { column: 2, row: 0 });
}

#[test]
fn draw_does_not_erase_under_full_clear() {
    let rain = streak(2, 5, b"abc");
    let mut out = Vec::new();
    rain.draw(&config(1, 1, RefreshStrategy::FullClear, false), &mut out);
    assert_eq!(out, vec![glyph(2, 5, b'a', 255), glyph(2, 4, b'b', 170), glyph(2, 3, b'c', 85)]);
}

#[test]
fn draw_skips_retired_glyphs_and_keeps_the_head_brightest() {
    let mut rain = streak(2, 9, b"abc");
    assert!(rain.drop(10, 1));
    assert_eq!(rain.revealed(), 1);
    let mut out = Vec::new();
    rain.draw(&config(1, 1, RefreshStrategy::TailErase, false), &mut out);
    assert_eq!(
        out,
        vec![
            glyph(2, 9, b'b', 255),
            glyph(2, 8, b'c', 170),
            Paint::Blank { column: 2, row: 7 },
        ]
    );
}

#[test]
fn draw_of_a_streak_that_has_run_out_only_erases() {
    let mut rain = streak(2, 9, b"ab");
    assert!(rain.drop(10, 1));
    assert!(!rain.drop(10, 1));
    let mut out = Vec::new();
    rain.draw(&config(1, 1, RefreshStrategy::TailErase, false), &mut out);
    assert_eq!(out, vec![Paint::Blank { column: 2, row: 9 }]);
    let mut out = Vec::new();
    rain.draw(&config(1, 1, RefreshStrategy::FullClear, false), &mut out);
    assert!(out.is_empty());
}

#[test]
fn draw_with_background_uses_the_next_shade() {
    let rain = streak(1, 5, b"abc");
    let mut out = Vec::new();
    rain.draw(&config(1, 1, RefreshStrategy::FullClear, true), &mut out);
    assert_eq!(
        out,
        vec![
            Paint::Glyph { column: 1, row: 5, code: b'a', ink: ink(255), ground: Some(ground(170)) },
            Paint::Glyph { column: 1, row: 4, code: b'b', ink: ink(170), ground: Some(ground(85)) },
            Paint::Glyph { column: 1, row: 3, code: b'c', ink: ink(85), ground: Some(ground(0)) },
        ]
    );
}

#[test]
fn draw_appends_to_what_the_list_holds() {
    let rain = streak(1, 0, b"a");
    let mut out = vec![Paint::Clear];
    rain.draw(&config(1, 1, RefreshStrategy::FullClear, false), &mut out);
    assert_eq!(out, vec![Paint::Clear, glyph(1, 0, b'a', 255)]);
}

#[test]
fn draw_of_a_long_streak_does_not_fade() {
    let rain = streak(0, 400, &vec![b'x'; 300]);
    let mut out = Vec::new();
    rain.draw(&config(1, 1, RefreshStrategy::TailErase, false), &mut out);
    assert_eq!(out.len(), 301);
    for (k, paint) in out[..300].iter().enumerate() {
        assert_eq!(*paint, glyph(0, 400 - k as u16, b'x', 255));
    }
    assert_eq!(out[300], Paint::Blank { column: 0, row: 100 });
}

#[test]
fn draw_of_255_glyphs_fades_by_one() {
    let rain = streak(0, 300, &vec![b'x'; 255]);
    let mut out = Vec::new();
    rain.draw(&config(1, 1, RefreshStrategy::FullClear, false), &mut out);
    assert_eq!(out.len(), 255);
    assert_eq!(out[0], glyph(0, 300, b'x', 255));
    assert_eq!(out[254], glyph(0, 46, b'x', 1));
}
