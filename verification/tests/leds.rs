use std::collections::HashSet;

use voyager::bus::{BusWrite, PlanRun};
use voyager::is31fl3731::{
    c, e, init_chip, key_to_led, led_entry, scale, wheel, ChipStep, Hsv, LedEntry, Rgb,
    VoyagerLayout, ADDR_LEFT, ADDR_RIGHT, LED_COUNT, LED_POS, LED_X,
};
use voyager::keymap::{hand_map, Hand};

/// Value of PWM register `reg` of `chip` as carried by a list of flush
/// writes, if any write covers it.
fn sent_value(writes: &[BusWrite], chip: usize, reg: usize) -> Option<u8> {
    let addr = if chip == 0 { ADDR_LEFT } else { ADDR_RIGHT };
    for w in writes {
        if w.addr != addr {
            continue;
        }
        let start = w.bytes[0] as usize - 0x24;
        if reg >= start && reg < start + 16 {
            return Some(w.bytes[1 + reg - start]);
        }
    }
    None
}

fn led_color(writes: &[BusWrite], idx: usize) -> (u8, u8, u8) {
    let entry = led_entry(idx);
    let chip = entry.chip as usize;
    (
        sent_value(writes, chip, entry.r as usize).unwrap(),
        sent_value(writes, chip, entry.g as usize).unwrap(),
        sent_value(writes, chip, entry.b as usize).unwrap(),
    )
}

#[test]
fn register_names_encode_row_and_column() {
    assert_eq!(c(1, 1), 0);
    assert_eq!(c(2, 2), 17);
    assert_eq!(c(4, 3), 50);
    assert_eq!(c(9, 16), 143);
    assert_eq!(e(1, 2, 3, 4), LedEntry { chip: 1, r: 2, g: 3, b: 4 });
}

#[test]
fn led_table_ends() {
    assert_eq!(led_entry(0), LedEntry { chip: 0, r: 17, g: 1, b: 50 });
    assert_eq!(led_entry(13), LedEntry { chip: 0, r: 25, g: 9, b: 58 });
    assert_eq!(led_entry(25), LedEntry { chip: 0, r: 125, g: 109, b: 141 });
    assert_eq!(led_entry(26), LedEntry { chip: 1, r: 22, g: 6, b: 38 });
    assert_eq!(led_entry(51), LedEntry { chip: 1, r: 124, g: 108, b: 140 });
}

#[test]
fn led_channels_are_pairwise_distinct() {
    let mut seen = HashSet::new();
    for i in 0..LED_COUNT {
        let entry = led_entry(i);
        assert_eq!(entry.chip, if i < 26 { 0 } else { 1 });
        for reg in [entry.r, entry.g, entry.b] {
            assert!((reg as usize) < 144);
            assert!(seen.insert((entry.chip, reg)), "LED {} reuses a register", i);
        }
    }
    assert_eq!(seen.len(), 156);
}

#[test]
fn wheel_sweeps_primaries_with_constant_sum() {
    assert_eq!(wheel(0), (255, 0, 0));
    assert_eq!(wheel(8), (231, 24, 0));
    assert_eq!(wheel(85), (0, 255, 0));
    assert_eq!(wheel(170), (0, 0, 255));
    assert_eq!(wheel(255), (255, 0, 0));
    for pos in 0..=255u8 {
        let (r, g, b) = wheel(pos);
        assert_eq!(r as u16 + g as u16 + b as u16, 255);
    }
}

#[test]
fn scale_is_proportional() {
    assert_eq!(scale(255, 255), 255);
    assert_eq!(scale(200, 128), 100);
    assert_eq!(scale(231, 128), 115);
    assert_eq!(scale(77, 0), 0);
    for v in 0..=255u8 {
        assert_eq!(scale(v, 255), v);
        assert!(scale(v, 100) <= v);
    }
}

#[test]
fn key_to_led_lookups() {
    assert_eq!(key_to_led(0, 0), None);
    assert_eq!(key_to_led(0, 1), Some(0));
    assert_eq!(key_to_led(2, 6), Some(17));
    assert_eq!(key_to_led(3, 6), None);
    assert_eq!(key_to_led(4, 4), Some(23));
    assert_eq!(key_to_led(5, 1), Some(25));
    assert_eq!(key_to_led(6, 0), Some(26));
    assert_eq!(key_to_led(9, 1), Some(45));
    assert_eq!(key_to_led(10, 2), Some(44));
    assert_eq!(key_to_led(11, 6), Some(51));
    assert_eq!(key_to_led(12, 0), None);
    assert_eq!(key_to_led(0, 7), None);
    assert_eq!(key_to_led(255, 255), None);
}

#[test]
fn keys_and_leds_correspond_one_to_one() {
    let mut seen = HashSet::new();
    for row in 0..12u8 {
        for col in 0..7u8 {
            if let Some(led) = key_to_led(row, col) {
                assert!((led as usize) < LED_COUNT);
                assert!(seen.insert(led));
                let chip = led_entry(led as usize).chip;
                assert_eq!(chip, if row < 6 { 0 } else { 1 });
            }
        }
    }
    assert_eq!(seen.len(), LED_COUNT);
}

#[test]
fn hand_map_matches_driver() {
    let hands = hand_map();
    for row in 0..12usize {
        for col in 0..7usize {
            let expected = if row < 5 {
                Hand::Left
            } else if row == 5 || row == 11 {
                Hand::Unknown
            } else {
                Hand::Right
            };
            assert_eq!(hands[row][col], expected);
            if let Some(led) = key_to_led(row as u8, col as u8) {
                let chip = led_entry(led as usize).chip;
                match hands[row][col] {
                    Hand::Left => assert_eq!(chip, 0),
                    Hand::Right => assert_eq!(chip, 1),
                    Hand::Unknown => {}
                }
            }
        }
    }
}

#[test]
fn new_buffer_is_clean() {
    let rgb = Rgb::new();
    assert!(!rgb.is_dirty(0));
    assert!(!rgb.is_dirty(1));
    assert!(rgb.flush_writes().is_empty());
}

#[test]
fn set_all_paints_every_led_and_dirties_both_chips() {
    let mut rgb = Rgb::new();
    rgb.set_all(1, 2, 3);
    assert!(rgb.is_dirty(0) && rgb.is_dirty(1));
    let writes = rgb.flush_writes();
    assert_eq!(writes.len(), 18);
    for (k, w) in writes.iter().enumerate() {
        assert_eq!(w.addr, if k < 9 { ADDR_LEFT } else { ADDR_RIGHT });
        assert_eq!(w.bytes.len(), 17);
        assert_eq!(w.bytes[0], 0x24 + 16 * (k % 9) as u8);
    }
    for i in 0..LED_COUNT {
        assert_eq!(led_color(&writes, i), (1, 2, 3));
    }
    // A register that no LED uses keeps its value (zero).
    assert_eq!(sent_value(&writes, 0, 0), Some(0));
    assert_eq!(sent_value(&writes, 0, 16), Some(0));
}

#[test]
fn flush_completion_clears_only_fully_sent_chips() {
    let mut rgb = Rgb::new();
    rgb.set_all(9, 9, 9);
    rgb.complete_flush(5);
    assert!(rgb.is_dirty(0) && rgb.is_dirty(1));
    rgb.complete_flush(12);
    assert!(!rgb.is_dirty(0) && rgb.is_dirty(1));
    let writes = rgb.flush_writes();
    assert_eq!(writes.len(), 9);
    assert!(writes.iter().all(|w| w.addr == ADDR_RIGHT));
    rgb.complete_flush(writes.len());
    assert!(!rgb.is_dirty(0) && !rgb.is_dirty(1));
    assert!(rgb.flush_writes().is_empty());
}

#[test]
fn full_flush_cleans_everything() {
    let mut rgb = Rgb::new();
    rgb.set_all(4, 5, 6);
    let n = rgb.flush_writes().len();
    rgb.complete_flush(n);
    assert!(!rgb.is_dirty(0) && !rgb.is_dirty(1));
}

#[test]
fn rainbow_offsets_hue_by_column() {
    let mut rgb = Rgb::new();
    rgb.paint_rainbow(0, 255);
    let writes = rgb.flush_writes();
    assert_eq!(led_color(&writes, 0), (255, 0, 0));
    assert_eq!(led_color(&writes, 1), (231, 24, 0));
    let mut rgb = Rgb::new();
    rgb.paint_rainbow(0, 128);
    let writes = rgb.flush_writes();
    assert_eq!(led_color(&writes, 1), (115, 12, 0));
    // Hue wraps: column 15 at phase 200 is hue (120 + 200) % 256 = 64.
    let mut rgb = Rgb::new();
    rgb.paint_rainbow(200, 255);
    let writes = rgb.flush_writes();
    assert_eq!(LED_X[31], 15);
    assert_eq!(led_color(&writes, 31), wheel(64));
}

#[test]
fn rgb8_frame_reaches_each_led() {
    let mut frame = [(0u8, 0u8, 0u8); LED_COUNT];
    for (i, slot) in frame.iter_mut().enumerate() {
        *slot = (i as u8, 100 + i as u8, 200 - i as u8);
    }
    let mut rgb = Rgb::new();
    rgb.paint_rgb8(&frame);
    let writes = rgb.flush_writes();
    for i in 0..LED_COUNT {
        assert_eq!(led_color(&writes, i), frame[i]);
    }
}

#[test]
fn hsv_frame_is_converted_by_palettefx() {
    let mut frame = [Hsv { h: 0, s: 255, v: 255 }; LED_COUNT];
    frame[5] = Hsv { h: 100, s: 200, v: 150 };
    let mut rgb = Rgb::new();
    rgb.paint_hsv(&frame);
    let writes = rgb.flush_writes();
    assert_eq!(led_color(&writes, 0), (255, 0, 0));
    let expected = rmk_palettefx::color::hsv_to_rgb(rmk_palettefx::color::Hsv::new(100, 200, 150));
    assert_eq!(led_color(&writes, 5), (expected.r, expected.g, expected.b));
    assert_ne!(led_color(&writes, 5), (100, 200, 150));
}

#[test]
fn init_chip_sequence() {
    let steps = init_chip(0x74);
    assert_eq!(steps.len(), 37);
    let write = |i: usize| match &steps[i] {
        ChipStep::Write(w) => {
            assert_eq!(w.addr, 0x74);
            w.bytes.clone()
        }
        ChipStep::DelayMs(_) => panic!("step {} is a delay", i),
    };
    assert_eq!(write(0), vec![0xFD, 0x0B]);
    assert_eq!(write(1), vec![0x0A, 0x00]);
    assert_eq!(steps[2], ChipStep::DelayMs(10));
    assert_eq!(write(3), vec![0x00, 0x00]);
    assert_eq!(write(4), vec![0x01, 0x00]);
    assert_eq!(write(5), vec![0x06, 0x00]);
    assert_eq!(write(6), vec![0xFD, 0x00]);
    for i in 0..18 {
        assert_eq!(write(7 + i), vec![i as u8, 0xFF]);
    }
    for k in 0..9 {
        let bytes = write(25 + k);
        assert_eq!(bytes.len(), 17);
        assert_eq!(bytes[0], 0x24 + 16 * k as u8);
        assert!(bytes[1..].iter().all(|&b| b == 0));
    }
    assert_eq!(write(34), vec![0xFD, 0x0B]);
    assert_eq!(write(35), vec![0x0A, 0x01]);
    assert_eq!(write(36), vec![0xFD, 0x00]);
}

#[test]
fn layout_positions() {
    let layout = VoyagerLayout;
    assert_eq!(layout.count(), 52);
    assert_eq!(layout.position(0), (0, 11));
    assert_eq!(layout.position(25), (109, 66));
    assert_eq!(layout.position(51), (157, 60));
    for i in 0..LED_COUNT {
        for j in 0..LED_COUNT {
            if LED_X[i] == LED_X[j] {
                assert_eq!(LED_POS[i].0, LED_POS[j].0);
            }
            if LED_X[i] < LED_X[j] {
                assert!(LED_POS[i].0 < LED_POS[j].0);
            }
        }
    }
}

#[test]
fn alpha_keys_sit_in_their_column() {
    for row in (0..4u8).chain(6..10u8) {
        for col in 0..7u8 {
            if let Some(led) = key_to_led(row, col) {
                let x = LED_X[led as usize] as i32;
                if row < 4 {
                    assert_eq!(x, col as i32 - 1);
                } else {
                    assert_eq!(x, col as i32 + 10);
                }
            }
        }
    }
}

/// The six-sector formula the library states for rmk-palettefx's
/// conversion, written out on plain integers.
fn stated_hsv_to_rgb(h: u8, s: u8, v: u8) -> (u8, u8, u8) {
    let (h, s, v) = (h as u32, s as u32, v as u32);
    let sector = h / 43;
    let r = (h - sector * 43) * 6;
    let p = (v * (255 - s)) / 256;
    let q = (v * (255 - (s * r) / 256)) / 256;
    let t = (v * (255 - (s * (255 - r)) / 256)) / 256;
    let (a, b, c) = match sector {
        0 => (v, t, p),
        1 => (q, v, p),
        2 => (p, v, t),
        3 => (p, q, v),
        4 => (t, p, v),
        _ => (v, p, q),
    };
    (a as u8, b as u8, c as u8)
}

#[test]
fn stated_hsv_conversion_matches_palettefx_everywhere() {
    for h in 0..=255u8 {
        for s in 0..=255u8 {
            for v in (0..=255u8).step_by(5) {
                let out = rmk_palettefx::color::hsv_to_rgb(rmk_palettefx::color::Hsv::new(h, s, v));
                assert_eq!((out.r, out.g, out.b), stated_hsv_to_rgb(h, s, v), "h={} s={} v={}", h, s, v);
            }
        }
    }
}

#[test]
fn paint_hsv_uses_the_stated_conversion() {
    let mut frame = [Hsv { h: 0, s: 0, v: 0 }; LED_COUNT];
    for (i, slot) in frame.iter_mut().enumerate() {
        *slot = Hsv { h: (i * 5) as u8, s: 255 - i as u8, v: 200 };
    }
    let mut rgb = Rgb::new();
    rgb.paint_hsv(&frame);
    let writes = rgb.flush_writes();
    for i in 0..LED_COUNT {
        assert_eq!(led_color(&writes, i), stated_hsv_to_rgb(frame[i].h, frame[i].s, frame[i].v));
    }
}

#[test]
fn painting_twice_keeps_only_the_second() {
    let mut once = Rgb::new();
    once.set_all(7, 8, 9);
    let mut twice = Rgb::new();
    twice.paint_rainbow(33, 200);
    twice.set_all(7, 8, 9);
    let a: Vec<(u8, Vec<u8>)> = once.flush_writes().iter().map(|w| (w.addr, w.bytes.clone())).collect();
    let b: Vec<(u8, Vec<u8>)> = twice.flush_writes().iter().map(|w| (w.addr, w.bytes.clone())).collect();
    assert_eq!(a, b);
}

#[test]
fn rainbow_moves_one_column_per_eight_phase() {
    let mut later = Rgb::new();
    later.paint_rainbow(250u8.wrapping_add(8), 180);
    let mut now = Rgb::new();
    now.paint_rainbow(250, 180);
    let later_w = later.flush_writes();
    let now_w = now.flush_writes();
    for i in 0..LED_COUNT {
        for j in 0..LED_COUNT {
            if LED_X[j] == LED_X[i] + 1 {
                assert_eq!(led_color(&later_w, i), led_color(&now_w, j));
            }
            if LED_X[j] == LED_X[i] {
                assert_eq!(led_color(&now_w, i), led_color(&now_w, j));
            }
        }
    }
}

/// Runs `count` steps with the `fail`-th one failing (if any); returns
/// the indices attempted and the finished run.
fn run_plan(count: usize, fail: Option<usize>) -> (Vec<usize>, PlanRun) {
    let mut run = PlanRun::new(count);
    let mut attempted = Vec::new();
    while let Some(i) = run.next() {
        attempted.push(i);
        run.report(Some(i) != fail);
    }
    (attempted, run)
}

#[test]
fn chip_bring_up_stops_at_the_first_failed_write() {
    let steps = init_chip(0x77);
    for j in [0usize, 1, 7, 24, 36] {
        let (attempted, run) = run_plan(steps.len(), Some(j));
        assert_eq!(attempted, (0..=j).collect::<Vec<_>>());
        assert_eq!(run.succeeded(), j);
        assert_eq!(run.result(), Err(()));
        assert!(run.next().is_none());
    }
    let (attempted, run) = run_plan(steps.len(), None);
    assert_eq!(attempted.len(), 37);
    assert_eq!(run.result(), Ok(()));
}

#[test]
fn failed_flush_stops_and_keeps_the_failing_chip_dirty() {
    // Failure in the left chip's writes: nothing after it is sent, both
    // chips stay dirty.
    let mut rgb = Rgb::new();
    rgb.set_all(1, 1, 1);
    let writes = rgb.flush_writes();
    let (attempted, run) = run_plan(writes.len(), Some(4));
    assert_eq!(attempted, vec![0, 1, 2, 3, 4]);
    assert_eq!(rgb.finish_flush(&run), Err(()));
    assert!(rgb.is_dirty(0) && rgb.is_dirty(1));
    // Failure in the right chip's writes: the left chip is clean, the right
    // stays dirty and is sent again next time.
    let (attempted, run) = run_plan(writes.len(), Some(12));
    assert_eq!(attempted.len(), 13);
    assert_eq!(rgb.finish_flush(&run), Err(()));
    assert!(!rgb.is_dirty(0) && rgb.is_dirty(1));
    assert_eq!(rgb.flush_writes().len(), 9);
    let (_, run) = run_plan(9, None);
    assert_eq!(rgb.finish_flush(&run), Ok(()));
    assert!(!rgb.is_dirty(0) && !rgb.is_dirty(1));
}
