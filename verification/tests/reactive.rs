use rmk_palettefx::color::Hsv;
use rmk_palettefx::effects::{FrameParams, ReactiveState};
use rmk_palettefx::layout::SliceLayout;
use rmk_palettefx::palette::{hsv16, Palette};
use voyager::is31fl3731::{LED_COUNT, LED_POS};
use voyager::lighting::record_key_hit;

const PALETTE: Palette = [
    hsv16(0, 255, 255),
    hsv16(16, 255, 255),
    hsv16(32, 255, 255),
    hsv16(48, 255, 255),
    hsv16(64, 255, 255),
    hsv16(80, 255, 255),
    hsv16(96, 255, 255),
    hsv16(112, 255, 255),
    hsv16(128, 255, 255),
    hsv16(144, 255, 255),
    hsv16(160, 255, 255),
    hsv16(176, 255, 255),
    hsv16(192, 255, 255),
    hsv16(208, 255, 255),
    hsv16(224, 255, 255),
    hsv16(240, 255, 255),
];

fn render(state: &mut ReactiveState<16>, timer_ms: u32) -> [Hsv; LED_COUNT] {
    let layout = SliceLayout::new(&LED_POS);
    let mut out = [Hsv::default(); LED_COUNT];
    state.tick(
        &layout,
        FrameParams { palette: &PALETTE, speed: 128, sat: 255, val: 255, timer_ms },
        &mut out,
    );
    out
}

#[test]
fn out_of_range_led_records_nothing() {
    let mut state = ReactiveState::<16>::new();
    assert!(!record_key_hit(&mut state, 52, 10));
    assert!(!record_key_hit(&mut state, 255, 10));
    let mut fresh = ReactiveState::<16>::new();
    assert_eq!(render(&mut state, 40), render(&mut fresh, 40));
}

#[test]
fn recorded_hit_lights_its_key() {
    let mut state = ReactiveState::<16>::new();
    assert!(record_key_hit(&mut state, 14, 10));
    let mut fresh = ReactiveState::<16>::new();
    let lit = render(&mut state, 40);
    let dark = render(&mut fresh, 40);
    assert_ne!(lit[14], dark[14]);
    // Far away on the other half nothing changes.
    assert_eq!(lit[40], dark[40]);
}
