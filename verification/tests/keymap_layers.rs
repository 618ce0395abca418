use voyager::is31fl3731::key_to_led;
use voyager::keymap::{
    get_default_keymap, Control, Key, KeyAction, Light, COL, LALT, LCTRL, LSHIFT, NUM_LAYER, RSHIFT,
    ROW, TD_ESC_EQL,
};

#[test]
fn base_layer_sample() {
    let km = get_default_keymap();
    assert_eq!(km[0][0][0], KeyAction::No);
    assert_eq!(km[0][0][1], KeyAction::Morse(TD_ESC_EQL));
    assert_eq!(km[0][0][2], KeyAction::Key(Key::Kc1));
    assert_eq!(km[0][1][1], KeyAction::Control(Control::CapsWordToggle));
    assert_eq!(km[0][1][2], KeyAction::Key(Key::Q));
    assert_eq!(km[0][2][1], KeyAction::ModTap(Key::Backspace, LSHIFT));
    assert_eq!(km[0][3][2], KeyAction::ModTap(Key::Z, LALT));
    assert_eq!(km[0][4][4], KeyAction::Key(Key::B));
    assert_eq!(km[0][5][0], KeyAction::LayerTap(1, Key::Enter));
    assert_eq!(km[0][5][1], KeyAction::ModTap(Key::Tab, LCTRL));
    assert_eq!(km[0][8][5], KeyAction::ModTap(Key::Quote, RSHIFT));
    assert_eq!(km[0][10][2], KeyAction::Key(Key::N));
    assert_eq!(km[0][11][6], KeyAction::LayerTap(2, Key::Space));
}

#[test]
fn upper_layers_sample() {
    let km = get_default_keymap();
    assert_eq!(km[1][1][2], KeyAction::WithModifier(Key::Kc1, LSHIFT));
    assert_eq!(km[1][7][0], KeyAction::Key(Key::Kc7));
    assert_eq!(km[1][11][6], KeyAction::Key(Key::Kc0));
    assert_eq!(km[2][0][3], KeyAction::Light(Light::RgbModeForward));
    assert_eq!(km[2][1][1], KeyAction::Light(Light::RgbHui));
    assert_eq!(km[2][6][5], KeyAction::Control(Control::Bootloader));
    assert_eq!(km[2][9][1], KeyAction::WithModifier(Key::Tab, LCTRL | LSHIFT));
    assert_eq!(km[2][9][2], KeyAction::WithModifier(Key::Tab, LCTRL));
    assert_eq!(km[2][8][1], KeyAction::Key(Key::Left));
}

#[test]
fn keymap_follows_wiring() {
    let km = get_default_keymap();
    for r in 0..ROW {
        for c in 0..COL {
            let wired = key_to_led(r as u8, c as u8).is_some();
            assert_eq!(km[0][r][c] != KeyAction::No, wired, "cell ({}, {})", r, c);
            if !wired {
                for l in 0..NUM_LAYER {
                    assert!(km[l][r][c] == KeyAction::No || km[l][r][c] == KeyAction::Transparent);
                }
            }
        }
    }
}

#[test]
fn layer_keys_fall_through() {
    let km = get_default_keymap();
    let mut holds = 0;
    for l in 0..NUM_LAYER {
        for r in 0..ROW {
            for c in 0..COL {
                if let KeyAction::LayerTap(target, _) = km[l][r][c] {
                    assert_eq!(l, 0);
                    assert!(target > 0 && (target as usize) < NUM_LAYER);
                    assert_eq!(km[target as usize][r][c], KeyAction::Transparent);
                    holds += 1;
                }
            }
        }
    }
    assert_eq!(holds, 2);
}
