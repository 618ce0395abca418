//! The Voyager's matrix geometry and default keymap.
use vstd::prelude::*;

use crate::is31fl3731::key_led_spec;

verus! {

/// Matrix rows: 0-5 are the left half, 6-11 the right half.
pub const ROW: usize = 12;
/// Matrix columns.
pub const COL: usize = 7;
/// Layers of the default keymap.
pub const NUM_LAYER: usize = 3;

/// Index of the Escape / Equal tap dance among the morse definitions.
pub const TD_ESC_EQL: u8 = 0;

/// Modifier bits, in the HID modifier byte order.
pub const LCTRL: u8 = 0x01;
pub const LSHIFT: u8 = 0x02;
pub const LALT: u8 = 0x04;
pub const LGUI: u8 = 0x08;
pub const RCTRL: u8 = 0x10;
pub const RSHIFT: u8 = 0x20;
pub const RALT: u8 = 0x40;
pub const RGUI: u8 = 0x80;

/// The HID keys the default keymap uses.
#[derive(Clone, Copy, Debug, PartialEq, Eq, Structural)]
pub enum Key {
    Kc1,
    Kc2,
    Kc3,
    Kc4,
    Kc5,
    Kc6,
    Kc7,
    Kc8,
    Kc9,
    Kc0,
    A,
    B,
    C,
    D,
    E,
    F,
    G,
    H,
    I,
    J,
    K,
    L,
    M,
    N,
    O,
    P,
    Q,
    R,
    S,
    T,
    U,
    V,
    W,
    X,
    Y,
    Z,
    Minus,
    Equal,
    LeftBracket,
    RightBracket,
    Backslash,
    Semicolon,
    Quote,
    Grave,
    Comma,
    Dot,
    Slash,
    Escape,
    Enter,
    Space,
    Tab,
    Backspace,
    LGui,
    RCtrl,
    F1,
    F2,
    F3,
    F4,
    F5,
    F6,
    F7,
    F8,
    F9,
    F10,
    F11,
    F12,
    PageUp,
    PageDown,
    Home,
    End,
    Up,
    Down,
    Left,
    Right,
    AudioMute,
    AudioVolUp,
    AudioVolDown,
    MediaPrevTrack,
    MediaNextTrack,
    MediaStop,
    MediaPlayPause,
}

/// Keyboard control actions.
#[derive(Clone, Copy, Debug, PartialEq, Eq, Structural)]
pub enum Control {
    CapsWordToggle,
    Bootloader,
}

/// RGB lighting controls.
#[derive(Clone, Copy, Debug, PartialEq, Eq, Structural)]
pub enum Light {
    RgbModeForward,
    RgbHui,
    RgbVai,
    RgbVad,
}

/// What a key does.
#[derive(Clone, Copy, Debug, PartialEq, Eq, Structural)]
pub enum KeyAction {
    /// Nothing.
    No,
    /// Falls through to the next active layer below.
    Transparent,
    /// Sends a key.
    Key(Key),
    /// Sends a key with the given modifier bits held.
    WithModifier(Key, u8),
    /// Sends the key on tap, holds the modifier bits while held.
    ModTap(Key, u8),
    /// Sends the key on tap, activates the layer while held.
    LayerTap(u8, Key),
    /// Runs the morse (tap dance) definition with this index.
    Morse(u8),
    /// A keyboard control action.
    Control(Control),
    /// A lighting control action.
    Light(Light),
}

/// Hand assignment of a matrix cell, for unilateral tap.
#[derive(Clone, Copy, Debug, PartialEq, Eq, Structural)]
pub enum Hand {
    Unknown,
    Left,
    Right,
}

/// Rows 0-4 are the left alphas, rows 6-10 the right alphas; the thumb
/// rows 5 and 11 are `Unknown`, so a thumb mod is never resolved as a tap
/// by a press on the same hand.
pub open spec fn hand_spec(row: int) -> Hand {
    if row < 5 { Hand::Left } else if row == 5 { Hand::Unknown } else if row < 11 { Hand::Right } else { Hand::Unknown }
}

/// Per-cell hand assignment for unilateral tap (chordal hold): a morse
/// key held while another key on the same hand is pressed resolves as a
/// tap at once.
pub fn hand_map() -> (map: [[Hand; COL]; ROW])
    ensures
        forall|r: int, c: int| 0 <= r < ROW && 0 <= c < COL ==> #[trigger] map@[r]@[c] == hand_spec(r),
{
    let map = [
        [Hand::Left; COL],
        [Hand::Left; COL],
        [Hand::Left; COL],
        [Hand::Left; COL],
        [Hand::Left; COL],
        [Hand::Unknown; COL],
        [Hand::Right; COL],
        [Hand::Right; COL],
        [Hand::Right; COL],
        [Hand::Right; COL],
        [Hand::Right; COL],
        [Hand::Unknown; COL],
    ];
    map
}

fn k(key: Key) -> (a: KeyAction)
    ensures
        a == KeyAction::Key(key),
{
    KeyAction::Key(key)
}

fn shifted(key: Key) -> (a: KeyAction)
    ensures
        a == KeyAction::WithModifier(key, LSHIFT),
{
    KeyAction::WithModifier(key, LSHIFT)
}

fn wm(key: Key, mods: u8) -> (a: KeyAction)
    ensures
        a == KeyAction::WithModifier(key, mods),
{
    KeyAction::WithModifier(key, mods)
}

fn mt(key: Key, mods: u8) -> (a: KeyAction)
    ensures
        a == KeyAction::ModTap(key, mods),
{
    KeyAction::ModTap(key, mods)
}

fn lt(layer: u8, key: Key) -> (a: KeyAction)
    ensures
        a == KeyAction::LayerTap(layer, key),
{
    KeyAction::LayerTap(layer, key)
}

/// The default keymap, layer by layer and row by row.
///
/// Base layer:
///
/// ```text
///                    LEFT HALF                                 RIGHT HALF
/// row 0 :   ESC    1    2    3    4    5              6    7    8    9    0    -
/// row 1 :   CAPW   Q    W    E    R    T              Y    U    I    O    P    \
/// row 2 :   BKS*   A    S    D    F    G              H    J    K    L    ;    '*
///            sft                                                                sft
/// row 3 :   GUI    Z*   X    C    V    B              N    M    ,    .    /*   CTL
///                  alt                                                     alt
/// thumbs :                         [ENT]              [SPC]
///                                   SYM  [TAB]  [BKS]  NAV
///                                         CTL    SFT
/// ```
///
/// `*` marks a mod-tap; the thumbs ENT and SPC hold layers 1 and 2. The
/// inner-index drop keys (B left, N right) are wired to (4, 4) and
/// (10, 2). ESC is a tap dance: tap for Escape, double tap for Equal.
/// Layer 1 holds F1-F12, shifted number symbols and brackets on the left
/// and a numpad on the right; layer 2 holds lighting, volume and media on
/// the left, navigation on the right, and the bootloader key at (6, 5).
pub open spec fn default_keymap_spec() -> Seq<Seq<Seq<KeyAction>>> {
    seq![
        // Layer 0 - base (QWERTY)
        seq![
            // Left half
            seq![KeyAction::No, KeyAction::Morse(TD_ESC_EQL), KeyAction::Key(Key::Kc1), KeyAction::Key(Key::Kc2), KeyAction::Key(Key::Kc3), KeyAction::Key(Key::Kc4), KeyAction::Key(Key::Kc5)],
            seq![KeyAction::No, KeyAction::Control(Control::CapsWordToggle), KeyAction::Key(Key::Q), KeyAction::Key(Key::W), KeyAction::Key(Key::E), KeyAction::Key(Key::R), KeyAction::Key(Key::T)],
            seq![KeyAction::No, KeyAction::ModTap(Key::Backspace, LSHIFT), KeyAction::Key(Key::A), KeyAction::Key(Key::S), KeyAction::Key(Key::D), KeyAction::Key(Key::F), KeyAction::Key(Key::G)],
            seq![KeyAction::No, KeyAction::Key(Key::LGui), KeyAction::ModTap(Key::Z, LALT), KeyAction::Key(Key::X), KeyAction::Key(Key::C), KeyAction::Key(Key::V), KeyAction::No],
            seq![KeyAction::No, KeyAction::No, KeyAction::No, KeyAction::No, KeyAction::Key(Key::B), KeyAction::No, KeyAction::No],
            seq![KeyAction::LayerTap(1, Key::Enter), KeyAction::ModTap(Key::Tab, LCTRL), KeyAction::No, KeyAction::No, KeyAction::No, KeyAction::No, KeyAction::No],
            // Right half
            seq![KeyAction::Key(Key::Kc6), KeyAction::Key(Key::Kc7), KeyAction::Key(Key::Kc8), KeyAction::Key(Key::Kc9), KeyAction::Key(Key::Kc0), KeyAction::Key(Key::Minus), KeyAction::No],
            seq![KeyAction::Key(Key::Y), KeyAction::Key(Key::U), KeyAction::Key(Key::I), KeyAction::Key(Key::O), KeyAction::Key(Key::P), KeyAction::Key(Key::Backslash), KeyAction::No],
            seq![KeyAction::Key(Key::H), KeyAction::Key(Key::J), KeyAction::Key(Key::K), KeyAction::Key(Key::L), KeyAction::Key(Key::Semicolon), KeyAction::ModTap(Key::Quote, RSHIFT), KeyAction::No],
            seq![KeyAction::No, KeyAction::Key(Key::M), KeyAction::Key(Key::Comma), KeyAction::Key(Key::Dot), KeyAction::ModTap(Key::Slash, RALT), KeyAction::Key(Key::RCtrl), KeyAction::No],
            seq![KeyAction::No, KeyAction::No, KeyAction::Key(Key::N), KeyAction::No, KeyAction::No, KeyAction::No, KeyAction::No],
            seq![KeyAction::No, KeyAction::No, KeyAction::No, KeyAction::No, KeyAction::No, KeyAction::ModTap(Key::Backspace, RSHIFT), KeyAction::LayerTap(2, Key::Space)],
        ],
        // Layer 1 - symbols and numpad, held with the left inner thumb
        seq![
            // Left half
            seq![KeyAction::No, KeyAction::Key(Key::Escape), KeyAction::Key(Key::F1), KeyAction::Key(Key::F2), KeyAction::Key(Key::F3), KeyAction::Key(Key::F4), KeyAction::Key(Key::F5)],
            seq![KeyAction::No, KeyAction::Key(Key::Grave), KeyAction::WithModifier(Key::Kc1, LSHIFT), KeyAction::WithModifier(Key::Kc2, LSHIFT), KeyAction::WithModifier(Key::Kc3, LSHIFT), KeyAction::WithModifier(Key::Kc4, LSHIFT), KeyAction::WithModifier(Key::Kc5, LSHIFT)],
            seq![KeyAction::No, KeyAction::Transparent, KeyAction::WithModifier(Key::Kc6, LSHIFT), KeyAction::WithModifier(Key::Kc7, LSHIFT), KeyAction::WithModifier(Key::Kc8, LSHIFT), KeyAction::WithModifier(Key::Kc9, LSHIFT), KeyAction::WithModifier(Key::Kc0, LSHIFT)],
            seq![KeyAction::No, KeyAction::Transparent, KeyAction::Transparent, KeyAction::Key(Key::LeftBracket), KeyAction::Key(Key::RightBracket), KeyAction::WithModifier(Key::LeftBracket, LSHIFT), KeyAction::No],
            seq![KeyAction::No, KeyAction::No, KeyAction::No, KeyAction::No, KeyAction::WithModifier(Key::RightBracket, LSHIFT), KeyAction::No, KeyAction::No],
            seq![KeyAction::Transparent, KeyAction::Transparent, KeyAction::No, KeyAction::No, KeyAction::No, KeyAction::No, KeyAction::No],
            // Right half
            seq![KeyAction::Key(Key::F6), KeyAction::Key(Key::F7), KeyAction::Key(Key::F8), KeyAction::Key(Key::F9), KeyAction::Key(Key::F10), KeyAction::Key(Key::F11), KeyAction::No],
            seq![KeyAction::Key(Key::Kc7), KeyAction::Key(Key::Kc8), KeyAction::Key(Key::Kc9), KeyAction::Key(Key::Minus), KeyAction::Key(Key::Slash), KeyAction::Key(Key::F12), KeyAction::No],
            seq![KeyAction::Key(Key::Kc4), KeyAction::Key(Key::Kc5), KeyAction::Key(Key::Kc6), KeyAction::WithModifier(Key::Equal, LSHIFT), KeyAction::WithModifier(Key::Kc8, LSHIFT), KeyAction::Key(Key::Backspace), KeyAction::No],
            seq![KeyAction::No, KeyAction::Key(Key::Kc2), KeyAction::Key(Key::Kc3), KeyAction::Key(Key::Dot), KeyAction::Key(Key::Equal), KeyAction::Key(Key::Enter), KeyAction::No],
            seq![KeyAction::No, KeyAction::No, KeyAction::Key(Key::Kc1), KeyAction::No, KeyAction::No, KeyAction::No, KeyAction::No],
            seq![KeyAction::No, KeyAction::No, KeyAction::No, KeyAction::No, KeyAction::No, KeyAction::Transparent, KeyAction::Key(Key::Kc0)],
        ],
        // Layer 2 - navigation, media and lighting, held with the right outer thumb
        seq![
            // Left half
            seq![KeyAction::No, KeyAction::No, KeyAction::No, KeyAction::Light(Light::RgbModeForward), KeyAction::No, KeyAction::Light(Light::RgbVad), KeyAction::Light(Light::RgbVai)],
            seq![KeyAction::No, KeyAction::Light(Light::RgbHui), KeyAction::Transparent, KeyAction::Key(Key::AudioVolDown), KeyAction::Key(Key::AudioVolUp), KeyAction::Key(Key::AudioMute), KeyAction::Transparent],
            seq![KeyAction::No, KeyAction::Transparent, KeyAction::Key(Key::MediaPrevTrack), KeyAction::Key(Key::MediaNextTrack), KeyAction::Key(Key::MediaStop), KeyAction::Key(Key::MediaPlayPause), KeyAction::Transparent],
            seq![KeyAction::Transparent, KeyAction::Transparent, KeyAction::Transparent, KeyAction::Transparent, KeyAction::Transparent, KeyAction::Transparent, KeyAction::No],
            seq![KeyAction::No, KeyAction::No, KeyAction::No, KeyAction::No, KeyAction::Transparent, KeyAction::No, KeyAction::No],
            seq![KeyAction::Transparent, KeyAction::Transparent, KeyAction::No, KeyAction::No, KeyAction::No, KeyAction::No, KeyAction::No],
            // Right half
            seq![KeyAction::Transparent, KeyAction::Transparent, KeyAction::Transparent, KeyAction::Transparent, KeyAction::Transparent, KeyAction::Control(Control::Bootloader), KeyAction::No],
            seq![KeyAction::Key(Key::PageUp), KeyAction::Key(Key::Home), KeyAction::Key(Key::Up), KeyAction::Key(Key::End), KeyAction::Transparent, KeyAction::Transparent, KeyAction::No],
            seq![KeyAction::Key(Key::PageDown), KeyAction::Key(Key::Left), KeyAction::Key(Key::Down), KeyAction::Key(Key::Right), KeyAction::Transparent, KeyAction::Transparent, KeyAction::No],
            seq![KeyAction::No, KeyAction::WithModifier(Key::Tab, LCTRL | LSHIFT), KeyAction::WithModifier(Key::Tab, LCTRL), KeyAction::Transparent, KeyAction::Transparent, KeyAction::Transparent, KeyAction::No],
            seq![KeyAction::No, KeyAction::No, KeyAction::Transparent, KeyAction::No, KeyAction::No, KeyAction::No, KeyAction::No],
            seq![KeyAction::No, KeyAction::No, KeyAction::No, KeyAction::No, KeyAction::No, KeyAction::Transparent, KeyAction::Transparent],
        ],
    ]
}

/// The default keymap: `NUM_LAYER` layers of `ROW` x `COL` actions.
#[verifier::rlimit(100)]
pub fn get_default_keymap() -> (keymap: [[[KeyAction; COL]; ROW]; NUM_LAYER])
    ensures
        forall|l: int, r: int, c: int|
            0 <= l < NUM_LAYER && 0 <= r < ROW && 0 <= c < COL ==> #[trigger] keymap@[l]@[r]@[c]
                == default_keymap_spec()[l][r][c],
{
    let keymap = [
        // Layer 0 - base (QWERTY)
        [
            // Left half
            [KeyAction::No, KeyAction::Morse(TD_ESC_EQL), k(Key::Kc1), k(Key::Kc2), k(Key::Kc3), k(Key::Kc4), k(Key::Kc5)],
            [KeyAction::No, KeyAction::Control(Control::CapsWordToggle), k(Key::Q), k(Key::W), k(Key::E), k(Key::R), k(Key::T)],
            [KeyAction::No, mt(Key::Backspace, LSHIFT), k(Key::A), k(Key::S), k(Key::D), k(Key::F), k(Key::G)],
            [KeyAction::No, k(Key::LGui), mt(Key::Z, LALT), k(Key::X), k(Key::C), k(Key::V), KeyAction::No],
            [KeyAction::No, KeyAction::No, KeyAction::No, KeyAction::No, k(Key::B), KeyAction::No, KeyAction::No],
            [lt(1, Key::Enter), mt(Key::Tab, LCTRL), KeyAction::No, KeyAction::No, KeyAction::No, KeyAction::No, KeyAction::No],
            // Right half
            [k(Key::Kc6), k(Key::Kc7), k(Key::Kc8), k(Key::Kc9), k(Key::Kc0), k(Key::Minus), KeyAction::No],
            [k(Key::Y), k(Key::U), k(Key::I), k(Key::O), k(Key::P), k(Key::Backslash), KeyAction::No],
            [k(Key::H), k(Key::J), k(Key::K), k(Key::L), k(Key::Semicolon), mt(Key::Quote, RSHIFT), KeyAction::No],
            [KeyAction::No, k(Key::M), k(Key::Comma), k(Key::Dot), mt(Key::Slash, RALT), k(Key::RCtrl), KeyAction::No],
            [KeyAction::No, KeyAction::No, k(Key::N), KeyAction::No, KeyAction::No, KeyAction::No, KeyAction::No],
            [KeyAction::No, KeyAction::No, KeyAction::No, KeyAction::No, KeyAction::No, mt(Key::Backspace, RSHIFT), lt(2, Key::Space)],
        ],
        // Layer 1 - symbols and numpad, held with the left inner thumb
        [
            // Left half
            [KeyAction::No, k(Key::Escape), k(Key::F1), k(Key::F2), k(Key::F3), k(Key::F4), k(Key::F5)],
            [KeyAction::No, k(Key::Grave), shifted(Key::Kc1), shifted(Key::Kc2), shifted(Key::Kc3), shifted(Key::Kc4), shifted(Key::Kc5)],
            [KeyAction::No, KeyAction::Transparent, shifted(Key::Kc6), shifted(Key::Kc7), shifted(Key::Kc8), shifted(Key::Kc9), shifted(Key::Kc0)],
            [KeyAction::No, KeyAction::Transparent, KeyAction::Transparent, k(Key::LeftBracket), k(Key::RightBracket), shifted(Key::LeftBracket), KeyAction::No],
            [KeyAction::No, KeyAction::No, KeyAction::No, KeyAction::No, shifted(Key::RightBracket), KeyAction::No, KeyAction::No],
            [KeyAction::Transparent, KeyAction::Transparent, KeyAction::No, KeyAction::No, KeyAction::No, KeyAction::No, KeyAction::No],
            // Right half
            [k(Key::F6), k(Key::F7), k(Key::F8), k(Key::F9), k(Key::F10), k(Key::F11), KeyAction::No],
            [k(Key::Kc7), k(Key::Kc8), k(Key::Kc9), k(Key::Minus), k(Key::Slash), k(Key::F12), KeyAction::No],
            [k(Key::Kc4), k(Key::Kc5), k(Key::Kc6), shifted(Key::Equal), shifted(Key::Kc8), k(Key::Backspace), KeyAction::No],
            [KeyAction::No, k(Key::Kc2), k(Key::Kc3), k(Key::Dot), k(Key::Equal), k(Key::Enter), KeyAction::No],
            [KeyAction::No, KeyAction::No, k(Key::Kc1), KeyAction::No, KeyAction::No, KeyAction::No, KeyAction::No],
            [KeyAction::No, KeyAction::No, KeyAction::No, KeyAction::No, KeyAction::No, KeyAction::Transparent, k(Key::Kc0)],
        ],
        // Layer 2 - navigation, media and lighting, held with the right outer thumb
        [
            // Left half
            [KeyAction::No, KeyAction::No, KeyAction::No, KeyAction::Light(Light::RgbModeForward), KeyAction::No, KeyAction::Light(Light::RgbVad), KeyAction::Light(Light::RgbVai)],
            [KeyAction::No, KeyAction::Light(Light::RgbHui), KeyAction::Transparent, k(Key::AudioVolDown), k(Key::AudioVolUp), k(Key::AudioMute), KeyAction::Transparent],
            [KeyAction::No, KeyAction::Transparent, k(Key::MediaPrevTrack), k(Key::MediaNextTrack), k(Key::MediaStop), k(Key::MediaPlayPause), KeyAction::Transparent],
            [KeyAction::Transparent, KeyAction::Transparent, KeyAction::Transparent, KeyAction::Transparent, KeyAction::Transparent, KeyAction::Transparent, KeyAction::No],
            [KeyAction::No, KeyAction::No, KeyAction::No, KeyAction::No, KeyAction::Transparent, KeyAction::No, KeyAction::No],
            [KeyAction::Transparent, KeyAction::Transparent, KeyAction::No, KeyAction::No, KeyAction::No, KeyAction::No, KeyAction::No],
            // Right half
            [KeyAction::Transparent, KeyAction::Transparent, KeyAction::Transparent, KeyAction::Transparent, KeyAction::Transparent, KeyAction::Control(Control::Bootloader), KeyAction::No],
            [k(Key::PageUp), k(Key::Home), k(Key::Up), k(Key::End), KeyAction::Transparent, KeyAction::Transparent, KeyAction::No],
            [k(Key::PageDown), k(Key::Left), k(Key::Down), k(Key::Right), KeyAction::Transparent, KeyAction::Transparent, KeyAction::No],
            [KeyAction::No, wm(Key::Tab, LCTRL | LSHIFT), wm(Key::Tab, LCTRL), KeyAction::Transparent, KeyAction::Transparent, KeyAction::Transparent, KeyAction::No],
            [KeyAction::No, KeyAction::No, KeyAction::Transparent, KeyAction::No, KeyAction::No, KeyAction::No, KeyAction::No],
            [KeyAction::No, KeyAction::No, KeyAction::No, KeyAction::No, KeyAction::No, KeyAction::Transparent, KeyAction::Transparent],
        ],
    ];
    keymap
}

/// The keymap follows the wiring: on the base layer a cell has an action
/// exactly when a physical key with an LED sits there, and on every layer
/// a cell without a key does nothing (`No`, or `Transparent` down to a
/// `No`).
pub proof fn lemma_keymap_follows_wiring(l: int, r: int, c: int)
    requires
        0 <= l < NUM_LAYER,
        0 <= r < ROW,
        0 <= c < COL,
    ensures
        (default_keymap_spec()[0][r][c] != KeyAction::No) <==> key_led_spec(r, c) is Some,
        key_led_spec(r, c) is None ==> default_keymap_spec()[l][r][c] == KeyAction::No
            || default_keymap_spec()[l][r][c] == KeyAction::Transparent,
{
}

/// Layer keys: only base-layer keys switch layers, each to an existing
/// upper layer, and the holding key is transparent on the layer it holds,
/// so releasing it always reaches the base layer's action.
pub proof fn lemma_layer_keys_fall_through(l: int, r: int, c: int)
    requires
        0 <= l < NUM_LAYER,
        0 <= r < ROW,
        0 <= c < COL,
    ensures
        default_keymap_spec()[l][r][c] is LayerTap ==> l == 0,
        default_keymap_spec()[0][r][c] matches KeyAction::LayerTap(target, _) ==> {
            &&& 0 < target < NUM_LAYER
            &&& default_keymap_spec()[target as int][r][c] == KeyAction::Transparent
        },
{
}

/// The outer key of the top left row is the Escape / Equal tap dance, and
/// the bootloader key sits on the navigation layer.
pub proof fn lemma_keymap_special_keys()
    ensures
        default_keymap_spec()[0][0][1] == KeyAction::Morse(TD_ESC_EQL),
        default_keymap_spec()[2][6][5] == KeyAction::Control(Control::Bootloader),
        default_keymap_spec().len() == NUM_LAYER,
        forall|l: int| 0 <= l < NUM_LAYER ==> #[trigger] default_keymap_spec()[l].len() == ROW,
        forall|l: int, r: int| 0 <= l < NUM_LAYER && 0 <= r < ROW ==> #[trigger] default_keymap_spec()[l][r].len() == COL,
{
}

/// The key a cell sends when tapped, if it sends one.
pub open spec fn tap_key(a: KeyAction) -> Option<Key> {
    match a {
        KeyAction::Key(k) => Some(k),
        KeyAction::ModTap(k, _) => Some(k),
        KeyAction::LayerTap(_, k) => Some(k),
        _ => None,
    }
}

/// Cell of the `n`-th key (0..10) of a row that spans both halves: five
/// keys at columns 2-6 of left row `row`, then five at columns 0-4 of the
/// matching right row `row + 6`.
pub open spec fn split_row_cell(row: int, n: int) -> (int, int) {
    if n < 5 { (row, n + 2) } else { (row + 6, n - 5) }
}

/// Cells of the bottom letter row, left to right: Z X C V on row 3, the
/// inner drop keys B at (4, 4) and N at (10, 2), then M , . / on row 9.
pub open spec fn bottom_row_cell(n: int) -> (int, int) {
    if n < 4 { (3, n + 2) } else if n == 4 { (4, 4) } else if n == 5 { (10, 2) } else { (9, n - 5) }
}

/// The base layer is QWERTY: read left to right across both halves, the
/// number row taps 1-9, 0; the top row Q W E R T Y U I O P; the home row
/// A S D F G H J K L ;; the bottom row Z X C V B N M , . /.
pub proof fn lemma_base_layer_is_qwerty(n: int)
    requires
        0 <= n < 10,
    ensures
        ({
            let km = default_keymap_spec();
            let numbers = seq![Key::Kc1, Key::Kc2, Key::Kc3, Key::Kc4, Key::Kc5, Key::Kc6, Key::Kc7, Key::Kc8, Key::Kc9, Key::Kc0];
            let top = seq![Key::Q, Key::W, Key::E, Key::R, Key::T, Key::Y, Key::U, Key::I, Key::O, Key::P];
            let home = seq![Key::A, Key::S, Key::D, Key::F, Key::G, Key::H, Key::J, Key::K, Key::L, Key::Semicolon];
            let bottom = seq![Key::Z, Key::X, Key::C, Key::V, Key::B, Key::N, Key::M, Key::Comma, Key::Dot, Key::Slash];
            &&& tap_key(km[0][split_row_cell(0, n).0][split_row_cell(0, n).1]) == Some(numbers[n])
            &&& tap_key(km[0][split_row_cell(1, n).0][split_row_cell(1, n).1]) == Some(top[n])
            &&& tap_key(km[0][split_row_cell(2, n).0][split_row_cell(2, n).1]) == Some(home[n])
            &&& tap_key(km[0][bottom_row_cell(n).0][bottom_row_cell(n).1]) == Some(bottom[n])
        }),
{
}

/// The base layer's modifiers and thumbs are as drawn: Backspace / left
/// Shift on the outer home key, Z / left Alt, Quote and the right thumb
/// Backspace / right Shift, Slash / right Alt, Tab / left Ctrl on the left
/// thumb; Enter holds the symbol layer and Space the navigation layer;
/// Caps Word, left GUI, right Ctrl, Minus and Backslash on the outer keys.
pub proof fn lemma_base_layer_modifiers()
    ensures
        ({
            let km = default_keymap_spec();
            &&& km[0][2][1] == KeyAction::ModTap(Key::Backspace, 0x02)
            &&& km[0][3][2] == KeyAction::ModTap(Key::Z, 0x04)
            &&& km[0][8][5] == KeyAction::ModTap(Key::Quote, 0x20)
            &&& km[0][9][4] == KeyAction::ModTap(Key::Slash, 0x40)
            &&& km[0][5][1] == KeyAction::ModTap(Key::Tab, 0x01)
            &&& km[0][11][5] == KeyAction::ModTap(Key::Backspace, 0x20)
            &&& km[0][5][0] == KeyAction::LayerTap(1, Key::Enter)
            &&& km[0][11][6] == KeyAction::LayerTap(2, Key::Space)
            &&& km[0][1][1] == KeyAction::Control(Control::CapsWordToggle)
            &&& km[0][3][1] == KeyAction::Key(Key::LGui)
            &&& km[0][9][5] == KeyAction::Key(Key::RCtrl)
            &&& km[0][6][5] == KeyAction::Key(Key::Minus)
            &&& km[0][7][5] == KeyAction::Key(Key::Backslash)
        }),
{
}

/// The symbol layer puts the shifted number row on the left: `n`-th of
/// ! @ # $ % over columns 2-6 of row 1, ^ & * ( ) on row 2 (Shift with
/// 1-5 and 6-0); brackets [ ] and braces { } on row 3 and the drop key;
/// on the right, - / + * = . around the numpad and Backspace, Enter, F12
/// on the outer column.
pub proof fn lemma_symbol_layer_symbols(n: int)
    requires
        0 <= n < 5,
    ensures
        ({
            let km = default_keymap_spec();
            let upper = seq![Key::Kc1, Key::Kc2, Key::Kc3, Key::Kc4, Key::Kc5];
            let lower = seq![Key::Kc6, Key::Kc7, Key::Kc8, Key::Kc9, Key::Kc0];
            &&& km[1][1][n + 2] == KeyAction::WithModifier(upper[n], 0x02)
            &&& km[1][2][n + 2] == KeyAction::WithModifier(lower[n], 0x02)
            &&& km[1][0][1] == KeyAction::Key(Key::Escape) && km[1][1][1] == KeyAction::Key(Key::Grave)
            &&& km[1][3][3] == KeyAction::Key(Key::LeftBracket) && km[1][3][4] == KeyAction::Key(Key::RightBracket)
            &&& km[1][3][5] == KeyAction::WithModifier(Key::LeftBracket, 0x02)
            &&& km[1][4][4] == KeyAction::WithModifier(Key::RightBracket, 0x02)
            &&& km[1][7][3] == KeyAction::Key(Key::Minus) && km[1][7][4] == KeyAction::Key(Key::Slash)
            &&& km[1][8][3] == KeyAction::WithModifier(Key::Equal, 0x02)
            &&& km[1][8][4] == KeyAction::WithModifier(Key::Kc8, 0x02)
            &&& km[1][9][3] == KeyAction::Key(Key::Dot) && km[1][9][4] == KeyAction::Key(Key::Equal)
            &&& km[1][8][5] == KeyAction::Key(Key::Backspace) && km[1][9][5] == KeyAction::Key(Key::Enter)
        }),
{
}

/// The navigation layer holds lighting (mode, hue, value down and up),
/// volume down, up and mute, media previous, next, stop and play/pause on
/// the left, and Ctrl+Shift+Tab / Ctrl+Tab under the right index finger.
pub proof fn lemma_nav_layer_media()
    ensures
        ({
            let km = default_keymap_spec();
            &&& km[2][0][3] == KeyAction::Light(Light::RgbModeForward)
            &&& km[2][0][5] == KeyAction::Light(Light::RgbVad) && km[2][0][6] == KeyAction::Light(Light::RgbVai)
            &&& km[2][1][1] == KeyAction::Light(Light::RgbHui)
            &&& km[2][1][3] == KeyAction::Key(Key::AudioVolDown) && km[2][1][4] == KeyAction::Key(Key::AudioVolUp)
            &&& km[2][1][5] == KeyAction::Key(Key::AudioMute)
            &&& km[2][2][2] == KeyAction::Key(Key::MediaPrevTrack) && km[2][2][3] == KeyAction::Key(Key::MediaNextTrack)
            &&& km[2][2][4] == KeyAction::Key(Key::MediaStop) && km[2][2][5] == KeyAction::Key(Key::MediaPlayPause)
            &&& km[2][9][1] == KeyAction::WithModifier(Key::Tab, 0x03)
            &&& km[2][9][2] == KeyAction::WithModifier(Key::Tab, 0x01)
        }),
{
    assert(0x01u8 | 0x02u8 == 0x03u8) by (bit_vector);
}

/// The symbol layer holds a numpad on the right half (7 8 9 / 4 5 6 /
/// 1 2 3 over the home keys, 0 on the outer thumb) and F1-F12 across the
/// top rows; the navigation layer holds the arrows as an inverted T under
/// the right index and middle fingers, flanked by Page Up / Home / End
/// and Page Down.
pub proof fn lemma_upper_layers_layout(n: int)
    requires
        0 <= n < 12,
    ensures
        ({
            let km = default_keymap_spec();
            let fkeys = seq![Key::F1, Key::F2, Key::F3, Key::F4, Key::F5, Key::F6, Key::F7, Key::F8, Key::F9, Key::F10, Key::F11, Key::F12];
            let fcell = if n < 5 { (0, n + 2) } else if n < 11 { (6, n - 5) } else { (7, 5) };
            &&& km[1][fcell.0][fcell.1] == KeyAction::Key(fkeys[n])
            &&& km[1][7][0] == KeyAction::Key(Key::Kc7) && km[1][7][1] == KeyAction::Key(Key::Kc8)
                && km[1][7][2] == KeyAction::Key(Key::Kc9)
            &&& km[1][8][0] == KeyAction::Key(Key::Kc4) && km[1][8][1] == KeyAction::Key(Key::Kc5)
                && km[1][8][2] == KeyAction::Key(Key::Kc6)
            &&& km[1][10][2] == KeyAction::Key(Key::Kc1) && km[1][9][1] == KeyAction::Key(Key::Kc2)
                && km[1][9][2] == KeyAction::Key(Key::Kc3)
            &&& km[1][11][6] == KeyAction::Key(Key::Kc0)
            &&& km[2][7][2] == KeyAction::Key(Key::Up) && km[2][8][1] == KeyAction::Key(Key::Left)
                && km[2][8][2] == KeyAction::Key(Key::Down) && km[2][8][3] == KeyAction::Key(Key::Right)
            &&& km[2][7][0] == KeyAction::Key(Key::PageUp) && km[2][7][1] == KeyAction::Key(Key::Home)
                && km[2][7][3] == KeyAction::Key(Key::End) && km[2][8][0] == KeyAction::Key(Key::PageDown)
        }),
{
}

} // verus!
