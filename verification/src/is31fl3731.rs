//! Per-key RGB through two IS31FL3731 drivers on the shared I2C bus:
//! the chip at 0x74 drives the left half, the one at 0x77 the right half,
//! 26 keys each. `led_entry` maps a flat LED index to its chip and its
//! red, green and blue PWM registers; `key_to_led` maps a matrix cell to
//! the LED under it.
use vstd::prelude::*;

use crate::bus::{writes_view, BusWrite, PlanRun};
use crate::keymap::{hand_spec, Hand, COL, ROW};

verus! {

/// I2C address of the left-half driver (ADDR tied to GND).
pub const ADDR_LEFT: u8 = 0x74;
/// I2C address of the right-half driver (ADDR tied to VCC).
pub const ADDR_RIGHT: u8 = 0x77;

/// Number of driver chips.
pub const CHIP_COUNT: usize = 2;
/// PWM registers per chip (frame page registers 0x24..=0xB3).
pub const PWM_BYTES: usize = 144;
/// Number of physical RGB LEDs across both halves.
pub const LED_COUNT: usize = 52;

/// Value of the IS31FL3731 register name `Cn_m`: `(n - 1) * 16 + (m - 1)`.
pub open spec fn reg_spec(n: int, m: int) -> int {
    (n - 1) * 16 + (m - 1)
}

/// Encodes the IS31FL3731 register name `Cn_m`.
pub fn c(n: u8, m: u8) -> (reg: u8)
    requires
        1 <= n <= 16,
        1 <= m <= 16,
    ensures
        reg == reg_spec(n as int, m as int),
{
    (n - 1) * 16 + (m - 1)
}

/// One physical LED: the chip it sits on and its three PWM registers.
#[derive(Clone, Copy, Debug, PartialEq, Eq, Structural)]
pub struct LedEntry {
    pub chip: u8,
    pub r: u8,
    pub g: u8,
    pub b: u8,
}

/// Builds an `LedEntry`.
pub fn e(chip: u8, r: u8, g: u8, b: u8) -> (entry: LedEntry)
    ensures
        entry == (LedEntry { chip, r, g, b }),
{
    LedEntry { chip, r, g, b }
}

/// Chip of LED `i`: the first 26 LEDs are on the left driver.
pub open spec fn led_chip(i: int) -> u8 {
    if i < 26 { 0 } else { 1 }
}

/// Whether LED `i` is wired to the upper register bank (matrix rows 7, 8,
/// 9) rather than the lower one (rows 1, 2, 3).
pub open spec fn led_upper_bank(i: int) -> bool {
    (7 <= i <= 12) || (20 <= i <= 25) || (32 <= i <= 36) || i == 43 || (44 <= i <= 47) || (50 <= i <= 51)
}

/// Matrix column `m` (1..=16) that LED `i` occupies in its bank.
pub open spec fn led_column(i: int) -> int {
    if i <= 6 { i + 2 }
    else if i <= 12 { i - 6 }
    else if i <= 19 { i - 3 }
    else if i <= 25 { i - 11 }
    else if i <= 31 { 33 - i }
    else if i <= 36 { 37 - i }
    else if i == 37 { 8 }
    else if i <= 42 { 52 - i }
    else if i == 43 { 6 }
    else if i <= 47 { 56 - i }
    else { 64 - i }
}

/// The wiring of LED `i`. In the lower bank red is row 2, green row 1 and
/// blue row 3, except that columns 2 and 10 take their blue from
/// `C4_3` and `C4_11`; in the upper bank red, green and blue are rows 8, 7
/// and 9.
pub open spec fn led_entry_spec(i: int) -> LedEntry {
    let m = led_column(i);
    if led_upper_bank(i) {
        LedEntry {
            chip: led_chip(i),
            r: reg_spec(8, m) as u8,
            g: reg_spec(7, m) as u8,
            b: reg_spec(9, m) as u8,
        }
    } else {
        LedEntry {
            chip: led_chip(i),
            r: reg_spec(2, m) as u8,
            g: reg_spec(1, m) as u8,
            b: if m == 2 { reg_spec(4, 3) as u8 } else if m == 10 { reg_spec(4, 11) as u8 } else { reg_spec(3, m) as u8 },
        }
    }
}

/// The 52 physical LEDs in the order the Voyager wires them: left half
/// rows 0-5 top to bottom, then right half rows 6-11.
#[verifier::rlimit(40)]
pub fn led_entry(i: usize) -> (entry: LedEntry)
    requires
        i < LED_COUNT,
    ensures
        entry == led_entry_spec(i as int),
{
    match i {
        0 => e(0, c(2, 2), c(1, 2), c(4, 3)),
        1 => e(0, c(2, 3), c(1, 3), c(3, 3)),
        2 => e(0, c(2, 4), c(1, 4), c(3, 4)),
        3 => e(0, c(2, 5), c(1, 5), c(3, 5)),
        4 => e(0, c(2, 6), c(1, 6), c(3, 6)),
        5 => e(0, c(2, 7), c(1, 7), c(3, 7)),
        6 => e(0, c(2, 8), c(1, 8), c(3, 8)),
        7 => e(0, c(8, 1), c(7, 1), c(9, 1)),
        8 => e(0, c(8, 2), c(7, 2), c(9, 2)),
        9 => e(0, c(8, 3), c(7, 3), c(9, 3)),
        10 => e(0, c(8, 4), c(7, 4), c(9, 4)),
        11 => e(0, c(8, 5), c(7, 5), c(9, 5)),
        12 => e(0, c(8, 6), c(7, 6), c(9, 6)),
        13 => e(0, c(2, 10), c(1, 10), c(4, 11)),
        14 => e(0, c(2, 11), c(1, 11), c(3, 11)),
        15 => e(0, c(2, 12), c(1, 12), c(3, 12)),
        16 => e(0, c(2, 13), c(1, 13), c(3, 13)),
        17 => e(0, c(2, 14), c(1, 14), c(3, 14)),
        18 => e(0, c(2, 15), c(1, 15), c(3, 15)),
        19 => e(0, c(2, 16), c(1, 16), c(3, 16)),
        20 => e(0, c(8, 9), c(7, 9), c(9, 9)),
        21 => e(0, c(8, 10), c(7, 10), c(9, 10)),
        22 => e(0, c(8, 11), c(7, 11), c(9, 11)),
        23 => e(0, c(8, 12), c(7, 12), c(9, 12)),
        24 => e(0, c(8, 13), c(7, 13), c(9, 13)),
        25 => e(0, c(8, 14), c(7, 14), c(9, 14)),
        26 => e(1, c(2, 7), c(1, 7), c(3, 7)),
        27 => e(1, c(2, 6), c(1, 6), c(3, 6)),
        28 => e(1, c(2, 5), c(1, 5), c(3, 5)),
        29 => e(1, c(2, 4), c(1, 4), c(3, 4)),
        30 => e(1, c(2, 3), c(1, 3), c(3, 3)),
        31 => e(1, c(2, 2), c(1, 2), c(4, 3)),
        32 => e(1, c(8, 5), c(7, 5), c(9, 5)),
        33 => e(1, c(8, 4), c(7, 4), c(9, 4)),
        34 => e(1, c(8, 3), c(7, 3), c(9, 3)),
        35 => e(1, c(8, 2), c(7, 2), c(9, 2)),
        36 => e(1, c(8, 1), c(7, 1), c(9, 1)),
        37 => e(1, c(2, 8), c(1, 8), c(3, 8)),
        38 => e(1, c(2, 14), c(1, 14), c(3, 14)),
        39 => e(1, c(2, 13), c(1, 13), c(3, 13)),
        40 => e(1, c(2, 12), c(1, 12), c(3, 12)),
        41 => e(1, c(2, 11), c(1, 11), c(3, 11)),
        42 => e(1, c(2, 10), c(1, 10), c(4, 11)),
        43 => e(1, c(8, 6), c(7, 6), c(9, 6)),
        44 => e(1, c(8, 12), c(7, 12), c(9, 12)),
        45 => e(1, c(8, 11), c(7, 11), c(9, 11)),
        46 => e(1, c(8, 10), c(7, 10), c(9, 10)),
        47 => e(1, c(8, 9), c(7, 9), c(9, 9)),
        48 => e(1, c(2, 16), c(1, 16), c(3, 16)),
        49 => e(1, c(2, 15), c(1, 15), c(3, 15)),
        50 => e(1, c(8, 14), c(7, 14), c(9, 14)),
        _ => e(1, c(8, 13), c(7, 13), c(9, 13)),
    }
}

/// Position of channel `k` (0: red, 1: green, 2: blue) of LED `i` in the
/// two chips' PWM buffers laid end to end.
pub open spec fn led_channel(i: int, k: int) -> int {
    let entry = led_entry_spec(i);
    let reg = if k == 0 { entry.r } else if k == 1 { entry.g } else { entry.b };
    led_chip(i) * PWM_BYTES + reg
}

/// Every register of the LED table lies in the PWM page, and the three
/// channels of one LED are distinct registers.
pub proof fn lemma_led_registers(i: int)
    requires
        0 <= i < LED_COUNT,
    ensures
        led_entry_spec(i).r < PWM_BYTES,
        led_entry_spec(i).g < PWM_BYTES,
        led_entry_spec(i).b < PWM_BYTES,
        led_entry_spec(i).r != led_entry_spec(i).g,
        led_entry_spec(i).r != led_entry_spec(i).b,
        led_entry_spec(i).g != led_entry_spec(i).b,
        led_entry_spec(i).chip < CHIP_COUNT,
{
}

/// The LED wired to column `m` of the given bank of chip `chip`.
pub open spec fn led_at(chip: u8, upper: bool, m: int) -> int {
    if chip == 0 {
        if !upper {
            if m <= 8 { m - 2 } else { m + 3 }
        } else {
            if m <= 6 { m + 6 } else { m + 11 }
        }
    } else {
        if !upper {
            if m <= 7 { 33 - m } else if m == 8 { 37 } else if m <= 14 { 52 - m } else { 64 - m }
        } else {
            if m <= 5 { 37 - m } else if m == 6 { 43 } else if m <= 12 { 56 - m } else { 64 - m }
        }
    }
}

/// Chip, bank and column determine the LED.
proof fn lemma_led_position_determines_led(i: int)
    requires
        0 <= i < LED_COUNT,
    ensures
        led_at(led_chip(i), led_upper_bank(i), led_column(i)) == i,
        1 <= led_column(i) <= 16,
{
}

/// No two LEDs share a PWM register: the 156 channels of the table are
/// pairwise distinct, so writing one LED never disturbs another.
pub proof fn lemma_led_channels_disjoint(i: int, k1: int, j: int, k2: int)
    requires
        0 <= i < LED_COUNT,
        0 <= j < LED_COUNT,
        0 <= k1 < 3,
        0 <= k2 < 3,
        i != j || k1 != k2,
    ensures
        led_channel(i, k1) != led_channel(j, k2),
        0 <= led_channel(i, k1) < CHIP_COUNT * PWM_BYTES,
{
    lemma_led_registers(i);
    lemma_led_registers(j);
    lemma_led_position_determines_led(i);
    lemma_led_position_determines_led(j);
    if led_chip(i) == led_chip(j) && k1 == k2 {
        let mi = led_column(i);
        let mj = led_column(j);
        let ui = led_upper_bank(i);
        let uj = led_upper_bank(j);
        if led_channel(i, k1) == led_channel(j, k2) {
            assert(ui == uj && mi == mj);
            assert(false);
        }
    }
}
/// Physical column (0..=15 across both halves) of each LED, in table
/// order. The rainbow animation offsets each key's hue by it.
pub const LED_X: [u8; LED_COUNT] = [
    // Left half (chip 0)
    0, 1, 2, 3, 4, 5,
    0, 1, 2, 3, 4, 5,
    0, 1, 2, 3, 4, 5,
    0, 1, 2, 3, 4,
    5,
    5, 6,
    // Right half (chip 1)
    10, 11, 12, 13, 14, 15,
    10, 11, 12, 13, 14, 15,
    10, 11, 12, 13, 14, 15,
    10,
    11, 12, 13, 14, 15,
    9, 10,
];

/// Adafruit-style hue wheel: red -> green -> blue -> red over 0..=255.
pub open spec fn wheel_spec(pos: u8) -> (u8, u8, u8) {
    if pos < 85 {
        ((255 - pos * 3) as u8, (pos * 3) as u8, 0)
    } else if pos < 170 {
        ((0) as u8, (255 - (pos - 85) * 3) as u8, ((pos - 85) * 3) as u8)
    } else {
        (((pos - 170) * 3) as u8, 0, (255 - (pos - 170) * 3) as u8)
    }
}

/// Hue wheel: sweeps red -> green -> blue -> red.
pub fn wheel(pos: u8) -> (rgb: (u8, u8, u8))
    ensures
        rgb == wheel_spec(pos),
        rgb.0 + rgb.1 + rgb.2 == 255,
{
    if pos < 85 {
        (255 - pos * 3, pos * 3, 0)
    } else if pos < 170 {
        let p = pos - 85;
        (0, 255 - p * 3, p * 3)
    } else {
        let p = pos - 170;
        (p * 3, 0, 255 - p * 3)
    }
}

/// `c` scaled by `brightness / 255`, rounded down.
pub open spec fn scale_spec(c: u8, brightness: u8) -> u8 {
    ((c * brightness) / 255) as u8
}

/// Scales one colour channel by a brightness in 0..=255.
pub fn scale(c: u8, brightness: u8) -> (out: u8)
    ensures
        out == scale_spec(c, brightness),
        out <= c,
        brightness == 255 ==> out == c,
        brightness == 0 ==> out == 0,
{
    assert(c * brightness <= 255 * 255) by (nonlinear_arith)
        requires
            c <= 255,
            brightness <= 255,
    ;
    let prod: u16 = c as u16 * brightness as u16;
    assert(prod / 255 <= c) by (nonlinear_arith)
        requires
            prod == c * brightness,
            brightness <= 255,
            c <= 255,
    ;
    (prod / 255) as u8
}

/// `pwm` with the three channels of LED `i` set to `color`.
pub open spec fn paint_led(pwm: Seq<u8>, i: int, color: (u8, u8, u8)) -> Seq<u8> {
    pwm.update(led_channel(i, 0), color.0).update(led_channel(i, 1), color.1).update(
        led_channel(i, 2),
        color.2,
    )
}

/// `pwm` after LEDs `0..n` have been painted, in table order, with the
/// colours `frame[0..n]`.
pub open spec fn painted(pwm: Seq<u8>, frame: Seq<(u8, u8, u8)>, n: nat) -> Seq<u8>
    decreases n,
{
    if n == 0 {
        pwm
    } else {
        paint_led(painted(pwm, frame, (n - 1) as nat), n - 1, frame[n - 1])
    }
}

/// In-memory PWM state for both chips; `flush_writes` yields the bus
/// writes that push it to the hardware.
pub struct Rgb {
    pwm: Vec<u8>,
    dirty: Vec<bool>,
}

impl Rgb {
    /// The PWM registers of both chips laid end to end: chip `k`'s
    /// register `reg` is at `k * PWM_BYTES + reg`.
    pub closed spec fn pwm_view(&self) -> Seq<u8> {
        self.pwm@
    }

    /// Whether each chip has changes not yet flushed.
    pub closed spec fn dirty_view(&self) -> Seq<bool> {
        self.dirty@
    }

    /// The buffer covers both chips.
    pub closed spec fn wf(&self) -> bool {
        &&& self.pwm@.len() == CHIP_COUNT * PWM_BYTES
        &&& self.dirty@.len() == CHIP_COUNT
    }

    /// A well-formed buffer holds 144 registers for each of the two chips
    /// and one dirty flag per chip.
    pub proof fn lemma_wf_lengths(&self)
        requires
            self.wf(),
        ensures
            self.pwm_view().len() == CHIP_COUNT * PWM_BYTES,
            self.dirty_view().len() == CHIP_COUNT,
    {
    }

    /// All LEDs off, nothing to flush.
    pub fn new() -> (rgb: Self)
        ensures
            rgb.wf(),
            rgb.pwm_view() == Seq::new((CHIP_COUNT * PWM_BYTES) as nat, |k: int| 0u8),
            rgb.dirty_view() == seq![false, false],
    {
        let mut pwm: Vec<u8> = Vec::new();
        let mut k: usize = 0;
        while k < CHIP_COUNT * PWM_BYTES
            invariant
                k <= CHIP_COUNT * PWM_BYTES,
                pwm@ == Seq::new(k as nat, |j: int| 0u8),
            decreases CHIP_COUNT * PWM_BYTES - k,
        {
            pwm.push(0);
            k = k + 1;
        }
        let mut dirty: Vec<bool> = Vec::new();
        dirty.push(false);
        dirty.push(false);
        Rgb { pwm, dirty }
    }

    /// Whether `chip` has changes not yet flushed.
    pub fn is_dirty(&self, chip: usize) -> (d: bool)
        requires
            self.wf(),
            chip < CHIP_COUNT,
        ensures
            d == self.dirty_view()[chip as int],
    {
        self.dirty[chip]
    }

    /// Paints LED `idx` and marks its chip dirty.
    fn write_led(&mut self, idx: usize, color: (u8, u8, u8))
        requires
            old(self).wf(),
            idx < LED_COUNT,
        ensures
            final(self).wf(),
            final(self).pwm_view() == paint_led(old(self).pwm_view(), idx as int, color),
            final(self).dirty_view() == old(self).dirty_view().update(led_chip(idx as int) as int, true),
    {
        let entry = led_entry(idx);
        proof {
            lemma_led_registers(idx as int);
        }
        let base: usize = entry.chip as usize * PWM_BYTES;
        self.pwm.set(base + entry.r as usize, color.0);
        self.pwm.set(base + entry.g as usize, color.1);
        self.pwm.set(base + entry.b as usize, color.2);
        self.dirty.set(entry.chip as usize, true);
    }

    /// Paints every LED with `frame(i)`, in table order.
    fn paint_all(&mut self, frame: &[(u8, u8, u8); LED_COUNT])
        requires
            old(self).wf(),
        ensures
            final(self).wf(),
            final(self).pwm_view() == painted(old(self).pwm_view(), frame@, LED_COUNT as nat),
            final(self).dirty_view() == seq![true, true],
    {
        let ghost start = self.pwm_view();
        let mut idx: usize = 0;
        while idx < LED_COUNT
            invariant
                self.wf(),
                idx <= LED_COUNT,
                frame@.len() == LED_COUNT,
                self.pwm_view() == painted(start, frame@, idx as nat),
                idx > 0 ==> self.dirty_view()[0],
                idx > 26 ==> self.dirty_view()[1],
            decreases LED_COUNT - idx,
        {
            let color = frame[idx];
            self.write_led(idx, color);
            idx = idx + 1;
        }
        assert(self.dirty_view() =~= seq![true, true]);
    }

    /// Sets every LED to the same colour.
    pub fn set_all(&mut self, r: u8, g: u8, b: u8)
        requires
            old(self).wf(),
        ensures
            final(self).wf(),
            final(self).pwm_view() == painted(
                old(self).pwm_view(),
                Seq::new(LED_COUNT as nat, |i: int| (r, g, b)),
                LED_COUNT as nat,
            ),
            final(self).dirty_view() == seq![true, true],
    {
        let frame: [(u8, u8, u8); LED_COUNT] = [(r, g, b); LED_COUNT];
        assert(frame@ =~= Seq::new(LED_COUNT as nat, |i: int| (r, g, b)));
        self.paint_all(&frame);
    }
}

/// Colour of a key at column `x` in the rainbow: hue `x * 8 + phase`
/// (wrapping at 256) through the wheel, each channel scaled by
/// `brightness`.
pub open spec fn rainbow_color(x: u8, phase: u8, brightness: u8) -> (u8, u8, u8) {
    let hue = ((x * 8 + phase) % 256) as u8;
    let w = wheel_spec(hue);
    (scale_spec(w.0, brightness), scale_spec(w.1, brightness), scale_spec(w.2, brightness))
}

/// The frame `paint_rainbow(phase, brightness)` paints, LED by LED.
pub open spec fn rainbow_frame(phase: u8, brightness: u8) -> Seq<(u8, u8, u8)> {
    Seq::new(LED_COUNT as nat, |i: int| rainbow_color(LED_X@[i], phase, brightness))
}

impl Rgb {
    /// Horizontal rainbow: each key's hue is offset by its column (8 hue
    /// units per column) plus `phase`; `brightness` scales the output.
    pub fn paint_rainbow(&mut self, phase: u8, brightness: u8)
        requires
            old(self).wf(),
        ensures
            final(self).wf(),
            final(self).pwm_view() == painted(
                old(self).pwm_view(),
                rainbow_frame(phase, brightness),
                LED_COUNT as nat,
            ),
            final(self).dirty_view() == seq![true, true],
    {
        let ghost start = self.pwm_view();
        let mut idx: usize = 0;
        while idx < LED_COUNT
            invariant
                self.wf(),
                idx <= LED_COUNT,
                self.pwm_view() == painted(start, rainbow_frame(phase, brightness), idx as nat),
                idx > 0 ==> self.dirty_view()[0],
                idx > 26 ==> self.dirty_view()[1],
            decreases LED_COUNT - idx,
        {
            let x = LED_X[idx];
            let wide: u16 = x as u16 * 8 + phase as u16;
            let hue = wide as u8;
            assert(hue == wide % 256) by (bit_vector)
                requires
                    hue == wide as u8,
            ;
            let (r, g, b) = wheel(hue);
            let color = (scale(r, brightness), scale(g, brightness), scale(b, brightness));
            assert(color == rainbow_frame(phase, brightness)[idx as int]);
            self.write_led(idx, color);
            idx = idx + 1;
        }
        assert(self.dirty_view() =~= seq![true, true]);
    }

    /// Paints a full RGB frame: `frame[i]` is the colour of the i-th LED
    /// of the table.
    pub fn paint_rgb8(&mut self, frame: &[(u8, u8, u8); LED_COUNT])
        requires
            old(self).wf(),
        ensures
            final(self).wf(),
            final(self).pwm_view() == painted(old(self).pwm_view(), frame@, LED_COUNT as nat),
            final(self).dirty_view() == seq![true, true],
    {
        self.paint_all(frame);
    }
}

/// Channel `k` (0: red, 1: green, 2: blue) of a colour.
pub open spec fn color_channel(color: (u8, u8, u8), k: int) -> u8 {
    if k == 0 { color.0 } else if k == 1 { color.1 } else { color.2 }
}

/// Whether buffer position `p` is a channel of some LED.
pub open spec fn is_led_channel(p: int) -> bool {
    exists|i: int, k: int| 0 <= i < LED_COUNT && 0 <= k < 3 && led_channel(i, k) == p
}

proof fn lemma_painted_prefix(pwm: Seq<u8>, frame: Seq<(u8, u8, u8)>, n: nat, i: int, k: int)
    requires
        pwm.len() == CHIP_COUNT * PWM_BYTES,
        n <= LED_COUNT,
        0 <= i < n,
        0 <= k < 3,
        frame.len() >= n,
    ensures
        painted(pwm, frame, n).len() == pwm.len(),
        painted(pwm, frame, n)[led_channel(i, k)] == color_channel(frame[i], k),
    decreases n,
{
    lemma_painted_len(pwm, frame, (n - 1) as nat);
    lemma_led_channels_disjoint(n - 1, 0, n - 1, 1);
    lemma_led_channels_disjoint(n - 1, 0, n - 1, 2);
    lemma_led_channels_disjoint(n - 1, 1, n - 1, 2);
    if i < n - 1 {
        lemma_painted_prefix(pwm, frame, (n - 1) as nat, i, k);
        lemma_led_channels_disjoint(i, k, n - 1, 0);
        lemma_led_channels_disjoint(i, k, n - 1, 1);
        lemma_led_channels_disjoint(i, k, n - 1, 2);
    }
}

proof fn lemma_painted_len(pwm: Seq<u8>, frame: Seq<(u8, u8, u8)>, n: nat)
    requires
        pwm.len() == CHIP_COUNT * PWM_BYTES,
        n <= LED_COUNT,
    ensures
        painted(pwm, frame, n).len() == pwm.len(),
    decreases n,
{
    if n > 0 {
        lemma_painted_len(pwm, frame, (n - 1) as nat);
        lemma_led_channels_disjoint(n - 1, 0, n - 1, 1);
        lemma_led_channels_disjoint(n - 1, 1, n - 1, 2);
        lemma_led_channels_disjoint(n - 1, 2, n - 1, 0);
    }
}

proof fn lemma_painted_other(pwm: Seq<u8>, frame: Seq<(u8, u8, u8)>, n: nat, p: int)
    requires
        pwm.len() == CHIP_COUNT * PWM_BYTES,
        n <= LED_COUNT,
        0 <= p < pwm.len(),
        !is_led_channel(p),
    ensures
        painted(pwm, frame, n)[p] == pwm[p],
    decreases n,
{
    if n > 0 {
        lemma_painted_len(pwm, frame, (n - 1) as nat);
        lemma_painted_other(pwm, frame, (n - 1) as nat, p);
        assert(led_channel(n - 1, 0) != p);
        assert(led_channel(n - 1, 1) != p);
        assert(led_channel(n - 1, 2) != p);
    }
}

/// Painting a full frame shows it: afterwards every channel of every LED
/// holds that LED's colour, and every other PWM register keeps its value.
pub proof fn lemma_paint_shows_frame(pwm: Seq<u8>, frame: Seq<(u8, u8, u8)>)
    requires
        pwm.len() == CHIP_COUNT * PWM_BYTES,
        frame.len() == LED_COUNT,
    ensures
        painted(pwm, frame, LED_COUNT as nat).len() == pwm.len(),
        forall|i: int, k: int|
            0 <= i < LED_COUNT && 0 <= k < 3 ==> #[trigger] painted(pwm, frame, LED_COUNT as nat)[led_channel(i, k)]
                == color_channel(frame[i], k),
        forall|p: int|
            0 <= p < pwm.len() && !is_led_channel(p) ==> #[trigger] painted(pwm, frame, LED_COUNT as nat)[p]
                == pwm[p],
{
    lemma_painted_len(pwm, frame, LED_COUNT as nat);
    assert forall|i: int, k: int| 0 <= i < LED_COUNT && 0 <= k < 3 implies #[trigger] painted(
        pwm,
        frame,
        LED_COUNT as nat,
    )[led_channel(i, k)] == color_channel(frame[i], k) by {
        lemma_painted_prefix(pwm, frame, LED_COUNT as nat, i, k);
    }
    assert forall|p: int| 0 <= p < pwm.len() && !is_led_channel(p) implies #[trigger] painted(
        pwm,
        frame,
        LED_COUNT as nat,
    )[p] == pwm[p] by {
        lemma_painted_other(pwm, frame, LED_COUNT as nat, p);
    }
}

/// Frame page register of the first PWM byte.
pub const FRAME_REG_PWM: u8 = 0x24;
/// PWM bytes sent per bus write.
pub const CHUNK_BYTES: usize = 16;
/// Bus writes needed to send one chip's PWM buffer.
pub const PWM_CHUNKS: usize = 9;

/// I2C address of driver chip `chip`.
pub open spec fn chip_addr(chip: int) -> u8 {
    if chip == 0 { ADDR_LEFT } else { ADDR_RIGHT }
}

/// Write `chunk` of chip `chip`: starting at PWM register
/// `0x24 + 16 * chunk`, the 16 buffer bytes from `16 * chunk` on.
pub open spec fn pwm_chunk_write(pwm: Seq<u8>, chip: int, chunk: int) -> (u8, Seq<u8>) {
    let start = chip * PWM_BYTES + chunk * CHUNK_BYTES;
    (
        chip_addr(chip),
        seq![(FRAME_REG_PWM + chunk * CHUNK_BYTES) as u8] + pwm.subrange(start, start + CHUNK_BYTES),
    )
}

/// The nine writes that send chip `chip`'s whole PWM buffer.
pub open spec fn chip_flush_writes(pwm: Seq<u8>, chip: int) -> Seq<(u8, Seq<u8>)> {
    Seq::new(PWM_CHUNKS as nat, |k: int| pwm_chunk_write(pwm, chip, k))
}

/// The writes of a flush: those of each dirty chip, left chip first.
pub open spec fn flush_plan(pwm: Seq<u8>, dirty: Seq<bool>) -> Seq<(u8, Seq<u8>)> {
    (if dirty[0] { chip_flush_writes(pwm, 0) } else { Seq::empty() }) + (if dirty[1] {
        chip_flush_writes(pwm, 1)
    } else {
        Seq::empty()
    })
}

/// Position in the flush plan of the first write of chip `chip`.
pub open spec fn flush_start(dirty: Seq<bool>, chip: int) -> int {
    if chip == 0 || !dirty[0] { 0 } else { PWM_CHUNKS as int }
}

/// Whether chip `chip` is fully sent once the first `done` writes of the
/// flush plan went through.
pub open spec fn chip_sent(dirty: Seq<bool>, chip: int, done: int) -> bool {
    dirty[chip] && done >= flush_start(dirty, chip) + PWM_CHUNKS
}

impl Rgb {
    /// The bus write for `chunk` of chip `chip`.
    fn chunk_write(&self, chip: usize, chunk: usize) -> (w: BusWrite)
        requires
            self.wf(),
            chip < CHIP_COUNT,
            chunk < PWM_CHUNKS,
        ensures
            w@ == pwm_chunk_write(self.pwm_view(), chip as int, chunk as int),
    {
        let addr = if chip == 0 { ADDR_LEFT } else { ADDR_RIGHT };
        let start: usize = chip * PWM_BYTES + chunk * CHUNK_BYTES;
        let mut bytes: Vec<u8> = Vec::new();
        bytes.push(FRAME_REG_PWM + (chunk * CHUNK_BYTES) as u8);
        let mut j: usize = 0;
        while j < CHUNK_BYTES
            invariant
                self.wf(),
                j <= CHUNK_BYTES,
                start + CHUNK_BYTES <= self.pwm_view().len(),
                bytes@ == seq![(FRAME_REG_PWM + chunk * CHUNK_BYTES) as u8] + self.pwm_view().subrange(
                    start as int,
                    start + j,
                ),
            decreases CHUNK_BYTES - j,
        {
            bytes.push(self.pwm[start + j]);
            j = j + 1;
            assert(bytes@ =~= seq![(FRAME_REG_PWM + chunk * CHUNK_BYTES) as u8] + self.pwm_view().subrange(
                start as int,
                start + j,
            ));
        }
        BusWrite { addr, bytes }
    }

    /// The bus writes that push the buffer to the chips: for each chip
    /// with unflushed changes, left first, nine writes covering its 144
    /// PWM registers in order.
    pub fn flush_writes(&self) -> (writes: Vec<BusWrite>)
        requires
            self.wf(),
        ensures
            writes_view(writes@) == flush_plan(self.pwm_view(), self.dirty_view()),
    {
        let mut writes: Vec<BusWrite> = Vec::new();
        let mut chip: usize = 0;
        while chip < CHIP_COUNT
            invariant
                self.wf(),
                chip <= CHIP_COUNT,
                writes_view(writes@) == (if chip > 0 && self.dirty_view()[0] {
                    chip_flush_writes(self.pwm_view(), 0)
                } else {
                    Seq::empty()
                }) + (if chip > 1 && self.dirty_view()[1] {
                    chip_flush_writes(self.pwm_view(), 1)
                } else {
                    Seq::empty()
                }),
            decreases CHIP_COUNT - chip,
        {
            if self.dirty[chip] {
                let ghost before = writes_view(writes@);
                let mut chunk: usize = 0;
                while chunk < PWM_CHUNKS
                    invariant
                        self.wf(),
                        chip < CHIP_COUNT,
                        chunk <= PWM_CHUNKS,
                        writes_view(writes@) == before + chip_flush_writes(self.pwm_view(), chip as int).take(
                            chunk as int,
                        ),
                    decreases PWM_CHUNKS - chunk,
                {
                    let w = self.chunk_write(chip, chunk);
                    let ghost prev = writes@;
                    writes.push(w);
                    assert(writes_view(writes@) =~= writes_view(prev).push(w@));
                    assert(chip_flush_writes(self.pwm_view(), chip as int).take(chunk + 1)
                        =~= chip_flush_writes(self.pwm_view(), chip as int).take(chunk as int).push(w@));
                    chunk = chunk + 1;
                    assert(writes_view(writes@) =~= before + chip_flush_writes(
                        self.pwm_view(),
                        chip as int,
                    ).take(chunk as int));
                }
                assert(chip_flush_writes(self.pwm_view(), chip as int).take(PWM_CHUNKS as int)
                    =~= chip_flush_writes(self.pwm_view(), chip as int));
            }
            chip = chip + 1;
            assert(writes_view(writes@) =~= (if chip > 0 && self.dirty_view()[0] {
                chip_flush_writes(self.pwm_view(), 0)
            } else {
                Seq::empty()
            }) + (if chip > 1 && self.dirty_view()[1] {
                chip_flush_writes(self.pwm_view(), 1)
            } else {
                Seq::empty()
            }));
        }
        writes
    }

    /// Records how far a flush got: `done` is the number of writes of
    /// `flush_writes` that went through, in order. A chip stays dirty
    /// unless all nine of its writes went through.
    pub fn complete_flush(&mut self, done: usize)
        requires
            old(self).wf(),
        ensures
            final(self).wf(),
            final(self).pwm_view() == old(self).pwm_view(),
            final(self).dirty_view() == Seq::new(
                CHIP_COUNT as nat,
                |c: int| old(self).dirty_view()[c] && !chip_sent(old(self).dirty_view(), c, done as int),
            ),
    {
        let left_dirty = self.dirty[0];
        let right_dirty = self.dirty[1];
        let right_start: usize = if left_dirty { PWM_CHUNKS } else { 0 };
        if left_dirty && done >= PWM_CHUNKS {
            self.dirty.set(0, false);
        }
        if right_dirty && done >= right_start + PWM_CHUNKS {
            self.dirty.set(1, false);
        }
        assert(self.dirty_view() =~= Seq::new(
            CHIP_COUNT as nat,
            |c: int| old(self).dirty_view()[c] && !chip_sent(old(self).dirty_view(), c, done as int),
        ));
    }
}

impl Rgb {
    /// Ends a flush: `run` ran the writes of `flush_writes` in order and
    /// stopped at the first that failed. A chip stays dirty unless all nine
    /// of its writes went through, so the next flush sends it again; the
    /// flush fails exactly when a write failed.
    pub fn finish_flush(&mut self, run: &PlanRun) -> (r: Result<(), ()>)
        requires
            old(self).wf(),
            run.finished(),
            run.len_view() == flush_plan(old(self).pwm_view(), old(self).dirty_view()).len(),
        ensures
            final(self).wf(),
            final(self).pwm_view() == old(self).pwm_view(),
            final(self).dirty_view() == Seq::new(
                CHIP_COUNT as nat,
                |c: int|
                    old(self).dirty_view()[c] && !chip_sent(old(self).dirty_view(), c, run.done_view() as int),
            ),
            r is Err <==> run.failed_view(),
    {
        self.complete_flush(run.succeeded());
        run.result()
    }
}

/// Whatever was dirty, a flush whose writes all went through leaves both
/// chips clean; a flush of a clean buffer sends nothing.
pub proof fn lemma_full_flush_cleans(pwm: Seq<u8>, dirty: Seq<bool>)
    requires
        dirty.len() == CHIP_COUNT,
    ensures
        forall|c: int|
            0 <= c < CHIP_COUNT ==> !(dirty[c] && !#[trigger] chip_sent(
                dirty,
                c,
                flush_plan(pwm, dirty).len() as int,
            )),
        !dirty[0] && !dirty[1] ==> flush_plan(pwm, dirty).len() == 0,
{
}

/// Each chip's flush sends every PWM register its buffered value: register
/// `0x24 + reg` receives byte `reg` of the chip's buffer, carried by write
/// `reg / 16` at offset `reg % 16` after the start register.
pub proof fn lemma_chip_flush_sends_buffer(pwm: Seq<u8>, chip: int, reg: int)
    requires
        pwm.len() == CHIP_COUNT * PWM_BYTES,
        0 <= chip < CHIP_COUNT,
        0 <= reg < PWM_BYTES,
    ensures
        chip_flush_writes(pwm, chip)[reg / 16].0 == chip_addr(chip),
        chip_flush_writes(pwm, chip)[reg / 16].1.len() == 1 + CHUNK_BYTES,
        chip_flush_writes(pwm, chip)[reg / 16].1[0] + reg % 16 == FRAME_REG_PWM + reg,
        chip_flush_writes(pwm, chip)[reg / 16].1[1 + reg % 16] == pwm[chip * PWM_BYTES + reg],
{
    let k = reg / 16;
    let j = reg % 16;
    assert(0 <= k < 9 && 0 <= j < 16 && k * 16 + j == reg);
}

/// Command register: selects the page that later writes go to.
pub const REG_COMMAND: u8 = 0xFD;
/// Page: frame 1.
pub const CMD_FRAME_1: u8 = 0x00;
/// Page: function registers.
pub const CMD_FUNCTION: u8 = 0x0B;
/// Function register: configuration (display mode).
pub const FN_CONFIG: u8 = 0x00;
/// Function register: picture display (which frame is shown).
pub const FN_PICTURE_DISPLAY: u8 = 0x01;
/// Function register: audio synchronisation.
pub const FN_AUDIO_SYNC: u8 = 0x06;
/// Function register: software shutdown (0 shuts down, 1 runs).
pub const FN_SHUTDOWN: u8 = 0x0A;
/// Configuration value for picture mode.
pub const CONFIG_MODE_PICTURE: u8 = 0x00;
/// Frame register of the first LED control byte.
pub const FRAME_REG_LED_CONTROL: u8 = 0x00;
/// LED control bytes per frame.
pub const LED_CONTROL_COUNT: u8 = 18;
/// Settling time after shutdown, in milliseconds.
pub const SHUTDOWN_SETTLE_MS: u32 = 10;

/// One step of a chip bring-up: a bus write, or a pause.
#[derive(Debug, PartialEq, Eq)]
pub enum ChipStep {
    Write(BusWrite),
    DelayMs(u32),
}

/// What a `ChipStep` does, as plain values.
pub enum StepView {
    Write(u8, Seq<u8>),
    DelayMs(u32),
}

impl View for ChipStep {
    type V = StepView;

    open spec fn view(&self) -> StepView {
        match self {
            ChipStep::Write(w) => StepView::Write(w.addr, w.bytes@),
            ChipStep::DelayMs(ms) => StepView::DelayMs(*ms),
        }
    }
}

/// The views of a list of steps, in order.
pub open spec fn steps_view(steps: Seq<ChipStep>) -> Seq<StepView> {
    steps.map_values(|s: ChipStep| s@)
}

/// Bring-up of the chip at `addr`: wake the function page into shutdown,
/// wait, select picture mode showing frame 1 without audio sync, enable
/// all 144 LEDs in frame 1, clear its PWM registers, leave shutdown, and
/// leave frame 1 selected for PWM writes.
pub open spec fn init_chip_spec(addr: u8) -> Seq<StepView> {
    seq![
        StepView::Write(addr, seq![REG_COMMAND, CMD_FUNCTION]),
        StepView::Write(addr, seq![FN_SHUTDOWN, 0x00u8]),
        StepView::DelayMs(SHUTDOWN_SETTLE_MS),
        StepView::Write(addr, seq![FN_CONFIG, CONFIG_MODE_PICTURE]),
        StepView::Write(addr, seq![FN_PICTURE_DISPLAY, 0x00u8]),
        StepView::Write(addr, seq![FN_AUDIO_SYNC, 0x00u8]),
        StepView::Write(addr, seq![REG_COMMAND, CMD_FRAME_1]),
    ] + Seq::new(
        LED_CONTROL_COUNT as nat,
        |i: int| StepView::Write(addr, seq![(FRAME_REG_LED_CONTROL + i) as u8, 0xFFu8]),
    ) + Seq::new(
        PWM_CHUNKS as nat,
        |k: int|
            StepView::Write(
                addr,
                seq![(FRAME_REG_PWM + k * CHUNK_BYTES) as u8] + Seq::new(CHUNK_BYTES as nat, |j: int| 0u8),
            ),
    ) + seq![
        StepView::Write(addr, seq![REG_COMMAND, CMD_FUNCTION]),
        StepView::Write(addr, seq![FN_SHUTDOWN, 0x01u8]),
        StepView::Write(addr, seq![REG_COMMAND, CMD_FRAME_1]),
    ]
}

fn push_register_write(steps: &mut Vec<ChipStep>, addr: u8, reg: u8, val: u8)
    ensures
        steps_view(final(steps)@) == steps_view(old(steps)@).push(StepView::Write(addr, seq![reg, val])),
{
    let w = crate::bus::register_write(addr, reg, val);
    let ghost prev = steps@;
    steps.push(ChipStep::Write(w));
    assert(steps_view(steps@) =~= steps_view(prev).push(StepView::Write(addr, seq![reg, val])));
}

/// The steps that bring the chip at `addr` into picture mode with every
/// LED control bit enabled and the PWM registers cleared. After them the
/// chip takes per-key PWM writes from `Rgb::flush_writes`. Whoever runs
/// them stops at the first write that fails.
pub fn init_chip(addr: u8) -> (steps: Vec<ChipStep>)
    ensures
        steps_view(steps@) == init_chip_spec(addr),
{
    let mut steps: Vec<ChipStep> = Vec::new();
    push_register_write(&mut steps, addr, REG_COMMAND, CMD_FUNCTION);
    push_register_write(&mut steps, addr, FN_SHUTDOWN, 0x00);
    let ghost prev = steps@;
    steps.push(ChipStep::DelayMs(SHUTDOWN_SETTLE_MS));
    assert(steps_view(steps@) =~= steps_view(prev).push(StepView::DelayMs(SHUTDOWN_SETTLE_MS)));
    push_register_write(&mut steps, addr, FN_CONFIG, CONFIG_MODE_PICTURE);
    push_register_write(&mut steps, addr, FN_PICTURE_DISPLAY, 0x00);
    push_register_write(&mut steps, addr, FN_AUDIO_SYNC, 0x00);
    push_register_write(&mut steps, addr, REG_COMMAND, CMD_FRAME_1);
    let ghost head = steps_view(steps@);
    let mut i: u8 = 0;
    while i < LED_CONTROL_COUNT
        invariant
            i <= LED_CONTROL_COUNT,
            steps_view(steps@) == head + Seq::new(
                i as nat,
                |n: int| StepView::Write(addr, seq![(FRAME_REG_LED_CONTROL + n) as u8, 0xFFu8]),
            ),
        decreases LED_CONTROL_COUNT - i,
    {
        push_register_write(&mut steps, addr, FRAME_REG_LED_CONTROL + i, 0xFF);
        i = i + 1;
        assert(steps_view(steps@) =~= head + Seq::new(
            i as nat,
            |n: int| StepView::Write(addr, seq![(FRAME_REG_LED_CONTROL + n) as u8, 0xFFu8]),
        ));
    }
    let ghost head2 = steps_view(steps@);
    let mut chunk: usize = 0;
    while chunk < PWM_CHUNKS
        invariant
            chunk <= PWM_CHUNKS,
            steps_view(steps@) == head2 + Seq::new(
                chunk as nat,
                |k: int|
                    StepView::Write(
                        addr,
                        seq![(FRAME_REG_PWM + k * CHUNK_BYTES) as u8] + Seq::new(
                            CHUNK_BYTES as nat,
                            |j: int| 0u8,
                        ),
                    ),
            ),
        decreases PWM_CHUNKS - chunk,
    {
        let mut bytes: Vec<u8> = Vec::new();
        bytes.push(FRAME_REG_PWM + (chunk * CHUNK_BYTES) as u8);
        let mut j: usize = 0;
        while j < CHUNK_BYTES
            invariant
                j <= CHUNK_BYTES,
                bytes@ == seq![(FRAME_REG_PWM + chunk * CHUNK_BYTES) as u8] + Seq::new(
                    j as nat,
                    |n: int| 0u8,
                ),
            decreases CHUNK_BYTES - j,
        {
            bytes.push(0);
            j = j + 1;
            assert(bytes@ =~= seq![(FRAME_REG_PWM + chunk * CHUNK_BYTES) as u8] + Seq::new(
                j as nat,
                |n: int| 0u8,
            ));
        }
        let ghost prev = steps@;
        let ghost wv = bytes@;
        steps.push(ChipStep::Write(BusWrite { addr, bytes }));
        assert(steps_view(steps@) =~= steps_view(prev).push(StepView::Write(addr, wv)));
        chunk = chunk + 1;
        assert(steps_view(steps@) =~= head2 + Seq::new(
            chunk as nat,
            |k: int|
                StepView::Write(
                    addr,
                    seq![(FRAME_REG_PWM + k * CHUNK_BYTES) as u8] + Seq::new(
                        CHUNK_BYTES as nat,
                        |j: int| 0u8,
                    ),
                ),
        ));
    }
    push_register_write(&mut steps, addr, REG_COMMAND, CMD_FUNCTION);
    push_register_write(&mut steps, addr, FN_SHUTDOWN, 0x01);
    push_register_write(&mut steps, addr, REG_COMMAND, CMD_FRAME_1);
    assert(steps_view(steps@) =~= init_chip_spec(addr));
    steps
}

/// Marks a matrix cell with no physical LED in `KEY_TO_LED`.
pub const NO_LED: u8 = 0xFF;

/// Matrix (row, col) -> LED index, or `NO_LED` for cells with no LED.
pub const KEY_TO_LED: [[u8; COL]; ROW] = [
    // Left half
    [NO_LED, 0, 1, 2, 3, 4, 5],
    [NO_LED, 6, 7, 8, 9, 10, 11],
    [NO_LED, 12, 13, 14, 15, 16, 17],
    [NO_LED, 18, 19, 20, 21, 22, NO_LED],
    [NO_LED, NO_LED, NO_LED, NO_LED, 23, NO_LED, NO_LED],
    [24, 25, NO_LED, NO_LED, NO_LED, NO_LED, NO_LED],
    // Right half
    [26, 27, 28, 29, 30, 31, NO_LED],
    [32, 33, 34, 35, 36, 37, NO_LED],
    [38, 39, 40, 41, 42, 43, NO_LED],
    [NO_LED, 45, 46, 47, 48, 49, NO_LED],
    [NO_LED, NO_LED, 44, NO_LED, NO_LED, NO_LED, NO_LED],
    [NO_LED, NO_LED, NO_LED, NO_LED, NO_LED, 50, 51],
];

/// The LED under matrix cell (row, col):
/// left half rows 0-2 cols 1-6 are LEDs 0-5 / 6-11 / 12-17, row 3 cols
/// 1-5 LEDs 18-22, the `B` drop at (4, 4) LED 23, the thumbs at (5, 0)
/// and (5, 1) LEDs 24 and 25; right half rows 6-8 cols 0-5 are LEDs
/// 26-31 / 32-37 / 38-43, row 9 cols 1-5 LEDs 45-49, the `N` drop at
/// (10, 2) LED 44, the thumbs at (11, 5) and (11, 6) LEDs 50 and 51.
/// Every other cell, and every cell outside the matrix, has none.
pub open spec fn key_led_spec(row: int, col: int) -> Option<u8> {
    if 0 <= row <= 2 && 1 <= col <= 6 {
        Some((row * 6 + col - 1) as u8)
    } else if row == 3 && 1 <= col <= 5 {
        Some((17 + col) as u8)
    } else if row == 4 && col == 4 {
        Some(23)
    } else if row == 5 && 0 <= col <= 1 {
        Some((24 + col) as u8)
    } else if 6 <= row <= 8 && 0 <= col <= 5 {
        Some((26 + (row - 6) * 6 + col) as u8)
    } else if row == 9 && 1 <= col <= 5 {
        Some((44 + col) as u8)
    } else if row == 10 && col == 2 {
        Some(44)
    } else if row == 11 && 5 <= col <= 6 {
        Some((45 + col) as u8)
    } else {
        None
    }
}

/// Looks up the LED of a matrix key: `None` for cells outside the matrix
/// or without an LED.
pub fn key_to_led(row: u8, col: u8) -> (led: Option<u8>)
    ensures
        led == key_led_spec(row as int, col as int),
{
    let r = row as usize;
    let c = col as usize;
    if r >= ROW || c >= COL {
        return None;
    }
    let idx = KEY_TO_LED[r][c];
    assert(idx == NO_LED <==> key_led_spec(r as int, c as int) is None);
    if idx == NO_LED {
        None
    } else {
        Some(idx)
    }
}

/// The matrix cell over LED `i`.
pub open spec fn led_key(i: int) -> (int, int) {
    if i < 18 { (i / 6, i % 6 + 1) }
    else if i < 23 { (3, i - 17) }
    else if i == 23 { (4, 4) }
    else if i < 26 { (5, i - 24) }
    else if i < 44 { ((i - 26) / 6 + 6, (i - 26) % 6) }
    else if i == 44 { (10, 2) }
    else if i < 50 { (9, i - 44) }
    else { (11, i - 45) }
}

/// Keys and LEDs correspond one to one: every LED index that a key maps
/// to is one of the 52 LEDs, no two keys share an LED, every LED lies
/// under exactly one key, and a key's LED sits on the driver of its own
/// half (rows 0-5 on the left chip, rows 6-11 on the right).
pub proof fn lemma_key_led_bijection(r1: int, c1: int, r2: int, c2: int, i: int)
    ensures
        key_led_spec(r1, c1) is Some ==> {
            &&& key_led_spec(r1, c1)->0 < LED_COUNT
            &&& 0 <= r1 < ROW && 0 <= c1 < COL
            &&& led_chip(key_led_spec(r1, c1)->0 as int) == (if r1 < 6 { 0u8 } else { 1u8 })
            &&& led_key(key_led_spec(r1, c1)->0 as int) == (r1, c1)
        },
        key_led_spec(r1, c1) is Some && key_led_spec(r1, c1) == key_led_spec(r2, c2) ==> r1 == r2
            && c1 == c2,
        0 <= i < LED_COUNT ==> key_led_spec(led_key(i).0, led_key(i).1) == Some(i as u8),
{
}

/// Physical (x, y) of each LED in table order. x spans 0-224 mm scaled
/// to 0-255; y uses the same factor (about 6-66), so both axes share one
/// scale and polar effects stay isotropic.
pub const LED_POS: [(u8, u8); LED_COUNT] = [
    // Left half (chip 0)
    (  0, 11), ( 19, 11), ( 39,  9), ( 59,  6), ( 79,  9), ( 98, 11), // row 0 (numbers)
    (  0, 24), ( 19, 24), ( 39, 22), ( 59, 19), ( 79, 22), ( 98, 24), // row 1
    (  0, 37), ( 19, 37), ( 39, 34), ( 59, 32), ( 79, 34), ( 98, 37), // row 2 (home)
    (  0, 49), ( 19, 49), ( 39, 47), ( 59, 44), ( 79, 47),            // row 3 (cols 1-5)
    ( 98, 49),                                                          // row 4 (B drop)
    ( 98, 60), (109, 66),                                              // row 5 (thumbs)
    // Right half (chip 1)
    (157, 11), (176, 11), (196,  9), (216,  6), (236,  9), (255, 11), // row 6 (numbers)
    (157, 24), (176, 24), (196, 22), (216, 19), (236, 22), (255, 24), // row 7
    (157, 37), (176, 37), (196, 34), (216, 32), (236, 34), (255, 37), // row 8 (home)
    (157, 49),                                                          // row 10 (N drop)
    (176, 49), (196, 47), (216, 44), (236, 47), (255, 49),            // row 9 (cols 1-5)
    (146, 66), (157, 60),                                              // row 11 (thumbs)
];

/// LED geometry of the Voyager for the palette effects.
pub struct VoyagerLayout;

impl VoyagerLayout {
    /// Number of LEDs.
    pub fn count(&self) -> (n: usize)
        ensures
            n == LED_COUNT,
    {
        LED_COUNT
    }

    /// (x, y) of LED `index` on the 0..=255 grid.
    pub fn position(&self, index: usize) -> (pos: (u8, u8))
        requires
            index < LED_COUNT,
        ensures
            pos == LED_POS@[index as int],
    {
        LED_POS[index]
    }
}

/// The two position tables agree: LEDs in the same key column share an x
/// coordinate, and x grows strictly with the column.
pub proof fn lemma_positions_follow_columns(i: int, j: int)
    requires
        0 <= i < LED_COUNT,
        0 <= j < LED_COUNT,
    ensures
        LED_X@[i] == LED_X@[j] ==> LED_POS@[i].0 == LED_POS@[j].0,
        LED_X@[i] < LED_X@[j] ==> LED_POS@[i].0 < LED_POS@[j].0,
{
}

/// 8-bit HSV colour: `h` sweeps a full turn over 0..=255.
#[derive(Clone, Copy, Debug, PartialEq, Eq, Structural)]
pub struct Hsv {
    pub h: u8,
    pub s: u8,
    pub v: u8,
}

/// Integer HSV to RGB over the six-sector spectrum: `h` falls into one of
/// six 43-wide sectors; in each sector one channel holds `v`, one holds
/// `p = v * (255 - s) / 256`, and the third ramps between them through
/// `q` (falling) or `t` (rising), from the position `r` inside the sector
/// scaled to 0..=252.
pub open spec fn hsv_to_rgb_spec(h: u8, s: u8, v: u8) -> (u8, u8, u8) {
    let sector = h / 43;
    let r = (h - sector * 43) * 6;
    let p = (v * (255 - s)) / 256;
    let q = (v * (255 - (s * r) / 256)) / 256;
    let t = (v * (255 - (s * (255 - r)) / 256)) / 256;
    if sector == 0 {
        (v, t as u8, p as u8)
    } else if sector == 1 {
        (q as u8, v, p as u8)
    } else if sector == 2 {
        (p as u8, v, t as u8)
    } else if sector == 3 {
        (p as u8, q as u8, v)
    } else if sector == 4 {
        (t as u8, p as u8, v)
    } else {
        (v, p as u8, q as u8)
    }
}

/// Calls `rmk_palettefx::color::hsv_to_rgb`, which computes exactly
/// `hsv_to_rgb_spec`: the sector is `h / 43`, the in-sector position
/// `(h - 43 * sector) * 6`, and `p`, `q`, `t` are the products above
/// shifted right by 8.
#[verifier::external_body]
fn hsv_to_rgb(color: Hsv) -> (rgb: (u8, u8, u8))
    ensures
        rgb == hsv_to_rgb_spec(color.h, color.s, color.v),
{
    let out = rmk_palettefx::color::hsv_to_rgb(rmk_palettefx::color::Hsv::new(color.h, color.s, color.v));
    (out.r, out.g, out.b)
}

/// The RGB frame an HSV frame converts to, LED by LED.
pub open spec fn hsv_frame_rgb(frame: Seq<Hsv>) -> Seq<(u8, u8, u8)> {
    Seq::new(frame.len(), |i: int| hsv_to_rgb_spec(frame[i].h, frame[i].s, frame[i].v))
}

impl Rgb {
    /// Writes a palette-effect HSV frame: `frame[i]` is the colour of the
    /// i-th LED of the table, converted to RGB by rmk-palettefx's spectrum
    /// conversion with no further scaling: global brightness is already in
    /// the `v` of each sample.
    pub fn paint_hsv(&mut self, frame: &[Hsv; LED_COUNT])
        requires
            old(self).wf(),
        ensures
            final(self).wf(),
            final(self).pwm_view() == painted(old(self).pwm_view(), hsv_frame_rgb(frame@), LED_COUNT as nat),
            final(self).dirty_view() == seq![true, true],
    {
        let mut rgb: [(u8, u8, u8); LED_COUNT] = [(0, 0, 0); LED_COUNT];
        let mut idx: usize = 0;
        while idx < LED_COUNT
            invariant
                idx <= LED_COUNT,
                frame@.len() == LED_COUNT,
                forall|j: int| 0 <= j < idx ==> rgb@[j] == #[trigger] hsv_frame_rgb(frame@)[j],
            decreases LED_COUNT - idx,
        {
            let color = hsv_to_rgb(frame[idx]);
            rgb[idx] = color;
            idx = idx + 1;
        }
        assert(rgb@ =~= hsv_frame_rgb(frame@));
        self.paint_all(&rgb);
    }
}

/// The hand map agrees with the LED wiring: a left-hand key's LED is on
/// the left driver and a right-hand key's LED on the right driver.
pub proof fn lemma_hand_matches_driver(r: int, c: int)
    ensures
        key_led_spec(r, c) matches Some(i) ==> {
            &&& hand_spec(r) == Hand::Left ==> led_chip(i as int) == 0
            &&& hand_spec(r) == Hand::Right ==> led_chip(i as int) == 1
        },
{
    lemma_key_led_bijection(r, c, r, c, 0);
}

/// The key map and the column table describe the same physical layout:
/// on the alpha rows (0-3 left, 6-9 right) a key's LED sits in the key's
/// own physical column, which is the matrix column minus one on the left
/// and the matrix column plus ten on the right.
pub proof fn lemma_alpha_keys_in_their_column(r: int, c: int)
    ensures
        key_led_spec(r, c) matches Some(i) ==> {
            &&& 0 <= r <= 3 ==> LED_X@[i as int] == c - 1
            &&& 6 <= r <= 9 ==> LED_X@[i as int] == c + 10
        },
{
}

/// A later full paint overwrites an earlier one: painting `first` and then
/// `second` gives the same buffer as painting `second` alone. In particular
/// painting the same frame twice is the same as painting it once.
pub proof fn lemma_paint_overwrites(pwm: Seq<u8>, first: Seq<(u8, u8, u8)>, second: Seq<(u8, u8, u8)>)
    requires
        pwm.len() == CHIP_COUNT * PWM_BYTES,
        first.len() == LED_COUNT,
        second.len() == LED_COUNT,
    ensures
        painted(painted(pwm, first, LED_COUNT as nat), second, LED_COUNT as nat) == painted(
            pwm,
            second,
            LED_COUNT as nat,
        ),
{
    let once = painted(pwm, first, LED_COUNT as nat);
    lemma_paint_shows_frame(pwm, first);
    lemma_paint_shows_frame(once, second);
    lemma_paint_shows_frame(pwm, second);
    let lhs = painted(once, second, LED_COUNT as nat);
    let rhs = painted(pwm, second, LED_COUNT as nat);
    assert forall|p: int| 0 <= p < lhs.len() implies lhs[p] == rhs[p] by {
        if is_led_channel(p) {
            let (i, k) = choose|i: int, k: int| 0 <= i < LED_COUNT && 0 <= k < 3 && led_channel(i, k) == p;
            assert(lhs[led_channel(i, k)] == color_channel(second[i], k));
            assert(rhs[led_channel(i, k)] == color_channel(second[i], k));
        } else {
            assert(lhs[p] == once[p]);
            assert(once[p] == pwm[p]);
        }
    }
    assert(lhs =~= rhs);
}

/// The rainbow moves one column per 8 units of phase: with the phase
/// advanced by 8 (wrapping) every LED takes the colour that the LEDs one
/// column to its right had; and LEDs in the same column share a colour.
pub proof fn lemma_rainbow_shift(phase: u8, brightness: u8, i: int, j: int)
    requires
        0 <= i < LED_COUNT,
        0 <= j < LED_COUNT,
    ensures
        LED_X@[j] == LED_X@[i] + 1 ==> rainbow_frame(((phase + 8) % 256) as u8, brightness)[i]
            == rainbow_frame(phase, brightness)[j],
        LED_X@[j] == LED_X@[i] ==> rainbow_frame(phase, brightness)[i] == rainbow_frame(
            phase,
            brightness,
        )[j],
{
    let xi = LED_X@[i] as int;
    let xj = LED_X@[j] as int;
    if xj == xi + 1 {
        let q = ((phase + 8) % 256) as u8;
        assert((xi * 8 + q) % 256 == (xj * 8 + phase) % 256) by {
            assert(q as int == (phase + 8) % 256);
            vstd::arithmetic::div_mod::lemma_add_mod_noop(xi * 8, phase + 8, 256);
        }
    }
}

/// The two drivers are wired alike: every LED of one chip has a partner on
/// the other chip using the very same red, green and blue registers. In
/// particular on both chips the LED in lower-bank column 2 takes its blue
/// from C4_3 (register 50) and the one in column 10 from C4_11 (58),
/// like LEDs 0 and 13 on the left chip and LEDs 31 and 42 on the right.
pub proof fn lemma_chips_wired_alike(i: int)
    requires
        0 <= i < LED_COUNT,
    ensures
        exists|j: int|
            0 <= j < LED_COUNT && led_entry_spec(j).chip != led_entry_spec(i).chip && led_entry_spec(j).r
                == led_entry_spec(i).r && led_entry_spec(j).g == led_entry_spec(i).g && #[trigger] led_entry_spec(
                j,
            ).b == led_entry_spec(i).b,
        led_entry_spec(0) == (LedEntry { chip: 0, r: 17, g: 1, b: 50 }),
        led_entry_spec(31) == (LedEntry { chip: 1, r: 17, g: 1, b: 50 }),
        led_entry_spec(13) == (LedEntry { chip: 0, r: 25, g: 9, b: 58 }),
        led_entry_spec(42) == (LedEntry { chip: 1, r: 25, g: 9, b: 58 }),
{
    let other: u8 = if led_chip(i) == 0 { 1 } else { 0 };
    let j = led_at(other, led_upper_bank(i), led_column(i));
    lemma_led_position_determines_led(i);
    assert(0 <= j < LED_COUNT);
    assert(led_chip(j) == other);
    assert(led_upper_bank(j) == led_upper_bank(i) && led_column(j) == led_column(i));
    assert(led_entry_spec(j).b == led_entry_spec(i).b);
}

/// The LED table follows the drivers' wiring: each LED's red is the
/// register one matrix row below its green (`r == g + 16`), and its blue
/// two rows below (`b == g + 32`), except the lower-bank columns 2 and 10,
/// whose blue is `C4_3` / `C4_11` (`b == g + 49`). Greens lie in row C1
/// (registers 0-15) or C7 (96-111); read in table order they are, on the
/// left chip, C1_2-C1_8, C7_1-C7_6, C1_10-C1_16, C7_9-C7_14, and on the
/// right chip C1_7-C1_2, C7_5-C7_1, C1_8, C1_14-C1_10, C7_6,
/// C7_12-C7_9, C1_16, C1_15, C7_14, C7_13.
pub proof fn lemma_led_table_wiring(i: int)
    requires
        0 <= i < LED_COUNT,
    ensures
        ({
            let e = led_entry_spec(i);
            let greens = seq![
                1u8, 2, 3, 4, 5, 6, 7, 96, 97, 98, 99, 100, 101, 9, 10, 11, 12, 13, 14, 15, 104, 105, 106, 107, 108, 109,
                6, 5, 4, 3, 2, 1, 100, 99, 98, 97, 96, 7, 13, 12, 11, 10, 9, 101, 107, 106, 105, 104, 15, 14, 109, 108,
            ];
            &&& e.chip == (if i < 26 { 0u8 } else { 1u8 })
            &&& e.g == greens[i]
            &&& e.r == e.g + 16
            &&& e.b == (if e.g == 1 || e.g == 9 { e.g + 49 } else { e.g + 32 })
        }),
{
}

/// The drivers are wired as mirror images of the key matrix: the LED under
/// left-half key (r, c) uses the very same red, green and blue registers
/// on the left chip as the LED under the mirrored right-half key
/// (r + 6, 6 - c) uses on the right chip.
pub proof fn lemma_wiring_mirrors_halves(r: int, c: int)
    requires
        0 <= r < 6,
        0 <= c < COL,
    ensures
        key_led_spec(r, c) is Some ==> key_led_spec(r + 6, 6 - c) is Some,
        key_led_spec(r, c) matches Some(i) ==> ({
            let j = key_led_spec(r + 6, 6 - c)->0;
            &&& led_entry_spec(i as int).chip == 0
            &&& led_entry_spec(j as int).chip == 1
            &&& led_entry_spec(j as int).r == led_entry_spec(i as int).r
            &&& led_entry_spec(j as int).g == led_entry_spec(i as int).g
            &&& led_entry_spec(j as int).b == led_entry_spec(i as int).b
        }),
{
}

/// The rainbow scales the whole output by `brightness`: after
/// `paint_rainbow(phase, brightness)` each channel of each LED holds the
/// hue wheel's channel for that LED's hue (`8 * column + phase`, wrapping)
/// times `brightness / 255`, rounded down. So brightness 0 paints every
/// LED black and brightness 255 paints the wheel colours themselves.
pub proof fn lemma_rainbow_scales_wheel(pwm: Seq<u8>, phase: u8, brightness: u8, i: int, k: int)
    requires
        pwm.len() == CHIP_COUNT * PWM_BYTES,
        0 <= i < LED_COUNT,
        0 <= k < 3,
    ensures
        ({
            let hue = ((LED_X@[i] * 8 + phase) % 256) as u8;
            let out = painted(pwm, rainbow_frame(phase, brightness), LED_COUNT as nat)[led_channel(i, k)];
            &&& out as int == (color_channel(wheel_spec(hue), k) as int) * (brightness as int) / 255
            &&& brightness == 0 ==> out == 0
            &&& brightness == 255 ==> out == color_channel(wheel_spec(hue), k)
        }),
{
    lemma_paint_shows_frame(pwm, rainbow_frame(phase, brightness));
    let hue = ((LED_X@[i] * 8 + phase) % 256) as u8;
    let w = color_channel(wheel_spec(hue), k);
    assert(w * brightness / 255 <= 255) by (nonlinear_arith)
        requires
            w <= 255,
            brightness <= 255,
    ;
    assert(w * 0 / 255 == 0);
    assert(w * 255 / 255 == w);
    assert(painted(pwm, rainbow_frame(phase, brightness), LED_COUNT as nat)[led_channel(i, k)]
        == color_channel(rainbow_frame(phase, brightness)[i], k));
}

/// A bring-up talks only to the chip it brings up: every write of
/// `init_chip_spec(addr)` is addressed to `addr`. Its second write puts
/// the chip in software shutdown and its second to last takes it out, and
/// its last write selects frame 1, where the PWM registers that
/// `flush_writes` sends live.
pub proof fn lemma_init_chip_addresses(addr: u8, k: int)
    requires
        0 <= k < init_chip_spec(addr).len(),
    ensures
        init_chip_spec(addr).len() == 37,
        init_chip_spec(addr)[k] matches StepView::Write(a, _) ==> a == addr,
        init_chip_spec(addr)[1] == StepView::Write(addr, seq![0x0Au8, 0x00u8]),
        init_chip_spec(addr)[35] == StepView::Write(addr, seq![0x0Au8, 0x01u8]),
        init_chip_spec(addr)[36] == StepView::Write(addr, seq![0xFDu8, 0x00u8]),
{
    let s = init_chip_spec(addr);
    if k >= 7 && k < 25 {
        assert(s[k] == StepView::Write(addr, seq![(FRAME_REG_LED_CONTROL + (k - 7)) as u8, 0xFFu8]));
    } else if k >= 25 && k < 34 {
        assert(s[k] == StepView::Write(
            addr,
            seq![(FRAME_REG_PWM + (k - 25) * CHUNK_BYTES) as u8] + Seq::new(CHUNK_BYTES as nat, |j: int| 0u8),
        ));
    }
}

/// A bring-up configures the chip before enabling it: it selects the
/// function page, waits 10 ms in shutdown, picks picture mode showing
/// frame 1 with audio sync off, then in frame 1 sets each of the 18 LED
/// control registers to 0xFF and clears each of the 144 PWM registers
/// (register `0x24 + reg` is written 0 by write `25 + reg / 16`), and only
/// then selects the function page again to leave shutdown.
pub proof fn lemma_init_chip_configures(addr: u8, reg: int)
    requires
        0 <= reg < 144,
    ensures
        init_chip_spec(addr)[0] == StepView::Write(addr, seq![0xFDu8, 0x0Bu8]),
        init_chip_spec(addr)[2] == StepView::DelayMs(10),
        init_chip_spec(addr)[3] == StepView::Write(addr, seq![0x00u8, 0x00u8]),
        init_chip_spec(addr)[4] == StepView::Write(addr, seq![0x01u8, 0x00u8]),
        init_chip_spec(addr)[5] == StepView::Write(addr, seq![0x06u8, 0x00u8]),
        init_chip_spec(addr)[6] == StepView::Write(addr, seq![0xFDu8, 0x00u8]),
        init_chip_spec(addr)[34] == StepView::Write(addr, seq![0xFDu8, 0x0Bu8]),
        reg < 18 ==> init_chip_spec(addr)[7 + reg] == StepView::Write(addr, seq![reg as u8, 0xFFu8]),
        init_chip_spec(addr)[25 + reg / 16] matches StepView::Write(a, bytes) && a == addr
            && bytes.len() == 17 && bytes[0] + reg % 16 == 0x24 + reg && bytes[1 + reg % 16] == 0,
{
    let s = init_chip_spec(addr);
    let k = reg / 16;
    assert(0 <= k < 9 && 0 <= reg % 16 < 16 && k * 16 + reg % 16 == reg);
    assert(s[25 + k] == StepView::Write(
        addr,
        seq![(FRAME_REG_PWM + k * CHUNK_BYTES) as u8] + Seq::new(CHUNK_BYTES as nat, |j: int| 0u8),
    ));
    if reg < 18 {
        assert(s[7 + reg] == StepView::Write(addr, seq![(FRAME_REG_LED_CONTROL + reg) as u8, 0xFFu8]));
    }
}

/// A flush sends the left chip's writes first: its length is nine writes
/// per dirty chip, write `i` goes to 0x74 exactly when the left chip is
/// dirty and `i < 9`, and otherwise to 0x77; the writes of a dirty chip
/// start at `flush_start` and are its nine chunk writes in order.
pub proof fn lemma_flush_plan_layout(pwm: Seq<u8>, dirty: Seq<bool>, chip: int, k: int, i: int)
    requires
        pwm.len() == CHIP_COUNT * PWM_BYTES,
        dirty.len() == CHIP_COUNT,
        0 <= chip < CHIP_COUNT,
        0 <= k < PWM_CHUNKS,
        0 <= i < flush_plan(pwm, dirty).len(),
    ensures
        flush_plan(pwm, dirty).len() == 9 * ((if dirty[0] { 1int } else { 0 }) + (if dirty[1] { 1int } else { 0 })),
        flush_plan(pwm, dirty)[i].0 == (if dirty[0] && i < 9 { 0x74u8 } else { 0x77u8 }),
        dirty[chip] ==> flush_plan(pwm, dirty)[flush_start(dirty, chip) + k] == chip_flush_writes(pwm, chip)[k],
{
}

proof fn lemma_hsv_channel_between(v: int, s: int, x: int)
    requires
        0 <= v <= 255,
        0 <= x <= s <= 255,
    ensures
        v * (255 - s) / 256 <= v * (255 - x) / 256 <= v,
        0 <= v * (255 - s) / 256,
{
    assert(v * (255 - s) <= v * (255 - x)) by (nonlinear_arith)
        requires
            0 <= v,
            x <= s,
    ;
    assert(0 <= v * (255 - s)) by (nonlinear_arith)
        requires
            0 <= v,
            s <= 255,
    ;
    assert(v * (255 - x) <= v * 256) by (nonlinear_arith)
        requires
            0 <= v,
            0 <= x,
    ;
    vstd::arithmetic::div_mod::lemma_div_is_ordered(v * (255 - s), v * (255 - x), 256);
    vstd::arithmetic::div_mod::lemma_div_is_ordered(v * (255 - x), v * 256, 256);
    vstd::arithmetic::div_mod::lemma_div_pos_is_pos(v * (255 - s), 256);
    assert(v * 256 / 256 == v) by (nonlinear_arith);
}

proof fn lemma_scaled_below(s: int, r: int)
    requires
        0 <= s <= 255,
        0 <= r <= 255,
    ensures
        0 <= s * r / 256 <= s,
{
    assert(0 <= s * r <= s * 256) by (nonlinear_arith)
        requires
            0 <= s,
            0 <= r <= 256,
    ;
    vstd::arithmetic::div_mod::lemma_div_is_ordered(s * r, s * 256, 256);
    vstd::arithmetic::div_mod::lemma_div_pos_is_pos(s * r, 256);
    assert(s * 256 / 256 == s) by (nonlinear_arith);
}

/// The spectrum conversion keeps every channel between the floor
/// `v * (255 - s) / 256` and the value `v`; in each sixth of the hue
/// circle one channel sits at `v` and one at the floor: red leads up to
/// hue 42 (blue lowest), green from 43 (blue lowest) and from 86 (red
/// lowest), blue from 129 (red lowest) and from 172 (green lowest), red
/// again from 215 (green lowest). Value 0 is black.
pub proof fn lemma_hsv_spectrum(h: u8, s: u8, v: u8)
    ensures
        ({
            let rgb = hsv_to_rgb_spec(h, s, v);
            let lo = (v * (255 - s)) / 256;
            &&& rgb.0 <= v && rgb.1 <= v && rgb.2 <= v
            &&& rgb.0 >= lo && rgb.1 >= lo && rgb.2 >= lo
            &&& h < 43 ==> rgb.0 == v && rgb.2 == lo
            &&& 43 <= h < 86 ==> rgb.1 == v && rgb.2 == lo
            &&& 86 <= h < 129 ==> rgb.1 == v && rgb.0 == lo
            &&& 129 <= h < 172 ==> rgb.2 == v && rgb.0 == lo
            &&& 172 <= h < 215 ==> rgb.2 == v && rgb.1 == lo
            &&& 215 <= h ==> rgb.0 == v && rgb.1 == lo
            &&& v == 0 ==> rgb.0 == 0 && rgb.1 == 0 && rgb.2 == 0
        }),
{
    let sector = h / 43;
    let r = (h - sector * 43) * 6;
    assert(0 <= r <= 252);
    lemma_scaled_below(s as int, r as int);
    lemma_scaled_below(s as int, 255 - r);
    lemma_hsv_channel_between(v as int, s as int, 0);
    lemma_hsv_channel_between(v as int, s as int, (s * r) / 256);
    lemma_hsv_channel_between(v as int, s as int, (s * (255 - r)) / 256);
    assert(0 * (255 - s) / 256 == 0);
}

/// The hue wheel blends two primaries at a time in steps of 3: from red to
/// green over hues 0-84 (blue off), from green to blue over 85-169 (red
/// off), from blue back to red over 170-255 (green off); the channels
/// always add up to 255, and hues 0, 85 and 170 are pure red, green and
/// blue.
pub proof fn lemma_wheel_blends(pos: u8)
    ensures
        ({
            let w = wheel_spec(pos);
            &&& w.0 + w.1 + w.2 == 255
            &&& pos < 85 ==> w.2 == 0 && w.1 == 3 * pos
            &&& 85 <= pos < 170 ==> w.0 == 0 && w.2 == 3 * (pos - 85)
            &&& 170 <= pos ==> w.1 == 0 && w.0 == 3 * (pos - 170)
        }),
        wheel_spec(0) == (255u8, 0u8, 0u8),
        wheel_spec(85) == (0u8, 255u8, 0u8),
        wheel_spec(170) == (0u8, 0u8, 255u8),
{
}

} // verus!
