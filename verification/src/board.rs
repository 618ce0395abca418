//! Board bring-up and status logic: the status LEDs, the watchdog, the
//! warm-boot interrupt cleanup and the USB warm-boot disconnect.
use vstd::prelude::*;

use crate::is31fl3731::{key_led_spec, key_to_led};
use crate::mcp23018::LEDS_OFF;

verus! {

/// Levels of the four status LEDs for a 4-bit frame.
#[derive(Clone, Copy, Debug, PartialEq, Eq, Structural)]
pub struct StatusLeds {
    /// LED1 on PB5 (direct GPIO, active high).
    pub led1: bool,
    /// LED2 on PB4 (direct GPIO, active high).
    pub led2: bool,
    /// Expander port B byte: LED3 on bit 7 and LED4 on bit 6, active low;
    /// all other bits zero so the input pull-up latch is left alone.
    pub portb: u8,
}

/// Port B byte for LED3 (`led3`) and LED4 (`led4`), active low.
pub open spec fn status_portb(led3: bool, led4: bool) -> u8 {
    ((if led3 { 0u8 } else { 0x80u8 }) | (if led4 { 0u8 } else { 0x40u8 })) as u8
}

/// Splits a 4-bit status frame: bit 0 lights LED1, bit 1 LED2, bit 2
/// LED3 and bit 3 LED4.
pub fn status_leds(bits: u8) -> (leds: StatusLeds)
    ensures
        leds.led1 == ((bits & 0x01) != 0),
        leds.led2 == ((bits & 0x02) != 0),
        leds.portb == status_portb((bits & 0x04) != 0, (bits & 0x08) != 0),
{
    let led3_on: u8 = (bits >> 2) & 1;
    let led4_on: u8 = (bits >> 3) & 1;
    let portb: u8 = ((led3_on ^ 1) << 7) | ((led4_on ^ 1) << 6);
    assert(portb == status_portb((bits & 0x04) != 0, (bits & 0x08) != 0)) by (bit_vector)
        requires
            led3_on == (bits >> 2) & 1,
            led4_on == (bits >> 3) & 1,
            portb == ((led3_on ^ 1) << 7) | ((led4_on ^ 1) << 6),
    ;
    StatusLeds { led1: (bits & 0x01) != 0, led2: (bits & 0x02) != 0, portb }
}

/// The expander's status-LED byte only ever uses bits 6 and 7, and the
/// all-off frame is the byte the expander parks its LEDs at.
pub proof fn lemma_status_portb(led3: bool, led4: bool)
    ensures
        status_portb(led3, led4) & 0x3F == 0,
        status_portb(false, false) == LEDS_OFF,
        (status_portb(led3, led4) & 0x80 == 0) == led3,
        (status_portb(led3, led4) & 0x40 == 0) == led4,
{
    let p = status_portb(led3, led4);
    let x: u8 = if led3 { 0u8 } else { 0x80u8 };
    let y: u8 = if led4 { 0u8 } else { 0x40u8 };
    assert((x | y) & 0x3F == 0 && ((x | y) & 0x80 == 0) == (x == 0) && ((x | y) & 0x40 == 0) == (y
        == 0)) by (bit_vector)
        requires
            x == 0 || x == 0x80,
            y == 0 || y == 0x40,
    ;
    assert((0x80u8 | 0x40u8) == 0xC0u8) by (bit_vector);
}

/// Boot animation of the status LEDs, one frame per step after an initial
/// pause: LED1 to LED4 light one by one, then clear in the same order.
pub const BOOT_FRAMES: [u8; 8] = [0b0001, 0b0011, 0b0111, 0b1111, 0b1110, 0b1100, 0b1000, 0b0000];

/// Whether LED `j` (0: LED1 .. 3: LED4) is lit in boot frame `k`: during
/// the first four frames LEDs up to `k` are lit, during the last four the
/// LEDs after `k - 4`.
pub open spec fn boot_frame_lit(k: int, j: int) -> bool {
    if k < 4 { j <= k } else { j > k - 4 }
}

/// The boot animation is the cascade: frame `k` lights exactly the LEDs
/// of `boot_frame_lit(k, _)` and nothing beyond the four status bits.
pub proof fn lemma_boot_cascade(k: int, j: u8)
    requires
        0 <= k < 8,
        j < 4,
    ensures
        ((BOOT_FRAMES@[k] >> j) & 1 == 1) == boot_frame_lit(k, j as int),
        BOOT_FRAMES@[k] < 16,
{
    let f = BOOT_FRAMES@[k];
    assert(f == 1 || f == 3 || f == 7 || f == 15 || f == 14 || f == 12 || f == 8 || f == 0);
    assert(((1u8 >> j) & 1 == 1) == (j == 0)) by (bit_vector) requires j < 4;
    assert(((3u8 >> j) & 1 == 1) == (j <= 1)) by (bit_vector) requires j < 4;
    assert(((7u8 >> j) & 1 == 1) == (j <= 2)) by (bit_vector) requires j < 4;
    assert(((15u8 >> j) & 1 == 1) == (j <= 3)) by (bit_vector) requires j < 4;
    assert(((14u8 >> j) & 1 == 1) == (j >= 1)) by (bit_vector) requires j < 4;
    assert(((12u8 >> j) & 1 == 1) == (j >= 2)) by (bit_vector) requires j < 4;
    assert(((8u8 >> j) & 1 == 1) == (j >= 3)) by (bit_vector) requires j < 4;
    assert(((0u8 >> j) & 1 == 1) == false) by (bit_vector) requires j < 4;
}
/// Pause before the boot animation, in milliseconds.
pub const BOOT_PAUSE_MS: u64 = 500;
/// Duration of each boot animation frame, in milliseconds.
pub const BOOT_FRAME_MS: u64 = 250;

/// The LED a key event lights in the Reactive effect: a press of a key
/// with an LED; releases and keys without an LED light nothing.
pub fn key_hit_led(pressed: bool, row: u8, col: u8) -> (led: Option<u8>)
    ensures
        led == (if pressed { key_led_spec(row as int, col as int) } else { None }),
{
    if !pressed {
        return None;
    }
    key_to_led(row, col)
}

/// A 32-bit write to a memory-mapped register.
#[derive(Clone, Copy, Debug, PartialEq, Eq, Structural)]
pub struct RegWrite {
    pub addr: u32,
    pub value: u32,
}

/// Independent watchdog key register.
pub const IWDG_KR: u32 = 0x4000_3000;
/// Independent watchdog prescaler register.
pub const IWDG_PR: u32 = 0x4000_3004;
/// Independent watchdog reload register.
pub const IWDG_RLR: u32 = 0x4000_3008;
/// Key that starts the watchdog.
pub const IWDG_KEY_START: u32 = 0xCCCC;
/// Key that unlocks the prescaler and reload registers.
pub const IWDG_KEY_UNLOCK: u32 = 0x5555;
/// Key that reloads the counter.
pub const IWDG_KEY_FEED: u32 = 0xAAAA;
/// Prescaler code for a divider of 256 (about 125 Hz ticks from LSI).
pub const IWDG_PRESCALER_256: u32 = 0b110;
/// Reload value: 1250 ticks.
pub const IWDG_RELOAD: u32 = 1250;
/// Frequency of the LSI clock that drives the watchdog, in Hz.
pub const LSI_HZ: u32 = 32_000;

/// Divider of the watchdog prescaler code `pr`: 4 * 2^pr, 256 from code 6 on.
pub open spec fn iwdg_divider(pr: u32) -> int {
    if pr == 0 { 4 } else if pr == 1 { 8 } else if pr == 2 { 16 } else if pr == 3 { 32 } else if pr == 4 { 64 }
    else if pr == 5 { 128 } else { 256 }
}

/// Watchdog timeout in milliseconds for prescaler code `pr` and reload
/// `rlr`, with the LSI clock.
pub open spec fn iwdg_timeout_ms(pr: u32, rlr: u32) -> int {
    rlr * iwdg_divider(pr) * 1000 / (LSI_HZ as int)
}

/// The register writes that start the watchdog: start it, unlock its
/// configuration, then set a /256 prescaler and a reload of 1250, for a
/// 10 s timeout.
pub fn watchdog_start_writes() -> (writes: Vec<RegWrite>)
    ensures
        writes@ == seq![
            RegWrite { addr: IWDG_KR, value: IWDG_KEY_START },
            RegWrite { addr: IWDG_KR, value: IWDG_KEY_UNLOCK },
            RegWrite { addr: IWDG_PR, value: IWDG_PRESCALER_256 },
            RegWrite { addr: IWDG_RLR, value: IWDG_RELOAD },
        ],
        iwdg_timeout_ms(writes@[2].value, writes@[3].value) == 10_000,
{
    let mut writes: Vec<RegWrite> = Vec::new();
    writes.push(RegWrite { addr: IWDG_KR, value: IWDG_KEY_START });
    writes.push(RegWrite { addr: IWDG_KR, value: IWDG_KEY_UNLOCK });
    writes.push(RegWrite { addr: IWDG_PR, value: IWDG_PRESCALER_256 });
    writes.push(RegWrite { addr: IWDG_RLR, value: IWDG_RELOAD });
    assert(writes@ =~= seq![
        RegWrite { addr: IWDG_KR, value: IWDG_KEY_START },
        RegWrite { addr: IWDG_KR, value: IWDG_KEY_UNLOCK },
        RegWrite { addr: IWDG_PR, value: IWDG_PRESCALER_256 },
        RegWrite { addr: IWDG_RLR, value: IWDG_RELOAD },
    ]);
    writes
}

/// The register write that feeds the watchdog.
pub fn watchdog_feed_write() -> (w: RegWrite)
    ensures
        w == (RegWrite { addr: IWDG_KR, value: IWDG_KEY_FEED }),
{
    RegWrite { addr: IWDG_KR, value: IWDG_KEY_FEED }
}

/// Vector table offset register.
pub const SCB_VTOR: u32 = 0xE000_ED08;
/// Start of the firmware image, past the DFU bootloader.
pub const FIRMWARE_BASE: u32 = 0x0800_2000;
/// First NVIC interrupt clear-enable register.
pub const NVIC_ICER0: u32 = 0xE000_E180;
/// First NVIC interrupt clear-pending register.
pub const NVIC_ICPR0: u32 = 0xE000_E280;
/// Number of NVIC enable / pending register pairs.
pub const NVIC_BANKS: u32 = 8;

/// Warm-boot cleanup writes: point the vector table at the firmware, then
/// for each of the 8 NVIC banks disable and un-pend all 32 interrupts.
pub open spec fn nvic_cleanup_spec() -> Seq<RegWrite> {
    seq![RegWrite { addr: SCB_VTOR, value: FIRMWARE_BASE }] + Seq::new(
        (2 * NVIC_BANKS) as nat,
        |j: int|
            if j % 2 == 0 {
                RegWrite { addr: (NVIC_ICER0 + (j / 2) * 4) as u32, value: 0xFFFF_FFFF }
            } else {
                RegWrite { addr: (NVIC_ICPR0 + (j / 2) * 4) as u32, value: 0xFFFF_FFFF }
            },
    )
}

/// The bootloader jumps to the firmware without resetting the NVIC, which
/// can leave stale interrupts pending: these writes fix the vector table
/// and clear every enable and pending bit before the HAL takes over.
pub fn nvic_cleanup_writes() -> (writes: Vec<RegWrite>)
    ensures
        writes@ == nvic_cleanup_spec(),
{
    let mut writes: Vec<RegWrite> = Vec::new();
    writes.push(RegWrite { addr: SCB_VTOR, value: FIRMWARE_BASE });
    let mut i: u32 = 0;
    while i < NVIC_BANKS
        invariant
            i <= NVIC_BANKS,
            writes@ == nvic_cleanup_spec().take(1 + 2 * i),
        decreases NVIC_BANKS - i,
    {
        writes.push(RegWrite { addr: NVIC_ICER0 + i * 4, value: 0xFFFF_FFFF });
        writes.push(RegWrite { addr: NVIC_ICPR0 + i * 4, value: 0xFFFF_FFFF });
        assert(writes@ =~= nvic_cleanup_spec().take(1 + 2 * (i + 1)));
        i = i + 1;
    }
    assert(nvic_cleanup_spec().take(1 + 2 * NVIC_BANKS) =~= nvic_cleanup_spec());
    writes
}

/// RCC APB1 peripheral clock enable register.
pub const RCC_APB1ENR: u32 = 0x4002_101C;
/// GPIOA mode register.
pub const GPIOA_MODER: u32 = 0x4800_0000;
/// GPIOA output data register.
pub const GPIOA_ODR: u32 = 0x4800_0014;
/// USB clock-enable bit in APB1ENR.
pub const USB_CLOCK_BIT: u32 = 23;
/// PA12 (USB D+) pin number.
pub const PA12: u32 = 12;

/// Register values that hold the host off USB after a warm boot.
#[derive(Clone, Copy, Debug, PartialEq, Eq, Structural)]
pub struct UsbDisconnect {
    pub apb1enr: u32,
    pub moder: u32,
    pub odr: u32,
}

/// Warm-boot disconnect: the bootloader leaves its USB pull-up on D+, so
/// gate the USB clock off, make PA12 (D+) a general-purpose output and
/// drive it low. Every other bit of the three registers is kept.
pub fn usb_disconnect(apb1enr: u32, moder: u32, odr: u32) -> (regs: UsbDisconnect)
    ensures
        regs.apb1enr == apb1enr & !(1u32 << 23u32),
        regs.moder == (moder & !(3u32 << 24u32)) | (1u32 << 24u32),
        regs.odr == odr & !(1u32 << 12u32),
{
    UsbDisconnect {
        apb1enr: apb1enr & !(1u32 << USB_CLOCK_BIT),
        moder: (moder & !(0b11u32 << (2 * PA12))) | (0b01u32 << (2 * PA12)),
        odr: odr & !(1u32 << PA12),
    }
}

/// Register values that hand D+ back to the USB peripheral.
#[derive(Clone, Copy, Debug, PartialEq, Eq, Structural)]
pub struct UsbReconnect {
    pub moder: u32,
    pub apb1enr: u32,
}

/// Ends the warm-boot disconnect once storage is ready: PA12 back to
/// input mode and the USB clock back on; other bits kept.
pub fn usb_reconnect(moder: u32, apb1enr: u32) -> (regs: UsbReconnect)
    ensures
        regs.moder == moder & !(3u32 << 24u32),
        regs.apb1enr == apb1enr | (1u32 << 23u32),
{
    UsbReconnect {
        moder: moder & !(0b11u32 << (2 * PA12)),
        apb1enr: apb1enr | (1u32 << USB_CLOCK_BIT),
    }
}

/// What the disconnect and the reconnect do to the bits: the disconnect
/// turns the USB clock off, puts PA12 in output mode (01) and drives it
/// low; the reconnect puts PA12 back in input mode (00) and the clock on;
/// neither touches any other bit, so a reconnect after a disconnect
/// leaves the mode register as an input-mode PA12 over the starting
/// value and the clock register as the starting value with the clock on.
pub proof fn lemma_usb_disconnect_reconnect(apb1enr: u32, moder: u32, odr: u32, bit: u32)
    requires
        bit < 32,
    ensures
        (apb1enr & !(1u32 << 23u32)) & (1u32 << 23u32) == 0,
        ((moder & !(3u32 << 24u32)) | (1u32 << 24u32)) >> 24u32 & 3 == 1,
        (odr & !(1u32 << 12u32)) & (1u32 << 12u32) == 0,
        (moder & !(3u32 << 24u32)) >> 24u32 & 3 == 0,
        bit != 23 ==> ((apb1enr & !(1u32 << 23u32)) >> bit & 1) == (apb1enr >> bit & 1),
        bit != 24 && bit != 25 ==> (((moder & !(3u32 << 24u32)) | (1u32 << 24u32)) >> bit & 1) == (moder
            >> bit & 1),
        bit != 12 ==> ((odr & !(1u32 << 12u32)) >> bit & 1) == (odr >> bit & 1),
        (((moder & !(3u32 << 24u32)) | (1u32 << 24u32)) & !(3u32 << 24u32)) == moder & !(3u32 << 24u32),
        ((apb1enr & !(1u32 << 23u32)) | (1u32 << 23u32)) == apb1enr | (1u32 << 23u32),
{
    assert((apb1enr & !(1u32 << 23u32)) & (1u32 << 23u32) == 0) by (bit_vector);
    assert(((moder & !(3u32 << 24u32)) | (1u32 << 24u32)) >> 24u32 & 3 == 1) by (bit_vector);
    assert((odr & !(1u32 << 12u32)) & (1u32 << 12u32) == 0) by (bit_vector);
    assert((moder & !(3u32 << 24u32)) >> 24u32 & 3 == 0) by (bit_vector);
    assert(bit != 23 ==> ((apb1enr & !(1u32 << 23u32)) >> bit & 1) == (apb1enr >> bit & 1))
        by (bit_vector)
        requires
            bit < 32,
    ;
    assert(bit != 24 && bit != 25 ==> (((moder & !(3u32 << 24u32)) | (1u32 << 24u32)) >> bit & 1)
        == (moder >> bit & 1)) by (bit_vector)
        requires
            bit < 32,
    ;
    assert(bit != 12 ==> ((odr & !(1u32 << 12u32)) >> bit & 1) == (odr >> bit & 1)) by (bit_vector)
        requires
            bit < 32,
    ;
    assert((((moder & !(3u32 << 24u32)) | (1u32 << 24u32)) & !(3u32 << 24u32)) == moder & !(3u32
        << 24u32)) by (bit_vector);
    assert(((apb1enr & !(1u32 << 23u32)) | (1u32 << 23u32)) == apb1enr | (1u32 << 23u32))
        by (bit_vector);
}

} // verus!
