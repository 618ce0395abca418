use voyager::board::{
    key_hit_led, nvic_cleanup_writes, status_leds, usb_disconnect, usb_reconnect,
    watchdog_feed_write, watchdog_start_writes, RegWrite, StatusLeds, BOOT_FRAMES,
};
use voyager::mcp23018::LEDS_OFF;

#[test]
fn status_frames() {
    assert_eq!(status_leds(0b1001), StatusLeds { led1: true, led2: false, portb: 0x80 });
    assert_eq!(status_leds(0b0110), StatusLeds { led1: false, led2: true, portb: 0x40 });
    assert_eq!(status_leds(0b1111), StatusLeds { led1: true, led2: true, portb: 0x00 });
    assert_eq!(status_leds(0), StatusLeds { led1: false, led2: false, portb: LEDS_OFF });
    for bits in 0..=255u8 {
        let leds = status_leds(bits);
        assert_eq!(leds.portb & 0x3F, 0);
        assert_eq!(leds.portb & 0x80 == 0, bits & 4 != 0);
        assert_eq!(leds.portb & 0x40 == 0, bits & 8 != 0);
    }
    assert_eq!(BOOT_FRAMES, [0b0001, 0b0011, 0b0111, 0b1111, 0b1110, 0b1100, 0b1000, 0b0000]);
    for (k, &frame) in BOOT_FRAMES.iter().enumerate() {
        for j in 0..4 {
            let lit = if k < 4 { j <= k } else { j + 4 > k };
            assert_eq!((frame >> j) & 1 == 1, lit, "frame {} LED{}", k, j + 1);
        }
    }
    // The cascade lights LED1 alone first, through the status frame logic.
    assert_eq!(status_leds(BOOT_FRAMES[0]), StatusLeds { led1: true, led2: false, portb: 0xC0 });
}

#[test]
fn reactive_hits_only_on_presses_of_lit_keys() {
    assert_eq!(key_hit_led(true, 0, 1), Some(0));
    assert_eq!(key_hit_led(false, 0, 1), None);
    assert_eq!(key_hit_led(true, 0, 0), None);
    assert_eq!(key_hit_led(true, 11, 6), Some(51));
    assert_eq!(key_hit_led(true, 40, 1), None);
}

#[test]
fn watchdog_registers() {
    assert_eq!(
        watchdog_start_writes(),
        vec![
            RegWrite { addr: 0x4000_3000, value: 0xCCCC },
            RegWrite { addr: 0x4000_3000, value: 0x5555 },
            RegWrite { addr: 0x4000_3004, value: 0b110 },
            RegWrite { addr: 0x4000_3008, value: 1250 },
        ]
    );
    assert_eq!(watchdog_feed_write(), RegWrite { addr: 0x4000_3000, value: 0xAAAA });
    // 1250 ticks of 256 / 32 kHz is ten seconds.
    assert_eq!(1250u64 * 256 * 1000 / 32_000, 10_000);
}

#[test]
fn nvic_cleanup() {
    let writes = nvic_cleanup_writes();
    assert_eq!(writes.len(), 17);
    assert_eq!(writes[0], RegWrite { addr: 0xE000_ED08, value: 0x0800_2000 });
    for i in 0..8u32 {
        assert_eq!(writes[1 + 2 * i as usize], RegWrite { addr: 0xE000_E180 + 4 * i, value: 0xFFFF_FFFF });
        assert_eq!(writes[2 + 2 * i as usize], RegWrite { addr: 0xE000_E280 + 4 * i, value: 0xFFFF_FFFF });
    }
}

#[test]
fn usb_warm_boot_disconnect_and_reconnect() {
    let d = usb_disconnect(0xFFFF_FFFF, 0xABFF_FFFF, 0xFFFF);
    assert_eq!(d.apb1enr, 0xFF7F_FFFF);
    assert_eq!(d.moder, 0xA9FF_FFFF);
    assert_eq!(d.odr, 0xEFFF);
    let d = usb_disconnect(0, 0, 0);
    assert_eq!((d.apb1enr, d.moder, d.odr), (0, 0x0100_0000, 0));
    let r = usb_reconnect(d.moder, d.apb1enr);
    assert_eq!(r.moder, 0);
    assert_eq!(r.apb1enr, 0x0080_0000);
    let r = usb_reconnect(0xA9FF_FFFF, 0xFF7F_FFFF);
    assert_eq!((r.moder, r.apb1enr), (0xA8FF_FFFF, 0xFFFF_FFFF));
}
