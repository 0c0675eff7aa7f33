use blinklink::device::{Action, Device, Event};
use blinklink::host::{menu_choice, parse_rate, reboot_frame, set_rate_frame, MenuChoice};

#[test]
fn set_rate_frame_is_bit_exact() {
    assert_eq!(set_rate_frame(150), vec![0xFF, 0x01, 150, 0xFE]);
    assert_eq!(set_rate_frame(0), vec![0xFF, 0x01, 0x00, 0xFE]);
    assert_eq!(set_rate_frame(255), vec![0xFF, 0x01, 0xFF, 0xFE]);
}

#[test]
fn reboot_frame_is_bit_exact() {
    assert_eq!(reboot_frame(), vec![0xFF, 0x02, 0x00, 0xFE]);
}

#[test]
fn parse_rate_accepts_decimal_unsigned_bytes() {
    assert_eq!(parse_rate(b"150"), Some(150));
    assert_eq!(parse_rate(b"0"), Some(0));
    assert_eq!(parse_rate(b"255"), Some(255));
    assert_eq!(parse_rate(b"007"), Some(7));
    assert_eq!(parse_rate(b"+42"), Some(42));
}

#[test]
fn parse_rate_rejects_everything_else() {
    assert_eq!(parse_rate(b"abc"), None);
    assert_eq!(parse_rate(b""), None);
    assert_eq!(parse_rate(b"+"), None);
    assert_eq!(parse_rate(b"256"), None);
    assert_eq!(parse_rate(b"-1"), None);
    assert_eq!(parse_rate(b"12a"), None);
    assert_eq!(parse_rate(b"99999999999999999999"), None);
}

#[test]
fn menu_choice_maps_the_two_entries() {
    assert_eq!(menu_choice(1), MenuChoice::ChangeBlinkRate);
    assert_eq!(menu_choice(2), MenuChoice::Reboot);
    assert_eq!(menu_choice(0), MenuChoice::Invalid);
    assert_eq!(menu_choice(3), MenuChoice::Invalid);
    assert_eq!(menu_choice(255), MenuChoice::Invalid);
}

#[test]
fn scenario_change_blink_rate_end_to_end() {
    // The operator picks entry one and types "150".
    assert_eq!(menu_choice(1), MenuChoice::ChangeBlinkRate);
    let rate = parse_rate(b"150").unwrap();
    let wire = set_rate_frame(rate);
    assert_eq!(wire, vec![0xFF, 0x01, 150, 0xFE]);
    // The firmware consumes the wire bytes and then toggles at the new
    // cadence.
    let mut device = Device::new(0);
    for &byte in &wire {
        assert_eq!(device.step(Event::ByteReceived(byte)), Action::Continue);
    }
    assert_eq!(device.scheduler.interval, 150_000_000);
    assert_eq!(device.step(Event::NoData(149_999_999)), Action::Continue);
    assert_eq!(device.step(Event::NoData(150_000_000)), Action::ToggleLed);
    assert_eq!(device.step(Event::NoData(299_999_999)), Action::Continue);
    assert_eq!(device.step(Event::NoData(300_000_000)), Action::ToggleLed);
}

#[test]
fn scenario_reboot_end_to_end() {
    // The operator picks entry two; the frame carries a zero payload.
    assert_eq!(menu_choice(2), MenuChoice::Reboot);
    let wire = reboot_frame();
    assert_eq!(wire, vec![0xFF, 0x02, 0x00, 0xFE]);
    // The firmware consumes the wire bytes; the last one demands the reset.
    let mut device = Device::new(900);
    device.step(Event::ByteReceived(wire[0]));
    device.step(Event::ByteReceived(wire[1]));
    device.step(Event::ByteReceived(wire[2]));
    assert_eq!(device.step(Event::ByteReceived(wire[3])), Action::Reset);
    // The reset boots a fresh engine: the default interval is restored.
    let rebooted = Device::new(0);
    assert_eq!(rebooted.scheduler.interval, 100_000_000);
    assert!(!rebooted.parser.reading);
}

#[test]
fn scenario_invalid_rate_input_sends_nothing() {
    // The operator types "abc" at the rate prompt: the input is rejected
    // and no frame is built, so no byte reaches the wire.
    let parsed = parse_rate(b"abc");
    assert_eq!(parsed, None);
}
