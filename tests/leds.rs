use front_io_board::bus::{BusEvent, I2cDevice, I2cOp, ResponseCode};
use front_io_board::leds::{
    channel_buffer, led_location, FullErrorSummary, LedController, LedLocation, Leds,
};
use front_io_board::pca9956b::{Error, LedErrSummary, Pca9956BErrorState};

fn left() -> I2cDevice {
    I2cDevice { controller: 0, port: 1, address: 0x70 }
}

fn right() -> I2cDevice {
    I2cDevice { controller: 0, port: 1, address: 0x71 }
}

fn leds() -> Leds {
    Leds::new(&left(), &right())
}

fn burst(device: I2cDevice, buf: &[u8]) -> I2cOp {
    let mut bytes = vec![0x8A];
    bytes.extend_from_slice(buf);
    I2cOp::Write { device, bytes }
}

#[test]
fn location_table_is_one_to_one_and_in_range() {
    let mut seen = std::collections::HashSet::new();
    for i in 0..33 {
        let loc = led_location(i);
        assert!(loc.output < 24);
        assert!(seen.insert((loc.controller == LedController::Left, loc.output)));
    }
    assert_eq!(seen.len(), 33);
    assert_eq!(led_location(32), LedLocation { controller: LedController::Left, output: 23 });
    assert_eq!(led_location(6), LedLocation { controller: LedController::Left, output: 15 });
    assert_eq!(led_location(31), LedLocation { controller: LedController::Right, output: 12 });
}

#[test]
fn all_off_writes_two_full_zero_bursts() {
    let ops = leds().update_led_state(0);
    assert_eq!(ops, vec![burst(left(), &[0; 24]), burst(right(), &[0; 24])]);
}

#[test]
fn single_port_lights_its_output() {
    let ops = leds().update_led_state(1 << 9);
    let mut r = [0u8; 24];
    r[2] = 255;
    assert_eq!(ops, vec![burst(left(), &[0; 24]), burst(right(), &r)]);
}

#[test]
fn system_led_bit_lights_left_output_23() {
    let buf = channel_buffer(1 << 32, LedController::Left);
    let mut expected = vec![0u8; 24];
    expected[23] = 255;
    assert_eq!(buf, expected);
    assert_eq!(channel_buffer(1 << 32, LedController::Right), vec![0u8; 24]);
}

#[test]
fn all_on_lights_every_mapped_output() {
    let l = channel_buffer(u64::MAX, LedController::Left);
    let r = channel_buffer(u64::MAX, LedController::Right);
    for ch in 0..24 {
        let left_used = ch < 16 || ch == 23;
        assert_eq!(l[ch], if left_used { 255 } else { 0 });
        assert_eq!(r[ch], if ch < 16 { 255 } else { 0 });
    }
}

#[test]
fn same_mask_twice_gives_same_buffers() {
    let mask = 0b1_0110_1001_0000_1111_0101_0011_1100_0001u64;
    let a = leds().update_led_state(mask);
    let b = leds().update_led_state(mask);
    assert_eq!(a, b);
}

#[test]
fn toggling_one_bit_changes_one_entry() {
    let mask = 0x1_2345_6789u64;
    for port in 0..33usize {
        let toggled = mask ^ (1u64 << port);
        let loc = led_location(port);
        for side in [LedController::Left, LedController::Right] {
            let a = channel_buffer(mask, side);
            let b = channel_buffer(toggled, side);
            for ch in 0..24usize {
                let expected_change = side == loc.controller && ch == loc.output as usize;
                assert_eq!(a[ch] != b[ch], expected_change, "port {} side {:?} ch {}", port, side, ch);
            }
        }
    }
}

#[test]
fn current_is_set_on_both_drivers() {
    let l = leds();
    assert_eq!(
        l.set_current(40),
        vec![
            I2cOp::Write { device: left(), bytes: vec![0x40, 40] },
            I2cOp::Write { device: right(), bytes: vec![0x40, 40] },
        ]
    );
    assert_eq!(
        l.initialize_current(),
        vec![
            I2cOp::Write { device: left(), bytes: vec![0x40, 222] },
            I2cOp::Write { device: right(), bytes: vec![0x40, 222] },
        ]
    );
}

#[test]
fn system_led_is_one_write() {
    assert_eq!(leds().turn_on_system_led(), I2cOp::Write { device: left(), bytes: vec![0x21, 255] });
}

#[test]
fn set_port_writes_one_register() {
    let l = leds();
    assert_eq!(l.set_port(8, true), Ok(I2cOp::Write { device: right(), bytes: vec![0x0A, 255] }));
    assert_eq!(l.set_port(7, false), Ok(I2cOp::Write { device: left(), bytes: vec![0x0A + 13, 0] }));
    assert_eq!(l.set_port(33, true), Err(Error::InvalidPort(33)));
}

#[test]
fn check_errors_polls_the_chosen_driver() {
    let (_, op) = leds().check_errors(LedController::Right);
    assert_eq!(op, I2cOp::Read { device: right(), reg: 0x01, len: 1 });
    let (mut poll, op) = leds().check_errors(LedController::Left);
    assert_eq!(op, I2cOp::Read { device: left(), reg: 0x01, len: 1 });
    poll.resume(BusEvent::Read(vec![0]));
}

#[test]
fn summary_none_when_both_clean() {
    assert_eq!(Leds::error_summary(&Ok(None), &Ok(None)), None);
}

#[test]
fn summary_reports_faults_per_side() {
    let state = Pca9956BErrorState::from_flags(false, &[0b01, 0, 0, 0, 0, 0b10]);
    let s = Leds::error_summary(&Ok(None), &Ok(Some(state)));
    assert_eq!(
        s,
        Some(FullErrorSummary {
            left: LedErrSummary::clear(),
            right: LedErrSummary { overtemp: false, short_circuit: 1, open_circuit: 1, invalid: 0 },
            left_unavailable: false,
            right_unavailable: false,
        })
    );
}

#[test]
fn summary_marks_failed_poll_unavailable() {
    let err = Err(Error::I2cError(ResponseCode { code: 2 }));
    let s = Leds::error_summary(&err, &Ok(None));
    assert_eq!(
        s,
        Some(FullErrorSummary {
            left: LedErrSummary::clear(),
            right: LedErrSummary::clear(),
            left_unavailable: true,
            right_unavailable: false,
        })
    );
}
