use front_io_board::bus::{BusEvent, I2cDevice, I2cOp, ResponseCode};
use front_io_board::pca9956b::{
    Error, FaultPollStage, LedErr, LedErrSummary, Pca9956B, Pca9956BErrorState, PollStep, Register,
};

fn dev() -> I2cDevice {
    I2cDevice { controller: 1, port: 2, address: 0x05 }
}

fn write(bytes: Vec<u8>) -> I2cOp {
    I2cOp::Write { device: dev(), bytes }
}

#[test]
fn register_offsets() {
    assert_eq!(Register::MODE1.addr(), 0x00);
    assert_eq!(Register::MODE2.addr(), 0x01);
    assert_eq!(Register::PWM0.addr(), 0x0A);
    assert_eq!(Register::PWM23.addr(), 0x21);
    assert_eq!(Register::IREF0.addr(), 0x22);
    assert_eq!(Register::IREF23.addr(), 0x39);
    assert_eq!(Register::PWMALL.addr(), 0x3F);
    assert_eq!(Register::IREFALL.addr(), 0x40);
    assert_eq!(Register::EFLAG0.addr(), 0x41);
    assert_eq!(Register::EFLAG5.addr(), 0x46);
    assert_eq!(Register::from_u8(0x21), Some(Register::PWM23));
    assert_eq!(Register::from_u8(0x47), None);
    for a in 0u8..=0x46 {
        assert_eq!(Register::from_u8(a).map(|r| r.addr()), Some(a));
    }
}

#[test]
fn set_a_led_pwm_writes_only_its_register() {
    let d = Pca9956B::new(&dev());
    for c in 0u8..24 {
        assert_eq!(d.set_a_led_pwm(c, 0x80 + c), Ok(write(vec![0x0A + c, 0x80 + c])));
    }
}

#[test]
fn set_a_led_pwm_rejects_channel_past_24() {
    let d = Pca9956B::new(&dev());
    assert_eq!(d.set_a_led_pwm(24, 1), Err(Error::InvalidLED(24)));
    assert_eq!(d.set_a_led_pwm(255, 1), Err(Error::InvalidLED(255)));
}

#[test]
fn set_all_led_pwm_is_one_burst() {
    let d = Pca9956B::new(&dev());
    let vals: Vec<u8> = (0u8..24).map(|i| i * 3).collect();
    let mut expected = vec![0x8A];
    expected.extend_from_slice(&vals);
    assert_eq!(d.set_all_led_pwm(&vals), Ok(write(expected)));
    assert_eq!(d.set_all_led_pwm(&[7, 9]), Ok(write(vec![0x8A, 7, 9])));
    assert_eq!(d.set_all_led_pwm(&[]), Ok(write(vec![0x8A])));
}

#[test]
fn set_all_led_pwm_rejects_more_than_24() {
    let d = Pca9956B::new(&dev());
    assert_eq!(d.set_all_led_pwm(&[0u8; 25]), Err(Error::InvalidLED(25)));
    assert_eq!(d.set_all_led_pwm(&[0u8; 300]), Err(Error::InvalidLED(0xFF)));
}

#[test]
fn current_and_global_pwm_writes() {
    let d = Pca9956B::new(&dev());
    assert_eq!(d.set_iref_all(222), write(vec![0x40, 222]));
    assert_eq!(d.set_pwm_all(17), write(vec![0x3F, 17]));
}

#[test]
fn led_err_codes() {
    assert_eq!(LedErr::from(0), LedErr::NoError);
    assert_eq!(LedErr::from(1), LedErr::ShortCircuit);
    assert_eq!(LedErr::from(2), LedErr::OpenCircuit);
    assert_eq!(LedErr::from(3), LedErr::Invalid);
    assert_eq!(LedErr::from(200), LedErr::Invalid);
    assert_eq!(LedErr::default(), LedErr::NoError);
}

#[test]
fn validate_checks_low_three_bits() {
    let d = Pca9956B::new(&dev());
    assert_eq!(d.validate_request(), I2cOp::Read { device: dev(), reg: 0x01, len: 1 });
    for low in 0u8..8 {
        for high in [0x00u8, 0x28, 0xF8] {
            let r = Pca9956B::validate(&BusEvent::Read(vec![high | low]));
            assert_eq!(r, Ok(low == 0b101));
        }
    }
    let code = ResponseCode { code: 4 };
    assert_eq!(Pca9956B::validate(&BusEvent::Failed(code)), Err(Error::I2cError(code)));
}

#[test]
fn poll_without_fault_reads_nothing_more() {
    let d = Pca9956B::new(&dev());
    for mode2 in [0x00u8, 0x05, 0x3F] {
        let (mut poll, op) = d.check_for_errors();
        assert_eq!(op, I2cOp::Read { device: dev(), reg: 0x01, len: 1 });
        assert_eq!(poll.resume(BusEvent::Read(vec![mode2])), PollStep::Done(Ok(None)));
        assert_eq!(poll.stage, FaultPollStage::Finished);
    }
}

#[test]
fn poll_with_error_reads_decodes_and_clears() {
    let d = Pca9956B::new(&dev());
    let (mut poll, _) = d.check_for_errors();
    let step = poll.resume(BusEvent::Read(vec![0x45]));
    assert_eq!(step, PollStep::Issue(I2cOp::Read { device: dev(), reg: 0xC1, len: 6 }));
    let flags = vec![0b11_10_01_00, 0x00, 0x55, 0xAA, 0xFF, 0b00_00_00_10];
    let step = poll.resume(BusEvent::Read(flags));
    assert_eq!(step, PollStep::Issue(write(vec![0x01, 0x55])));
    let step = poll.resume(BusEvent::Written);
    let mut expected = vec![LedErr::NoError, LedErr::ShortCircuit, LedErr::OpenCircuit, LedErr::Invalid];
    expected.extend([LedErr::NoError; 4]);
    expected.extend([LedErr::ShortCircuit; 4]);
    expected.extend([LedErr::OpenCircuit; 4]);
    expected.extend([LedErr::Invalid; 4]);
    expected.extend([LedErr::OpenCircuit, LedErr::NoError, LedErr::NoError, LedErr::NoError]);
    assert_eq!(
        step,
        PollStep::Done(Ok(Some(Pca9956BErrorState { led_errors: expected, overtemp: false })))
    );
}

#[test]
fn poll_on_overtemperature_alone() {
    let d = Pca9956B::new(&dev());
    let (mut poll, _) = d.check_for_errors();
    let step = poll.resume(BusEvent::Read(vec![0x85]));
    assert_eq!(step, PollStep::Issue(I2cOp::Read { device: dev(), reg: 0xC1, len: 6 }));
    let step = poll.resume(BusEvent::Read(vec![0; 6]));
    assert_eq!(step, PollStep::Issue(write(vec![0x01, 0x95])));
    match poll.resume(BusEvent::Written) {
        PollStep::Done(Ok(Some(state))) => {
            assert!(state.overtemp);
            assert_eq!(state.led_errors, vec![LedErr::NoError; 24]);
        }
        other => panic!("unexpected {:?}", other),
    }
}

#[test]
fn poll_fails_when_clear_fails() {
    let d = Pca9956B::new(&dev());
    let (mut poll, _) = d.check_for_errors();
    poll.resume(BusEvent::Read(vec![0x40]));
    poll.resume(BusEvent::Read(vec![0x01; 6]));
    let code = ResponseCode { code: 9 };
    assert_eq!(poll.resume(BusEvent::Failed(code)), PollStep::Done(Err(Error::I2cError(code))));
}

#[test]
fn poll_fails_when_mode2_read_fails() {
    let d = Pca9956B::new(&dev());
    let (mut poll, _) = d.check_for_errors();
    let code = ResponseCode { code: 3 };
    assert_eq!(poll.resume(BusEvent::Failed(code)), PollStep::Done(Err(Error::I2cError(code))));
}

#[test]
fn summary_counts_each_class() {
    let state = Pca9956BErrorState::from_flags(true, &[0b11_10_01_00, 0b01_01_01_01, 0, 0, 0b10_00_00_00, 0]);
    assert_eq!(
        state.summary(),
        LedErrSummary { overtemp: true, short_circuit: 5, open_circuit: 2, invalid: 1 }
    );
    let clear = Pca9956BErrorState::from_flags(false, &[0; 6]);
    assert_eq!(clear.summary(), LedErrSummary::clear());
}

#[test]
fn events_answer_their_operations() {
    let read = I2cOp::Read { device: dev(), reg: 1, len: 1 };
    let w = write(vec![1, 2]);
    assert!(BusEvent::Read(vec![0]).answers(&read));
    assert!(!BusEvent::Read(vec![0, 1]).answers(&read));
    assert!(!BusEvent::Written.answers(&read));
    assert!(BusEvent::Written.answers(&w));
    assert!(BusEvent::Failed(ResponseCode { code: 1 }).answers(&w));
}

#[test]
fn driver_error_conversions() {
    let code = ResponseCode { code: 11 };
    assert_eq!(Error::from(code), Error::I2cError(code));
    assert_eq!(Error::I2cError(code).response_code(), Some(code));
    assert_eq!(Error::InvalidLED(30).response_code(), None);
}
