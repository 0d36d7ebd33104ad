//! Register protocol of the PCA9956B 24-channel LED driver.
use vstd::prelude::*;

use crate::bus::{BusEvent, I2cDevice, I2cOp, OpModel, ResponseCode};

verus! {

/// The registers of the PCA9956B, each at its own byte offset.
#[allow(non_camel_case_types)]
#[derive(Clone, Copy, Debug, PartialEq, Eq, Structural)]
pub enum Register {
    MODE1,
    MODE2,
    LEDOUT0,
    LEDOUT1,
    LEDOUT2,
    LEDOUT3,
    LEDOUT4,
    LEDOUT5,
    GRPPWM,
    GRPFREQ,
    PWM0,
    PWM1,
    PWM2,
    PWM3,
    PWM4,
    PWM5,
    PWM6,
    PWM7,
    PWM8,
    PWM9,
    PWM10,
    PWM11,
    PWM12,
    PWM13,
    PWM14,
    PWM15,
    PWM16,
    PWM17,
    PWM18,
    PWM19,
    PWM20,
    PWM21,
    PWM22,
    PWM23,
    IREF0,
    IREF1,
    IREF2,
    IREF3,
    IREF4,
    IREF5,
    IREF6,
    IREF7,
    IREF8,
    IREF9,
    IREF10,
    IREF11,
    IREF12,
    IREF13,
    IREF14,
    IREF15,
    IREF16,
    IREF17,
    IREF18,
    IREF19,
    IREF20,
    IREF21,
    IREF22,
    IREF23,
    OFFSET,
    SUBADR1,
    SUBADR2,
    SUBADR3,
    ALLCALLADR,
    PWMALL,
    IREFALL,
    EFLAG0,
    EFLAG1,
    EFLAG2,
    EFLAG3,
    EFLAG4,
    EFLAG5,
}

impl Register {
    /// The byte offset of the register.
    pub open spec fn spec_addr(self) -> u8 {
        match self {
            Register::MODE1 => 0x00,
            Register::MODE2 => 0x01,
            Register::LEDOUT0 => 0x02,
            Register::LEDOUT1 => 0x03,
            Register::LEDOUT2 => 0x04,
            Register::LEDOUT3 => 0x05,
            Register::LEDOUT4 => 0x06,
            Register::LEDOUT5 => 0x07,
            Register::GRPPWM => 0x08,
            Register::GRPFREQ => 0x09,
            Register::PWM0 => 0x0A,
            Register::PWM1 => 0x0B,
            Register::PWM2 => 0x0C,
            Register::PWM3 => 0x0D,
            Register::PWM4 => 0x0E,
            Register::PWM5 => 0x0F,
            Register::PWM6 => 0x10,
            Register::PWM7 => 0x11,
            Register::PWM8 => 0x12,
            Register::PWM9 => 0x13,
            Register::PWM10 => 0x14,
            Register::PWM11 => 0x15,
            Register::PWM12 => 0x16,
            Register::PWM13 => 0x17,
            Register::PWM14 => 0x18,
            Register::PWM15 => 0x19,
            Register::PWM16 => 0x1A,
            Register::PWM17 => 0x1B,
            Register::PWM18 => 0x1C,
            Register::PWM19 => 0x1D,
            Register::PWM20 => 0x1E,
            Register::PWM21 => 0x1F,
            Register::PWM22 => 0x20,
            Register::PWM23 => 0x21,
            Register::IREF0 => 0x22,
            Register::IREF1 => 0x23,
            Register::IREF2 => 0x24,
            Register::IREF3 => 0x25,
            Register::IREF4 => 0x26,
            Register::IREF5 => 0x27,
            Register::IREF6 => 0x28,
            Register::IREF7 => 0x29,
            Register::IREF8 => 0x2A,
            Register::IREF9 => 0x2B,
            Register::IREF10 => 0x2C,
            Register::IREF11 => 0x2D,
            Register::IREF12 => 0x2E,
            Register::IREF13 => 0x2F,
            Register::IREF14 => 0x30,
            Register::IREF15 => 0x31,
            Register::IREF16 => 0x32,
            Register::IREF17 => 0x33,
            Register::IREF18 => 0x34,
            Register::IREF19 => 0x35,
            Register::IREF20 => 0x36,
            Register::IREF21 => 0x37,
            Register::IREF22 => 0x38,
            Register::IREF23 => 0x39,
            Register::OFFSET => 0x3A,
            Register::SUBADR1 => 0x3B,
            Register::SUBADR2 => 0x3C,
            Register::SUBADR3 => 0x3D,
            Register::ALLCALLADR => 0x3E,
            Register::PWMALL => 0x3F,
            Register::IREFALL => 0x40,
            Register::EFLAG0 => 0x41,
            Register::EFLAG1 => 0x42,
            Register::EFLAG2 => 0x43,
            Register::EFLAG3 => 0x44,
            Register::EFLAG4 => 0x45,
            Register::EFLAG5 => 0x46,
        }
    }

    /// The byte offset of the register.
    pub fn addr(self) -> (r: u8)
        ensures
            r == self.spec_addr(),
    {
        match self {
            Register::MODE1 => 0x00,
            Register::MODE2 => 0x01,
            Register::LEDOUT0 => 0x02,
            Register::LEDOUT1 => 0x03,
            Register::LEDOUT2 => 0x04,
            Register::LEDOUT3 => 0x05,
            Register::LEDOUT4 => 0x06,
            Register::LEDOUT5 => 0x07,
            Register::GRPPWM => 0x08,
            Register::GRPFREQ => 0x09,
            Register::PWM0 => 0x0A,
            Register::PWM1 => 0x0B,
            Register::PWM2 => 0x0C,
            Register::PWM3 => 0x0D,
            Register::PWM4 => 0x0E,
            Register::PWM5 => 0x0F,
            Register::PWM6 => 0x10,
            Register::PWM7 => 0x11,
            Register::PWM8 => 0x12,
            Register::PWM9 => 0x13,
            Register::PWM10 => 0x14,
            Register::PWM11 => 0x15,
            Register::PWM12 => 0x16,
            Register::PWM13 => 0x17,
            Register::PWM14 => 0x18,
            Register::PWM15 => 0x19,
            Register::PWM16 => 0x1A,
            Register::PWM17 => 0x1B,
            Register::PWM18 => 0x1C,
            Register::PWM19 => 0x1D,
            Register::PWM20 => 0x1E,
            Register::PWM21 => 0x1F,
            Register::PWM22 => 0x20,
            Register::PWM23 => 0x21,
            Register::IREF0 => 0x22,
            Register::IREF1 => 0x23,
            Register::IREF2 => 0x24,
            Register::IREF3 => 0x25,
            Register::IREF4 => 0x26,
            Register::IREF5 => 0x27,
            Register::IREF6 => 0x28,
            Register::IREF7 => 0x29,
            Register::IREF8 => 0x2A,
            Register::IREF9 => 0x2B,
            Register::IREF10 => 0x2C,
            Register::IREF11 => 0x2D,
            Register::IREF12 => 0x2E,
            Register::IREF13 => 0x2F,
            Register::IREF14 => 0x30,
            Register::IREF15 => 0x31,
            Register::IREF16 => 0x32,
            Register::IREF17 => 0x33,
            Register::IREF18 => 0x34,
            Register::IREF19 => 0x35,
            Register::IREF20 => 0x36,
            Register::IREF21 => 0x37,
            Register::IREF22 => 0x38,
            Register::IREF23 => 0x39,
            Register::OFFSET => 0x3A,
            Register::SUBADR1 => 0x3B,
            Register::SUBADR2 => 0x3C,
            Register::SUBADR3 => 0x3D,
            Register::ALLCALLADR => 0x3E,
            Register::PWMALL => 0x3F,
            Register::IREFALL => 0x40,
            Register::EFLAG0 => 0x41,
            Register::EFLAG1 => 0x42,
            Register::EFLAG2 => 0x43,
            Register::EFLAG3 => 0x44,
            Register::EFLAG4 => 0x45,
            Register::EFLAG5 => 0x46,
        }
    }

    /// The register at byte offset `a`, if there is one.
    pub fn from_u8(a: u8) -> (r: Option<Register>)
        ensures
            r is Some <==> a <= 0x46,
            r matches Some(reg) ==> reg.spec_addr() == a,
    {
        match a {
            0x00 => Some(Register::MODE1),
            0x01 => Some(Register::MODE2),
            0x02 => Some(Register::LEDOUT0),
            0x03 => Some(Register::LEDOUT1),
            0x04 => Some(Register::LEDOUT2),
            0x05 => Some(Register::LEDOUT3),
            0x06 => Some(Register::LEDOUT4),
            0x07 => Some(Register::LEDOUT5),
            0x08 => Some(Register::GRPPWM),
            0x09 => Some(Register::GRPFREQ),
            0x0A => Some(Register::PWM0),
            0x0B => Some(Register::PWM1),
            0x0C => Some(Register::PWM2),
            0x0D => Some(Register::PWM3),
            0x0E => Some(Register::PWM4),
            0x0F => Some(Register::PWM5),
            0x10 => Some(Register::PWM6),
            0x11 => Some(Register::PWM7),
            0x12 => Some(Register::PWM8),
            0x13 => Some(Register::PWM9),
            0x14 => Some(Register::PWM10),
            0x15 => Some(Register::PWM11),
            0x16 => Some(Register::PWM12),
            0x17 => Some(Register::PWM13),
            0x18 => Some(Register::PWM14),
            0x19 => Some(Register::PWM15),
            0x1A => Some(Register::PWM16),
            0x1B => Some(Register::PWM17),
            0x1C => Some(Register::PWM18),
            0x1D => Some(Register::PWM19),
            0x1E => Some(Register::PWM20),
            0x1F => Some(Register::PWM21),
            0x20 => Some(Register::PWM22),
            0x21 => Some(Register::PWM23),
            0x22 => Some(Register::IREF0),
            0x23 => Some(Register::IREF1),
            0x24 => Some(Register::IREF2),
            0x25 => Some(Register::IREF3),
            0x26 => Some(Register::IREF4),
            0x27 => Some(Register::IREF5),
            0x28 => Some(Register::IREF6),
            0x29 => Some(Register::IREF7),
            0x2A => Some(Register::IREF8),
            0x2B => Some(Register::IREF9),
            0x2C => Some(Register::IREF10),
            0x2D => Some(Register::IREF11),
            0x2E => Some(Register::IREF12),
            0x2F => Some(Register::IREF13),
            0x30 => Some(Register::IREF14),
            0x31 => Some(Register::IREF15),
            0x32 => Some(Register::IREF16),
            0x33 => Some(Register::IREF17),
            0x34 => Some(Register::IREF18),
            0x35 => Some(Register::IREF19),
            0x36 => Some(Register::IREF20),
            0x37 => Some(Register::IREF21),
            0x38 => Some(Register::IREF22),
            0x39 => Some(Register::IREF23),
            0x3A => Some(Register::OFFSET),
            0x3B => Some(Register::SUBADR1),
            0x3C => Some(Register::SUBADR2),
            0x3D => Some(Register::SUBADR3),
            0x3E => Some(Register::ALLCALLADR),
            0x3F => Some(Register::PWMALL),
            0x40 => Some(Register::IREFALL),
            0x41 => Some(Register::EFLAG0),
            0x42 => Some(Register::EFLAG1),
            0x43 => Some(Register::EFLAG2),
            0x44 => Some(Register::EFLAG3),
            0x45 => Some(Register::EFLAG4),
            0x46 => Some(Register::EFLAG5),
            _ => None,
        }
    }
}

/// Number of LED outputs of one PCA9956B.
pub const NUM_LEDS: usize = 24;

/// Bit 7 of a register address asks the device to advance through
/// consecutive registers within one transaction.
pub const CTRL_AUTO_INCR: u8 = 0x80;

/// MODE2 bit 7: an overtemperature condition occurred (read only).
pub const MODE2_OVERTEMP: u8 = 0x80;

/// MODE2 bit 6: some EFLAGn register reports an output error (read only).
pub const MODE2_ERROR: u8 = 0x40;

/// MODE2 bit 4: writing it clears all error conditions in EFLAGn.
pub const MODE2_CLRERR: u8 = 0x10;

/// Byte offset of MODE2.
pub const MODE2_ADDR: u8 = 0x01;

/// Byte offset of PWM0; output `n` has its PWM register at `PWM_BASE + n`.
pub const PWM_BASE: u8 = 0x0A;

/// Byte offset of IREFALL.
pub const IREFALL_ADDR: u8 = 0x40;

/// Byte offset of PWMALL.
pub const PWMALL_ADDR: u8 = 0x3F;

/// Byte offset of EFLAG0; EFLAG0..EFLAG5 are contiguous.
pub const EFLAG_BASE: u8 = 0x41;

/// Number of EFLAGn registers.
pub const NUM_EFLAGS: usize = 6;

/// The fault that the device reports for one output.
#[derive(Clone, Copy, Debug, PartialEq, Eq, Structural)]
pub enum LedErr {
    NoError,
    ShortCircuit,
    OpenCircuit,
    Invalid,
}

impl LedErr {
    /// The fault named by a two-bit code; every other value is `Invalid`.
    pub open spec fn spec_from(code: u8) -> LedErr {
        if code == 0 {
            LedErr::NoError
        } else if code == 1 {
            LedErr::ShortCircuit
        } else if code == 2 {
            LedErr::OpenCircuit
        } else {
            LedErr::Invalid
        }
    }
}

impl Default for LedErr {
    fn default() -> (r: Self)
        ensures
            r == LedErr::NoError,
    {
        LedErr::NoError
    }
}

impl From<u8> for LedErr {
    fn from(i: u8) -> Self {
        match i {
            0 => LedErr::NoError,
            1 => LedErr::ShortCircuit,
            2 => LedErr::OpenCircuit,
            _ => LedErr::Invalid,
        }
    }
}

impl vstd::std_specs::convert::FromSpecImpl<u8> for LedErr {
    open spec fn obeys_from_spec() -> bool {
        true
    }

    open spec fn from_spec(v: u8) -> Self {
        LedErr::spec_from(v)
    }
}

/// The two-bit fault code of output `j` (0..3) of the four that an EFLAGn
/// byte packs, the lowest pair of bits being the lowest output.
pub open spec fn fault_code(b: u8, j: int) -> u8 {
    (b >> ((2 * j) as u8)) & 3u8
}

/// The faults of all 24 outputs as the six EFLAGn bytes report them:
/// byte `i` holds outputs `4i..4i+3`.
pub open spec fn decoded_errors(flags: Seq<u8>) -> Seq<LedErr> {
    Seq::new(NUM_LEDS as nat, |ch: int| LedErr::spec_from(fault_code(flags[ch / 4], ch % 4)))
}

/// How many entries of `s` are `e`.
pub open spec fn count_of(s: Seq<LedErr>, e: LedErr) -> nat
    decreases s.len(),
{
    if s.len() == 0 {
        0
    } else {
        count_of(s.drop_last(), e) + if s.last() == e {
            1nat
        } else {
            0nat
        }
    }
}

proof fn lemma_count_of_bounded(s: Seq<LedErr>, e: LedErr)
    ensures
        count_of(s, e) <= s.len(),
    decreases s.len(),
{
    if s.len() > 0 {
        lemma_count_of_bounded(s.drop_last(), e);
    }
}

/// Fault counts of one device.
#[derive(Clone, Copy, Debug, PartialEq, Eq, Structural)]
pub struct LedErrSummary {
    pub overtemp: bool,
    pub short_circuit: u8,
    pub open_circuit: u8,
    pub invalid: u8,
}

impl LedErrSummary {
    /// The summary of a device with no fault.
    pub fn clear() -> (r: LedErrSummary)
        ensures
            r == (LedErrSummary { overtemp: false, short_circuit: 0, open_circuit: 0, invalid: 0 }),
    {
        LedErrSummary { overtemp: false, short_circuit: 0, open_circuit: 0, invalid: 0 }
    }
}

/// What one fault poll observed: a fault per output and the overtemperature
/// flag.
#[derive(Clone, Debug, PartialEq, Eq)]
pub struct Pca9956BErrorState {
    pub led_errors: Vec<LedErr>,
    pub overtemp: bool,
}

impl Pca9956BErrorState {
    /// One fault per output.
    pub open spec fn wf(&self) -> bool {
        self.led_errors@.len() == NUM_LEDS
    }

    /// Decodes the six EFLAGn bytes.
    pub fn from_flags(overtemp: bool, eflags: &[u8]) -> (r: Pca9956BErrorState)
        requires
            eflags@.len() == NUM_EFLAGS,
        ensures
            r.wf(),
            r.overtemp == overtemp,
            r.led_errors@ == decoded_errors(eflags@),
    {
        let mut led_errors: Vec<LedErr> = Vec::new();
        let mut i: usize = 0;
        while i < NUM_EFLAGS
            invariant
                i <= NUM_EFLAGS,
                eflags@.len() == NUM_EFLAGS,
                led_errors@.len() == 4 * i,
                forall|ch: int|
                    0 <= ch < 4 * i ==> led_errors@[ch] == LedErr::spec_from(
                        fault_code(eflags@[ch / 4], ch % 4),
                    ),
            decreases NUM_EFLAGS - i,
        {
            let b = eflags[i];
            let mut j: u8 = 0;
            while j < 4
                invariant
                    i < NUM_EFLAGS,
                    j <= 4,
                    eflags@.len() == NUM_EFLAGS,
                    b == eflags@[i as int],
                    led_errors@.len() == 4 * i + j,
                    forall|ch: int|
                        0 <= ch < 4 * i + j ==> led_errors@[ch] == LedErr::spec_from(
                            fault_code(eflags@[ch / 4], ch % 4),
                        ),
                decreases 4 - j,
            {
                let code = (b >> (2 * j)) & 3;
                proof {
                    let ch = 4 * i + j;
                    assert(ch / 4 == i as int && ch % 4 == j as int);
                    assert(code == fault_code(b, j as int));
                }
                led_errors.push(LedErr::from(code));
                j = j + 1;
            }
            i = i + 1;
        }
        proof {
            assert(led_errors@ =~= decoded_errors(eflags@));
        }
        Pca9956BErrorState { led_errors, overtemp }
    }

    /// The fault counts of this poll.
    pub open spec fn spec_summary(&self) -> LedErrSummary {
        LedErrSummary {
            overtemp: self.overtemp,
            short_circuit: count_of(self.led_errors@, LedErr::ShortCircuit) as u8,
            open_circuit: count_of(self.led_errors@, LedErr::OpenCircuit) as u8,
            invalid: count_of(self.led_errors@, LedErr::Invalid) as u8,
        }
    }

    /// Counts the outputs in each fault class.
    pub fn summary(&self) -> (r: LedErrSummary)
        requires
            self.wf(),
        ensures
            r == self.spec_summary(),
            r.overtemp == self.overtemp,
            r.short_circuit == count_of(self.led_errors@, LedErr::ShortCircuit),
            r.open_circuit == count_of(self.led_errors@, LedErr::OpenCircuit),
            r.invalid == count_of(self.led_errors@, LedErr::Invalid),
    {
        let mut summary = LedErrSummary::clear();
        summary.overtemp = self.overtemp;
        let ghost s = self.led_errors@;
        let mut i: usize = 0;
        while i < NUM_LEDS
            invariant
                i <= NUM_LEDS,
                s.len() == NUM_LEDS,
                s == self.led_errors@,
                summary.overtemp == self.overtemp,
                summary.short_circuit == count_of(s.take(i as int), LedErr::ShortCircuit),
                summary.open_circuit == count_of(s.take(i as int), LedErr::OpenCircuit),
                summary.invalid == count_of(s.take(i as int), LedErr::Invalid),
            decreases NUM_LEDS - i,
        {
            let err = self.led_errors[i];
            proof {
                let t = s.take(i as int + 1);
                assert(t.drop_last() =~= s.take(i as int));
                lemma_count_of_bounded(s.take(i as int), LedErr::ShortCircuit);
                lemma_count_of_bounded(s.take(i as int), LedErr::OpenCircuit);
                lemma_count_of_bounded(s.take(i as int), LedErr::Invalid);
            }
            if err == LedErr::OpenCircuit {
                summary.open_circuit = summary.open_circuit + 1;
            } else if err == LedErr::ShortCircuit {
                summary.short_circuit = summary.short_circuit + 1;
            } else if err == LedErr::Invalid {
                summary.invalid = summary.invalid + 1;
            }
            i = i + 1;
        }
        proof {
            assert(s.take(NUM_LEDS as int) =~= s);
        }
        summary
    }
}

/// Errors of the register layer.
#[derive(Clone, Copy, Debug, PartialEq, Eq, Structural)]
pub enum Error {
    /// The I2C transport failed.
    I2cError(ResponseCode),
    /// The LED index, or the number of values, is too large.
    InvalidLED(u8),
    /// The index names no entry of the LED map.
    InvalidPort(u8),
}

impl From<ResponseCode> for Error {
    fn from(err: ResponseCode) -> Self {
        Error::I2cError(err)
    }
}

impl vstd::std_specs::convert::FromSpecImpl<ResponseCode> for Error {
    open spec fn obeys_from_spec() -> bool {
        true
    }

    open spec fn from_spec(v: ResponseCode) -> Self {
        Error::I2cError(v)
    }
}

impl Error {
    /// The transport failure behind this error, if it is one.
    pub fn response_code(&self) -> (r: Option<ResponseCode>)
        ensures
            r == match *self {
                Error::I2cError(code) => Some(code),
                _ => None::<ResponseCode>,
            },
    {
        match self {
            Error::I2cError(code) => Some(*code),
            _ => None,
        }
    }
}

/// The write of one register.
pub open spec fn reg_write(device: I2cDevice, addr: u8, val: u8) -> OpModel {
    OpModel::Write { device, bytes: seq![addr, val] }
}

/// The read of one register.
pub open spec fn reg_read(device: I2cDevice, addr: u8) -> OpModel {
    OpModel::Read { device, reg: addr, len: 1 }
}

/// The read of the six EFLAGn registers in one auto-incrementing burst.
pub open spec fn eflags_read(device: I2cDevice) -> OpModel {
    OpModel::Read { device, reg: EFLAG_BASE | CTRL_AUTO_INCR, len: NUM_EFLAGS as nat }
}

/// The write to MODE2 that clears the error flags, keeping its other bits.
pub open spec fn clear_errors_write(device: I2cDevice, mode2: u8) -> OpModel {
    reg_write(device, MODE2_ADDR, mode2 | MODE2_CLRERR)
}

/// Whether a MODE2 value reports an overtemperature or an output error.
pub open spec fn signals_fault(mode2: u8) -> bool {
    mode2 & (MODE2_OVERTEMP | MODE2_ERROR) != 0
}

/// Whether MODE2 holds the read-only pattern `0b101` in its low three bits.
pub open spec fn identity_pattern(mode2: u8) -> bool {
    mode2 & 7 == 5
}

/// One PCA9956B on the bus.
#[derive(Clone, Copy, Debug, PartialEq, Eq, Structural)]
pub struct Pca9956B {
    pub device: I2cDevice,
}

impl Pca9956B {
    pub fn new(device: &I2cDevice) -> (r: Self)
        ensures
            r.device == *device,
    {
        Pca9956B { device: *device }
    }

    fn read_reg(&self, reg: Register) -> (r: I2cOp)
        ensures
            r@ == reg_read(self.device, reg.spec_addr()),
    {
        I2cOp::Read { device: self.device, reg: reg.addr(), len: 1 }
    }

    fn read_buffer(&self, reg: Register, len: usize) -> (r: I2cOp)
        ensures
            r@ == (OpModel::Read { device: self.device, reg: reg.spec_addr() | CTRL_AUTO_INCR, len: len as nat }),
    {
        I2cOp::Read { device: self.device, reg: reg.addr() | CTRL_AUTO_INCR, len }
    }

    fn write_reg(&self, reg: Register, val: u8) -> (r: I2cOp)
        ensures
            r@ == reg_write(self.device, reg.spec_addr(), val),
    {
        let mut bytes: Vec<u8> = Vec::new();
        bytes.push(reg.addr());
        bytes.push(val);
        proof {
            assert(bytes@ =~= seq![reg.spec_addr(), val]);
        }
        I2cOp::Write { device: self.device, bytes }
    }

    fn write_buffer(&self, reg: Register, buf: &[u8]) -> (r: I2cOp)
        requires
            buf@.len() <= NUM_LEDS,
        ensures
            r@ == (OpModel::Write { device: self.device, bytes: seq![reg.spec_addr() | CTRL_AUTO_INCR] + buf@ }),
    {
        let mut bytes: Vec<u8> = Vec::new();
        bytes.push(reg.addr() | CTRL_AUTO_INCR);
        let mut i: usize = 0;
        while i < buf.len()
            invariant
                i <= buf@.len(),
                bytes@ =~= seq![reg.spec_addr() | CTRL_AUTO_INCR] + buf@.take(i as int),
            decreases buf@.len() - i,
        {
            bytes.push(buf[i]);
            i = i + 1;
            proof {
                assert(buf@.take(i as int) =~= buf@.take(i - 1).push(buf@[i - 1]));
            }
        }
        proof {
            assert(buf@.take(buf@.len() as int) =~= buf@);
        }
        I2cOp::Write { device: self.device, bytes }
    }

    /// Sets the output current of all channels at once (IREFALL).
    pub fn set_iref_all(&self, val: u8) -> (r: I2cOp)
        ensures
            r@ == reg_write(self.device, IREFALL_ADDR, val),
    {
        self.write_reg(Register::IREFALL, val)
    }

    /// Sets the duty cycle of all channels at once (PWMALL).
    pub fn set_pwm_all(&self, val: u8) -> (r: I2cOp)
        ensures
            r@ == reg_write(self.device, PWMALL_ADDR, val),
    {
        self.write_reg(Register::PWMALL, val)
    }

    /// Sets the duty cycle of output `led`: one write of its PWM register.
    pub fn set_a_led_pwm(&self, led: u8, val: u8) -> (r: Result<I2cOp, Error>)
        ensures
            led >= NUM_LEDS ==> r == Err::<I2cOp, Error>(Error::InvalidLED(led)),
            led < NUM_LEDS ==> (r matches Ok(op) && op@ == reg_write(self.device, (PWM_BASE + led) as u8, val)),
    {
        if led >= NUM_LEDS as u8 {
            return Err(Error::InvalidLED(led));
        }
        match Register::from_u8(Register::PWM0.addr() + led) {
            Some(reg) => Ok(self.write_reg(reg, val)),
            None => Err(Error::InvalidLED(led)),
        }
    }

    /// Sets the duty cycles of outputs `0..vals.len()` in one
    /// auto-incrementing burst starting at PWM0.
    pub fn set_all_led_pwm(&self, vals: &[u8]) -> (r: Result<I2cOp, Error>)
        ensures
            vals@.len() > NUM_LEDS ==> r == Err::<I2cOp, Error>(
                Error::InvalidLED(
                    if vals@.len() <= 0xFF {
                        vals@.len() as u8
                    } else {
                        0xFFu8
                    },
                ),
            ),
            vals@.len() <= NUM_LEDS ==> (r matches Ok(op) && op@ == (OpModel::Write {
                device: self.device,
                bytes: seq![PWM_BASE | CTRL_AUTO_INCR] + vals@,
            })),
    {
        if vals.len() > NUM_LEDS {
            let n: u8 = if vals.len() <= 0xFF {
                vals.len() as u8
            } else {
                0xFF
            };
            return Err(Error::InvalidLED(n));
        }
        Ok(self.write_buffer(Register::PWM0, vals))
    }

    /// The read of MODE2 whose answer [`Pca9956B::validate`] judges.
    pub fn validate_request(&self) -> (r: I2cOp)
        ensures
            r@ == reg_read(self.device, MODE2_ADDR),
    {
        self.read_reg(Register::MODE2)
    }

    /// Judges whether the device answering at this address is a PCA9956B.
    /// The chip has no identity register; MODE2[2:0] read `0b101` after
    /// reset and cannot be written, so that pattern is the check.
    pub fn validate(event: &BusEvent) -> (r: Result<bool, Error>)
        requires
            event is Failed || (event matches BusEvent::Read(d) && d@.len() == 1),
        ensures
            *event matches BusEvent::Failed(code) ==> r == Err::<bool, Error>(Error::I2cError(code)),
            *event matches BusEvent::Read(d) ==> r == Ok::<bool, Error>(identity_pattern(d@[0])),
    {
        match event {
            BusEvent::Read(d) => Ok(d[0] & 7 == 5),
            BusEvent::Failed(code) => Err(Error::I2cError(*code)),
            BusEvent::Written => vstd::pervasive::unreached(),
        }
    }

    /// Starts a fault poll. The returned operation reads MODE2; its answer
    /// goes to [`FaultPoll::resume`].
    pub fn check_for_errors(&self) -> (r: (FaultPoll, I2cOp))
        ensures
            r.0.device == self.device,
            r.0.stage == FaultPollStage::ReadingMode2,
            r.1@ == r.0.awaited(),
    {
        (FaultPoll { device: self.device, stage: FaultPollStage::ReadingMode2 }, self.read_reg(Register::MODE2))
    }
}

/// Where a fault poll stands.
#[derive(Debug, PartialEq, Eq)]
pub enum FaultPollStage {
    /// MODE2 is being read.
    ReadingMode2,
    /// MODE2 reported a fault; the EFLAGn registers are being read.
    ReadingFlags { mode2: u8 },
    /// The flags were read; the error flags are being cleared.
    Clearing { mode2: u8, flags: Vec<u8> },
    /// The poll is over.
    Finished,
}

/// What a fault poll asks for next.
#[derive(Debug, PartialEq, Eq)]
pub enum PollStep {
    /// Perform this transaction and resume the poll with its answer.
    Issue(I2cOp),
    /// The poll is over: `None` when the device reports no fault.
    Done(Result<Option<Pca9956BErrorState>, Error>),
}

/// A fault poll of one PCA9956B: read MODE2; if it reports an
/// overtemperature or an output error, read the six EFLAGn registers in one
/// burst, then clear the flags. The faults are reported only once the clear
/// has succeeded.
#[derive(Debug, PartialEq, Eq)]
pub struct FaultPoll {
    pub device: I2cDevice,
    pub stage: FaultPollStage,
}

impl FaultPoll {
    /// The transaction whose answer the poll waits for.
    pub open spec fn awaited(&self) -> OpModel {
        match self.stage {
            FaultPollStage::ReadingMode2 => reg_read(self.device, MODE2_ADDR),
            FaultPollStage::ReadingFlags { .. } => eflags_read(self.device),
            FaultPollStage::Clearing { mode2, .. } => clear_errors_write(self.device, mode2),
            FaultPollStage::Finished => OpModel::Read { device: self.device, reg: 0, len: 0 },
        }
    }

    pub open spec fn wf(&self) -> bool {
        self.stage matches FaultPollStage::Clearing { flags, .. } ==> flags@.len() == NUM_EFLAGS
    }

    /// Hands the poll the answer to the transaction it asked for.
    pub fn resume(&mut self, event: BusEvent) -> (r: PollStep)
        requires
            old(self).wf(),
            !(old(self).stage is Finished),
            event.answers_spec(old(self).awaited()),
        ensures
            final(self).wf(),
            final(self).device == old(self).device,
            r is Issue ==> r->Issue_0@ == final(self).awaited(),
            r is Done <==> final(self).stage is Finished,
            event matches BusEvent::Failed(code) ==> r == PollStep::Done(Err(Error::I2cError(code))),
            old(self).stage is ReadingMode2 ==> (event matches BusEvent::Read(d) ==> if signals_fault(d@[0]) {
                final(self).stage == FaultPollStage::ReadingFlags { mode2: d@[0] }
            } else {
                r == PollStep::Done(Ok(None))
            }),
            old(self).stage matches FaultPollStage::ReadingFlags { mode2 } ==> (event matches BusEvent::Read(d)
                ==> (final(self).stage matches FaultPollStage::Clearing { mode2: m, flags } && m == mode2
                && flags@ == d@)),
            old(self).stage matches FaultPollStage::Clearing { mode2, flags } ==> (event is Written ==> (r matches PollStep::Done(Ok(Some(s))) && s.wf()
                && s.overtemp == (mode2 & MODE2_OVERTEMP != 0) && s.led_errors@ == decoded_errors(flags@))),
    {
        let device = self.device;
        let (next, step) = match (&self.stage, event) {
            (_, BusEvent::Failed(code)) => (FaultPollStage::Finished, PollStep::Done(Err(Error::I2cError(code)))),
            (FaultPollStage::ReadingMode2, BusEvent::Read(d)) => {
                let mode2 = d[0];
                if mode2 & (MODE2_OVERTEMP | MODE2_ERROR) != 0 {
                    let op = Pca9956B { device }.read_buffer(Register::EFLAG0, NUM_EFLAGS);
                    (FaultPollStage::ReadingFlags { mode2 }, PollStep::Issue(op))
                } else {
                    (FaultPollStage::Finished, PollStep::Done(Ok(None)))
                }
            },
            (FaultPollStage::ReadingFlags { mode2 }, BusEvent::Read(d)) => {
                let op = Pca9956B { device }.write_reg(Register::MODE2, *mode2 | MODE2_CLRERR);
                (FaultPollStage::Clearing { mode2: *mode2, flags: d }, PollStep::Issue(op))
            },
            (FaultPollStage::Clearing { mode2, flags }, _) => {
                let state = Pca9956BErrorState::from_flags(*mode2 & MODE2_OVERTEMP != 0, flags.as_slice());
                (FaultPollStage::Finished, PollStep::Done(Ok(Some(state))))
            },
            (_, _) => vstd::pervasive::unreached(),
        };
        self.stage = next;
        step
    }
}

} // verus!
