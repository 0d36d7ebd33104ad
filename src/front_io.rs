//! The optional front I/O board: presence, bring-up of its two FPGA
//! controllers, and its LED drivers, in that order.
use vstd::prelude::*;

use crate::bringup::{
    awaited, Bringup, BringupOutcome, BringupState, BringupStep, ExpectedDesign,
    FpgaError,
    FpgaEvent, FpgaOp,
};
use crate::bus::{I2cDevice, I2cOp};
use crate::leds::{DEFAULT_LED_CURRENT, DEFAULT_LED_PWM};
use crate::pca9956b::{reg_write, Error, Pca9956B, IREFALL_ADDR, PWM_BASE};

verus! {

/// Output of the left LED driver that lights the system LED.
pub const SYSTEM_LED_OUTPUT: u8 = 23;

/// Why the board could not be brought up.
#[derive(Clone, Copy, Debug, PartialEq, Eq, Structural)]
pub enum FrontIOError {
    /// An FPGA operation failed.
    FpgaError,
    /// An I2C transaction failed.
    I2cError,
    /// A controller did not become ready.
    NotReady,
    /// A controller does not run the expected design after its retry.
    Unverified,
}

impl From<Error> for FrontIOError {
    fn from(_e: Error) -> Self {
        FrontIOError::I2cError
    }
}

impl vstd::std_specs::convert::FromSpecImpl<Error> for FrontIOError {
    open spec fn obeys_from_spec() -> bool {
        true
    }

    open spec fn from_spec(v: Error) -> Self {
        FrontIOError::I2cError
    }
}

impl From<FpgaError> for FrontIOError {
    fn from(_e: FpgaError) -> Self {
        FrontIOError::FpgaError
    }
}

impl vstd::std_specs::convert::FromSpecImpl<FpgaError> for FrontIOError {
    open spec fn obeys_from_spec() -> bool {
        true
    }

    open spec fn from_spec(v: FpgaError) -> Self {
        FrontIOError::FpgaError
    }
}

/// The error that a controller's bring-up gives the board; `None` when it
/// was verified.
pub open spec fn outcome_error(outcome: Option<BringupOutcome>) -> Option<FrontIOError> {
    match outcome {
        Some(BringupOutcome::Verified) => None,
        Some(BringupOutcome::LoadFailed(_)) => Some(FrontIOError::FpgaError),
        Some(BringupOutcome::Failed(_)) => Some(FrontIOError::FpgaError),
        Some(BringupOutcome::Unverified(_)) => Some(FrontIOError::Unverified),
        _ => Some(FrontIOError::NotReady),
    }
}

/// The board is usable only when both controllers were verified; otherwise
/// the error of the first one that was not.
pub open spec fn board_result(first: Option<BringupOutcome>, second: Option<BringupOutcome>) -> Result<
    (),
    FrontIOError,
> {
    match outcome_error(first) {
        Some(e) => Err(e),
        None => match outcome_error(second) {
            Some(e) => Err(e),
            None => Ok(()),
        },
    }
}

/// The board is ready exactly when both of its controllers were verified;
/// an unfinished, unverified or faulted controller fails it with a typed
/// error.
pub proof fn lemma_board_ready_iff_both_verified(first: Option<BringupOutcome>, second: Option<BringupOutcome>)
    ensures
        board_result(first, second) is Ok <==> (first == Some(BringupOutcome::Verified) && second == Some(
            BringupOutcome::Verified,
        )),
{
}

/// An operation of the board: on one of its FPGA controllers, or on the I2C
/// bus.
#[derive(Debug, PartialEq, Eq)]
pub enum BoardOp {
    Fpga { controller: usize, op: FpgaOp },
    I2c(I2cOp),
}

/// What the board's bring-up asks for next.
#[derive(Clone, Copy, Debug, PartialEq, Eq)]
pub enum InitStep {
    /// Perform `op` on FPGA controller `controller` and resume with the
    /// answer.
    Issue { controller: usize, op: FpgaOp },
    /// Both controllers are done.
    Done(Result<(), FrontIOError>),
}

/// The front I/O board.
pub struct FrontIOBoard {
    /// The FRU ID EEPROM, whose presence tells whether the board is fitted.
    pub fruid: I2cDevice,
    pub led_controllers: [Pca9956B; 2],
    pub controllers: [Bringup; 2],
}

impl FrontIOBoard {
    pub fn new(
        fruid: &I2cDevice,
        left_led: &I2cDevice,
        right_led: &I2cDevice,
        expected: ExpectedDesign,
    ) -> (r: Self)
        ensures
            r.fruid == *fruid,
            r.led_controllers@[0].device == *left_led,
            r.led_controllers@[1].device == *right_led,
            r.controllers@[0] == Bringup::new_spec(expected),
            r.controllers@[1] == Bringup::new_spec(expected),
    {
        FrontIOBoard {
            fruid: *fruid,
            led_controllers: [Pca9956B::new(left_led), Pca9956B::new(right_led)],
            controllers: [Bringup::new(expected), Bringup::new(expected)],
        }
    }

    /// Whether the board is fitted, from the validation of its FRU ID
    /// EEPROM: a failed read means no board, which is a normal
    /// configuration.
    pub fn present(validation: &Result<bool, Error>) -> (r: bool)
        ensures
            r == (*validation == Ok::<bool, Error>(true)),
    {
        match validation {
            Ok(valid) => *valid,
            Err(_) => false,
        }
    }

    /// The controller whose bring-up is under way: the first one until it
    /// is over.
    pub open spec fn active(&self) -> int {
        if awaited(self.controllers@[0].state) is Some {
            0
        } else {
            1
        }
    }

    /// Starts the bring-up of the board with its first controller.
    pub fn init(&mut self) -> (r: InitStep)
        requires
            old(self).controllers@[0].state == BringupState::Unknown,
            old(self).controllers@[1].state == BringupState::Unknown,
        ensures
            r == (InitStep::Issue { controller: 0, op: FpgaOp::AwaitReady }),
            final(self).controllers@[0] == (Bringup { state: BringupState::Polling, ..old(self).controllers@[0] }),
            final(self).controllers@[1] == old(self).controllers@[1],
            final(self).fruid == old(self).fruid,
            final(self).led_controllers == old(self).led_controllers,
    {
        let mut c = self.controllers[0];
        let op = c.begin();
        self.controllers[0] = c;
        InitStep::Issue { controller: 0, op }
    }

    /// Hands the board's bring-up the answer to the operation it asked for.
    /// Both controllers are brought up to completion, one after the other;
    /// then the result says whether both run the expected design.
    pub fn resume_init(&mut self, event: FpgaEvent) -> (r: InitStep)
        requires
            awaited(old(self).controllers@[old(self).active()].state) matches Some(op) && event.answers_spec(op),
            old(self).active() == 0 ==> old(self).controllers@[1].state == BringupState::Unknown,
        ensures
            final(self).fruid == old(self).fruid,
            final(self).led_controllers == old(self).led_controllers,
            ({
                let i = old(self).active();
                let (c, step) = old(self).controllers@[i].resumed(event);
                &&& final(self).controllers@[i] == c
                &&& step matches BringupStep::Issue(op) ==> r == (InitStep::Issue { controller: i as usize, op })
                    && final(self).controllers@[1 - i] == old(self).controllers@[1 - i]
                &&& step is Finish && i == 0 ==> r == (InitStep::Issue { controller: 1, op: FpgaOp::AwaitReady })
                    && final(self).controllers@[1] == (Bringup { state: BringupState::Polling, ..old(self).controllers@[1] })
                &&& step is Finish && i == 1 ==> r == InitStep::Done(board_result(old(self).controllers@[0].outcome, c.outcome))
                    && final(self).controllers@[0] == old(self).controllers@[0]
            }),
    {
        let i: usize = if self.controllers[0].in_progress() {
            0
        } else {
            1
        };
        let mut c = self.controllers[i];
        let step = c.resume(event);
        self.controllers[i] = c;
        match step {
            BringupStep::Issue(op) => InitStep::Issue { controller: i, op },
            BringupStep::Finish(_) => {
                if i == 0 {
                    let mut next = self.controllers[1];
                    let op = next.begin();
                    self.controllers[1] = next;
                    InitStep::Issue { controller: 1, op }
                } else {
                    InitStep::Done(self.init_status())
                }
            },
        }
    }

    /// Whether both controllers were verified, or the error of the first
    /// that was not.
    pub fn init_status(&self) -> (r: Result<(), FrontIOError>)
        ensures
            r == board_result(self.controllers@[0].outcome, self.controllers@[1].outcome),
    {
        match Self::outcome_error(self.controllers[0].outcome) {
            Some(e) => Err(e),
            None => match Self::outcome_error(self.controllers[1].outcome) {
                Some(e) => Err(e),
                None => Ok(()),
            },
        }
    }

    fn outcome_error(outcome: Option<BringupOutcome>) -> (r: Option<FrontIOError>)
        ensures
            r == outcome_error(outcome),
    {
        match outcome {
            Some(BringupOutcome::Verified) => None,
            Some(BringupOutcome::LoadFailed(_)) => Some(FrontIOError::FpgaError),
            Some(BringupOutcome::Failed(_)) => Some(FrontIOError::FpgaError),
            Some(BringupOutcome::Unverified(_)) => Some(FrontIOError::Unverified),
            _ => Some(FrontIOError::NotReady),
        }
    }

    /// The operations that enable the LEDs, issued in order until one
    /// fails: the LED enable of each controller, then the default current on
    /// each LED driver. Refused unless both controllers were verified.
    pub fn enable_led_controllers(&self) -> (r: Result<Vec<BoardOp>, FrontIOError>)
        ensures
            board_result(self.controllers@[0].outcome, self.controllers@[1].outcome) matches Err(e) ==> r
                == Err::<Vec<BoardOp>, FrontIOError>(e),
            board_result(self.controllers@[0].outcome, self.controllers@[1].outcome) is Ok ==> (r matches Ok(ops)
                && ops@.len() == 4
                && ops@[0] == (BoardOp::Fpga { controller: 0, op: FpgaOp::EnableLedController })
                && ops@[1] == (BoardOp::Fpga { controller: 1, op: FpgaOp::EnableLedController })
                && (ops@[2] matches BoardOp::I2c(op) && op@ == reg_write(self.led_controllers@[0].device, IREFALL_ADDR, DEFAULT_LED_CURRENT))
                && (ops@[3] matches BoardOp::I2c(op) && op@ == reg_write(self.led_controllers@[1].device, IREFALL_ADDR, DEFAULT_LED_CURRENT))),
    {
        match self.init_status() {
            Err(e) => Err(e),
            Ok(()) => {
                let mut ops: Vec<BoardOp> = Vec::new();
                ops.push(BoardOp::Fpga { controller: 0, op: FpgaOp::EnableLedController });
                ops.push(BoardOp::Fpga { controller: 1, op: FpgaOp::EnableLedController });
                ops.push(BoardOp::I2c(self.led_controllers[0].set_iref_all(DEFAULT_LED_CURRENT)));
                ops.push(BoardOp::I2c(self.led_controllers[1].set_iref_all(DEFAULT_LED_CURRENT)));
                Ok(ops)
            },
        }
    }

    /// Lights the system LED, on the left driver.
    pub fn turn_on_system_led(&self) -> (r: I2cOp)
        ensures
            r@ == reg_write(self.led_controllers@[0].device, (PWM_BASE + SYSTEM_LED_OUTPUT) as u8, DEFAULT_LED_PWM),
    {
        match self.led_controllers[0].set_a_led_pwm(SYSTEM_LED_OUTPUT, DEFAULT_LED_PWM) {
            Ok(op) => op,
            Err(_) => vstd::pervasive::unreached(),
        }
    }
}

} // verus!
