//! The front-panel LEDs: 32 port indicators and one system indicator over
//! two PCA9956B drivers.
use vstd::prelude::*;

use crate::bus::{I2cDevice, I2cOp, OpModel};
use crate::pca9956b::{
    reg_write, Error, FaultPoll, LedErrSummary, Pca9956B, Pca9956BErrorState, CTRL_AUTO_INCR,
    IREFALL_ADDR, NUM_LEDS, PWM_BASE,
};

verus! {

/// Output current written to IREFALL: about 50 mA through the 1 kOhm
/// reference resistor of this board.
pub const DEFAULT_LED_CURRENT: u8 = 222;

/// Duty cycle of a lit LED (PWM / 256).
pub const DEFAULT_LED_PWM: u8 = 255;

/// Number of entries of the LED map: 32 ports, then the system LED.
pub const NUM_LED_LOCATIONS: usize = 33;

/// Index of the system LED in the LED map.
pub const SYSTEM_LED_IDX: usize = 32;

/// One of the two LED drivers.
#[derive(Clone, Copy, Debug, PartialEq, Eq, Structural)]
pub enum LedController {
    Left,
    Right,
}

impl LedController {
    pub open spec fn spec_index(self) -> int {
        match self {
            LedController::Left => 0,
            LedController::Right => 1,
        }
    }

    /// Position of the driver in [`Leds::controllers`].
    pub fn index(self) -> (r: usize)
        ensures
            r == self.spec_index(),
    {
        match self {
            LedController::Left => 0,
            LedController::Right => 1,
        }
    }
}

/// The driver and output that light one LED.
#[derive(Clone, Copy, Debug, PartialEq, Eq, Structural)]
pub struct LedLocation {
    pub controller: LedController,
    pub output: u8,
}

/// The LED map: entry `i < 32` is port `i`, entry 32 the system LED.
pub open spec fn led_map(i: int) -> LedLocation {
    if i == 0 {
        LedLocation { controller: LedController::Left, output: 0 }
    } else if i == 1 {
        LedLocation { controller: LedController::Left, output: 2 }
    } else if i == 2 {
        LedLocation { controller: LedController::Left, output: 4 }
    } else if i == 3 {
        LedLocation { controller: LedController::Left, output: 6 }
    } else if i == 4 {
        LedLocation { controller: LedController::Left, output: 8 }
    } else if i == 5 {
        LedLocation { controller: LedController::Left, output: 10 }
    } else if i == 6 {
        LedLocation { controller: LedController::Left, output: 15 }
    } else if i == 7 {
        LedLocation { controller: LedController::Left, output: 13 }
    } else if i == 8 {
        LedLocation { controller: LedController::Right, output: 0 }
    } else if i == 9 {
        LedLocation { controller: LedController::Right, output: 2 }
    } else if i == 10 {
        LedLocation { controller: LedController::Right, output: 4 }
    } else if i == 11 {
        LedLocation { controller: LedController::Right, output: 6 }
    } else if i == 12 {
        LedLocation { controller: LedController::Right, output: 8 }
    } else if i == 13 {
        LedLocation { controller: LedController::Right, output: 10 }
    } else if i == 14 {
        LedLocation { controller: LedController::Right, output: 15 }
    } else if i == 15 {
        LedLocation { controller: LedController::Right, output: 13 }
    } else if i == 16 {
        LedLocation { controller: LedController::Left, output: 3 }
    } else if i == 17 {
        LedLocation { controller: LedController::Left, output: 1 }
    } else if i == 18 {
        LedLocation { controller: LedController::Left, output: 7 }
    } else if i == 19 {
        LedLocation { controller: LedController::Left, output: 5 }
    } else if i == 20 {
        LedLocation { controller: LedController::Left, output: 9 }
    } else if i == 21 {
        LedLocation { controller: LedController::Left, output: 11 }
    } else if i == 22 {
        LedLocation { controller: LedController::Left, output: 14 }
    } else if i == 23 {
        LedLocation { controller: LedController::Left, output: 12 }
    } else if i == 24 {
        LedLocation { controller: LedController::Right, output: 3 }
    } else if i == 25 {
        LedLocation { controller: LedController::Right, output: 1 }
    } else if i == 26 {
        LedLocation { controller: LedController::Right, output: 7 }
    } else if i == 27 {
        LedLocation { controller: LedController::Right, output: 5 }
    } else if i == 28 {
        LedLocation { controller: LedController::Right, output: 9 }
    } else if i == 29 {
        LedLocation { controller: LedController::Right, output: 11 }
    } else if i == 30 {
        LedLocation { controller: LedController::Right, output: 14 }
    } else if i == 31 {
        LedLocation { controller: LedController::Right, output: 12 }
    } else {
        LedLocation { controller: LedController::Left, output: 23 }
    }
}

/// The entry of the LED map that sits at output `ch` of driver `side`, if
/// any.
pub open spec fn port_at(side: LedController, ch: int) -> Option<int> {
    match side {
        LedController::Left => {
            if ch == 0 {
                Some(0)
            } else if ch == 1 {
                Some(17)
            } else if ch == 2 {
                Some(1)
            } else if ch == 3 {
                Some(16)
            } else if ch == 4 {
                Some(2)
            } else if ch == 5 {
                Some(19)
            } else if ch == 6 {
                Some(3)
            } else if ch == 7 {
                Some(18)
            } else if ch == 8 {
                Some(4)
            } else if ch == 9 {
                Some(20)
            } else if ch == 10 {
                Some(5)
            } else if ch == 11 {
                Some(21)
            } else if ch == 12 {
                Some(23)
            } else if ch == 13 {
                Some(7)
            } else if ch == 14 {
                Some(22)
            } else if ch == 15 {
                Some(6)
            } else if ch == 23 {
                Some(32)
            } else {
                None
            }
        },
        LedController::Right => {
            if ch == 0 {
                Some(8)
            } else if ch == 1 {
                Some(25)
            } else if ch == 2 {
                Some(9)
            } else if ch == 3 {
                Some(24)
            } else if ch == 4 {
                Some(10)
            } else if ch == 5 {
                Some(27)
            } else if ch == 6 {
                Some(11)
            } else if ch == 7 {
                Some(26)
            } else if ch == 8 {
                Some(12)
            } else if ch == 9 {
                Some(28)
            } else if ch == 10 {
                Some(13)
            } else if ch == 11 {
                Some(29)
            } else if ch == 12 {
                Some(31)
            } else if ch == 13 {
                Some(15)
            } else if ch == 14 {
                Some(30)
            } else if ch == 15 {
                Some(14)
            } else {
                None
            }
        },
    }
}

proof fn lemma_entry(i: int)
    requires
        0 <= i < NUM_LED_LOCATIONS,
    ensures
        port_at(led_map(i).controller, led_map(i).output as int) == Some(i),
        led_map(i).output < NUM_LEDS,
{

    if i == 0 {
    } else if i == 1 {
    } else if i == 2 {
    } else if i == 3 {
    } else if i == 4 {
    } else if i == 5 {
    } else if i == 6 {
    } else if i == 7 {
    } else if i == 8 {
    } else if i == 9 {
    } else if i == 10 {
    } else if i == 11 {
    } else if i == 12 {
    } else if i == 13 {
    } else if i == 14 {
    } else if i == 15 {
    } else if i == 16 {
    } else if i == 17 {
    } else if i == 18 {
    } else if i == 19 {
    } else if i == 20 {
    } else if i == 21 {
    } else if i == 22 {
    } else if i == 23 {
    } else if i == 24 {
    } else if i == 25 {
    } else if i == 26 {
    } else if i == 27 {
    } else if i == 28 {
    } else if i == 29 {
    } else if i == 30 {
    } else if i == 31 {
    } else if i == 32 {
    }

}

proof fn lemma_slot(side: LedController, ch: int)
    requires
        0 <= ch < NUM_LEDS,
    ensures
        port_at(side, ch) matches Some(p) ==> 0 <= p < NUM_LED_LOCATIONS && led_map(p) == (LedLocation { controller: side, output: ch as u8 }),
{

    if ch == 0 {
    } else if ch == 1 {
    } else if ch == 2 {
    } else if ch == 3 {
    } else if ch == 4 {
    } else if ch == 5 {
    } else if ch == 6 {
    } else if ch == 7 {
    } else if ch == 8 {
    } else if ch == 9 {
    } else if ch == 10 {
    } else if ch == 11 {
    } else if ch == 12 {
    } else if ch == 13 {
    } else if ch == 14 {
    } else if ch == 15 {
    } else if ch == 16 {
    } else if ch == 17 {
    } else if ch == 18 {
    } else if ch == 19 {
    } else if ch == 20 {
    } else if ch == 21 {
    } else if ch == 22 {
    } else if ch == 23 {
    }

}

/// The LED map is a one-to-one assignment of entries to driver outputs, and
/// every output it names exists: each entry is the only one at its
/// (driver, output) pair, which [`port_at`] gives back.
pub proof fn lemma_led_map_unique()
    ensures
        forall|i: int| 0 <= i < NUM_LED_LOCATIONS ==> #[trigger] led_map(i).output < NUM_LEDS,
        forall|i: int| 0 <= i < NUM_LED_LOCATIONS ==> port_at(#[trigger] led_map(i).controller, led_map(i).output as int) == Some(i),
        forall|i: int, j: int|
            0 <= i < NUM_LED_LOCATIONS && 0 <= j < NUM_LED_LOCATIONS && i != j ==> #[trigger] led_map(i) != #[trigger] led_map(j),
        forall|side: LedController, ch: int|
            0 <= ch < NUM_LEDS ==> (#[trigger] port_at(side, ch) matches Some(p) ==> 0 <= p < NUM_LED_LOCATIONS && led_map(p) == (LedLocation { controller: side, output: ch as u8 })),
{
    assert forall|i: int| 0 <= i < NUM_LED_LOCATIONS implies #[trigger] led_map(i).output < NUM_LEDS && port_at(led_map(i).controller, led_map(i).output as int) == Some(i) by {
        lemma_entry(i);
    }
    assert forall|i: int, j: int|
        0 <= i < NUM_LED_LOCATIONS && 0 <= j < NUM_LED_LOCATIONS && i != j implies #[trigger] led_map(i) != #[trigger] led_map(j) by {
        lemma_entry(i);
        lemma_entry(j);
    }
    assert forall|side: LedController, ch: int| 0 <= ch < NUM_LEDS implies (#[trigger] port_at(side, ch) matches Some(p) ==> 0 <= p < NUM_LED_LOCATIONS && led_map(p) == (LedLocation { controller: side, output: ch as u8 })) by {
        lemma_slot(side, ch);
    }
}

/// The entry `index` of the LED map.
pub fn led_location(index: usize) -> (r: LedLocation)
    requires
        index < NUM_LED_LOCATIONS,
    ensures
        r == led_map(index as int),
{
    match index {
        0 => LedLocation { controller: LedController::Left, output: 0 },
        1 => LedLocation { controller: LedController::Left, output: 2 },
        2 => LedLocation { controller: LedController::Left, output: 4 },
        3 => LedLocation { controller: LedController::Left, output: 6 },
        4 => LedLocation { controller: LedController::Left, output: 8 },
        5 => LedLocation { controller: LedController::Left, output: 10 },
        6 => LedLocation { controller: LedController::Left, output: 15 },
        7 => LedLocation { controller: LedController::Left, output: 13 },
        8 => LedLocation { controller: LedController::Right, output: 0 },
        9 => LedLocation { controller: LedController::Right, output: 2 },
        10 => LedLocation { controller: LedController::Right, output: 4 },
        11 => LedLocation { controller: LedController::Right, output: 6 },
        12 => LedLocation { controller: LedController::Right, output: 8 },
        13 => LedLocation { controller: LedController::Right, output: 10 },
        14 => LedLocation { controller: LedController::Right, output: 15 },
        15 => LedLocation { controller: LedController::Right, output: 13 },
        16 => LedLocation { controller: LedController::Left, output: 3 },
        17 => LedLocation { controller: LedController::Left, output: 1 },
        18 => LedLocation { controller: LedController::Left, output: 7 },
        19 => LedLocation { controller: LedController::Left, output: 5 },
        20 => LedLocation { controller: LedController::Left, output: 9 },
        21 => LedLocation { controller: LedController::Left, output: 11 },
        22 => LedLocation { controller: LedController::Left, output: 14 },
        23 => LedLocation { controller: LedController::Left, output: 12 },
        24 => LedLocation { controller: LedController::Right, output: 3 },
        25 => LedLocation { controller: LedController::Right, output: 1 },
        26 => LedLocation { controller: LedController::Right, output: 7 },
        27 => LedLocation { controller: LedController::Right, output: 5 },
        28 => LedLocation { controller: LedController::Right, output: 9 },
        29 => LedLocation { controller: LedController::Right, output: 11 },
        30 => LedLocation { controller: LedController::Right, output: 14 },
        31 => LedLocation { controller: LedController::Right, output: 12 },
        _ => LedLocation { controller: LedController::Left, output: 23 },
    }
}

/// Whether bit `i` of `mask` is set.
pub open spec fn mask_bit(mask: u64, i: int) -> bool {
    (mask >> (i as u64)) & 1u64 == 1u64
}

/// The duty cycle that `mask` asks of map entry `i`.
pub open spec fn pwm_for(mask: u64, i: int) -> u8 {
    if mask_bit(mask, i) {
        DEFAULT_LED_PWM
    } else {
        0
    }
}

/// The 24 duty cycles of driver `side` for the LEDs selected by `mask`:
/// bit `i` lights map entry `i`, and an output that no entry uses stays off.
pub open spec fn side_buffer(mask: u64, side: LedController) -> Seq<u8> {
    Seq::new(
        NUM_LEDS as nat,
        |ch: int|
            match port_at(side, ch) {
                Some(p) => pwm_for(mask, p),
                None => 0u8,
            },
    )
}

/// The duty cycles of one driver for the LEDs selected by `mask`.
pub fn channel_buffer(mask: u64, side: LedController) -> (r: Vec<u8>)
    ensures
        r@ == side_buffer(mask, side),
{
    proof {
        lemma_led_map_unique();
    }
    let mut buf: Vec<u8> = Vec::new();
    let mut k: usize = 0;
    while k < NUM_LEDS
        invariant
            k <= NUM_LEDS,
            buf@.len() == k,
            forall|ch: int| 0 <= ch < k ==> buf@[ch] == 0u8,
        decreases NUM_LEDS - k,
    {
        buf.push(0);
        k = k + 1;
    }
    let mut i: usize = 0;
    while i < NUM_LED_LOCATIONS
        invariant
            i <= NUM_LED_LOCATIONS,
            buf@.len() == NUM_LEDS,
            forall|ch: int|
                0 <= ch < NUM_LEDS ==> buf@[ch] == match #[trigger] port_at(side, ch) {
                    Some(p) => if p < i {
                        pwm_for(mask, p)
                    } else {
                        0u8
                    },
                    None => 0u8,
                },
        decreases NUM_LED_LOCATIONS - i,
    {
        let loc = led_location(i);
        let value: u8 = if (mask >> (i as u64)) & 1 == 1 {
            DEFAULT_LED_PWM
        } else {
            0
        };
        assert(led_map(i as int) == loc);
        if loc.controller == side {
            buf.set(loc.output as usize, value);
        }
        i = i + 1;
    }
    proof {
        assert(buf@ =~= side_buffer(mask, side));
    }
    buf
}

/// Faults of both drivers. A driver whose poll failed is marked unavailable
/// and counts no fault: the failure is never read as a clean report.
#[derive(Clone, Copy, Debug, PartialEq, Eq, Structural)]
pub struct FullErrorSummary {
    pub left: LedErrSummary,
    pub right: LedErrSummary,
    pub left_unavailable: bool,
    pub right_unavailable: bool,
}

/// The fault counts that one driver's poll contributes.
pub open spec fn report_summary(report: Result<Option<Pca9956BErrorState>, Error>) -> LedErrSummary {
    match report {
        Ok(Some(state)) => state.spec_summary(),
        _ => LedErrSummary { overtemp: false, short_circuit: 0, open_circuit: 0, invalid: 0 },
    }
}

/// The LEDs of the board, over their two drivers.
pub struct Leds {
    pub controllers: [Pca9956B; 2],
}

impl Leds {
    /// The driver on `side`.
    pub open spec fn driver(&self, side: LedController) -> I2cDevice {
        self.controllers@[side.spec_index()].device
    }

    pub fn new(left_controller: &I2cDevice, right_controller: &I2cDevice) -> (r: Self)
        ensures
            r.driver(LedController::Left) == *left_controller,
            r.driver(LedController::Right) == *right_controller,
    {
        Leds { controllers: [Pca9956B::new(left_controller), Pca9956B::new(right_controller)] }
    }

    /// Sets the default output current on both drivers.
    pub fn initialize_current(&self) -> (r: Vec<I2cOp>)
        ensures
            r@.len() == 2,
            r@[0]@ == reg_write(self.driver(LedController::Left), IREFALL_ADDR, DEFAULT_LED_CURRENT),
            r@[1]@ == reg_write(self.driver(LedController::Right), IREFALL_ADDR, DEFAULT_LED_CURRENT),
    {
        self.set_current(DEFAULT_LED_CURRENT)
    }

    /// Sets the output current of both drivers alike: one IREFALL write
    /// each, left first. The writes are issued in order and the first
    /// failure ends the call.
    pub fn set_current(&self, value: u8) -> (r: Vec<I2cOp>)
        ensures
            r@.len() == 2,
            r@[0]@ == reg_write(self.driver(LedController::Left), IREFALL_ADDR, value),
            r@[1]@ == reg_write(self.driver(LedController::Right), IREFALL_ADDR, value),
    {
        let mut ops: Vec<I2cOp> = Vec::new();
        let mut i: usize = 0;
        while i < 2
            invariant
                i <= 2,
                ops@.len() == i,
                forall|k: int| 0 <= k < i ==> (#[trigger] ops@[k])@ == reg_write(self.controllers@[k].device, IREFALL_ADDR, value),
            decreases 2 - i,
        {
            ops.push(self.controllers[i].set_iref_all(value));
            i = i + 1;
        }
        ops
    }

    /// Lights the system LED: one write of its PWM register.
    pub fn turn_on_system_led(&self) -> (r: I2cOp)
        ensures
            r@ == reg_write(
                self.driver(led_map(SYSTEM_LED_IDX as int).controller),
                (PWM_BASE + led_map(SYSTEM_LED_IDX as int).output) as u8,
                DEFAULT_LED_PWM,
            ),
    {
        let loc = led_location(SYSTEM_LED_IDX);
        match self.controllers[loc.controller.index()].set_a_led_pwm(loc.output, DEFAULT_LED_PWM) {
            Ok(op) => op,
            Err(_) => vstd::pervasive::unreached(),
        }
    }

    /// Turns the LED of map entry `port` on or off: one write of its PWM
    /// register. An index past the map is refused before any transaction.
    pub fn set_port(&self, port: u8, on: bool) -> (r: Result<I2cOp, Error>)
        ensures
            port >= NUM_LED_LOCATIONS ==> r == Err::<I2cOp, Error>(Error::InvalidPort(port)),
            port < NUM_LED_LOCATIONS ==> (r matches Ok(op) && op@ == reg_write(
                self.driver(led_map(port as int).controller),
                (PWM_BASE + led_map(port as int).output) as u8,
                if on {
                    DEFAULT_LED_PWM
                } else {
                    0
                },
            )),
    {
        if port as usize >= NUM_LED_LOCATIONS {
            return Err(Error::InvalidPort(port));
        }
        proof {
            lemma_led_map_unique();
        }
        let loc = led_location(port as usize);
        let value: u8 = if on {
            DEFAULT_LED_PWM
        } else {
            0
        };
        self.controllers[loc.controller.index()].set_a_led_pwm(loc.output, value)
    }

    /// Lights exactly the LEDs selected by `mask` (bit `i` for map entry
    /// `i`): one burst of all 24 duty cycles per driver, left first. The
    /// writes are issued in order and the first failure ends the call.
    pub fn update_led_state(&self, mask: u64) -> (r: Vec<I2cOp>)
        ensures
            r@.len() == 2,
            r@[0]@ == (OpModel::Write {
                device: self.driver(LedController::Left),
                bytes: seq![PWM_BASE | CTRL_AUTO_INCR] + side_buffer(mask, LedController::Left),
            }),
            r@[1]@ == (OpModel::Write {
                device: self.driver(LedController::Right),
                bytes: seq![PWM_BASE | CTRL_AUTO_INCR] + side_buffer(mask, LedController::Right),
            }),
    {
        let data_l = channel_buffer(mask, LedController::Left);
        let data_r = channel_buffer(mask, LedController::Right);
        let left = match self.controllers[0].set_all_led_pwm(data_l.as_slice()) {
            Ok(op) => op,
            Err(_) => vstd::pervasive::unreached(),
        };
        let right = match self.controllers[1].set_all_led_pwm(data_r.as_slice()) {
            Ok(op) => op,
            Err(_) => vstd::pervasive::unreached(),
        };
        let mut ops: Vec<I2cOp> = Vec::new();
        ops.push(left);
        ops.push(right);
        ops
    }

    /// Starts a fault poll of the driver on `controller`.
    pub fn check_errors(&self, controller: LedController) -> (r: (FaultPoll, I2cOp))
        ensures
            r.0.device == self.driver(controller),
            r.0.stage is ReadingMode2,
            r.1@ == r.0.awaited(),
    {
        self.controllers[controller.index()].check_for_errors()
    }

    /// Combines the outcomes of the fault polls of both drivers: `None` when
    /// both polls succeeded and found no fault; otherwise the counts of each
    /// side, with a side whose poll failed marked unavailable.
    pub fn error_summary(
        left: &Result<Option<Pca9956BErrorState>, Error>,
        right: &Result<Option<Pca9956BErrorState>, Error>,
    ) -> (r: Option<FullErrorSummary>)
        requires
            *left matches Ok(Some(s)) ==> s.wf(),
            *right matches Ok(Some(s)) ==> s.wf(),
        ensures
            r is None <==> (*left == Ok::<Option<Pca9956BErrorState>, Error>(None) && *right == Ok::<
                Option<Pca9956BErrorState>,
                Error,
            >(None)),
            r matches Some(s) ==> s == (FullErrorSummary {
                left: report_summary(*left),
                right: report_summary(*right),
                left_unavailable: left is Err,
                right_unavailable: right is Err,
            }),
    {
        let l = Self::side_summary(left);
        let r = Self::side_summary(right);
        let left_clear = match left {
            Ok(None) => true,
            _ => false,
        };
        let right_clear = match right {
            Ok(None) => true,
            _ => false,
        };
        if left_clear && right_clear {
            None
        } else {
            Some(
                FullErrorSummary {
                    left: l,
                    right: r,
                    left_unavailable: left.is_err(),
                    right_unavailable: right.is_err(),
                },
            )
        }
    }

    fn side_summary(report: &Result<Option<Pca9956BErrorState>, Error>) -> (r: LedErrSummary)
        requires
            *report matches Ok(Some(s)) ==> s.wf(),
        ensures
            r == report_summary(*report),
    {
        match report {
            Ok(Some(state)) => state.summary(),
            _ => LedErrSummary::clear(),
        }
    }
}

/// Setting the port states is a function of the mask: two calls with the
/// same mask produce the same buffer for each driver.
pub proof fn lemma_port_states_repeatable(mask1: u64, mask2: u64, side: LedController)
    requires
        mask1 == mask2,
    ensures
        side_buffer(mask1, side) == side_buffer(mask2, side),
{
}

proof fn lemma_toggle_bit(mask: u64, i: u64, j: u64)
    by (bit_vector)
    requires
        i < 64,
        j < 64,
    ensures
        (((mask ^ (1u64 << i)) >> j) & 1u64 == 1u64) == if i == j {
            (mask >> j) & 1u64 != 1u64
        } else {
            (mask >> j) & 1u64 == 1u64
        },
{
}

/// Toggling the bit of one map entry changes exactly one duty cycle: the
/// one at that entry's output of that entry's driver.
pub proof fn lemma_toggle_one_port(mask: u64, port: int, side: LedController, ch: int)
    requires
        0 <= port < NUM_LED_LOCATIONS,
        0 <= ch < NUM_LEDS,
    ensures
        (side_buffer(mask ^ (1u64 << (port as u64)), side)[ch] != side_buffer(mask, side)[ch]) <==> (
        side == led_map(port).controller && ch == led_map(port).output),
{
    lemma_led_map_unique();
    let toggled = mask ^ (1u64 << (port as u64));
    if let Some(p) = port_at(side, ch) {
        lemma_toggle_bit(mask, port as u64, p as u64);
        assert(mask_bit(toggled, p) == if p == port {
            !mask_bit(mask, p)
        } else {
            mask_bit(mask, p)
        });
    }
}

} // verus!
