//! Bring-up and LED management for the front I/O board of a network switch.
//!
//! Every hardware interaction is described as a plain value: the drivers hand
//! out bus transactions and the multi-step procedures are state machines that
//! are resumed with the answers. The caller performs the transactions.

pub mod bringup;
pub mod bus;
pub mod eeprom;
pub mod front_io;
pub mod leds;
pub mod pca9956b;
pub mod timer;
