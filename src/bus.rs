//! Transactions on an I2C bus, as values.
use vstd::prelude::*;

verus! {

/// Where an I2C device sits: the controller and port of its bus segment and
/// its 7-bit address.
#[derive(Clone, Copy, Debug, PartialEq, Eq, Structural)]
pub struct I2cDevice {
    pub controller: u8,
    pub port: u8,
    pub address: u8,
}

/// A failure reported by the I2C transport, carried as its numeric code.
#[derive(Clone, Copy, Debug, PartialEq, Eq, Structural)]
pub struct ResponseCode {
    pub code: u32,
}

/// One I2C transaction.
#[derive(Debug, PartialEq, Eq)]
pub enum I2cOp {
    /// Write the register address `reg`, then read `len` bytes.
    Read { device: I2cDevice, reg: u8, len: usize },
    /// Write `bytes`; the first byte is the register address.
    Write { device: I2cDevice, bytes: Vec<u8> },
}

/// The mathematical form of an [`I2cOp`].
pub enum OpModel {
    Read { device: I2cDevice, reg: u8, len: nat },
    Write { device: I2cDevice, bytes: Seq<u8> },
}

impl View for I2cOp {
    type V = OpModel;

    open spec fn view(&self) -> OpModel {
        match self {
            I2cOp::Read { device, reg, len } => OpModel::Read { device: *device, reg: *reg, len: *len as nat },
            I2cOp::Write { device, bytes } => OpModel::Write { device: *device, bytes: bytes@ },
        }
    }
}

/// What the transport reports for one transaction.
#[derive(Debug, PartialEq, Eq)]
pub enum BusEvent {
    /// A write completed.
    Written,
    /// A read completed with these bytes.
    Read(Vec<u8>),
    /// The transaction failed.
    Failed(ResponseCode),
}

impl BusEvent {
    /// An event answers an operation when it is a failure, or has the shape
    /// that the operation produces: a write is answered by `Written`, a read
    /// of `n` bytes by exactly `n` bytes.
    pub open spec fn answers_spec(&self, op: OpModel) -> bool {
        match self {
            BusEvent::Written => op is Write,
            BusEvent::Read(data) => match op {
                OpModel::Read { len, .. } => data@.len() == len,
                OpModel::Write { .. } => false,
            },
            BusEvent::Failed(_) => true,
        }
    }

    /// Whether this event is a possible answer to `op`.
    pub fn answers(&self, op: &I2cOp) -> (r: bool)
        ensures
            r == self.answers_spec(op@),
    {
        match self {
            BusEvent::Written => match op {
                I2cOp::Write { .. } => true,
                I2cOp::Read { .. } => false,
            },
            BusEvent::Read(data) => match op {
                I2cOp::Read { len, .. } => data.len() == *len,
                I2cOp::Write { .. } => false,
            },
            BusEvent::Failed(_) => true,
        }
    }
}

} // verus!
