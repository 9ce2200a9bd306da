//! Primitive bus actions and the two batch patterns the driver uses.

use vstd::prelude::*;

verus! {

/// Seven-bit bus address of the accelerometer chip.
pub const I2C_ADDRESS: u8 = 0x1D;

/// Address byte sent after a start condition for a write: the seven-bit
/// address shifted left, with the direction bit clear.
pub const WRITE_ADDRESS: u8 = 0x3A;

/// Address byte sent after a start condition for a read: the seven-bit
/// address shifted left, with the direction bit set.
pub const READ_ADDRESS: u8 = 0x3B;

/// Register holding the chip identifier.
pub const CHIP_ID_REG: u8 = 0x0D;

/// Control register whose low-order bit switches the chip into
/// measurement mode.
pub const CTRL_REG1: u8 = 0x2A;

/// First register of the six-byte acceleration sample (X axis MSB).
pub const OUT_X_MSB: u8 = 0x01;

/// One primitive operation of an ordered bus transaction.  The port
/// executes a batch of these atomically and in order.
#[derive(Debug, PartialEq, Eq)]
pub enum BusAction {
    /// Put the port's pins into bus mode before the transaction proper.
    EnableBus,
    /// Issue a (repeated) start condition and send the given address byte.
    Start(u8),
    /// Send the given bytes to the addressed device.
    Transmit(Vec<u8>),
    /// Read the given number of bytes from the addressed device.
    Receive(usize),
    /// Issue a stop condition, ending the transaction.
    Stop,
}

/// The repeated-start read pattern over register `reg`, asking for `count`
/// bytes: enable, start-write, transmit the register address, start-read,
/// receive, stop.  Every register read the driver issues has exactly this
/// shape; no other path may issue a `Receive`.
pub open spec fn is_read_batch(batch: Seq<BusAction>, reg: u8, count: usize) -> bool {
    &&& batch.len() == 6
    &&& batch[0] == BusAction::EnableBus
    &&& batch[1] == BusAction::Start(WRITE_ADDRESS)
    &&& batch[2] matches BusAction::Transmit(payload) && payload@ == seq![reg]
    &&& batch[3] == BusAction::Start(READ_ADDRESS)
    &&& batch[4] == BusAction::Receive(count)
    &&& batch[5] == BusAction::Stop
}

/// The write pattern over register `reg`: enable, start-write, transmit the
/// register address followed by the value, stop.
pub open spec fn is_write_batch(batch: Seq<BusAction>, reg: u8, value: u8) -> bool {
    &&& batch.len() == 4
    &&& batch[0] == BusAction::EnableBus
    &&& batch[1] == BusAction::Start(WRITE_ADDRESS)
    &&& batch[2] matches BusAction::Transmit(payload) && payload@ == seq![reg, value]
    &&& batch[3] == BusAction::Stop
}

/// Compose the atomic batch that reads `count` bytes out of register `reg`.
pub fn read_register_batch(reg: u8, count: usize) -> (batch: Vec<BusAction>)
    ensures
        is_read_batch(batch@, reg, count),
{
    let mut payload: Vec<u8> = Vec::new();
    payload.push(reg);
    let mut batch: Vec<BusAction> = Vec::new();
    batch.push(BusAction::EnableBus);
    batch.push(BusAction::Start(WRITE_ADDRESS));
    batch.push(BusAction::Transmit(payload));
    batch.push(BusAction::Start(READ_ADDRESS));
    batch.push(BusAction::Receive(count));
    batch.push(BusAction::Stop);
    proof {
        assert(batch@[2]->Transmit_0@ =~= seq![reg]);
    }
    batch
}

/// Compose the atomic batch that writes `value` into register `reg`.
pub fn write_register_batch(reg: u8, value: u8) -> (batch: Vec<BusAction>)
    ensures
        is_write_batch(batch@, reg, value),
{
    let mut payload: Vec<u8> = Vec::new();
    payload.push(reg);
    payload.push(value);
    let mut batch: Vec<BusAction> = Vec::new();
    batch.push(BusAction::EnableBus);
    batch.push(BusAction::Start(WRITE_ADDRESS));
    batch.push(BusAction::Transmit(payload));
    batch.push(BusAction::Stop);
    proof {
        assert(batch@[2]->Transmit_0@ =~= seq![reg, value]);
    }
    batch
}

} // verus!
