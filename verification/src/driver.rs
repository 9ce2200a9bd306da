//! The accelerometer driver: identity check, activation, sample decode.
//!
//! The driver is a state machine over the bus protocol.  It composes the
//! batch for each operation and interprets the bytes the port hands back;
//! the port itself — the side that drives the physical bus — executes a
//! batch atomically and answers with the received bytes or an I/O failure.

use vstd::prelude::*;
use crate::bus::BusAction;
use crate::bus::CHIP_ID_REG;
use crate::bus::CTRL_REG1;
use crate::bus::OUT_X_MSB;
use crate::bus::is_read_batch;
use crate::bus::is_write_batch;
use crate::bus::read_register_batch;
use crate::bus::write_register_batch;
use crate::codec::axis_value;
use crate::codec::decode_sample;

verus! {

/// Chip identifier the accelerometer is expected to report.
pub const VALID_CHIP_ID: u8 = 42;

/// Failure reported by the port: the batch could not complete on the bus.
/// Its cause (NACK, disconnect, timeout) is opaque to the driver.
#[derive(Debug, Clone, Copy, PartialEq, Eq)]
pub struct IoError;

/// Failure of a driver operation.
#[derive(Debug, Clone, Copy, PartialEq, Eq)]
pub enum DriverError {
    /// The bus transaction failed, or the port answered with the wrong
    /// number of bytes.
    Io,
    /// The chip reported an identifier other than `VALID_CHIP_ID`.
    IdentityMismatch,
}

/// Driver for the accelerometer chip.  A value exists only after the chip's
/// identity has been verified; measurement operations additionally demand
/// that measurement mode was activated first.
#[derive(Debug)]
pub struct Accelerometer {
    active: bool,
}

impl Accelerometer {
    /// Whether measurement mode has been activated.
    pub closed spec fn is_active(&self) -> bool {
        self.active
    }

    /// Whether measurement mode has been activated.
    pub fn active(&self) -> (r: bool)
        ensures
            r == self.is_active(),
    {
        self.active
    }

    /// The batch that reads the single chip-identifier byte.
    pub fn chip_id_batch() -> (batch: Vec<BusAction>)
        ensures
            is_read_batch(batch@, CHIP_ID_REG, 1),
    {
        read_register_batch(CHIP_ID_REG, 1)
    }

    /// Interpret the port's answer to `chip_id_batch`: the identifier byte
    /// on success, an I/O error if the batch failed or the answer does not
    /// hold exactly one byte.
    pub fn get_chip_id(response: &Result<Vec<u8>, IoError>) -> (r: Result<u8, DriverError>)
        ensures
            match response {
                Ok(v) => {
                    if v@.len() == 1 {
                        r == Ok::<u8, DriverError>(v@[0])
                    } else {
                        r == Err::<u8, DriverError>(DriverError::Io)
                    }
                },
                Err(_) => r == Err::<u8, DriverError>(DriverError::Io),
            },
    {
        match response {
            Ok(v) => {
                if v.len() == 1 {
                    Ok(v[0])
                } else {
                    Err(DriverError::Io)
                }
            },
            Err(_) => Err(DriverError::Io),
        }
    }

    /// Construct the driver from the port's answer to `chip_id_batch`.
    /// Construction succeeds exactly when the answer is the single byte
    /// `VALID_CHIP_ID`; any other identifier is an identity mismatch, and
    /// an I/O failure (or a malformed answer) is an I/O error.  The new
    /// driver is not yet in measurement mode.
    pub fn new(response: &Result<Vec<u8>, IoError>) -> (r: Result<Accelerometer, DriverError>)
        ensures
            match response {
                Ok(v) => {
                    &&& v@ == seq![VALID_CHIP_ID] ==> (r matches Ok(a) && !a.is_active())
                    &&& v@.len() == 1 && v@ != seq![VALID_CHIP_ID] ==> r == Err::<
                        Accelerometer,
                        DriverError,
                    >(DriverError::IdentityMismatch)
                    &&& v@.len() != 1 ==> r == Err::<Accelerometer, DriverError>(DriverError::Io)
                },
                Err(_) => r == Err::<Accelerometer, DriverError>(DriverError::Io),
            },
    {
        match Self::get_chip_id(response) {
            Ok(id) => {
                if id == VALID_CHIP_ID {
                    proof {
                        assert(response->Ok_0@ =~= seq![VALID_CHIP_ID]);
                    }
                    Ok(Accelerometer { active: false })
                } else {
                    proof {
                        assert(response->Ok_0@ != seq![VALID_CHIP_ID]);
                    }
                    Err(DriverError::IdentityMismatch)
                }
            },
            Err(e) => Err(e),
        }
    }

    /// The batch that reads the current control-register value: batch one
    /// of activation.
    pub fn ctrl_read_batch() -> (batch: Vec<BusAction>)
        ensures
            is_read_batch(batch@, CTRL_REG1, 1),
    {
        read_register_batch(CTRL_REG1, 1)
    }

    /// Compose batch two of activation from the port's answer to
    /// `ctrl_read_batch`: write the control value back with the active bit
    /// set.  The written value always has bit zero set, whatever bits were
    /// already present.  The two batches are sequential, not one
    /// transaction; exclusive ownership of the port is what makes the
    /// read-modify-write safe.
    pub fn mode_active(&self, response: &Result<Vec<u8>, IoError>) -> (r: Result<
        Vec<BusAction>,
        DriverError,
    >)
        ensures
            match response {
                Ok(v) => {
                    &&& v@.len() == 1 ==> (r matches Ok(b) && is_write_batch(
                        b@,
                        CTRL_REG1,
                        v@[0] | 1,
                    ))
                    &&& v@.len() != 1 ==> r == Err::<Vec<BusAction>, DriverError>(DriverError::Io)
                },
                Err(_) => r == Err::<Vec<BusAction>, DriverError>(DriverError::Io),
            },
    {
        match Self::get_chip_id(response) {
            Ok(current) => Ok(write_register_batch(CTRL_REG1, current | 1)),
            Err(e) => Err(e),
        }
    }

    /// Record the outcome of executing the activation write batch: on
    /// success the driver is in measurement mode, on failure its state is
    /// unchanged and the failure is propagated.
    pub fn activation_done(&mut self, outcome: &Result<(), IoError>) -> (r: Result<
        (),
        DriverError,
    >)
        ensures
            outcome is Ok ==> final(self).is_active() && r == Ok::<(), DriverError>(()),
            outcome is Err ==> final(self).is_active() == old(self).is_active() && r == Err::<
                (),
                DriverError,
            >(DriverError::Io),
    {
        match outcome {
            Ok(_) => {
                self.active = true;
                Ok(())
            },
            Err(_) => Err(DriverError::Io),
        }
    }

    /// The batch that reads the six-byte acceleration sample.
    pub fn sample_batch() -> (batch: Vec<BusAction>)
        ensures
            is_read_batch(batch@, OUT_X_MSB, 6),
    {
        read_register_batch(OUT_X_MSB, 6)
    }

    /// Decode the port's answer to `sample_batch` into the signed X, Y, Z
    /// readings.  The driver must be in measurement mode; a failed batch or
    /// a malformed answer is an I/O error.
    pub fn get_acceleration(&self, response: &Result<Vec<u8>, IoError>) -> (r: Result<
        Vec<i16>,
        DriverError,
    >)
        requires
            self.is_active(),
        ensures
            match response {
                Ok(v) => {
                    &&& v@.len() == 6 ==> (r matches Ok(w) && w@.len() == 3 && w@[0] as int
                        == axis_value(v@[0], v@[1]) && w@[1] as int == axis_value(v@[2], v@[3])
                        && w@[2] as int == axis_value(v@[4], v@[5]))
                    &&& v@.len() != 6 ==> r == Err::<Vec<i16>, DriverError>(DriverError::Io)
                },
                Err(_) => r == Err::<Vec<i16>, DriverError>(DriverError::Io),
            },
    {
        match response {
            Ok(raw) => {
                if raw.len() == 6 {
                    Ok(decode_sample(raw))
                } else {
                    Err(DriverError::Io)
                }
            },
            Err(_) => Err(DriverError::Io),
        }
    }
}

/// Law of activation: the control value composed by `mode_active` always
/// has its active bit set, whatever bits were already present; and
/// activating an already-active device writes the very same value back.
pub proof fn lemma_active_bit(value: u8)
    ensures
        (value | 1) & 1 == 1,
        value & 1 == 1 ==> (value | 1) == value,
{
    assert((value | 1) & 1 == 1) by (bit_vector);
    assert(value & 1 == 1 ==> (value | 1) == value) by (bit_vector);
}

} // verus!
