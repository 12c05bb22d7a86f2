//! The accelerometer firmware's SPI request and CAN report: it reads the six
//! data registers of the 9DOF click's accelerometer in one burst, starting at
//! register 0x02, and forwards the bytes unchanged.

use vstd::prelude::*;
use crate::can_frame::{CanFrame, DAQ_FRAME_ID, daq_frame};

verus! {

/// Bit that marks an SPI transfer as a register read.
pub const BIT_MASK_SPI_CMD_READ: u8 = 0x80;

/// First accelerometer data register.
pub const ACC_REG_DATA_START: u8 = 0x02;

/// The one-byte SPI request that starts a read of the data registers.
pub fn read_request() -> (request: [u8; 1])
    ensures
        request@ == seq![0x82u8],
        request[0] & BIT_MASK_SPI_CMD_READ == BIT_MASK_SPI_CMD_READ,
        request[0] & 0x7F == ACC_REG_DATA_START,
{
    let request = [ACC_REG_DATA_START | BIT_MASK_SPI_CMD_READ];
    assert(ACC_REG_DATA_START | BIT_MASK_SPI_CMD_READ == 0x82u8) by (bit_vector);
    assert(0x82u8 & 0x80u8 == 0x80u8 && 0x82u8 & 0x7Fu8 == 0x02u8) by (bit_vector);
    assert(request@ =~= seq![0x82u8]);
    request
}

/// The frame that reports the six bytes read from the accelerometer.
pub fn accel_frame(data_buffer: [u8; 6]) -> (frame: CanFrame)
    ensures
        frame@ == (DAQ_FRAME_ID, data_buffer@),
{
    daq_frame(&data_buffer)
}

} // verus!
