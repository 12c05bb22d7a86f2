//! Verified core of a small data-acquisition firmware for an STM32 board:
//! the register layouts and command frames of a ZSC31014 load-cell bridge
//! sensor, the CAN payloads the board transmits, and the decisions of the
//! firmware's main loops, written as state machines that a thin driver runs.

pub mod bytes;
pub mod bridge;
pub mod sensor;
pub mod can_frame;
pub mod load_cell;
pub mod echo;
pub mod button;
pub mod accel;
