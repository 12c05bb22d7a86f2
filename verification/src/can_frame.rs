//! CAN data frames with a standard (11-bit) identifier and up to eight bytes
//! of payload, checked by the `bxcan` crate that the STM32 CAN driver uses.

use vstd::prelude::*;

verus! {

/// Largest standard CAN identifier.
pub const MAX_STANDARD_ID: u16 = 0x7FF;

/// Largest payload of a CAN data frame, in bytes.
pub const MAX_FRAME_DATA: usize = 8;

/// Identifier of the frames the board's sensor firmware sends.
pub const DAQ_FRAME_ID: u16 = 0x123;

/// `bxcan::StandardId::new`, read back with `StandardId::as_raw`. In bxcan's
/// source the identifier exists exactly when `raw <= 0x7FF`, and then holds
/// `raw` unchanged; this is what the contract claims.
#[verifier::external_body]
fn standard_id(raw: u16) -> (id: Option<u16>)
    ensures
        id == (if raw <= MAX_STANDARD_ID {
            Some(raw)
        } else {
            None
        }),
{
    match bxcan::StandardId::new(raw) {
        Some(id) => Some(id.as_raw()),
        None => None,
    }
}

/// `bxcan::Data::new`, read back through its `Deref` to `[u8]`. In bxcan's
/// source the payload exists exactly when `data` holds at most eight bytes,
/// and then holds those bytes in order; this is what the contract claims.
#[verifier::external_body]
fn frame_data(data: &[u8]) -> (payload: Option<Vec<u8>>)
    ensures
        match payload {
            Some(p) => data@.len() <= MAX_FRAME_DATA && p@ == data@,
            None => data@.len() > MAX_FRAME_DATA,
        },
{
    match bxcan::Data::new(data) {
        Some(payload) => Some(payload.to_vec()),
        None => None,
    }
}

/// A CAN data frame: a standard identifier and its payload.
#[derive(Debug, PartialEq, Eq)]
pub struct CanFrame {
    id: u16,
    data: Vec<u8>,
}

impl View for CanFrame {
    type V = (u16, Seq<u8>);

    closed spec fn view(&self) -> (u16, Seq<u8>) {
        (self.id, self.data@)
    }
}

impl CanFrame {
    #[verifier::type_invariant]
    spec fn fits(self) -> bool {
        self.id <= MAX_STANDARD_ID && self.data@.len() <= MAX_FRAME_DATA
    }

    /// A data frame with identifier `id` carrying `data`, or `None` when the
    /// identifier does not fit eleven bits or the payload exceeds eight bytes.
    pub fn new_data(id: u16, data: &[u8]) -> (frame: Option<CanFrame>)
        ensures
            frame is Some <==> id <= MAX_STANDARD_ID && data@.len() <= MAX_FRAME_DATA,
            frame matches Some(f) ==> f@ == (id, data@),
    {
        match standard_id(id) {
            None => None,
            Some(raw) => match frame_data(data) {
                None => None,
                Some(payload) => Some(CanFrame { id: raw, data: payload }),
            },
        }
    }

    /// A data frame with identifier `id` carrying `data`, both known to fit.
    pub fn new_fitting(id: u16, data: &[u8]) -> (frame: CanFrame)
        requires
            id <= MAX_STANDARD_ID,
            data@.len() <= MAX_FRAME_DATA,
        ensures
            frame@ == (id, data@),
    {
        match CanFrame::new_data(id, data) {
            Some(frame) => frame,
            None => {
                proof {
                    assert(false);
                }
                CanFrame { id: 0, data: Vec::new() }
            },
        }
    }

    /// The frame's standard identifier.
    pub fn id(&self) -> (id: u16)
        ensures
            id == self@.0,
            id <= MAX_STANDARD_ID,
    {
        proof {
            use_type_invariant(self);
        }
        self.id
    }

    /// The frame's payload.
    pub fn data(&self) -> (data: &[u8])
        ensures
            data@ == self@.1,
            data@.len() <= MAX_FRAME_DATA,
    {
        proof {
            use_type_invariant(self);
        }
        self.data.as_slice()
    }
}

/// The frame with the firmware's identifier carrying `payload`.
pub fn daq_frame(payload: &[u8]) -> (frame: CanFrame)
    requires
        payload@.len() <= MAX_FRAME_DATA,
    ensures
        frame@ == (DAQ_FRAME_ID, payload@),
{
    CanFrame::new_fitting(DAQ_FRAME_ID, payload)
}

} // verus!
