//! Client-message construction.
//!
//! An application-level notification is a typed-atom identifier plus a
//! small fixed-size payload in one of three element widths, dispatched to a
//! target window under a caller-chosen delivery mask. The notification
//! event itself always travels in the 32-bit format.
use vstd::prelude::*;
use crate::Xid;

verus! {

/// The delivery mask value for structure notifications.
pub const STRUCTURE_NOTIFY_MASK: u32 = 0x20000;

/// The delivery mask value for substructure notifications.
pub const SUBSTRUCTURE_NOTIFY_MASK: u32 = 0x80000;

/// The wire format every client-message event is sent in.
pub const CLIENT_MESSAGE_FORMAT: u8 = 32;

/// Who is notified when a client message is delivered.
#[derive(Clone, Copy, Debug, PartialEq, Eq, Structural)]
pub enum ClientEventMask {
    /// Deliver to the target window only.
    NoEventMask,
    /// Deliver to clients listening for structure changes.
    StructureNotify,
    /// Deliver to clients listening for substructure changes.
    SubstructureNotify,
}

/// The payload of a client message, in one of three element widths.
#[derive(Clone, Debug, PartialEq, Eq)]
pub enum ClientMessageData {
    /// Twenty 8-bit elements.
    U8(Vec<u8>),
    /// Ten 16-bit elements.
    U16(Vec<u16>),
    /// Five 32-bit elements.
    U32(Vec<u32>),
}

/// Whether a payload has the exact element count its width requires.
pub open spec fn data_wf(d: ClientMessageData) -> bool {
    match d {
        ClientMessageData::U8(v) => v@.len() == 20,
        ClientMessageData::U16(v) => v@.len() == 10,
        ClientMessageData::U32(v) => v@.len() == 5,
    }
}

impl ClientMessageData {
    /// Check that this payload has the exact element count its width
    /// requires.
    pub fn is_well_formed(&self) -> (b: bool)
        ensures
            b == data_wf(*self),
    {
        match self {
            ClientMessageData::U8(v) => v.len() == 20,
            ClientMessageData::U16(v) => v.len() == 10,
            ClientMessageData::U32(v) => v.len() == 5,
        }
    }
}

/// An application-level notification for one window: the name of its type
/// atom, the delivery mask, and the payload.
#[derive(Clone, Debug, PartialEq, Eq)]
pub struct ClientMessage {
    /// The window the message is sent to.
    pub id: Xid,
    /// The name of the message's type atom.
    pub dtype: String,
    /// Who is notified on delivery.
    pub mask: ClientEventMask,
    /// The payload.
    pub data: ClientMessageData,
}

/// The wire value of a delivery mask.
pub open spec fn event_mask_value_spec(m: ClientEventMask) -> u32 {
    match m {
        ClientEventMask::NoEventMask => 0,
        ClientEventMask::StructureNotify => STRUCTURE_NOTIFY_MASK,
        ClientEventMask::SubstructureNotify => SUBSTRUCTURE_NOTIFY_MASK,
    }
}

/// The wire value a delivery mask is sent under.
pub fn event_mask_value(m: ClientEventMask) -> (r: u32)
    ensures
        r == event_mask_value_spec(m),
{
    match m {
        ClientEventMask::NoEventMask => 0,
        ClientEventMask::StructureNotify => STRUCTURE_NOTIFY_MASK,
        ClientEventMask::SubstructureNotify => SUBSTRUCTURE_NOTIFY_MASK,
    }
}

/// The fixed header fields of the notification event a message is sent as.
#[derive(Clone, Copy, Debug, PartialEq, Eq, Structural)]
pub struct ClientMessageWire {
    /// The target window's identifier.
    pub window: u32,
    /// The resolved type atom.
    pub type_atom: u32,
    /// The event format: always the 32-bit one.
    pub format: u8,
    /// The delivery mask value.
    pub mask_value: u32,
}

/// Build the fixed-format notification event for a message whose type atom
/// the caller has resolved. The payload travels beside these fields
/// unchanged.
pub fn build_client_message(msg: &ClientMessage, type_atom: u32) -> (r: ClientMessageWire)
    requires
        data_wf(msg.data),
    ensures
        r.window == msg.id.0,
        r.type_atom == type_atom,
        r.format == CLIENT_MESSAGE_FORMAT,
        r.mask_value == event_mask_value_spec(msg.mask),
{
    ClientMessageWire {
        window: msg.id.0,
        type_atom,
        format: CLIENT_MESSAGE_FORMAT,
        mask_value: event_mask_value(msg.mask),
    }
}

} // verus!
