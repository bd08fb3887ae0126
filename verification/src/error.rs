//! The error taxonomy surfaced to the window-manager engine.
use vstd::prelude::*;
use crate::Xid;

verus! {

/// Why an adapter operation failed.
#[derive(Clone, Debug, PartialEq, Eq)]
pub enum Error {
    /// The display-geometry extension is not offered by the server.
    MissingRandr,
    /// The display-geometry extension is present but reports a protocol
    /// version other than the one this adapter requires.
    RandrVersion {
        required_major: u32,
        required_minor: u32,
        detected_major: u32,
        detected_minor: u32,
    },
    /// A property reply's claimed type and format are internally
    /// inconsistent for the window and property named here.
    InvalidPropertyData { id: Xid, prop: String, ty: String },
    /// Text that must be UTF8 was not.
    InvalidUtf8,
    /// The interning reply wave cannot populate the atom cache: wrong
    /// length, a zero identifier, or two names answered with one identifier.
    InvalidAtomReplies,
    /// A failure propagated from the underlying connection.
    Backend(String),
}

} // verus!
