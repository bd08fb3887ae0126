//! Protocol adapter core for speaking to an X11 display server.
//!
//! The crate models the decision and codec logic of an X11 window-manager
//! backend as pure, verified functions: which requests to issue, how to
//! interpret reply payloads against a closed taxonomy of typed properties,
//! how to normalise input grabs and attribute changes. The actual transport
//! (socket I/O, request/reply plumbing) lives outside and hands this crate
//! plain values.
use vstd::prelude::*;

pub mod atom;
pub mod atoms;
pub mod config;
pub mod error;
pub mod geometry;
pub mod input;
pub mod message;
pub mod property;
pub mod screen;
pub mod strutil;
pub mod win;
pub mod wire;

verus! {

/// An opaque resource identifier (window, colormap, ...) assigned by the
/// display server.
#[derive(Clone, Copy, Debug, PartialEq, Eq, Structural, Hash, PartialOrd, Ord)]
pub struct Xid(pub u32);

} // verus!
