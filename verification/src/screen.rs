//! Screen geometry resolution and extension version checking.
//!
//! The display-geometry extension is queried once per controller, without
//! waiting on individual replies; the collected controller geometries are
//! then reduced here to the set of active physical screens. Connecting also
//! requires the extension to be present and to report at least the minimum
//! protocol version this adapter speaks.
use vstd::prelude::*;
use crate::error::Error;
use crate::geometry::Rect;

verus! {

/// The required major version of the display-geometry extension.
pub const RANDR_MAJOR: u32 = 1;

/// The required minor version of the display-geometry extension.
pub const RANDR_MINOR: u32 = 2;

/// The change notifications subscribed to on the root window: screen,
/// controller and output changes.
pub const RANDR_NOTIFY_MASK: u16 = 0x1 | 0x2 | 0x4;

/// One controller's geometry, as its reply reports it.
#[derive(Clone, Copy, Debug, PartialEq, Eq, Structural)]
pub struct CrtcInfo {
    pub x: i16,
    pub y: i16,
    pub width: u16,
    pub height: u16,
}

/// A signed 16-bit coordinate reinterpreted as an unsigned 32-bit display
/// coordinate, two's-complement style.
pub open spec fn wrap32(v: int) -> u32 {
    (v % 0x100000000) as u32
}

/// Reinterpret a signed 16-bit coordinate as the unsigned 32-bit value the
/// rectangle model carries.
pub fn i16_as_u32(v: i16) -> (r: u32)
    ensures
        r == wrap32(v as int),
        v >= 0 ==> r == v,
{
    if v >= 0 {
        v as u32
    } else {
        let wide: i64 = (v as i64) + 0x100000000i64;
        proof {
            assert((v as int + 0x100000000) % 0x100000000 == v as int % 0x100000000) by {
                vstd::arithmetic::div_mod::lemma_mod_add_multiples_vanish(
                    v as int,
                    0x100000000,
                );
            }
        }
        wide as u32
    }
}

/// The rectangle a controller reply stands for.
pub open spec fn rect_of_crtc(c: CrtcInfo) -> Rect {
    Rect { x: wrap32(c.x as int), y: wrap32(c.y as int), w: c.width as u32, h: c.height as u32 }
}

/// The active screens among a controller enumeration: zero-width
/// controllers are inactive and excluded; every other controller appears as
/// its exact rectangle, in enumeration order.
pub open spec fn active_rects(cs: Seq<CrtcInfo>) -> Seq<Rect>
    decreases cs.len(),
{
    if cs.len() == 0 {
        Seq::empty()
    } else {
        let rest = active_rects(cs.drop_first());
        if cs[0].width > 0 {
            seq![rect_of_crtc(cs[0])] + rest
        } else {
            rest
        }
    }
}

/// Reduce the collected controller geometries to the set of active physical
/// screen rectangles.
pub fn screen_rects(infos: &Vec<CrtcInfo>) -> (r: Vec<Rect>)
    ensures
        r@ == active_rects(infos@),
{
    let mut r: Vec<Rect> = Vec::new();
    let mut i: usize = 0;
    proof {
        assert(infos@.skip(0) =~= infos@);
        assert(r@ + active_rects(infos@) =~= active_rects(infos@));
    }
    while i < infos.len()
        invariant
            i <= infos@.len(),
            active_rects(infos@) == r@ + active_rects(infos@.skip(i as int)),
        decreases infos@.len() - i,
    {
        let c = infos[i];
        proof {
            assert(infos@.skip(i as int)[0] == infos@[i as int]);
            assert(infos@.skip(i as int).drop_first() =~= infos@.skip(i as int + 1));
        }
        if c.width > 0 {
            let x = i16_as_u32(c.x);
            let y = i16_as_u32(c.y);
            r.push(Rect { x, y, w: c.width as u32, h: c.height as u32 });
        }
        i = i + 1;
        proof {
            assert(active_rects(infos@) =~= r@ + active_rects(infos@.skip(i as int)));
        }
    }
    proof {
        assert(active_rects(infos@) =~= r@);
    }
    r
}

/// Whether a reported version reaches the minimum required one, in version
/// order: a higher major always suffices, an equal major needs at least the
/// required minor.
pub open spec fn version_sufficient(major: u32, minor: u32) -> bool {
    major > RANDR_MAJOR || (major == RANDR_MAJOR && minor >= RANDR_MINOR)
}

/// Validate the protocol version the display-geometry extension reports
/// against the minimum required version. Any lower version fails with the
/// version-mismatch error naming the required and the detected version.
pub fn check_randr_version(major: u32, minor: u32) -> (r: Result<(), Error>)
    ensures
        r is Ok <==> version_sufficient(major, minor),
        r is Err ==> r == Err::<(), Error>(
            Error::RandrVersion {
                required_major: RANDR_MAJOR,
                required_minor: RANDR_MINOR,
                detected_major: major,
                detected_minor: minor,
            },
        ),
{
    if major > RANDR_MAJOR || (major == RANDR_MAJOR && minor >= RANDR_MINOR) {
        Ok(())
    } else {
        Err(
            Error::RandrVersion {
                required_major: RANDR_MAJOR,
                required_minor: RANDR_MINOR,
                detected_major: major,
                detected_minor: minor,
            },
        )
    }
}

/// Confirm the display-geometry extension is offered at all; its absence is
/// the capability error.
pub fn check_randr_present(present: bool) -> (r: Result<(), Error>)
    ensures
        r is Ok <==> present,
        r is Err ==> r == Err::<(), Error>(Error::MissingRandr),
{
    if present {
        Ok(())
    } else {
        Err(Error::MissingRandr)
    }
}

} // verus!
