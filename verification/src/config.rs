//! Folding declarative attribute and configuration changes.
//!
//! Several requested changes to one window are folded into a single
//! aggregated change object before one request is issued, avoiding a round
//! trip per change. The fold starts from a neutral "no changes" value and
//! applies each requested change in order; a later change to the same field
//! wins.
use vstd::prelude::*;
use crate::geometry::Rect;
use crate::Xid;

verus! {

/// The events subscribed to on a managed client window.
pub const CLIENT_EVENT_MASK: u32 = 0x10 | 0x20 | 0x400000 | 0x20000;

/// The events subscribed to on a client window while it is being unmapped.
pub const CLIENT_UNMAP_MASK: u32 = 0x10 | 0x20 | 0x400000;

/// The events subscribed to on the root window.
pub const ROOT_EVENT_MASK: u32 = 0x400000 | 0x100000 | 0x80000 | 0x2000;

/// A declarative attribute change for one window.
#[derive(Clone, Copy, Debug, PartialEq, Eq, Structural)]
pub enum ClientAttr {
    /// Set the border colour.
    BorderColor(u32),
    /// Subscribe to the managed-client event set.
    ClientEventMask,
    /// Subscribe to the unmapping event set.
    ClientUnmapMask,
    /// Subscribe to the root-window event set.
    RootEventMask,
}

/// The aggregated attribute-change object one request carries.
#[derive(Clone, Copy, Debug, PartialEq, Eq, Structural)]
pub struct AttrChanges {
    pub border_pixel: Option<u32>,
    pub event_mask: Option<u32>,
}

/// One attribute change folded onto the aggregate.
pub open spec fn apply_attr(acc: AttrChanges, a: ClientAttr) -> AttrChanges {
    match a {
        ClientAttr::BorderColor(c) => AttrChanges { border_pixel: Some(c), ..acc },
        ClientAttr::ClientEventMask => AttrChanges { event_mask: Some(CLIENT_EVENT_MASK), ..acc },
        ClientAttr::ClientUnmapMask => AttrChanges { event_mask: Some(CLIENT_UNMAP_MASK), ..acc },
        ClientAttr::RootEventMask => AttrChanges { event_mask: Some(ROOT_EVENT_MASK), ..acc },
    }
}

/// A list of attribute changes folded onto the neutral aggregate, in order.
pub open spec fn fold_attrs(s: Seq<ClientAttr>) -> AttrChanges
    decreases s.len(),
{
    if s.len() == 0 {
        AttrChanges { border_pixel: None, event_mask: None }
    } else {
        apply_attr(fold_attrs(s.drop_last()), s.last())
    }
}

/// Fold the requested attribute changes into the one aggregated change
/// object the single request carries.
pub fn resolve_attrs(attrs: &[ClientAttr]) -> (r: AttrChanges)
    ensures
        r == fold_attrs(attrs@),
{
    let mut acc = AttrChanges { border_pixel: None, event_mask: None };
    let mut i: usize = 0;
    proof {
        assert(attrs@.take(0) =~= Seq::<ClientAttr>::empty());
    }
    while i < attrs.len()
        invariant
            i <= attrs@.len(),
            acc == fold_attrs(attrs@.take(i as int)),
        decreases attrs@.len() - i,
    {
        acc = match attrs[i] {
            ClientAttr::BorderColor(c) => AttrChanges { border_pixel: Some(c), ..acc },
            ClientAttr::ClientEventMask => AttrChanges {
                event_mask: Some(CLIENT_EVENT_MASK),
                ..acc
            },
            ClientAttr::ClientUnmapMask => AttrChanges {
                event_mask: Some(CLIENT_UNMAP_MASK),
                ..acc
            },
            ClientAttr::RootEventMask => AttrChanges { event_mask: Some(ROOT_EVENT_MASK), ..acc },
        };
        i = i + 1;
        proof {
            assert(attrs@.take(i as int).drop_last() =~= attrs@.take(i as int - 1));
            assert(attrs@.take(i as int).last() == attrs@[i as int - 1]);
        }
    }
    proof {
        assert(attrs@.take(attrs@.len() as int) =~= attrs@);
    }
    acc
}

/// Where a window is moved in stacking order.
#[derive(Clone, Copy, Debug, PartialEq, Eq, Structural)]
pub enum StackMode {
    Above,
    Below,
}

/// A declarative configuration change for one window.
#[derive(Clone, Copy, Debug, PartialEq, Eq, Structural)]
pub enum ClientConfig {
    /// Set the border width in pixels.
    BorderPx(u32),
    /// Move and resize to the given rectangle.
    Position(Rect),
    /// Stack directly below the given sibling.
    StackBelow(Xid),
    /// Stack directly above the given sibling.
    StackAbove(Xid),
    /// Stack at the bottom of the order.
    StackBottom,
    /// Stack at the top of the order.
    StackTop,
}

/// The aggregated configuration-change object one request carries.
#[derive(Clone, Copy, Debug, PartialEq, Eq, Structural)]
pub struct ConfigChanges {
    pub border_width: Option<u32>,
    pub x: Option<u32>,
    pub y: Option<u32>,
    pub w: Option<u32>,
    pub h: Option<u32>,
    pub sibling: Option<Xid>,
    pub stack_mode: Option<StackMode>,
}

/// The neutral "no changes" aggregate.
pub open spec fn no_config_changes() -> ConfigChanges {
    ConfigChanges {
        border_width: None,
        x: None,
        y: None,
        w: None,
        h: None,
        sibling: None,
        stack_mode: None,
    }
}

/// One configuration change folded onto the aggregate.
pub open spec fn apply_config(acc: ConfigChanges, c: ClientConfig) -> ConfigChanges {
    match c {
        ClientConfig::BorderPx(px) => ConfigChanges { border_width: Some(px), ..acc },
        ClientConfig::Position(r) => ConfigChanges {
            x: Some(r.x),
            y: Some(r.y),
            w: Some(r.w),
            h: Some(r.h),
            ..acc
        },
        ClientConfig::StackBelow(s) => ConfigChanges {
            sibling: Some(s),
            stack_mode: Some(StackMode::Below),
            ..acc
        },
        ClientConfig::StackAbove(s) => ConfigChanges {
            sibling: Some(s),
            stack_mode: Some(StackMode::Above),
            ..acc
        },
        ClientConfig::StackBottom => ConfigChanges { stack_mode: Some(StackMode::Below), ..acc },
        ClientConfig::StackTop => ConfigChanges { stack_mode: Some(StackMode::Above), ..acc },
    }
}

/// A list of configuration changes folded onto the neutral aggregate, in
/// order.
pub open spec fn fold_configs(s: Seq<ClientConfig>) -> ConfigChanges
    decreases s.len(),
{
    if s.len() == 0 {
        no_config_changes()
    } else {
        apply_config(fold_configs(s.drop_last()), s.last())
    }
}

/// Fold the requested configuration changes into the one aggregated change
/// object the single request carries.
pub fn resolve_configs(data: &[ClientConfig]) -> (r: ConfigChanges)
    ensures
        r == fold_configs(data@),
{
    let mut acc = ConfigChanges {
        border_width: None,
        x: None,
        y: None,
        w: None,
        h: None,
        sibling: None,
        stack_mode: None,
    };
    let mut i: usize = 0;
    proof {
        assert(data@.take(0) =~= Seq::<ClientConfig>::empty());
    }
    while i < data.len()
        invariant
            i <= data@.len(),
            acc == fold_configs(data@.take(i as int)),
        decreases data@.len() - i,
    {
        acc = match data[i] {
            ClientConfig::BorderPx(px) => ConfigChanges { border_width: Some(px), ..acc },
            ClientConfig::Position(r) => ConfigChanges {
                x: Some(r.x),
                y: Some(r.y),
                w: Some(r.w),
                h: Some(r.h),
                ..acc
            },
            ClientConfig::StackBelow(s) => ConfigChanges {
                sibling: Some(s),
                stack_mode: Some(StackMode::Below),
                ..acc
            },
            ClientConfig::StackAbove(s) => ConfigChanges {
                sibling: Some(s),
                stack_mode: Some(StackMode::Above),
                ..acc
            },
            ClientConfig::StackBottom => ConfigChanges {
                stack_mode: Some(StackMode::Below),
                ..acc
            },
            ClientConfig::StackTop => ConfigChanges { stack_mode: Some(StackMode::Above), ..acc },
        };
        i = i + 1;
        proof {
            assert(data@.take(i as int).drop_last() =~= data@.take(i as int - 1));
            assert(data@.take(i as int).last() == data@[i as int - 1]);
        }
    }
    proof {
        assert(data@.take(data@.len() as int) =~= data@);
    }
    acc
}

} // verus!
