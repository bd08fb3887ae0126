//! Window creation planning and attribute decoding.
//!
//! Three window kinds are supported: a lightweight check window, an
//! input-only window with no rendering surface, and a normal input+output
//! window carrying an application window-type atom. Planning a creation
//! decides the window class, which auxiliary attributes are set, whether a
//! dedicated colormap is allocated, and whether the window is tagged with
//! its type atom and mapped afterwards.
use vstd::prelude::*;
use crate::atom::Atom;

verus! {

/// The events an input+output window reports: exposure and structure
/// changes.
pub const WIN_EVENT_MASK: u32 = 0x8000 | 0x20000;

/// The kind of window to create.
#[derive(Clone, Copy, Debug, PartialEq, Eq, Structural)]
pub enum WinType {
    /// A lightweight check/utility window.
    CheckWin,
    /// A window that takes input but has no rendering surface.
    InputOnly,
    /// A normal window carrying the given application window-type atom.
    InputOutput(Atom),
}

/// The window class requested at creation.
#[derive(Clone, Copy, Debug, PartialEq, Eq, Structural)]
pub enum WindowClass {
    CopyFromParent,
    InputOutput,
    InputOnly,
}

/// How a window is currently mapped.
#[derive(Clone, Copy, Debug, PartialEq, Eq, Structural)]
pub enum MapState {
    Unmapped,
    UnViewable,
    Viewable,
}

/// The attributes reported for one window.
#[derive(Clone, Copy, Debug, PartialEq, Eq, Structural)]
pub struct WindowAttributes {
    pub override_redirect: bool,
    pub map_state: MapState,
    pub window_class: WindowClass,
}

impl WindowAttributes {
    /// Bundle the reported attributes.
    pub fn new(override_redirect: bool, map_state: MapState, window_class: WindowClass) -> (r:
        WindowAttributes)
        ensures
            r.override_redirect == override_redirect,
            r.map_state == map_state,
            r.window_class == window_class,
    {
        WindowAttributes { override_redirect, map_state, window_class }
    }
}

/// Everything one window creation decides before any request is issued.
#[derive(Clone, Copy, Debug, PartialEq, Eq, Structural)]
pub struct WindowPlan {
    /// The window class to create with.
    pub class: WindowClass,
    /// Whether a dedicated colormap is allocated against the root visual
    /// first.
    pub needs_colormap: bool,
    /// The event mask to set, if any.
    pub event_mask: Option<u32>,
    /// Whether the background pixel is set to none.
    pub background_none: bool,
    /// Whether the border pixel is set to the screen's black pixel.
    pub black_border: bool,
    /// Whether override-redirect is set so the window manager leaves the
    /// window's placement alone.
    pub override_redirect: bool,
    /// The window-type atom to tag the window with; a window tagged here is
    /// mapped immediately afterwards, an untagged one is not.
    pub type_atom: Option<Atom>,
}

/// The plan a window kind and managedness decide.
pub open spec fn window_plan_spec(ty: WinType, managed: bool) -> WindowPlan {
    match ty {
        WinType::CheckWin => WindowPlan {
            class: WindowClass::InputOutput,
            needs_colormap: false,
            event_mask: None,
            background_none: false,
            black_border: false,
            override_redirect: !managed,
            type_atom: None,
        },
        WinType::InputOnly => WindowPlan {
            class: WindowClass::InputOnly,
            needs_colormap: false,
            event_mask: None,
            background_none: false,
            black_border: false,
            override_redirect: !managed,
            type_atom: None,
        },
        WinType::InputOutput(a) => WindowPlan {
            class: WindowClass::InputOutput,
            needs_colormap: true,
            event_mask: Some(WIN_EVENT_MASK),
            background_none: true,
            black_border: true,
            override_redirect: !managed,
            type_atom: Some(a),
        },
    }
}

/// Decide one window creation: the class, the auxiliary attributes, whether
/// a colormap is allocated, and whether the window is tagged with its type
/// atom and mapped. Unmanaged windows get override-redirect so the window
/// manager leaves them alone; input-only windows are neither tagged nor
/// mapped.
pub fn plan_window(ty: WinType, managed: bool) -> (r: WindowPlan)
    ensures
        r == window_plan_spec(ty, managed),
{
    match ty {
        WinType::CheckWin => WindowPlan {
            class: WindowClass::InputOutput,
            needs_colormap: false,
            event_mask: None,
            background_none: false,
            black_border: false,
            override_redirect: !managed,
            type_atom: None,
        },
        WinType::InputOnly => WindowPlan {
            class: WindowClass::InputOnly,
            needs_colormap: false,
            event_mask: None,
            background_none: false,
            black_border: false,
            override_redirect: !managed,
            type_atom: None,
        },
        WinType::InputOutput(a) => WindowPlan {
            class: WindowClass::InputOutput,
            needs_colormap: true,
            event_mask: Some(WIN_EVENT_MASK),
            background_none: true,
            black_border: true,
            override_redirect: !managed,
            type_atom: Some(a),
        },
    }
}

/// Decode the map state a window-attributes reply reports.
pub fn decode_map_state(v: u8) -> (r: Option<MapState>)
    ensures
        v == 0 ==> r == Some(MapState::Unmapped),
        v == 1 ==> r == Some(MapState::UnViewable),
        v == 2 ==> r == Some(MapState::Viewable),
        v > 2 ==> r is None,
{
    if v == 0 {
        Some(MapState::Unmapped)
    } else if v == 1 {
        Some(MapState::UnViewable)
    } else if v == 2 {
        Some(MapState::Viewable)
    } else {
        None
    }
}

/// Decode the window class a window-attributes reply reports.
pub fn decode_window_class(v: u16) -> (r: Option<WindowClass>)
    ensures
        v == 0 ==> r == Some(WindowClass::CopyFromParent),
        v == 1 ==> r == Some(WindowClass::InputOutput),
        v == 2 ==> r == Some(WindowClass::InputOnly),
        v > 2 ==> r is None,
{
    if v == 0 {
        Some(WindowClass::CopyFromParent)
    } else if v == 1 {
        Some(WindowClass::InputOutput)
    } else if v == 2 {
        Some(WindowClass::InputOnly)
    } else {
        None
    }
}

/// Decode a full window-attributes reply; nothing when the server reports a
/// map state or class outside the protocol's range, which the caller treats
/// as a defect.
pub fn decode_window_attributes(override_redirect: bool, map_state: u8, class: u16) -> (r: Option<
    WindowAttributes,
>)
    ensures
        r is Some <==> (map_state <= 2 && class <= 2),
        r matches Some(a) ==> a.override_redirect == override_redirect && Some(a.map_state)
            == decode_map_state_spec(map_state) && Some(a.window_class) == decode_window_class_spec(
            class,
        ),
{
    match (decode_map_state(map_state), decode_window_class(class)) {
        (Some(ms), Some(wc)) => Some(WindowAttributes::new(override_redirect, ms, wc)),
        _ => None,
    }
}

/// The map state a reply value stands for.
pub open spec fn decode_map_state_spec(v: u8) -> Option<MapState> {
    if v == 0 {
        Some(MapState::Unmapped)
    } else if v == 1 {
        Some(MapState::UnViewable)
    } else if v == 2 {
        Some(MapState::Viewable)
    } else {
        None
    }
}

/// The window class a reply value stands for.
pub open spec fn decode_window_class_spec(v: u16) -> Option<WindowClass> {
    if v == 0 {
        Some(WindowClass::CopyFromParent)
    } else if v == 1 {
        Some(WindowClass::InputOutput)
    } else if v == 2 {
        Some(WindowClass::InputOnly)
    } else {
        None
    }
}

} // verus!
