//! The closed vocabulary of well-known property and message names.
//!
//! Each name in this set is interned once at connection setup; afterwards the
//! cache answers name/identifier lookups in both directions without further
//! round trips.
use vstd::prelude::*;
use crate::strutil::str_eq;

verus! {

/// How many well-known names there are.
pub const ATOM_COUNT: usize = 34;

/// A well-known symbolic name from the X11 property/message vocabulary.
#[derive(Clone, Copy, Debug, PartialEq, Eq, Structural, Hash)]
pub enum Atom {
    Manager,
    Utf8String,
    WmClass,
    WmDeleteWindow,
    WmProtocols,
    WmState,
    WmName,
    WmNormalHints,
    WmHints,
    WmTransientFor,
    WmTakeFocus,
    NetActiveWindow,
    NetClientList,
    NetClientListStacking,
    NetCurrentDesktop,
    NetDesktopNames,
    NetNumberOfDesktops,
    NetSupported,
    NetSupportingWmCheck,
    NetSystemTrayOpcode,
    NetSystemTrayOrientation,
    NetSystemTrayOrientationHorz,
    NetSystemTrayS0,
    NetWmDesktop,
    NetWmName,
    NetWmState,
    NetWmStateDemandsAttention,
    NetWmStateFullscreen,
    NetWmWindowType,
    NetWindowTypeDialog,
    NetWindowTypeDock,
    NetWindowTypeNormal,
    XEmbed,
    XEmbedInfo,
}

/// The protocol-level spelling of a well-known name.
pub open spec fn atom_name_chars(a: Atom) -> Seq<char> {
    match a {
        Atom::Manager => "MANAGER"@,
        Atom::Utf8String => "UTF8_STRING"@,
        Atom::WmClass => "WM_CLASS"@,
        Atom::WmDeleteWindow => "WM_DELETE_WINDOW"@,
        Atom::WmProtocols => "WM_PROTOCOLS"@,
        Atom::WmState => "WM_STATE"@,
        Atom::WmName => "WM_NAME"@,
        Atom::WmNormalHints => "WM_NORMAL_HINTS"@,
        Atom::WmHints => "WM_HINTS"@,
        Atom::WmTransientFor => "WM_TRANSIENT_FOR"@,
        Atom::WmTakeFocus => "WM_TAKE_FOCUS"@,
        Atom::NetActiveWindow => "_NET_ACTIVE_WINDOW"@,
        Atom::NetClientList => "_NET_CLIENT_LIST"@,
        Atom::NetClientListStacking => "_NET_CLIENT_LIST_STACKING"@,
        Atom::NetCurrentDesktop => "_NET_CURRENT_DESKTOP"@,
        Atom::NetDesktopNames => "_NET_DESKTOP_NAMES"@,
        Atom::NetNumberOfDesktops => "_NET_NUMBER_OF_DESKTOPS"@,
        Atom::NetSupported => "_NET_SUPPORTED"@,
        Atom::NetSupportingWmCheck => "_NET_SUPPORTING_WM_CHECK"@,
        Atom::NetSystemTrayOpcode => "_NET_SYSTEM_TRAY_OPCODE"@,
        Atom::NetSystemTrayOrientation => "_NET_SYSTEM_TRAY_ORIENTATION"@,
        Atom::NetSystemTrayOrientationHorz => "_NET_SYSTEM_TRAY_ORIENTATION_HORZ"@,
        Atom::NetSystemTrayS0 => "_NET_SYSTEM_TRAY_S0"@,
        Atom::NetWmDesktop => "_NET_WM_DESKTOP"@,
        Atom::NetWmName => "_NET_WM_NAME"@,
        Atom::NetWmState => "_NET_WM_STATE"@,
        Atom::NetWmStateDemandsAttention => "_NET_WM_STATE_DEMANDS_ATTENTION"@,
        Atom::NetWmStateFullscreen => "_NET_WM_STATE_FULLSCREEN"@,
        Atom::NetWmWindowType => "_NET_WM_WINDOW_TYPE"@,
        Atom::NetWindowTypeDialog => "_NET_WM_WINDOW_TYPE_DIALOG"@,
        Atom::NetWindowTypeDock => "_NET_WM_WINDOW_TYPE_DOCK"@,
        Atom::NetWindowTypeNormal => "_NET_WM_WINDOW_TYPE_NORMAL"@,
        Atom::XEmbed => "_XEMBED"@,
        Atom::XEmbedInfo => "_XEMBED_INFO"@,
    }
}

/// The position of a well-known name in the fixed interning order.
pub open spec fn atom_index(a: Atom) -> int {
    match a {
        Atom::Manager => 0,
        Atom::Utf8String => 1,
        Atom::WmClass => 2,
        Atom::WmDeleteWindow => 3,
        Atom::WmProtocols => 4,
        Atom::WmState => 5,
        Atom::WmName => 6,
        Atom::WmNormalHints => 7,
        Atom::WmHints => 8,
        Atom::WmTransientFor => 9,
        Atom::WmTakeFocus => 10,
        Atom::NetActiveWindow => 11,
        Atom::NetClientList => 12,
        Atom::NetClientListStacking => 13,
        Atom::NetCurrentDesktop => 14,
        Atom::NetDesktopNames => 15,
        Atom::NetNumberOfDesktops => 16,
        Atom::NetSupported => 17,
        Atom::NetSupportingWmCheck => 18,
        Atom::NetSystemTrayOpcode => 19,
        Atom::NetSystemTrayOrientation => 20,
        Atom::NetSystemTrayOrientationHorz => 21,
        Atom::NetSystemTrayS0 => 22,
        Atom::NetWmDesktop => 23,
        Atom::NetWmName => 24,
        Atom::NetWmState => 25,
        Atom::NetWmStateDemandsAttention => 26,
        Atom::NetWmStateFullscreen => 27,
        Atom::NetWmWindowType => 28,
        Atom::NetWindowTypeDialog => 29,
        Atom::NetWindowTypeDock => 30,
        Atom::NetWindowTypeNormal => 31,
        Atom::XEmbed => 32,
        Atom::XEmbedInfo => 33,
    }
}

impl Atom {
    /// The protocol-level spelling of this name.
    pub fn as_str(&self) -> (r: &'static str)
        ensures
            r@ == atom_name_chars(*self),
    {
        match self {
            Atom::Manager => "MANAGER",
            Atom::Utf8String => "UTF8_STRING",
            Atom::WmClass => "WM_CLASS",
            Atom::WmDeleteWindow => "WM_DELETE_WINDOW",
            Atom::WmProtocols => "WM_PROTOCOLS",
            Atom::WmState => "WM_STATE",
            Atom::WmName => "WM_NAME",
            Atom::WmNormalHints => "WM_NORMAL_HINTS",
            Atom::WmHints => "WM_HINTS",
            Atom::WmTransientFor => "WM_TRANSIENT_FOR",
            Atom::WmTakeFocus => "WM_TAKE_FOCUS",
            Atom::NetActiveWindow => "_NET_ACTIVE_WINDOW",
            Atom::NetClientList => "_NET_CLIENT_LIST",
            Atom::NetClientListStacking => "_NET_CLIENT_LIST_STACKING",
            Atom::NetCurrentDesktop => "_NET_CURRENT_DESKTOP",
            Atom::NetDesktopNames => "_NET_DESKTOP_NAMES",
            Atom::NetNumberOfDesktops => "_NET_NUMBER_OF_DESKTOPS",
            Atom::NetSupported => "_NET_SUPPORTED",
            Atom::NetSupportingWmCheck => "_NET_SUPPORTING_WM_CHECK",
            Atom::NetSystemTrayOpcode => "_NET_SYSTEM_TRAY_OPCODE",
            Atom::NetSystemTrayOrientation => "_NET_SYSTEM_TRAY_ORIENTATION",
            Atom::NetSystemTrayOrientationHorz => "_NET_SYSTEM_TRAY_ORIENTATION_HORZ",
            Atom::NetSystemTrayS0 => "_NET_SYSTEM_TRAY_S0",
            Atom::NetWmDesktop => "_NET_WM_DESKTOP",
            Atom::NetWmName => "_NET_WM_NAME",
            Atom::NetWmState => "_NET_WM_STATE",
            Atom::NetWmStateDemandsAttention => "_NET_WM_STATE_DEMANDS_ATTENTION",
            Atom::NetWmStateFullscreen => "_NET_WM_STATE_FULLSCREEN",
            Atom::NetWmWindowType => "_NET_WM_WINDOW_TYPE",
            Atom::NetWindowTypeDialog => "_NET_WM_WINDOW_TYPE_DIALOG",
            Atom::NetWindowTypeDock => "_NET_WM_WINDOW_TYPE_DOCK",
            Atom::NetWindowTypeNormal => "_NET_WM_WINDOW_TYPE_NORMAL",
            Atom::XEmbed => "_XEMBED",
            Atom::XEmbedInfo => "_XEMBED_INFO",
        }
    }

    /// The position of this name in the fixed interning order.
    pub fn index(&self) -> (r: usize)
        ensures
            r == atom_index(*self),
            r < ATOM_COUNT,
    {
        match self {
            Atom::Manager => 0,
            Atom::Utf8String => 1,
            Atom::WmClass => 2,
            Atom::WmDeleteWindow => 3,
            Atom::WmProtocols => 4,
            Atom::WmState => 5,
            Atom::WmName => 6,
            Atom::WmNormalHints => 7,
            Atom::WmHints => 8,
            Atom::WmTransientFor => 9,
            Atom::WmTakeFocus => 10,
            Atom::NetActiveWindow => 11,
            Atom::NetClientList => 12,
            Atom::NetClientListStacking => 13,
            Atom::NetCurrentDesktop => 14,
            Atom::NetDesktopNames => 15,
            Atom::NetNumberOfDesktops => 16,
            Atom::NetSupported => 17,
            Atom::NetSupportingWmCheck => 18,
            Atom::NetSystemTrayOpcode => 19,
            Atom::NetSystemTrayOrientation => 20,
            Atom::NetSystemTrayOrientationHorz => 21,
            Atom::NetSystemTrayS0 => 22,
            Atom::NetWmDesktop => 23,
            Atom::NetWmName => 24,
            Atom::NetWmState => 25,
            Atom::NetWmStateDemandsAttention => 26,
            Atom::NetWmStateFullscreen => 27,
            Atom::NetWmWindowType => 28,
            Atom::NetWindowTypeDialog => 29,
            Atom::NetWindowTypeDock => 30,
            Atom::NetWindowTypeNormal => 31,
            Atom::XEmbed => 32,
            Atom::XEmbedInfo => 33,
        }
    }

    /// The well-known name at a position of the interning order.
    pub fn from_index(i: usize) -> (r: Atom)
        requires
            i < ATOM_COUNT,
        ensures
            atom_index(r) == i,
    {
        if i == 0 {
            Atom::Manager
        } else if i == 1 {
            Atom::Utf8String
        } else if i == 2 {
            Atom::WmClass
        } else if i == 3 {
            Atom::WmDeleteWindow
        } else if i == 4 {
            Atom::WmProtocols
        } else if i == 5 {
            Atom::WmState
        } else if i == 6 {
            Atom::WmName
        } else if i == 7 {
            Atom::WmNormalHints
        } else if i == 8 {
            Atom::WmHints
        } else if i == 9 {
            Atom::WmTransientFor
        } else if i == 10 {
            Atom::WmTakeFocus
        } else if i == 11 {
            Atom::NetActiveWindow
        } else if i == 12 {
            Atom::NetClientList
        } else if i == 13 {
            Atom::NetClientListStacking
        } else if i == 14 {
            Atom::NetCurrentDesktop
        } else if i == 15 {
            Atom::NetDesktopNames
        } else if i == 16 {
            Atom::NetNumberOfDesktops
        } else if i == 17 {
            Atom::NetSupported
        } else if i == 18 {
            Atom::NetSupportingWmCheck
        } else if i == 19 {
            Atom::NetSystemTrayOpcode
        } else if i == 20 {
            Atom::NetSystemTrayOrientation
        } else if i == 21 {
            Atom::NetSystemTrayOrientationHorz
        } else if i == 22 {
            Atom::NetSystemTrayS0
        } else if i == 23 {
            Atom::NetWmDesktop
        } else if i == 24 {
            Atom::NetWmName
        } else if i == 25 {
            Atom::NetWmState
        } else if i == 26 {
            Atom::NetWmStateDemandsAttention
        } else if i == 27 {
            Atom::NetWmStateFullscreen
        } else if i == 28 {
            Atom::NetWmWindowType
        } else if i == 29 {
            Atom::NetWindowTypeDialog
        } else if i == 30 {
            Atom::NetWindowTypeDock
        } else if i == 31 {
            Atom::NetWindowTypeNormal
        } else if i == 32 {
            Atom::XEmbed
        } else {
            Atom::XEmbedInfo
        }
    }

    /// Every well-known name, in interning order.
    pub fn all() -> (r: Vec<Atom>)
        ensures
            r@.len() == ATOM_COUNT,
            forall|i: int| 0 <= i < r@.len() ==> atom_index(#[trigger] r@[i]) == i,
    {
        let mut r: Vec<Atom> = Vec::new();
        let mut i: usize = 0;
        while i < ATOM_COUNT
            invariant
                i <= ATOM_COUNT,
                r@.len() == i,
                forall|k: int| 0 <= k < r@.len() ==> atom_index(#[trigger] r@[k]) == k,
            decreases ATOM_COUNT - i,
        {
            r.push(Atom::from_index(i));
            i = i + 1;
        }
        r
    }

    /// Look a spelling up in the well-known vocabulary.
    pub fn from_name(name: &str) -> (r: Option<Atom>)
        ensures
            r matches Some(a) ==> atom_name_chars(a) == name@,
            r is None ==> forall|a: Atom| atom_name_chars(a) != name@,
    {
        let mut i: usize = 0;
        while i < ATOM_COUNT
            invariant
                i <= ATOM_COUNT,
                forall|k: int|
                    0 <= k < i ==> atom_name_chars(#[trigger] Atom::from_index_spec(k)) != name@,
            decreases ATOM_COUNT - i,
        {
            let a = Atom::from_index(i);
            if str_eq(a.as_str(), name) {
                return Some(a);
            }
            proof {
                assert(Atom::from_index_spec(i as int) == a) by {
                    lemma_from_index_spec(i as int, a);
                }
            }
            i = i + 1;
        }
        proof {
            assert forall|a: Atom| atom_name_chars(a) != name@ by {
                assert(Atom::from_index_spec(atom_index(a)) == a);
            }
        }
        None
    }

    /// The name standing at a position of the interning order, as a spec
    /// value.
    pub open spec fn from_index_spec(i: int) -> Atom {
        if i == 0 {
            Atom::Manager
        } else if i == 1 {
            Atom::Utf8String
        } else if i == 2 {
            Atom::WmClass
        } else if i == 3 {
            Atom::WmDeleteWindow
        } else if i == 4 {
            Atom::WmProtocols
        } else if i == 5 {
            Atom::WmState
        } else if i == 6 {
            Atom::WmName
        } else if i == 7 {
            Atom::WmNormalHints
        } else if i == 8 {
            Atom::WmHints
        } else if i == 9 {
            Atom::WmTransientFor
        } else if i == 10 {
            Atom::WmTakeFocus
        } else if i == 11 {
            Atom::NetActiveWindow
        } else if i == 12 {
            Atom::NetClientList
        } else if i == 13 {
            Atom::NetClientListStacking
        } else if i == 14 {
            Atom::NetCurrentDesktop
        } else if i == 15 {
            Atom::NetDesktopNames
        } else if i == 16 {
            Atom::NetNumberOfDesktops
        } else if i == 17 {
            Atom::NetSupported
        } else if i == 18 {
            Atom::NetSupportingWmCheck
        } else if i == 19 {
            Atom::NetSystemTrayOpcode
        } else if i == 20 {
            Atom::NetSystemTrayOrientation
        } else if i == 21 {
            Atom::NetSystemTrayOrientationHorz
        } else if i == 22 {
            Atom::NetSystemTrayS0
        } else if i == 23 {
            Atom::NetWmDesktop
        } else if i == 24 {
            Atom::NetWmName
        } else if i == 25 {
            Atom::NetWmState
        } else if i == 26 {
            Atom::NetWmStateDemandsAttention
        } else if i == 27 {
            Atom::NetWmStateFullscreen
        } else if i == 28 {
            Atom::NetWmWindowType
        } else if i == 29 {
            Atom::NetWindowTypeDialog
        } else if i == 30 {
            Atom::NetWindowTypeDock
        } else if i == 31 {
            Atom::NetWindowTypeNormal
        } else if i == 32 {
            Atom::XEmbed
        } else {
            Atom::XEmbedInfo
        }
    }
}

/// `from_index` and `atom_index` are inverse over the vocabulary.
proof fn lemma_from_index_spec(i: int, a: Atom)
    requires
        0 <= i < ATOM_COUNT,
        atom_index(a) == i,
    ensures
        Atom::from_index_spec(i) == a,
{
}

} // verus!
