//! Type-directed decode and encode of window properties.
//!
//! A property reply is self-describing: it names a type atom and a bit-width
//! (8, 16 or 32). The pair selects exactly one variant of the closed
//! [`Prop`] taxonomy. An unrecognised type atom degrades to the raw-bytes
//! variant rather than failing; only an invalid claimed bit-width abandons
//! the read. Encoding maps the writable variants back to the wire request
//! that stores them.
use vstd::prelude::*;
use crate::atom::Atom;
use crate::atoms::Atoms;
use crate::error::Error;
use crate::strutil::{
    bytes_to_string_list, decoded_strings, encode_string_list, segments_valid, str_eq,
    string_list_to_bytes,
};
use crate::wire::{bytes_of_words32, words16_of, words32_from_bytes, words16_from_bytes, words32_of};
use crate::Xid;

verus! {

/// The predefined type atom for atom lists.
pub const XA_ATOM: u32 = 4;

/// The predefined type atom for integer ("cardinal") lists.
pub const XA_CARDINAL: u32 = 6;

/// The predefined type atom for window lists.
pub const XA_WINDOW: u32 = 33;

/// The client's preference for being managed, from the hints property: nine
/// 32-bit words read field by field.
#[derive(Clone, Copy, Debug, PartialEq, Eq, Structural)]
pub struct WmHints {
    pub flags: u32,
    pub input: u32,
    pub initial_state: u32,
    pub icon_pixmap: u32,
    pub icon_window: u32,
    pub icon_x: u32,
    pub icon_y: u32,
    pub icon_mask: u32,
    pub window_group: u32,
}

/// The size-hints property: eighteen 32-bit words, of which four are the
/// obsolete geometry block that is carried but not interpreted.
#[derive(Clone, Copy, Debug, PartialEq, Eq, Structural)]
pub struct WmNormalHints {
    pub flags: u32,
    pub min_width: u32,
    pub min_height: u32,
    pub max_width: u32,
    pub max_height: u32,
    pub width_inc: u32,
    pub height_inc: u32,
    pub min_aspect_num: u32,
    pub min_aspect_den: u32,
    pub max_aspect_num: u32,
    pub max_aspect_den: u32,
    pub base_width: u32,
    pub base_height: u32,
    pub win_gravity: u32,
}

/// The number of 32-bit words in a hints property.
pub const WM_HINTS_WORDS: usize = 9;

/// The number of 32-bit words in a size-hints property.
pub const WM_NORMAL_HINTS_WORDS: usize = 18;

/// The hints carried by nine words.
pub open spec fn wm_hints_of_words(w: Seq<u32>) -> WmHints {
    WmHints {
        flags: w[0],
        input: w[1],
        initial_state: w[2],
        icon_pixmap: w[3],
        icon_window: w[4],
        icon_x: w[5],
        icon_y: w[6],
        icon_mask: w[7],
        window_group: w[8],
    }
}

/// The size hints carried by eighteen words (words 1 to 4 are the obsolete
/// geometry block).
pub open spec fn wm_normal_hints_of_words(w: Seq<u32>) -> WmNormalHints {
    WmNormalHints {
        flags: w[0],
        min_width: w[5],
        min_height: w[6],
        max_width: w[7],
        max_height: w[8],
        width_inc: w[9],
        height_inc: w[10],
        min_aspect_num: w[11],
        min_aspect_den: w[12],
        max_aspect_num: w[13],
        max_aspect_den: w[14],
        base_width: w[15],
        base_height: w[16],
        win_gravity: w[17],
    }
}

impl WmHints {
    /// Read the hints out of their words; nothing unless exactly nine words
    /// were supplied.
    pub fn try_from_words(w: &Vec<u32>) -> (r: Option<WmHints>)
        ensures
            r is Some <==> w@.len() == WM_HINTS_WORDS,
            r matches Some(h) ==> h == wm_hints_of_words(w@),
    {
        if w.len() != WM_HINTS_WORDS {
            return None;
        }
        Some(
            WmHints {
                flags: w[0],
                input: w[1],
                initial_state: w[2],
                icon_pixmap: w[3],
                icon_window: w[4],
                icon_x: w[5],
                icon_y: w[6],
                icon_mask: w[7],
                window_group: w[8],
            },
        )
    }
}

impl WmNormalHints {
    /// Read the size hints out of their words; nothing unless exactly
    /// eighteen words were supplied.
    pub fn try_from_words(w: &Vec<u32>) -> (r: Option<WmNormalHints>)
        ensures
            r is Some <==> w@.len() == WM_NORMAL_HINTS_WORDS,
            r matches Some(h) ==> h == wm_normal_hints_of_words(w@),
    {
        if w.len() != WM_NORMAL_HINTS_WORDS {
            return None;
        }
        Some(
            WmNormalHints {
                flags: w[0],
                min_width: w[5],
                min_height: w[6],
                max_width: w[7],
                max_height: w[8],
                width_inc: w[9],
                height_inc: w[10],
                min_aspect_num: w[11],
                min_aspect_den: w[12],
                max_aspect_num: w[13],
                max_aspect_den: w[14],
                base_width: w[15],
                base_height: w[16],
                win_gravity: w[17],
            },
        )
    }
}

/// The closed taxonomy of typed property values.
#[derive(Clone, Debug, PartialEq, Eq)]
pub enum Prop {
    /// A list of atoms, by name.
    Atom(Vec<String>),
    /// Raw data of an unrecognised type, widened to 32-bit values.
    Bytes(Vec<u32>),
    /// A list of 32-bit integers.
    Cardinal(Vec<u32>),
    /// A list of UTF8 strings.
    UTF8String(Vec<String>),
    /// A list of window identifiers.
    Window(Vec<Xid>),
    /// Client hints.
    WmHints(WmHints),
    /// Client size hints.
    WmNormalHints(WmNormalHints),
}

/// What a property reply decodes to.
#[derive(Clone, Debug, PartialEq, Eq)]
pub enum PropDecoded {
    /// The reply's claimed bit-width was not 8, 16 or 32: the read is
    /// abandoned and the property treated as absent.
    Missing,
    /// An atom list; the identifiers still need resolving to names before
    /// they can stand in [`Prop::Atom`].
    AtomIds(Vec<u32>),
    /// A fully decoded value.
    Value(Prop),
}

/// 8-bit payload elements widened to 32-bit values.
pub open spec fn widen8(b: Seq<u8>) -> Seq<u32> {
    b.map_values(|x: u8| x as u32)
}

/// 16-bit payload elements widened to 32-bit values.
pub open spec fn widen16(b: Seq<u8>) -> Seq<u32> {
    words16_of(b).map_values(|x: u16| x as u32)
}

/// Whether a result is the data-validity error naming this window, property
/// and claimed type.
pub open spec fn invalid_data_err(
    r: Result<PropDecoded, Error>,
    id: Xid,
    prop: Seq<char>,
    ty: Seq<char>,
) -> bool {
    match r {
        Err(Error::InvalidPropertyData { id: i2, prop: p, ty: t }) => i2 == id && p@ == prop && t@
            == ty,
        _ => false,
    }
}

/// Decode a property reply against the type taxonomy.
///
/// The reply's resolved type name and claimed bit-width select the variant:
/// atom, cardinal and window lists and both hint blocks must be 32-bit,
/// strings 8-bit; a mismatch is the data-validity error naming the window,
/// property and type. A type outside the taxonomy degrades to the raw-bytes
/// variant for any valid bit-width and is otherwise abandoned as absent.
#[verifier::rlimit(50)]
pub fn decode_prop(id: Xid, prop: &str, ty: &str, format: u8, value: &[u8]) -> (r: Result<
    PropDecoded,
    Error,
>)
    ensures
        ty@ == "ATOM"@ ==> {
            if format == 32 {
                r matches Ok(PropDecoded::AtomIds(v)) && v@ == words32_of(value@)
            } else {
                invalid_data_err(r, id, prop@, ty@)
            }
        },
        ty@ == "CARDINAL"@ ==> {
            if format == 32 {
                r matches Ok(PropDecoded::Value(Prop::Cardinal(v))) && v@ == words32_of(value@)
            } else {
                invalid_data_err(r, id, prop@, ty@)
            }
        },
        ty@ == "WINDOW"@ ==> {
            if format == 32 {
                r matches Ok(PropDecoded::Value(Prop::Window(v))) && v@.map_values(
                    |x: Xid| x.0,
                ) == words32_of(value@)
            } else {
                invalid_data_err(r, id, prop@, ty@)
            }
        },
        ty@ == "STRING"@ || ty@ == "UTF8_STRING"@ ==> {
            if format == 8 {
                if segments_valid(value@) {
                    r matches Ok(PropDecoded::Value(Prop::UTF8String(v))) && v@.map_values(
                        |s: String| s@,
                    ) == decoded_strings(value@)
                } else {
                    r == Err::<PropDecoded, Error>(Error::InvalidUtf8)
                }
            } else {
                invalid_data_err(r, id, prop@, ty@)
            }
        },
        ty@ == "WM_HINTS"@ ==> {
            if format == 32 && words32_of(value@).len() == WM_HINTS_WORDS {
                r matches Ok(PropDecoded::Value(Prop::WmHints(h))) && h == wm_hints_of_words(
                    words32_of(value@),
                )
            } else {
                invalid_data_err(r, id, prop@, ty@)
            }
        },
        ty@ == "WM_SIZE_HINTS"@ ==> {
            if format == 32 && words32_of(value@).len() == WM_NORMAL_HINTS_WORDS {
                r matches Ok(PropDecoded::Value(Prop::WmNormalHints(h))) && h
                    == wm_normal_hints_of_words(words32_of(value@))
            } else {
                invalid_data_err(r, id, prop@, ty@)
            }
        },
        ty@ != "ATOM"@ && ty@ != "CARDINAL"@ && ty@ != "WINDOW"@ && ty@ != "STRING"@ && ty@
            != "UTF8_STRING"@ && ty@ != "WM_HINTS"@ && ty@ != "WM_SIZE_HINTS"@ ==> {
            if format == 8 {
                r matches Ok(PropDecoded::Value(Prop::Bytes(v))) && v@ == widen8(value@)
            } else if format == 16 {
                r matches Ok(PropDecoded::Value(Prop::Bytes(v))) && v@ == widen16(value@)
            } else if format == 32 {
                r matches Ok(PropDecoded::Value(Prop::Bytes(v))) && v@ == words32_of(value@)
            } else {
                r == Ok::<PropDecoded, Error>(PropDecoded::Missing)
            }
        },
{
    proof {
        reveal_strlit("ATOM");
        reveal_strlit("CARDINAL");
        reveal_strlit("WINDOW");
        reveal_strlit("STRING");
        reveal_strlit("UTF8_STRING");
        reveal_strlit("WM_HINTS");
        reveal_strlit("WM_SIZE_HINTS");
        assert("ATOM"@.len() == 4);
        assert("CARDINAL"@.len() == 8);
        assert("WINDOW"@.len() == 6);
        assert("STRING"@.len() == 6);
        assert("UTF8_STRING"@.len() == 11);
        assert("WM_HINTS"@.len() == 8);
        assert("WM_SIZE_HINTS"@.len() == 13);
        assert("WINDOW"@[0] == 'W' && "STRING"@[0] == 'S');
        assert("CARDINAL"@[0] == 'C' && "WM_HINTS"@[0] == 'W');
    }
    if str_eq(ty, "ATOM") {
        if format != 32 {
            return Err(invalid_property_data(id, prop, ty));
        }
        Ok(PropDecoded::AtomIds(words32_from_bytes(value)))
    } else if str_eq(ty, "CARDINAL") {
        if format != 32 {
            return Err(invalid_property_data(id, prop, ty));
        }
        Ok(PropDecoded::Value(Prop::Cardinal(words32_from_bytes(value))))
    } else if str_eq(ty, "WINDOW") {
        if format != 32 {
            return Err(invalid_property_data(id, prop, ty));
        }
        let words = words32_from_bytes(value);
        let mut wins: Vec<Xid> = Vec::new();
        let mut i: usize = 0;
        while i < words.len()
            invariant
                i <= words@.len(),
                wins@.len() == i,
                forall|k: int| 0 <= k < i ==> wins@[k].0 == words@[k],
            decreases words@.len() - i,
        {
            wins.push(Xid(words[i]));
            i = i + 1;
        }
        proof {
            assert(wins@.map_values(|x: Xid| x.0) =~= words@);
        }
        Ok(PropDecoded::Value(Prop::Window(wins)))
    } else if str_eq(ty, "STRING") || str_eq(ty, "UTF8_STRING") {
        if format != 8 {
            return Err(invalid_property_data(id, prop, ty));
        }
        match bytes_to_string_list(value) {
            Some(strs) => Ok(PropDecoded::Value(Prop::UTF8String(strs))),
            None => Err(Error::InvalidUtf8),
        }
    } else if str_eq(ty, "WM_HINTS") {
        if format != 32 {
            return Err(invalid_property_data(id, prop, ty));
        }
        let words = words32_from_bytes(value);
        match WmHints::try_from_words(&words) {
            Some(h) => Ok(PropDecoded::Value(Prop::WmHints(h))),
            None => Err(invalid_property_data(id, prop, ty)),
        }
    } else if str_eq(ty, "WM_SIZE_HINTS") {
        if format != 32 {
            return Err(invalid_property_data(id, prop, ty));
        }
        let words = words32_from_bytes(value);
        match WmNormalHints::try_from_words(&words) {
            Some(h) => Ok(PropDecoded::Value(Prop::WmNormalHints(h))),
            None => Err(invalid_property_data(id, prop, ty)),
        }
    } else {
        if format == 8 {
            let mut out: Vec<u32> = Vec::new();
            let mut i: usize = 0;
            while i < value.len()
                invariant
                    i <= value@.len(),
                    out@.len() == i,
                    forall|k: int| 0 <= k < i ==> out@[k] == value@[k] as u32,
                decreases value@.len() - i,
            {
                out.push(value[i] as u32);
                i = i + 1;
            }
            proof {
                assert(out@ =~= widen8(value@));
            }
            Ok(PropDecoded::Value(Prop::Bytes(out)))
        } else if format == 16 {
            let words = words16_from_bytes(value);
            let mut out: Vec<u32> = Vec::new();
            let mut i: usize = 0;
            while i < words.len()
                invariant
                    i <= words@.len(),
                    out@.len() == i,
                    words@ == words16_of(value@),
                    forall|k: int| 0 <= k < i ==> out@[k] == words@[k] as u32,
                decreases words@.len() - i,
            {
                out.push(words[i] as u32);
                i = i + 1;
            }
            proof {
                assert(out@ =~= widen16(value@));
            }
            Ok(PropDecoded::Value(Prop::Bytes(out)))
        } else if format == 32 {
            Ok(PropDecoded::Value(Prop::Bytes(words32_from_bytes(value))))
        } else {
            Ok(PropDecoded::Missing)
        }
    }
}

/// An element-wise copy of a 32-bit word list.
fn copy_words(w: &Vec<u32>) -> (r: Vec<u32>)
    ensures
        r@ == w@,
{
    let mut r: Vec<u32> = Vec::new();
    let mut i: usize = 0;
    while i < w.len()
        invariant
            i <= w@.len(),
            r@ =~= w@.take(i as int),
        decreases w@.len() - i,
    {
        r.push(w[i]);
        i = i + 1;
    }
    proof {
        assert(w@.take(w@.len() as int) =~= w@);
    }
    r
}

/// The data-validity error for one read: it names the window, the property
/// and the claimed type.
fn invalid_property_data(id: Xid, prop: &str, ty: &str) -> (r: Error)
    ensures
        r matches Error::InvalidPropertyData { id: i2, prop: p, ty: t } && i2 == id && p@ == prop@
            && t@ == ty@,
{
    Error::InvalidPropertyData { id, prop: prop.to_owned(), ty: ty.to_owned() }
}

/// The aggregated write request a property value encodes to.
#[derive(Clone, Debug, PartialEq, Eq)]
pub enum PropertyWrite {
    /// Stored with 8-bit elements.
    Bytes8 { type_atom: u32, data: Vec<u8> },
    /// Stored with 32-bit elements.
    Words32 { type_atom: u32, data: Vec<u32> },
}

/// Whether a property variant can be written back through the plain
/// property path. Raw bytes and the two hint blocks cannot: structural
/// hints require a dedicated merge protocol this layer does not implement,
/// so writing them is a programming error, not a runtime condition.
pub open spec fn writable(p: Prop) -> bool {
    match p {
        Prop::Atom(_) => true,
        Prop::Cardinal(_) => true,
        Prop::UTF8String(_) => true,
        Prop::Window(_) => true,
        Prop::Bytes(_) => false,
        Prop::WmHints(_) => false,
        Prop::WmNormalHints(_) => false,
    }
}

/// Encode a writable property value as its wire request.
///
/// String lists become the NUL-joined UTF8 payload under the cache's
/// interned UTF8 string type atom; atom lists are written as the
/// identifiers their names were interned to (`atom_ids`, one per name,
/// resolved by the caller); integer and window lists become 32-bit element
/// arrays under their predefined type atoms.
pub fn encode_prop(atoms: &Atoms, val: &Prop, atom_ids: &Vec<u32>) -> (r: PropertyWrite)
    requires
        writable(*val),
        val matches Prop::Atom(names) ==> atom_ids@.len() == names@.len(),
    ensures
        val matches Prop::UTF8String(strs) ==> r matches PropertyWrite::Bytes8 {
            type_atom,
            data,
        } && type_atom == atoms.id_of(Atom::Utf8String) && data@ == encode_string_list(
            strs@.map_values(|s: String| s@),
        ),
        val matches Prop::Atom(names) ==> r matches PropertyWrite::Words32 { type_atom, data }
            && type_atom == XA_ATOM && data@ == atom_ids@,
        val matches Prop::Cardinal(vals) ==> r matches PropertyWrite::Words32 { type_atom, data }
            && type_atom == XA_CARDINAL && data@ == vals@,
        val matches Prop::Window(ids) ==> r matches PropertyWrite::Words32 { type_atom, data }
            && type_atom == XA_WINDOW && data@ == ids@.map_values(|x: Xid| x.0),
{
    match val {
        Prop::UTF8String(strs) => PropertyWrite::Bytes8 {
            type_atom: atoms.known_atom(Atom::Utf8String),
            data: string_list_to_bytes(strs),
        },
        Prop::Atom(_) => PropertyWrite::Words32 {
            type_atom: XA_ATOM,
            data: copy_words(atom_ids),
        },
        Prop::Cardinal(vals) => PropertyWrite::Words32 {
            type_atom: XA_CARDINAL,
            data: copy_words(vals),
        },
        Prop::Window(ids) => {
            let mut data: Vec<u32> = Vec::new();
            let mut i: usize = 0;
            while i < ids.len()
                invariant
                    i <= ids@.len(),
                    data@.len() == i,
                    forall|k: int| 0 <= k < i ==> data@[k] == ids@[k].0,
                decreases ids@.len() - i,
            {
                data.push(ids[i].0);
                i = i + 1;
            }
            proof {
                assert(data@ =~= ids@.map_values(|x: Xid| x.0));
            }
            PropertyWrite::Words32 { type_atom: XA_WINDOW, data }
        },
        // the remaining variants are not writable, which the precondition
        // rules out; the arms only satisfy exhaustiveness
        Prop::Bytes(_) => PropertyWrite::Words32 { type_atom: 0, data: Vec::new() },
        Prop::WmHints(_) => PropertyWrite::Words32 { type_atom: 0, data: Vec::new() },
        Prop::WmNormalHints(_) => PropertyWrite::Words32 { type_atom: 0, data: Vec::new() },
    }
}

/// The three-valued client state written under the state property.
#[derive(Clone, Copy, Debug, PartialEq, Eq, Structural)]
pub enum WmState {
    Withdrawn,
    Normal,
    Iconic,
}

/// The wire value of a client state.
pub open spec fn wm_state_value_spec(s: WmState) -> u32 {
    match s {
        WmState::Withdrawn => 0,
        WmState::Normal => 1,
        WmState::Iconic => 3,
    }
}

/// The single 32-bit value a client state is written as.
pub fn wm_state_value(s: WmState) -> (r: u32)
    ensures
        r == wm_state_value_spec(s),
{
    match s {
        WmState::Withdrawn => 0,
        WmState::Normal => 1,
        WmState::Iconic => 3,
    }
}

/// Round trip: an integer-list property of any length, encoded as the byte
/// payload of its 32-bit words, decodes back to the identical ordered list.
pub proof fn lemma_cardinal_round_trip(vals: Seq<u32>)
    ensures
        words32_of(bytes_of_words32(vals)) == vals,
{
    crate::wire::lemma_words32_round_trip(vals);
}

} // verus!
