use xadapter::atom::{Atom, ATOM_COUNT};
use xadapter::atoms::Atoms;
use xadapter::error::Error;
use xadapter::property::{
    decode_prop, encode_prop, wm_state_value, Prop, PropDecoded, PropertyWrite, WmHints,
    WmNormalHints, WmState,
};
use xadapter::strutil::{bytes_to_string_list, string_list_to_bytes};
use xadapter::wire::{words16_from_bytes, words32_from_bytes, words32_to_bytes};
use xadapter::Xid;

fn s(v: &str) -> String {
    v.to_string()
}

fn cache() -> Atoms {
    Atoms::new((1..=ATOM_COUNT as u32).collect()).unwrap()
}

#[test]
fn words32_chunking_is_little_endian() {
    let bytes = vec![0x78, 0x56, 0x34, 0x12, 0xff, 0x00, 0x00, 0x00];
    assert_eq!(words32_from_bytes(&bytes), vec![0x12345678, 0xff]);
}

#[test]
fn words32_drops_trailing_remainder() {
    let bytes = vec![1, 0, 0, 0, 9, 9];
    assert_eq!(words32_from_bytes(&bytes), vec![1]);
}

#[test]
fn words16_chunking_is_little_endian() {
    let bytes = vec![1, 0, 0, 1];
    assert_eq!(words16_from_bytes(&bytes), vec![1, 256]);
}

#[test]
fn cardinal_round_trip_is_identity() {
    let vals: Vec<u32> = vec![1, 2, 3, 0xDEADBEEF];
    let bytes = words32_to_bytes(&vals);
    let r = decode_prop(Xid(7), "_NET_WM_DESKTOP", "CARDINAL", 32, &bytes).unwrap();
    assert_eq!(r, PropDecoded::Value(Prop::Cardinal(vals)));
}

#[test]
fn cardinal_round_trip_empty_list() {
    let vals: Vec<u32> = vec![];
    let bytes = words32_to_bytes(&vals);
    let r = decode_prop(Xid(7), "P", "CARDINAL", 32, &bytes).unwrap();
    assert_eq!(r, PropDecoded::Value(Prop::Cardinal(vec![])));
}

#[test]
fn string_list_round_trip() {
    let strs = vec![s("a"), s("bc")];
    let bytes = string_list_to_bytes(&strs);
    assert_eq!(bytes, b"a\0bc".to_vec());
    let r = decode_prop(Xid(1), "WM_CLASS", "UTF8_STRING", 8, &bytes).unwrap();
    assert_eq!(r, PropDecoded::Value(Prop::UTF8String(vec![s("a"), s("bc")])));
}

#[test]
fn string_decode_trims_nul_padding() {
    let r = decode_prop(Xid(1), "WM_NAME", "STRING", 8, b"\0abc\0").unwrap();
    assert_eq!(r, PropDecoded::Value(Prop::UTF8String(vec![s("abc")])));
}

#[test]
fn string_decode_empty_payload_is_one_empty_string() {
    let r = decode_prop(Xid(1), "WM_NAME", "STRING", 8, b"").unwrap();
    assert_eq!(r, PropDecoded::Value(Prop::UTF8String(vec![s("")])));
}

#[test]
fn string_decode_multibyte_utf8() {
    let r = decode_prop(Xid(1), "WM_NAME", "UTF8_STRING", 8, &[0xC3, 0xA9]).unwrap();
    assert_eq!(r, PropDecoded::Value(Prop::UTF8String(vec![s("\u{e9}")])));
}

#[test]
fn string_decode_invalid_utf8_is_encoding_error() {
    let r = decode_prop(Xid(1), "WM_NAME", "UTF8_STRING", 8, &[0x61, 0x00, 0xFF]);
    assert_eq!(r, Err(Error::InvalidUtf8));
}

#[test]
fn string_decode_wrong_format_is_data_error() {
    let r = decode_prop(Xid(9), "WM_NAME", "STRING", 32, &[0, 0, 0, 0]);
    match r {
        Err(Error::InvalidPropertyData { id, prop, ty }) => {
            assert_eq!(id, Xid(9));
            assert_eq!(prop, s("WM_NAME"));
            assert_eq!(ty, s("STRING"));
        }
        other => panic!("expected data-validity error, got {other:?}"),
    }
}

#[test]
fn atom_decode_yields_unresolved_ids() {
    let bytes = words32_to_bytes(&vec![40, 41]);
    let r = decode_prop(Xid(2), "WM_PROTOCOLS", "ATOM", 32, &bytes).unwrap();
    assert_eq!(r, PropDecoded::AtomIds(vec![40, 41]));
}

#[test]
fn atom_decode_wrong_format_is_data_error() {
    let r = decode_prop(Xid(2), "WM_PROTOCOLS", "ATOM", 8, &[1]);
    assert!(matches!(r, Err(Error::InvalidPropertyData { .. })));
}

#[test]
fn cardinal_decode_wrong_format_is_data_error() {
    let r = decode_prop(Xid(2), "_NET_WM_DESKTOP", "CARDINAL", 16, &[1, 0]);
    assert!(matches!(r, Err(Error::InvalidPropertyData { .. })));
}

#[test]
fn window_decode_yields_xids() {
    let bytes = words32_to_bytes(&vec![100, 200]);
    let r = decode_prop(Xid(3), "_NET_CLIENT_LIST", "WINDOW", 32, &bytes).unwrap();
    assert_eq!(r, PropDecoded::Value(Prop::Window(vec![Xid(100), Xid(200)])));
}

#[test]
fn unknown_type_format8_is_byte_blob() {
    let r = decode_prop(Xid(4), "SOMETHING", "MYSTERY_TYPE", 8, &[1, 2, 255]).unwrap();
    assert_eq!(r, PropDecoded::Value(Prop::Bytes(vec![1, 2, 255])));
}

#[test]
fn unknown_type_format16_widens_words() {
    let r = decode_prop(Xid(4), "SOMETHING", "MYSTERY_TYPE", 16, &[1, 0, 0, 1]).unwrap();
    assert_eq!(r, PropDecoded::Value(Prop::Bytes(vec![1, 256])));
}

#[test]
fn unknown_type_format32_keeps_words() {
    let bytes = words32_to_bytes(&vec![5, 6]);
    let r = decode_prop(Xid(4), "SOMETHING", "MYSTERY_TYPE", 32, &bytes).unwrap();
    assert_eq!(r, PropDecoded::Value(Prop::Bytes(vec![5, 6])));
}

#[test]
fn unknown_type_invalid_format_is_absent() {
    let r = decode_prop(Xid(4), "SOMETHING", "MYSTERY_TYPE", 7, &[1, 2]).unwrap();
    assert_eq!(r, PropDecoded::Missing);
}

#[test]
fn wm_hints_decode_reads_nine_words() {
    let words: Vec<u32> = (1..=9).collect();
    let bytes = words32_to_bytes(&words);
    let r = decode_prop(Xid(5), "WM_HINTS", "WM_HINTS", 32, &bytes).unwrap();
    match r {
        PropDecoded::Value(Prop::WmHints(h)) => {
            assert_eq!(h.flags, 1);
            assert_eq!(h.input, 2);
            assert_eq!(h.initial_state, 3);
            assert_eq!(h.window_group, 9);
        }
        other => panic!("expected hints, got {other:?}"),
    }
}

#[test]
fn wm_hints_decode_wrong_length_is_data_error() {
    let bytes = words32_to_bytes(&vec![1, 2, 3]);
    let r = decode_prop(Xid(5), "WM_HINTS", "WM_HINTS", 32, &bytes);
    assert!(matches!(r, Err(Error::InvalidPropertyData { .. })));
}

#[test]
fn wm_size_hints_decode_reads_eighteen_words() {
    let words: Vec<u32> = (0..18).collect();
    let bytes = words32_to_bytes(&words);
    let r = decode_prop(Xid(5), "WM_NORMAL_HINTS", "WM_SIZE_HINTS", 32, &bytes).unwrap();
    match r {
        PropDecoded::Value(Prop::WmNormalHints(h)) => {
            assert_eq!(h.flags, 0);
            assert_eq!(h.min_width, 5);
            assert_eq!(h.min_height, 6);
            assert_eq!(h.win_gravity, 17);
        }
        other => panic!("expected size hints, got {other:?}"),
    }
}

#[test]
fn try_from_words_length_checks() {
    assert!(WmHints::try_from_words(&(1..=9).collect()).is_some());
    assert!(WmHints::try_from_words(&(1..=8).collect()).is_none());
    assert!(WmNormalHints::try_from_words(&(0..18).collect()).is_some());
    assert!(WmNormalHints::try_from_words(&(0..19).collect()).is_none());
}

#[test]
fn encode_utf8_string_is_nul_joined_under_utf8_type() {
    let atoms = cache();
    let val = Prop::UTF8String(vec![s("a"), s("bc")]);
    let r = encode_prop(&atoms, &val, &vec![]);
    let utf8_type = atoms.known_atom(Atom::Utf8String);
    assert_eq!(r, PropertyWrite::Bytes8 { type_atom: utf8_type, data: b"a\0bc".to_vec() });
}

#[test]
fn encode_cardinal_is_word_array() {
    let val = Prop::Cardinal(vec![3, 4]);
    let r = encode_prop(&cache(), &val, &vec![]);
    assert_eq!(r, PropertyWrite::Words32 { type_atom: 6, data: vec![3, 4] });
}

#[test]
fn encode_window_is_word_array() {
    let val = Prop::Window(vec![Xid(8), Xid(9)]);
    let r = encode_prop(&cache(), &val, &vec![]);
    assert_eq!(r, PropertyWrite::Words32 { type_atom: 33, data: vec![8, 9] });
}

#[test]
fn encode_atoms_uses_resolved_ids() {
    let val = Prop::Atom(vec![s("WM_CLASS"), s("WM_NAME")]);
    let r = encode_prop(&cache(), &val, &vec![70, 71]);
    assert_eq!(r, PropertyWrite::Words32 { type_atom: 4, data: vec![70, 71] });
}

#[test]
fn nul_split_decode_direct() {
    assert_eq!(bytes_to_string_list(b"a\0bc"), Some(vec![s("a"), s("bc")]));
    assert_eq!(bytes_to_string_list(&[0xFF]), None);
    assert_eq!(bytes_to_string_list(b"\0\0x\0"), Some(vec![s("x")]));
}

#[test]
fn wm_state_wire_values() {
    assert_eq!(wm_state_value(WmState::Withdrawn), 0);
    assert_eq!(wm_state_value(WmState::Normal), 1);
    assert_eq!(wm_state_value(WmState::Iconic), 3);
}
