use xadapter::atom::{Atom, ATOM_COUNT};
use xadapter::atoms::Atoms;
use xadapter::config::{
    resolve_attrs, resolve_configs, AttrChanges, ClientAttr, ClientConfig, StackMode,
    CLIENT_EVENT_MASK, CLIENT_UNMAP_MASK, ROOT_EVENT_MASK,
};
use xadapter::error::Error;
use xadapter::geometry::Rect;
use xadapter::input::{grab_requests, GrabRequest, KeyCode, MouseState, BUTTON_EVENT_MASK};
use xadapter::message::{
    build_client_message, event_mask_value, ClientEventMask, ClientMessage, ClientMessageData,
};
use xadapter::screen::{check_randr_present, check_randr_version, i16_as_u32, screen_rects, CrtcInfo};
use xadapter::win::{
    decode_window_attributes, plan_window, MapState, WinType, WindowClass, WIN_EVENT_MASK,
};
use xadapter::Xid;

fn wave() -> Vec<u32> {
    (1..=ATOM_COUNT as u32).collect()
}

#[test]
fn atom_cache_is_stable_and_nonzero() {
    let atoms = Atoms::new(wave()).unwrap();
    for a in Atom::all() {
        let first = atoms.known_atom(a);
        let second = atoms.known_atom(a);
        assert_ne!(first, 0);
        assert_eq!(first, second);
    }
}

#[test]
fn atom_cache_follows_interning_order() {
    let atoms = Atoms::new(wave()).unwrap();
    assert_eq!(atoms.known_atom(Atom::Manager), 1);
    assert_eq!(atoms.known_atom(Atom::XEmbedInfo), ATOM_COUNT as u32);
}

#[test]
fn atom_cache_rejects_bad_waves() {
    assert_eq!(Atoms::new(vec![1, 2, 3]), Err(Error::InvalidAtomReplies));
    let mut zero = wave();
    zero[5] = 0;
    assert!(Atoms::new(zero).is_err());
    let mut dup = wave();
    dup[4] = dup[9];
    assert!(Atoms::new(dup).is_err());
}

#[test]
fn atom_cache_reverse_lookup() {
    let atoms = Atoms::new(wave()).unwrap();
    assert_eq!(atoms.atom_name(1), Some(Atom::Manager));
    assert_eq!(atoms.atom_name(9999), None);
    for a in Atom::all() {
        assert_eq!(atoms.atom_name(atoms.known_atom(a)), Some(a));
    }
}

#[test]
fn atom_names_round_trip_through_lookup() {
    for a in Atom::all() {
        assert_eq!(Atom::from_name(a.as_str()), Some(a));
    }
    assert_eq!(Atom::from_name("WM_CLASS"), Some(Atom::WmClass));
    assert_eq!(Atom::from_name("NO_SUCH_NAME"), None);
}

#[test]
fn screen_rects_exclude_zero_width() {
    let infos = vec![
        CrtcInfo { x: 0, y: 0, width: 0, height: 768 },
        CrtcInfo { x: 10, y: 20, width: 300, height: 400 },
        CrtcInfo { x: 1920, y: 0, width: 1080, height: 1920 },
    ];
    let rects = screen_rects(&infos);
    assert_eq!(
        rects,
        vec![Rect { x: 10, y: 20, w: 300, h: 400 }, Rect { x: 1920, y: 0, w: 1080, h: 1920 }]
    );
}

#[test]
fn screen_rects_keep_enumeration_order() {
    let infos = vec![
        CrtcInfo { x: 5, y: 6, width: 7, height: 8 },
        CrtcInfo { x: 1, y: 2, width: 3, height: 4 },
    ];
    let rects = screen_rects(&infos);
    assert_eq!(rects[0], Rect { x: 5, y: 6, w: 7, h: 8 });
    assert_eq!(rects[1], Rect { x: 1, y: 2, w: 3, h: 4 });
}

#[test]
fn negative_coordinates_wrap_like_a_cast() {
    assert_eq!(i16_as_u32(-1), u32::MAX);
    assert_eq!(i16_as_u32(-1), -1i16 as u32);
    assert_eq!(i16_as_u32(42), 42);
}

#[test]
fn version_below_required_is_mismatch_error_naming_both() {
    let r = check_randr_version(1, 1);
    assert_eq!(
        r,
        Err(Error::RandrVersion {
            required_major: 1,
            required_minor: 2,
            detected_major: 1,
            detected_minor: 1,
        })
    );
}

#[test]
fn version_at_or_above_minimum_is_accepted() {
    assert!(check_randr_version(1, 2).is_ok());
    assert!(check_randr_version(1, 3).is_ok());
    assert!(check_randr_version(2, 0).is_ok());
    assert!(check_randr_version(0, 2).is_err());
    assert!(check_randr_version(0, 9).is_err());
}

#[test]
fn missing_extension_is_capability_error() {
    assert!(check_randr_present(true).is_ok());
    assert_eq!(check_randr_present(false), Err(Error::MissingRandr));
}

#[test]
fn grab_two_keys_no_mouse_issues_four_key_grabs() {
    let k1 = KeyCode { mask: 0x40, code: 10 };
    let k2 = KeyCode { mask: 0x40, code: 11 };
    let grabs = grab_requests(&vec![k1, k2], &vec![]);
    assert_eq!(grabs.len(), 4);
    assert_eq!(grabs[0], GrabRequest::Key { modifiers: 0x40, code: 10 });
    assert_eq!(grabs[1], GrabRequest::Key { modifiers: 0x40, code: 11 });
    assert_eq!(grabs[2], GrabRequest::Key { modifiers: 0x40 | 0x10, code: 10 });
    assert_eq!(grabs[3], GrabRequest::Key { modifiers: 0x40 | 0x10, code: 11 });
    assert!(grabs.iter().all(|g| matches!(g, GrabRequest::Key { .. })));
}

#[test]
fn grab_mouse_states_get_two_variants_each() {
    let m = MouseState { button: 1, mask: 0x8 };
    let grabs = grab_requests(&vec![], &vec![m]);
    assert_eq!(grabs.len(), 2);
    assert_eq!(
        grabs[0],
        GrabRequest::Button { event_mask: BUTTON_EVENT_MASK, button: 1, modifiers: 0x8 }
    );
    assert_eq!(
        grabs[1],
        GrabRequest::Button { event_mask: BUTTON_EVENT_MASK, button: 1, modifiers: 0x8 | 0x10 }
    );
    assert_eq!(BUTTON_EVENT_MASK, 0x200C);
}

#[test]
fn attr_fold_aggregates_all_changes() {
    let r = resolve_attrs(&[ClientAttr::BorderColor(0xFF0000), ClientAttr::ClientEventMask]);
    assert_eq!(
        r,
        AttrChanges { border_pixel: Some(0xFF0000), event_mask: Some(CLIENT_EVENT_MASK) }
    );
}

#[test]
fn attr_fold_later_change_wins() {
    let r = resolve_attrs(&[ClientAttr::ClientEventMask, ClientAttr::ClientUnmapMask]);
    assert_eq!(r.event_mask, Some(CLIENT_UNMAP_MASK));
    assert_eq!(r.border_pixel, None);
}

#[test]
fn attr_fold_neutral_on_empty() {
    let r = resolve_attrs(&[]);
    assert_eq!(r, AttrChanges { border_pixel: None, event_mask: None });
}

#[test]
fn event_mask_constants_match_the_protocol() {
    assert_eq!(CLIENT_EVENT_MASK, 0x420030);
    assert_eq!(CLIENT_UNMAP_MASK, 0x400030);
    assert_eq!(ROOT_EVENT_MASK, 0x582000);
    assert_eq!(WIN_EVENT_MASK, 0x28000);
}

#[test]
fn config_fold_position_and_stacking() {
    let r = resolve_configs(&[
        ClientConfig::BorderPx(2),
        ClientConfig::Position(Rect { x: 1, y: 2, w: 30, h: 40 }),
        ClientConfig::StackBelow(Xid(77)),
    ]);
    assert_eq!(r.border_width, Some(2));
    assert_eq!(r.x, Some(1));
    assert_eq!(r.y, Some(2));
    assert_eq!(r.w, Some(30));
    assert_eq!(r.h, Some(40));
    assert_eq!(r.sibling, Some(Xid(77)));
    assert_eq!(r.stack_mode, Some(StackMode::Below));
}

#[test]
fn config_fold_later_position_wins() {
    let r = resolve_configs(&[
        ClientConfig::Position(Rect { x: 1, y: 1, w: 1, h: 1 }),
        ClientConfig::Position(Rect { x: 9, y: 9, w: 9, h: 9 }),
        ClientConfig::StackTop,
    ]);
    assert_eq!(r.x, Some(9));
    assert_eq!(r.stack_mode, Some(StackMode::Above));
    assert_eq!(r.sibling, None);
}

#[test]
fn window_plan_for_input_output() {
    let plan = plan_window(WinType::InputOutput(Atom::NetWindowTypeDialog), false);
    assert_eq!(plan.class, WindowClass::InputOutput);
    assert!(plan.needs_colormap);
    assert_eq!(plan.event_mask, Some(WIN_EVENT_MASK));
    assert!(plan.background_none);
    assert!(plan.black_border);
    assert!(plan.override_redirect);
    assert_eq!(plan.type_atom, Some(Atom::NetWindowTypeDialog));
}

#[test]
fn window_plan_for_check_and_input_only() {
    let check = plan_window(WinType::CheckWin, true);
    assert_eq!(check.class, WindowClass::InputOutput);
    assert!(!check.needs_colormap);
    assert_eq!(check.type_atom, None);
    assert!(!check.override_redirect);
    let input = plan_window(WinType::InputOnly, true);
    assert_eq!(input.class, WindowClass::InputOnly);
    assert_eq!(input.event_mask, None);
    assert_eq!(input.type_atom, None);
}

#[test]
fn window_attributes_decode() {
    let a = decode_window_attributes(true, 2, 1).unwrap();
    assert!(a.override_redirect);
    assert_eq!(a.map_state, MapState::Viewable);
    assert_eq!(a.window_class, WindowClass::InputOutput);
    assert!(decode_window_attributes(false, 3, 1).is_none());
    assert!(decode_window_attributes(false, 0, 9).is_none());
}

#[test]
fn client_message_wire_header() {
    let msg = ClientMessage {
        id: Xid(123),
        dtype: "WM_PROTOCOLS".to_string(),
        mask: ClientEventMask::SubstructureNotify,
        data: ClientMessageData::U32(vec![1, 2, 3, 4, 5]),
    };
    assert!(msg.data.is_well_formed());
    let wire = build_client_message(&msg, 99);
    assert_eq!(wire.window, 123);
    assert_eq!(wire.type_atom, 99);
    assert_eq!(wire.format, 32);
    assert_eq!(wire.mask_value, 0x80000);
}

#[test]
fn client_message_mask_values() {
    assert_eq!(event_mask_value(ClientEventMask::NoEventMask), 0);
    assert_eq!(event_mask_value(ClientEventMask::StructureNotify), 0x20000);
    assert_eq!(event_mask_value(ClientEventMask::SubstructureNotify), 0x80000);
}

#[test]
fn client_message_payload_lengths() {
    assert!(ClientMessageData::U8(vec![0; 20]).is_well_formed());
    assert!(!ClientMessageData::U8(vec![0; 19]).is_well_formed());
    assert!(ClientMessageData::U16(vec![0; 10]).is_well_formed());
    assert!(!ClientMessageData::U16(vec![0; 11]).is_well_formed());
    assert!(ClientMessageData::U32(vec![0; 5]).is_well_formed());
    assert!(!ClientMessageData::U32(vec![0; 4]).is_well_formed());
}
