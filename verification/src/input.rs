//! Input grab normalisation.
//!
//! Grabs are registered on the root window so they apply globally, and every
//! binding is registered twice: once under its own modifier set and once
//! with the numeric-lock modifier bit added, so that toggling the lock never
//! silently defeats a binding. This module computes the exact list of grab
//! requests to issue.
use vstd::prelude::*;

verus! {

/// The modifier bit the numeric-lock toggle adds to every event's modifier
/// set while it is active.
pub const NUMLOCK_MASK: u16 = 0x10;

/// The pointer events reported to the client while a button grab is active:
/// button press, button release and drag motion.
pub const BUTTON_EVENT_MASK: u16 = 0x4 | 0x8 | 0x2000;

/// A key binding: the modifier set it listens under and the key code.
#[derive(Clone, Copy, Debug, PartialEq, Eq, Structural)]
pub struct KeyCode {
    pub mask: u16,
    pub code: u8,
}

/// A pointer binding: the button and the modifier set it listens under.
#[derive(Clone, Copy, Debug, PartialEq, Eq, Structural)]
pub struct MouseState {
    pub button: u8,
    pub mask: u16,
}

/// One grab request to issue against the root window. Both kinds are
/// asynchronous: neither pointer nor keyboard processing is frozen.
#[derive(Clone, Copy, Debug, PartialEq, Eq, Structural)]
pub enum GrabRequest {
    /// Grab a key under the given modifiers.
    Key { modifiers: u16, code: u8 },
    /// Grab a pointer button under the given modifiers, reporting the given
    /// events.
    Button { event_mask: u16, button: u8, modifiers: u16 },
}

/// The grab requests for a set of key and pointer bindings: every key under
/// its own modifiers, then every key with the numeric-lock bit added, then
/// the pointer bindings in the same two waves. Exactly two requests per
/// binding, none for bindings that were not given.
pub fn grab_requests(keys: &Vec<KeyCode>, mouse: &Vec<MouseState>) -> (r: Vec<GrabRequest>)
    ensures
        r@.len() == 2 * keys@.len() + 2 * mouse@.len(),
        forall|i: int|
            0 <= i < keys@.len() ==> r@[i] == (GrabRequest::Key {
                modifiers: keys@[i].mask,
                code: keys@[i].code,
            }),
        forall|i: int|
            0 <= i < keys@.len() ==> r@[keys@.len() + i] == (GrabRequest::Key {
                modifiers: keys@[i].mask | NUMLOCK_MASK,
                code: keys@[i].code,
            }),
        forall|i: int|
            0 <= i < mouse@.len() ==> r@[2 * keys@.len() + i] == (GrabRequest::Button {
                event_mask: BUTTON_EVENT_MASK,
                button: mouse@[i].button,
                modifiers: mouse@[i].mask,
            }),
        forall|i: int|
            0 <= i < mouse@.len() ==> r@[2 * keys@.len() + mouse@.len() + i]
                == (GrabRequest::Button {
                event_mask: BUTTON_EVENT_MASK,
                button: mouse@[i].button,
                modifiers: mouse@[i].mask | NUMLOCK_MASK,
            }),
{
    let mut r: Vec<GrabRequest> = Vec::new();
    let mut i: usize = 0;
    while i < keys.len()
        invariant
            i <= keys@.len(),
            r@.len() == i,
            forall|k: int|
                0 <= k < i ==> r@[k] == (GrabRequest::Key {
                    modifiers: keys@[k].mask,
                    code: keys@[k].code,
                }),
        decreases keys@.len() - i,
    {
        r.push(GrabRequest::Key { modifiers: keys[i].mask, code: keys[i].code });
        i = i + 1;
    }
    let mut i2: usize = 0;
    while i2 < keys.len()
        invariant
            i2 <= keys@.len(),
            r@.len() == keys@.len() + i2,
            forall|k: int|
                0 <= k < keys@.len() ==> r@[k] == (GrabRequest::Key {
                    modifiers: keys@[k].mask,
                    code: keys@[k].code,
                }),
            forall|k: int|
                0 <= k < i2 ==> r@[keys@.len() + k] == (GrabRequest::Key {
                    modifiers: keys@[k].mask | NUMLOCK_MASK,
                    code: keys@[k].code,
                }),
        decreases keys@.len() - i2,
    {
        r.push(GrabRequest::Key { modifiers: keys[i2].mask | NUMLOCK_MASK, code: keys[i2].code });
        i2 = i2 + 1;
    }
    let mut j: usize = 0;
    while j < mouse.len()
        invariant
            j <= mouse@.len(),
            r@.len() == 2 * keys@.len() + j,
            forall|k: int|
                0 <= k < keys@.len() ==> r@[k] == (GrabRequest::Key {
                    modifiers: keys@[k].mask,
                    code: keys@[k].code,
                }),
            forall|k: int|
                0 <= k < keys@.len() ==> r@[keys@.len() + k] == (GrabRequest::Key {
                    modifiers: keys@[k].mask | NUMLOCK_MASK,
                    code: keys@[k].code,
                }),
            forall|k: int|
                0 <= k < j ==> r@[2 * keys@.len() + k] == (GrabRequest::Button {
                    event_mask: BUTTON_EVENT_MASK,
                    button: mouse@[k].button,
                    modifiers: mouse@[k].mask,
                }),
        decreases mouse@.len() - j,
    {
        r.push(
            GrabRequest::Button {
                event_mask: BUTTON_EVENT_MASK,
                button: mouse[j].button,
                modifiers: mouse[j].mask,
            },
        );
        j = j + 1;
    }
    let mut j2: usize = 0;
    while j2 < mouse.len()
        invariant
            j2 <= mouse@.len(),
            r@.len() == 2 * keys@.len() + mouse@.len() + j2,
            forall|k: int|
                0 <= k < keys@.len() ==> r@[k] == (GrabRequest::Key {
                    modifiers: keys@[k].mask,
                    code: keys@[k].code,
                }),
            forall|k: int|
                0 <= k < keys@.len() ==> r@[keys@.len() + k] == (GrabRequest::Key {
                    modifiers: keys@[k].mask | NUMLOCK_MASK,
                    code: keys@[k].code,
                }),
            forall|k: int|
                0 <= k < mouse@.len() ==> r@[2 * keys@.len() + k] == (GrabRequest::Button {
                    event_mask: BUTTON_EVENT_MASK,
                    button: mouse@[k].button,
                    modifiers: mouse@[k].mask,
                }),
            forall|k: int|
                0 <= k < j2 ==> r@[2 * keys@.len() + mouse@.len() + k] == (GrabRequest::Button {
                    event_mask: BUTTON_EVENT_MASK,
                    button: mouse@[k].button,
                    modifiers: mouse@[k].mask | NUMLOCK_MASK,
                }),
        decreases mouse@.len() - j2,
    {
        r.push(
            GrabRequest::Button {
                event_mask: BUTTON_EVENT_MASK,
                button: mouse[j2].button,
                modifiers: mouse[j2].mask | NUMLOCK_MASK,
            },
        );
        j2 = j2 + 1;
    }
    r
}

} // verus!
