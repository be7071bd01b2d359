//! Event payloads the core hands to the surrounding shell, and the
//! modifier-key classification behind global key events.

use vstd::prelude::*;
use crate::options::MouseButtonType;

verus! {

/// A global mouse click, carrying which button was pressed.
#[derive(Debug, Clone)]
pub struct MouseClickEvent(pub MouseButtonType);

impl MouseClickEvent {
    pub fn with_payload(payload: MouseButtonType) -> (e: MouseClickEvent)
        ensures
            e.0 == payload,
    {
        MouseClickEvent(payload)
    }
}

/// A modifier key press or release.
#[derive(Debug, Clone)]
pub struct ModKeyPayload {
    pub key: String,
    pub is_pressed: bool,
}

impl ModKeyPayload {
    pub fn new(key: String, is_pressed: bool) -> (p: ModKeyPayload)
        ensures
            p.key == key,
            p.is_pressed == is_pressed,
    {
        ModKeyPayload { key, is_pressed }
    }

    /// A pressed event for the given key.
    pub fn pressed(key: String) -> (p: ModKeyPayload)
        ensures
            p.key == key,
            p.is_pressed,
    {
        ModKeyPayload::new(key, true)
    }

    /// A release event for the given key.
    pub fn released(key: String) -> (p: ModKeyPayload)
        ensures
            p.key == key,
            !p.is_pressed,
    {
        ModKeyPayload::new(key, false)
    }
}

/// A global modifier-key event.
#[derive(Debug, Clone)]
pub struct ModKeyEvent(pub ModKeyPayload);

impl ModKeyEvent {
    pub fn with_payload(payload: ModKeyPayload) -> (e: ModKeyEvent)
        ensures
            e.0 == payload,
    {
        ModKeyEvent(payload)
    }
}

/// Absolute mouse movement.
#[derive(Debug, Clone, Copy)]
pub struct MouseMoveEvent {
    pub x: i32,
    pub y: i32,
}

impl MouseMoveEvent {
    pub fn with_payload(x: i32, y: i32) -> (e: MouseMoveEvent)
        ensures
            e.x == x,
            e.y == y,
    {
        MouseMoveEvent { x, y }
    }
}

/// Progress of the running transcription, as an integer percentage.
#[derive(Debug, Clone, Copy)]
pub struct TranscriptionProgressEvent(pub i32);

impl TranscriptionProgressEvent {
    pub fn with_payload(progress: i32) -> (e: TranscriptionProgressEvent)
        ensures
            e.0 == progress,
    {
        TranscriptionProgressEvent(progress)
    }
}

/// Whether a key name is one of the tracked modifier keys: Command,
/// or a left/right Alt, Control, Meta, Option or Shift.
pub open spec fn spec_is_modkey(key: Seq<char>) -> bool {
    ||| key == "Command"@
    ||| key == "LAlt"@
    ||| key == "LControl"@
    ||| key == "LMeta"@
    ||| key == "LOption"@
    ||| key == "LShift"@
    ||| key == "RAlt"@
    ||| key == "RControl"@
    ||| key == "RMeta"@
    ||| key == "ROption"@
    ||| key == "RShift"@
}

/// Check whether a key name is a tracked modifier key.
pub fn is_modkey(key: &String) -> (b: bool)
    ensures
        b == spec_is_modkey(key@),
{
    let names = [
        "Command",
        "LAlt",
        "LControl",
        "LMeta",
        "LOption",
        "LShift",
        "RAlt",
        "RControl",
        "RMeta",
        "ROption",
        "RShift",
    ];
    let mut i: usize = 0;
    let mut found = false;
    while i < 11
        invariant
            i <= 11,
            names@.len() == 11,
            names@[0]@ == "Command"@ && names@[1]@ == "LAlt"@ && names@[2]@ == "LControl"@,
            names@[3]@ == "LMeta"@ && names@[4]@ == "LOption"@ && names@[5]@ == "LShift"@,
            names@[6]@ == "RAlt"@ && names@[7]@ == "RControl"@ && names@[8]@ == "RMeta"@,
            names@[9]@ == "ROption"@ && names@[10]@ == "RShift"@,
            found <==> exists|j: int| 0 <= j < i && key@ == names@[j]@,
        decreases 11 - i,
    {
        let name_string = String::from_str(names[i]);
        if key.eq(&name_string) {
            found = true;
        }
        i += 1;
    }
    proof {
        if found {
            let j = choose|j: int| 0 <= j < 11 && key@ == names@[j]@;
            assert(spec_is_modkey(key@));
        }
        if spec_is_modkey(key@) {
            if key@ == "Command"@ {
                assert(key@ == names@[0]@);
            } else if key@ == "LAlt"@ {
                assert(key@ == names@[1]@);
            } else if key@ == "LControl"@ {
                assert(key@ == names@[2]@);
            } else if key@ == "LMeta"@ {
                assert(key@ == names@[3]@);
            } else if key@ == "LOption"@ {
                assert(key@ == names@[4]@);
            } else if key@ == "LShift"@ {
                assert(key@ == names@[5]@);
            } else if key@ == "RAlt"@ {
                assert(key@ == names@[6]@);
            } else if key@ == "RControl"@ {
                assert(key@ == names@[7]@);
            } else if key@ == "RMeta"@ {
                assert(key@ == names@[8]@);
            } else if key@ == "ROption"@ {
                assert(key@ == names@[9]@);
            } else {
                assert(key@ == names@[10]@);
            }
        }
    }
    found
}

} // verus!
