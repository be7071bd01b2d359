//! Small host-facing decisions: the paste shortcut's modifier key per
//! operating system, the effective video-memory figure, and the
//! placeholder name for an input device that will not give one.

use vstd::prelude::*;
use crate::transcript::dec_seq;
use vstd::string::StrSliceExecFns;

verus! {

/// The modifier held together with the paste key.
#[derive(Clone, Copy, Debug, PartialEq, Eq, Structural)]
pub enum PasteModifier {
    /// The command key.
    Meta,
    /// The control key.
    Control,
}

/// Which modifier the paste shortcut uses on the named operating
/// system; unknown systems get none and the caller reports an
/// unsupported action.
pub fn paste_modifier_for_os(os: &String) -> (r: Option<PasteModifier>)
    ensures
        os@ == "macos"@ ==> r == Some(PasteModifier::Meta),
        os@ == "windows"@ || os@ == "linux"@ ==> r == Some(PasteModifier::Control),
        os@ != "macos"@ && os@ != "windows"@ && os@ != "linux"@ ==> r is None,
{
    proof {
        reveal_strlit("macos");
        reveal_strlit("windows");
        reveal_strlit("linux");
        assert("macos"@.len() == 5);
        assert("windows"@.len() == 7);
        assert("linux"@.len() == 5);
        assert("macos"@ != "windows"@);
        assert("macos"@ != "linux"@) by {
            assert("macos"@[0] == 'm' && "linux"@[0] == 'l');
        }
        assert("windows"@ != "linux"@);
    }
    if os.eq(&String::from_str("macos")) {
        Some(PasteModifier::Meta)
    } else if os.eq(&String::from_str("windows")) || os.eq(&String::from_str("linux")) {
        Some(PasteModifier::Control)
    } else {
        None
    }
}

/// Whether a GPU model name opens with `Apple` (such GPUs report zero
/// dedicated video memory and use unified memory instead).
pub fn model_is_apple(model: &String) -> (b: bool)
    ensures
        b == (model@.len() >= 5 && model@.subrange(0, 5) == "Apple"@),
{
    let s = model.as_str();
    proof {
        reveal_strlit("Apple");
    }
    if s.unicode_len() < 5 {
        proof {
            assert(!(model@.len() >= 5));
        }
        false
    } else {
        let b = s.get_char(0) == 'A' && s.get_char(1) == 'p' && s.get_char(2) == 'p'
            && s.get_char(3) == 'l' && s.get_char(4) == 'e';
        proof {
            if b {
                assert(model@.subrange(0, 5) =~= "Apple"@);
            } else {
                assert(model@.subrange(0, 5)[0] == model@[0]);
                assert(model@.subrange(0, 5)[1] == model@[1]);
                assert(model@.subrange(0, 5)[2] == model@[2]);
                assert(model@.subrange(0, 5)[3] == model@[3]);
                assert(model@.subrange(0, 5)[4] == model@[4]);
            }
        }
        b
    }
}

/// The video-memory figure reported to the user: a GPU that reports
/// zero bytes but is an Apple unified-memory part counts the system
/// memory; anything else stands as reported.
pub fn effective_vram_bytes(reported: u64, is_apple_unified: bool, total_memory: u64) -> (r: u64)
    ensures
        reported == 0 && is_apple_unified ==> r == total_memory,
        !(reported == 0 && is_apple_unified) ==> r == reported,
{
    if reported == 0 && is_apple_unified {
        total_memory
    } else {
        reported
    }
}

/// The placeholder name shown for input device `index` when the
/// device will not give its own name (numbered from 1).
pub fn placeholder_device_name(index: u64) -> (r: String)
    requires
        index < u64::MAX,
    ensures
        r@ == "Unknown Input Device #"@ + dec_seq(index as int + 1),
{
    let mut out = String::from_str("Unknown Input Device #");
    let n = crate::transcript::render_u64(index + 1);
    out.append(n.as_str());
    out
}

} // verus!
