//! The global shortcut that summons the toolbar window: its default, the
//! toolbar window's fixed identity and physical size, and the
//! normalisation applied to a caller-supplied shortcut before it is
//! registered.  Registration itself is window-framework plumbing and
//! happens in the driver.

use vstd::prelude::*;
use crate::text::{chars_of, spec_trim, trim};

verus! {

/// The shortcut registered when the caller never chose one.
pub const DEFAULT_TOOLBAR_SHORTCUT: &'static str = "CmdOrCtrl+Shift+/";

/// The label under which the toolbar window is created and looked up.
pub const TOOLBAR_WINDOW_LABEL: &'static str = "Toolbar";

/// Fixed physical pixel size of the toolbar window on Windows, where
/// logical sizes vary with each monitor's scale factor.
pub const TOOLBAR_PHYSICAL_WIDTH: u32 = 702;

/// Fixed physical pixel height of the toolbar window on Windows.
pub const TOOLBAR_PHYSICAL_HEIGHT: u32 = 460;

/// A caller-supplied shortcut, normalised: whitespace trimmed away, and a
/// missing or blank entry meaning that no shortcut is to be registered.
pub open spec fn spec_normalize_shortcut(input: Option<Seq<char>>) -> Option<Seq<char>> {
    match input {
        None => None,
        Some(s) => if spec_trim(s).len() == 0 {
            None
        } else {
            Some(spec_trim(s))
        },
    }
}

/// Normalise a caller-supplied shortcut.
pub fn normalize_shortcut(input: Option<&str>) -> (r: Option<Vec<char>>)
    ensures
        match (r, spec_normalize_shortcut(match input {
            Some(s) => Some(s@),
            None => None,
        })) {
            (Some(v), Some(s)) => v@ == s,
            (None, None) => true,
            _ => false,
        },
{
    match input {
        None => None,
        Some(s) => {
            let t = trim(&chars_of(s));
            if t.len() == 0 {
                None
            } else {
                Some(t)
            }
        },
    }
}

} // verus!
