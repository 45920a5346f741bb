//! Subclassing a text field: the field's own window procedure is wrapped so
//! that the keys that move through a form are turned into messages for the
//! parent window, and everything else still reaches the saved procedure.

use vstd::prelude::*;

use crate::message::{CHAR, KEY_DOWN, KEY_UP, USER};

verus! {

/// Virtual-key code of the tab key.
pub const VK_TAB: usize = 0x09;

/// Virtual-key code of the return key.
pub const VK_RETURN: usize = 0x0D;

/// Virtual-key code of the escape key.
pub const VK_ESCAPE: usize = 0x1B;

/// The parent's message for a tab pressed in the field.
pub const NOTIFY_TAB: u32 = USER;

/// The parent's message for escape pressed in the field.
pub const NOTIFY_ESC: u32 = USER + 1;

/// The parent's message for return pressed in the field.
pub const NOTIFY_ENTER: u32 = USER + 2;

/// What the wrapping procedure does with a message of the field.
#[derive(Clone, Copy, Debug, PartialEq, Eq, Structural)]
pub enum SubclassAction {
    /// Send `code`, with the same payload, to the parent window, and return `0`.
    Notify { code: u32 },
    /// Return `0` without passing the message on.
    Swallow,
    /// Pass the message on to the field's saved procedure.
    CallSaved,
}

/// Whether `key` is one of the keys the parent handles.
pub open spec fn is_form_key(key: usize) -> bool {
    key == VK_TAB || key == VK_ESCAPE || key == VK_RETURN
}

/// A key press of a form key notifies the parent; the release and the
/// character of a form key are dropped; all else goes to the saved procedure.
pub open spec fn subclass_action_of(code: u32, wparam: usize) -> SubclassAction {
    if code == KEY_DOWN && wparam == VK_TAB {
        SubclassAction::Notify { code: NOTIFY_TAB }
    } else if code == KEY_DOWN && wparam == VK_ESCAPE {
        SubclassAction::Notify { code: NOTIFY_ESC }
    } else if code == KEY_DOWN && wparam == VK_RETURN {
        SubclassAction::Notify { code: NOTIFY_ENTER }
    } else if (code == KEY_UP || code == CHAR) && is_form_key(wparam) {
        SubclassAction::Swallow
    } else {
        SubclassAction::CallSaved
    }
}

/// Decides what the wrapping procedure does with message `code` carrying `wparam`.
pub fn edit_action(code: u32, wparam: usize) -> (r: SubclassAction)
    ensures
        r == subclass_action_of(code, wparam),
{
    if code == KEY_DOWN {
        if wparam == VK_TAB {
            return SubclassAction::Notify { code: NOTIFY_TAB };
        } else if wparam == VK_ESCAPE {
            return SubclassAction::Notify { code: NOTIFY_ESC };
        } else if wparam == VK_RETURN {
            return SubclassAction::Notify { code: NOTIFY_ENTER };
        }
    } else if code == KEY_UP || code == CHAR {
        if wparam == VK_TAB || wparam == VK_ESCAPE || wparam == VK_RETURN {
            return SubclassAction::Swallow;
        }
    }
    SubclassAction::CallSaved
}

} // verus!
