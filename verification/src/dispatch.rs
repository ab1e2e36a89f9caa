//! From what the user does outside the document to messages for the session.

use crate::session::{Message, MessageView};
use vstd::prelude::*;

verus! {

/// The key is the one of the save shortcut, in either case.
pub open spec fn is_save_key(key: char) -> bool {
    key == 's' || key == 'S'
}

/// The message of a key press outside the document: the save shortcut, which
/// is the command modifier with the key S, asks to save; no other key asks
/// for anything.
pub fn on_key_press(key: char, command_held: bool) -> (message: Option<Message>)
    ensures
        message is Some <==> command_held && is_save_key(key),
        message matches Some(m) ==> m@ == MessageView::Save,
{
    if command_held && (key == 's' || key == 'S') {
        Some(Message::Save)
    } else {
        None
    }
}

} // verus!
