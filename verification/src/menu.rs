//! Which menu items are passed on to the interface, and under what name.

use vstd::prelude::*;
use vstd::string::StringExecFns;
use crate::text::same_text;

verus! {

/// Whether a menu item with the identifier `id` is passed on.
pub open spec fn is_forwarded_item(id: Seq<char>) -> bool {
    ||| id == "about"@
    ||| id == "check-updates"@
    ||| id == "preferences"@
    ||| id == "toggle-left-sidebar"@
    ||| id == "toggle-right-sidebar"@
}

/// The event published for the menu item `id`: the identifier behind
/// `menu-` for an item that is passed on, nothing for any other.
pub open spec fn menu_event_of(id: Seq<char>) -> Option<Seq<char>> {
    if is_forwarded_item(id) {
        Some("menu-"@ + id)
    } else {
        None
    }
}

/// Name of the event to publish when the menu item `id` is chosen, if the
/// item is one that is passed on.
pub fn menu_event_name(id: &str) -> (r: Option<String>)
    ensures
        match r {
            Some(name) => menu_event_of(id@) == Some(name@),
            None => menu_event_of(id@) is None,
        },
{
    if same_text(id, "about") || same_text(id, "check-updates") || same_text(id, "preferences")
        || same_text(id, "toggle-left-sidebar") || same_text(id, "toggle-right-sidebar") {
        let mut name = String::from_str("menu-");
        name.append(id);
        Some(name)
    } else {
        None
    }
}

} // verus!
