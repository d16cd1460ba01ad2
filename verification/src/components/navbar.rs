//! The navigation bar: the path field and the back button.
use vstd::prelude::*;
use crate::paths::{parent, path_parent};

verus! {

/// What the navigation bar asks of the browser.
#[derive(Debug, Clone)]
pub enum NavBarEvent {
    Navigate(String),
}

/// Enter in the path field navigates to the text typed.
pub fn path_entered(text: String) -> (e: NavBarEvent)
    ensures
        e matches NavBarEvent::Navigate(p) && p == text,
{
    NavBarEvent::Navigate(text)
}

/// The back button navigates to the parent of the directory shown, when it
/// has one.
pub fn back_pressed(directory: &str) -> (e: Option<NavBarEvent>)
    ensures
        match path_parent(directory@) {
            Some(up) => (e matches Some(NavBarEvent::Navigate(p)) && p@ == up),
            None => e.is_none(),
        },
{
    match parent(directory) {
        Some(up) => Some(NavBarEvent::Navigate(up)),
        None => None,
    }
}

} // verus!
