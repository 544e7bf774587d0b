//! What a click does in the debug view.

use vstd::prelude::*;

verus! {

/// The effect of a click.
#[derive(Clone, Copy, Debug, PartialEq, Eq, Structural)]
pub enum ClickOutcome {
    /// Select the clicked player and stop the click there.
    SelectPlayer,
    /// The click belongs to the debug interface: stop it there.
    Swallow,
    /// A click elsewhere drops the selection.
    Deselect,
}

/// Decides a click on an entity: a player gets selected, a click on the
/// debug interface is kept from the scene, any other click deselects.
pub fn click_outcome(on_player: bool, on_ui: bool) -> (c: ClickOutcome)
    ensures
        c == (if on_player {
            ClickOutcome::SelectPlayer
        } else if on_ui {
            ClickOutcome::Swallow
        } else {
            ClickOutcome::Deselect
        }),
{
    if on_player {
        ClickOutcome::SelectPlayer
    } else if on_ui {
        ClickOutcome::Swallow
    } else {
        ClickOutcome::Deselect
    }
}

} // verus!
