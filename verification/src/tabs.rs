//! The tabs of the interface and the order in which they follow each other.

use vstd::prelude::*;

verus! {

/// Selectable tabs in the UI.
#[derive(Debug, Clone, Copy, PartialEq, Eq, Structural)]
pub enum Tabs {
    /// The list of rooms.
    Room,
    /// The members of the selected room.
    Members,
    /// The messages of the selected room, or the welcome text.
    Messages,
    /// The line in which a message is typed.
    Input,
}

impl Tabs {
    /// The tab that follows this one. With a room selected the tabs go
    /// round: rooms, messages, input, members and back to the rooms.
    /// Without one, the messages lead straight back to the rooms.
    pub open spec fn following(self, room_selected: bool) -> Tabs {
        match self {
            Tabs::Room => Tabs::Messages,
            Tabs::Messages => if room_selected {
                Tabs::Input
            } else {
                Tabs::Room
            },
            Tabs::Input => Tabs::Members,
            Tabs::Members => Tabs::Room,
        }
    }

    /// Whether the tab shows or addresses one particular room.
    pub open spec fn needs_room(self) -> bool {
        self == Tabs::Members || self == Tabs::Input
    }

    /// The tab that follows this one.
    pub fn next(self, room_selected: bool) -> (r: Tabs)
        ensures
            r == self.following(room_selected),
    {
        match self {
            Tabs::Room => Tabs::Messages,
            Tabs::Messages => if room_selected {
                Tabs::Input
            } else {
                Tabs::Room
            },
            Tabs::Input => Tabs::Members,
            Tabs::Members => Tabs::Room,
        }
    }
}

/// With a room selected, four steps from any tab lead back to it, through
/// all the other tabs.
pub proof fn lemma_four_steps_round(tab: Tabs)
    ensures
        tab.following(true).following(true).following(true).following(true) == tab,
        Tabs::Room.following(true) == Tabs::Messages,
        Tabs::Messages.following(true) == Tabs::Input,
        Tabs::Input.following(true) == Tabs::Members,
        Tabs::Members.following(true) == Tabs::Room,
{
}

/// Without a room selected, the tabs that need a room are never reached
/// from the others.
pub proof fn lemma_no_room_no_room_tab(tab: Tabs)
    requires
        !tab.needs_room(),
    ensures
        !tab.following(false).needs_room(),
        Tabs::Messages.following(false) == Tabs::Room,
{
}

} // verus!
