//! One chat room: its name and id, its message timeline and its member
//! roster.

use crate::content::{convert_message_type, message_text, MessageType};
use crate::members::{members_view, MemberView, RosterView, ScrollableMemberList};
use crate::messages::{messages_view, MessageView, ScrollableMessageList, TimelineView};
use crate::timestamp::{format_timestamp_or_epoch, timestamp_text_or_epoch};
use vstd::prelude::*;

verus! {

/// One step of reading a room's history, newest event first.
pub enum HistoryEvent {
    /// The history could not be read or understood at this point.
    Failed,
    /// An event that is not a message.
    Other,
    /// A message, sent at `timestamp` milliseconds since the start of 1970.
    Message { timestamp: u64, sender: String, content: MessageType },
}

/// What a room is, for the purposes of its contracts.
pub struct RoomView {
    /// The name shown for the room.
    pub name: Seq<char>,
    /// The room id.
    pub id: Seq<char>,
    /// The message timeline.
    pub messages: TimelineView,
    /// The member roster.
    pub members: RosterView,
}

impl RoomView {
    /// A room is valid when its timeline and its roster are.
    pub open spec fn wf(self) -> bool {
        self.messages.wf() && self.members.wf()
    }
}

/// The complete local state of one chat room.
pub struct Room {
    /// The name shown for the room.
    pub name: String,
    /// The room id, which stays the same as long as the room exists.
    pub id: String,
    /// The message timeline.
    pub messages: ScrollableMessageList,
    /// The member roster.
    pub members: ScrollableMemberList,
}

impl View for Room {
    type V = RoomView;

    open spec fn view(&self) -> RoomView {
        RoomView {
            name: self.name@,
            id: self.id@,
            messages: self.messages@,
            members: self.members@,
        }
    }
}

/// The name shown for a room: its display name, or a fixed text where the
/// display name could not be had.
pub open spec fn room_name(name: Option<String>) -> Seq<char> {
    match name {
        Some(text) => text@,
        None => "Unknown name"@,
    }
}

/// The roster entry of a joined member: the display name and the user id,
/// with the user id in place of a display name that is not set.
pub open spec fn joined_member(member: (Option<String>, String)) -> MemberView {
    match member.0 {
        Some(name) => (name@, member.1@),
        None => (member.1@, member.1@),
    }
}

/// The roster entries of the joined members, in order.
pub open spec fn joined_members(members: Seq<(Option<String>, String)>) -> Seq<MemberView> {
    members.map_values(|m: (Option<String>, String)| joined_member(m))
}

/// Whether reading the history failed at one of the first `end` events.
pub open spec fn failed_before(events: Seq<HistoryEvent>, end: int) -> bool {
    exists|i: int| 0 <= i < end && #[trigger] events[i] is Failed
}

/// The message that a history event stands for.
pub open spec fn history_message(
    timestamp: u64,
    sender: String,
    content: MessageType,
    homeserver: Seq<char>,
) -> MessageView {
    (timestamp_text_or_epoch(timestamp), sender@, message_text(content, homeserver))
}

/// The messages gathered from a room's history: those among the events
/// that come before the first failure, in the order of the events.
pub open spec fn history_messages(
    events: Seq<HistoryEvent>,
    homeserver: Seq<char>,
) -> Seq<MessageView>
    decreases events.len(),
{
    if events.len() == 0 {
        Seq::empty()
    } else {
        let earlier = history_messages(events.drop_last(), homeserver);
        if failed_before(events, events.len() - 1) {
            earlier
        } else {
            match events.last() {
                HistoryEvent::Message { timestamp, sender, content } => earlier.push(
                    history_message(timestamp, sender, content, homeserver),
                ),
                _ => earlier,
            }
        }
    }
}

/// The roster entries of the joined members.
pub fn member_entries(members: Vec<(Option<String>, String)>) -> (r: Vec<(String, String)>)
    ensures
        members_view(r@) == joined_members(members@),
{
    let ghost all = members@;
    let mut entries: Vec<(String, String)> = Vec::new();
    for member in it: members.into_iter()
        invariant
            it.seq() == all,
            members_view(entries@) == joined_members(all.take(it.index() as int)),
    {
        let (name, user_id) = member;
        let entry = match name {
            Some(name) => (name, user_id),
            None => (user_id.clone(), user_id),
        };
        entries.push(entry);
        proof {
            assert(joined_members(all.take(it.index() + 1)) =~= joined_members(
                all.take(it.index() as int),
            ).push(joined_member(member)));
        }
    }
    entries
}

/// The messages gathered from a room's history, in the order in which the
/// history gave them.
pub fn gather_history(
    history: Vec<HistoryEvent>,
    homeserver_url: &str,
) -> (r: Vec<(String, String, String)>)
    ensures
        messages_view(r@) == history_messages(history@, homeserver_url@),
{
    let ghost all = history@;
    let mut messages: Vec<(String, String, String)> = Vec::new();
    let mut failed = false;
    for event in it: history.into_iter()
        invariant
            it.seq() == all,
            failed == failed_before(all, it.index() as int),
            messages_view(messages@) == history_messages(
                all.take(it.index() as int),
                homeserver_url@,
            ),
    {
        let ghost before = messages@;
        let ghost n = it.index() as int;
        proof {
            assert(all.take(n + 1).drop_last() =~= all.take(n));
            if failed_before(all, n) {
                let i = choose|i: int| 0 <= i < n && #[trigger] all[i] is Failed;
                assert(all.take(n + 1)[i] is Failed);
            }
        }
        if !failed {
            match event {
                HistoryEvent::Failed => {
                    failed = true;
                },
                HistoryEvent::Other => {},
                HistoryEvent::Message { timestamp, sender, content } => {
                    let time = format_timestamp_or_epoch(timestamp);
                    let body = convert_message_type(content, homeserver_url);
                    messages.push((time, sender, body));
                    proof {
                        assert(messages_view(messages@) =~= messages_view(before).push(
                            history_message(timestamp, sender, content, homeserver_url@),
                        ));
                    }
                },
            }
        }
    }
    proof {
        assert(all.take(all.len() as int) =~= all);
    }
    messages
}

/// The items of a list in the opposite order.
pub fn reversed<T>(items: Vec<T>) -> (r: Vec<T>)
    ensures
        r@ == items@.reverse(),
{
    let ghost all = items@;
    let mut rest = items;
    let mut turned: Vec<T> = Vec::new();
    while rest.len() > 0
        invariant
            rest@.len() <= all.len(),
            rest@ == all.take(rest@.len() as int),
            turned@ == all.skip(rest@.len() as int).reverse(),
        decreases rest@.len(),
    {
        match rest.pop() {
            Some(item) => {
                turned.push(item);
            },
            None => {},
        }
    }
    turned
}

impl Room {
    /// The room is valid (see [`RoomView::wf`]).
    pub open spec fn wf(&self) -> bool {
        self@.wf()
    }

    /// What [`Room::new`] makes of a room as first observed.
    pub open spec fn initial(
        name: Option<String>,
        id: Seq<char>,
        members: Seq<(Option<String>, String)>,
        history: Seq<HistoryEvent>,
        homeserver: Seq<char>,
    ) -> RoomView {
        RoomView {
            name: room_name(name),
            id,
            messages: TimelineView::of(history_messages(history, homeserver).reverse()),
            members: RosterView::of(joined_members(members)),
        }
    }

    /// A room as first observed. `name` is its display name, if it could be
    /// had; `members` are the joined members as (display name, user id);
    /// `history` is what reading the room's history gave, newest event
    /// first. The timeline holds the messages that came before the first
    /// failure, oldest first, with the newest selected.
    pub fn new(
        name: Option<String>,
        id: String,
        members: Vec<(Option<String>, String)>,
        history: Vec<HistoryEvent>,
        homeserver_url: &str,
    ) -> (r: Room)
        ensures
            r.wf(),
            r@ == Room::initial(name, id@, members@, history@, homeserver_url@),
    {
        let name = match name {
            Some(text) => text,
            None => String::from_str("Unknown name"),
        };
        let entries = member_entries(members);
        let gathered = gather_history(history, homeserver_url);
        let messages = reversed(gathered);
        proof {
            assert(messages_view(messages@) =~= messages_view(gathered@).reverse());
        }
        Room {
            name,
            id,
            messages: ScrollableMessageList::with_messages(messages),
            members: ScrollableMemberList::with_members(entries),
        }
    }
}

} // verus!
