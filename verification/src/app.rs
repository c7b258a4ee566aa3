//! The state of the application: the directory of rooms, the current tab
//! and the input line, changed by protocol events and by the keyboard.

use crate::content::{convert_message_type, message_text, MessageType};
use crate::ids::{lemma_index_of_first, lemma_remove_keeps_distinct};
use crate::input::InputBuffer;
use crate::messages::MessageView;
use crate::room::{HistoryEvent, Room, RoomView};
use crate::rooms::{lemma_with_room_keeps_valid, DirectoryView, ScrollableRoomList};
use crate::tabs::Tabs;
use crate::timestamp::{format_timestamp, timestamp_text};
use vstd::prelude::*;

verus! {

/// A message that arrived in a room.
pub struct MessageEvent {
    /// The id of the room.
    pub room_id: String,
    /// When the message was sent, in milliseconds since the start of 1970.
    pub timestamp: u64,
    /// The user id of the sender.
    pub sender: String,
    /// What the message carries.
    pub content: MessageType,
}

/// What a membership event says of the user it is about.
#[derive(Debug, Clone, Copy, PartialEq, Eq, Structural)]
pub enum MembershipState {
    /// The user has joined the room.
    Join,
    /// The user has left the room.
    Leave,
    /// Anything else: invited, banned, knocking.
    Other,
}

/// A change of someone's membership in a room.
pub struct MemberEvent {
    /// The id of the room.
    pub room_id: String,
    /// The new state of the membership.
    pub membership: MembershipState,
    /// The user id of the user whose membership changed.
    pub state_key: String,
    /// The display name of that user, if one is set.
    pub display_name: Option<String>,
}

/// What is left to do after a membership event.
#[derive(Debug, Clone, Copy, PartialEq, Eq, Structural)]
pub enum RoomAction {
    /// Nothing.
    Nothing,
    /// The local user has joined a room that is not in the directory yet:
    /// its name, members and history are to be fetched and handed to
    /// [`App::add_room`].
    LoadRoom,
}

/// The name under which a member is shown: the display name, or the user
/// id where none is set.
pub open spec fn shown_name(display_name: Option<String>, user_id: Seq<char>) -> Seq<char> {
    match display_name {
        Some(name) => name@,
        None => user_id,
    }
}

/// What the desktop should announce: a message of someone else.
pub struct Notification {
    /// The sender of the message.
    pub summary: String,
    /// The text of the message.
    pub body: String,
}

/// A key of the keyboard.
#[derive(Debug, Clone, Copy, PartialEq, Eq, Structural)]
pub enum Key {
    /// Escape.
    Esc,
    /// Arrow up.
    Up,
    /// Arrow down.
    Down,
    /// The tabulator.
    Tab,
    /// Enter.
    Enter,
    /// Backspace.
    Backspace,
    /// A character.
    Char(char),
    /// Any other key.
    Other,
}

/// What is left to do after a key has been pressed.
pub enum KeyAction {
    /// Nothing.
    Nothing,
    /// The session ends.
    Quit,
    /// The message is to be sent to the room.
    SendMessage { room_id: String, message: String },
    /// The user is to be removed from the room.
    KickUser { room_id: String, user_id: String },
}

/// A [`KeyAction`] as the contracts see it.
pub enum ActionView {
    /// Nothing.
    Nothing,
    /// The session ends.
    Quit,
    /// The message is to be sent to the room.
    SendMessage { room_id: Seq<char>, message: Seq<char> },
    /// The user is to be removed from the room.
    KickUser { room_id: Seq<char>, user_id: Seq<char> },
}

impl View for KeyAction {
    type V = ActionView;

    open spec fn view(&self) -> ActionView {
        match *self {
            KeyAction::Nothing => ActionView::Nothing,
            KeyAction::Quit => ActionView::Quit,
            KeyAction::SendMessage { room_id, message } => ActionView::SendMessage {
                room_id: room_id@,
                message: message@,
            },
            KeyAction::KickUser { room_id, user_id } => ActionView::KickUser {
                room_id: room_id@,
                user_id: user_id@,
            },
        }
    }
}

/// What the application state is, for the purposes of its contracts.
pub struct AppView {
    /// The directory of rooms.
    pub rooms: DirectoryView,
    /// The current tab.
    pub current_tab: Tabs,
    /// The text typed so far.
    pub input: Seq<char>,
    /// The user id of the local user, if it is known.
    pub user_id: Option<Seq<char>>,
}

impl AppView {
    /// The state is valid when the directory is, and a room is selected
    /// whenever the current tab shows or addresses one.
    pub open spec fn wf(self) -> bool {
        &&& self.rooms.wf()
        &&& self.current_tab.needs_room() ==> self.rooms.selected.is_some()
    }

    /// The state at the start: no rooms, the room tab, nothing typed.
    pub open spec fn initial(user_id: Option<Seq<char>>) -> AppView {
        AppView {
            rooms: DirectoryView::empty(),
            current_tab: Tabs::Room,
            input: Seq::empty(),
            user_id,
        }
    }

    /// The user id of the local user, or the empty text where it is not
    /// known.
    pub open spec fn local_user(self) -> Seq<char> {
        match self.user_id {
            Some(id) => id,
            None => Seq::empty(),
        }
    }

    /// The state with the room at `index` replaced.
    pub open spec fn with_room(self, index: int, room: RoomView) -> AppView {
        AppView { rooms: self.rooms.with_room(index, room), ..self }
    }

    /// The state after a message has arrived in the room with the given id:
    /// the message is appended to that room's timeline. Nothing changes if
    /// the room is not known.
    pub open spec fn with_message(self, room_id: Seq<char>, message: MessageView) -> AppView {
        match self.rooms.find(room_id) {
            Some(i) => {
                let room = self.rooms.rooms[i];
                self.with_room(i, RoomView { messages: room.messages.append(message), ..room })
            },
            None => self,
        }
    }

    /// Whether a message of `sender` in the room with the given id is
    /// announced: the room is known and the sender is not the local user.
    pub open spec fn announces(self, room_id: Seq<char>, sender: Seq<char>) -> bool {
        self.rooms.find(room_id).is_some() && sender != self.local_user()
    }

    /// The state after a message event: the message is appended under the
    /// text of its time. An event whose time cannot be written is dropped.
    pub open spec fn on_message_event(self, event: MessageEvent, homeserver: Seq<char>) -> AppView {
        match timestamp_text(event.timestamp) {
            Some(time) => self.with_message(
                event.room_id@,
                (time, event.sender@, message_text(event.content, homeserver)),
            ),
            None => self,
        }
    }

    /// Whether a message event is announced.
    pub open spec fn announces_event(self, event: MessageEvent) -> bool {
        timestamp_text(event.timestamp).is_some() && self.announces(
            event.room_id@,
            event.sender@,
        )
    }

    /// The state after a room has been added.
    pub open spec fn add_room(self, room: RoomView) -> AppView {
        AppView { rooms: self.rooms.add(room), ..self }
    }

    /// The state after the local user has left the room with the given id:
    /// the room is gone from the directory, and if it was the selected one,
    /// a tab that shows or addresses a room gives way to the room tab.
    pub open spec fn leave_room(self, room_id: Seq<char>) -> AppView {
        let rooms = self.rooms.remove(room_id);
        AppView {
            rooms,
            current_tab: if self.current_tab.needs_room() && rooms.selected.is_none() {
                Tabs::Room
            } else {
                self.current_tab
            },
            ..self
        }
    }

    /// The state after someone has joined the room with the given id: the
    /// user is on that room's roster. Nothing changes if the room is not
    /// known.
    pub open spec fn member_joined(
        self,
        room_id: Seq<char>,
        display_name: Seq<char>,
        user_id: Seq<char>,
    ) -> AppView {
        match self.rooms.find(room_id) {
            Some(i) => {
                let room = self.rooms.rooms[i];
                self.with_room(
                    i,
                    RoomView {
                        members: room.members.upsert_or_ignore(display_name, user_id),
                        ..room
                    },
                )
            },
            None => self,
        }
    }

    /// The state after someone else has left the room with the given id:
    /// the user is off that room's roster. Nothing changes if the room is
    /// not known.
    pub open spec fn member_left(self, room_id: Seq<char>, user_id: Seq<char>) -> AppView {
        match self.rooms.find(room_id) {
            Some(i) => {
                let room = self.rooms.rooms[i];
                self.with_room(i, RoomView { members: room.members.remove(user_id), ..room })
            },
            None => self,
        }
    }

    /// The state after a membership event. Without a known local user
    /// nothing changes. A join puts the user on the roster of a known room.
    /// A leave of the local user removes the room; a leave of someone else
    /// takes that user off the room's roster. Everything else is dropped.
    pub open spec fn on_membership_event(self, event: MemberEvent) -> AppView {
        match self.user_id {
            Some(user) => match event.membership {
                MembershipState::Join => self.member_joined(
                    event.room_id@,
                    shown_name(event.display_name, event.state_key@),
                    event.state_key@,
                ),
                MembershipState::Leave => if event.state_key@ == user {
                    self.leave_room(event.room_id@)
                } else {
                    self.member_left(event.room_id@, event.state_key@)
                },
                MembershipState::Other => self,
            },
            None => self,
        }
    }

    /// Whether a membership event says that the local user has joined a
    /// room that is not in the directory.
    pub open spec fn joins_new_room(self, event: MemberEvent) -> bool {
        &&& self.user_id == Some(event.state_key@)
        &&& event.membership == MembershipState::Join
        &&& self.rooms.find(event.room_id@).is_none()
    }

    /// The state with the selected room replaced; the same state if no
    /// room is selected.
    pub open spec fn with_current(self, room: RoomView) -> AppView {
        match self.rooms.selected {
            Some(i) => self.with_room(i as int, room),
            None => self,
        }
    }

    /// The state after a step forward in the list that the current tab
    /// shows: the rooms, or the messages or members of the selected room.
    /// Nothing changes in the input tab, or where no room is selected.
    pub open spec fn select_next(self) -> AppView {
        match self.current_tab {
            Tabs::Room => AppView { rooms: self.rooms.next(), ..self },
            Tabs::Messages => match self.rooms.current() {
                Some(room) => self.with_current(
                    RoomView { messages: room.messages.next(), ..room },
                ),
                None => self,
            },
            Tabs::Members => match self.rooms.current() {
                Some(room) => self.with_current(RoomView { members: room.members.next(), ..room }),
                None => self,
            },
            Tabs::Input => self,
        }
    }

    /// The state after a step backward in the list that the current tab
    /// shows.
    pub open spec fn select_previous(self) -> AppView {
        match self.current_tab {
            Tabs::Room => AppView { rooms: self.rooms.previous(), ..self },
            Tabs::Messages => match self.rooms.current() {
                Some(room) => self.with_current(
                    RoomView { messages: room.messages.previous(), ..room },
                ),
                None => self,
            },
            Tabs::Members => match self.rooms.current() {
                Some(room) => self.with_current(
                    RoomView { members: room.members.previous(), ..room },
                ),
                None => self,
            },
            Tabs::Input => self,
        }
    }

    /// The state after the input line has been submitted: in the input tab
    /// the line is empty afterwards; in any other tab nothing changes.
    pub open spec fn submit_input(self) -> AppView {
        if self.current_tab == Tabs::Input {
            AppView { input: Seq::empty(), ..self }
        } else {
            self
        }
    }

    /// What submitting the input line sends, as (room id, text): the text
    /// typed, to the selected room, if the input tab is the current one and
    /// the text is not empty.
    pub open spec fn submitted(self) -> Option<(Seq<char>, Seq<char>)> {
        match self.rooms.current() {
            Some(room) => if self.current_tab == Tabs::Input && self.input.len() > 0 {
                Some((room.id, self.input))
            } else {
                None
            },
            None => None,
        }
    }

    /// Whom the kick key removes, as (room id, user id): the selected
    /// member of the selected room, if the members tab is the current one.
    pub open spec fn kick_target(self) -> Option<(Seq<char>, Seq<char>)> {
        match self.rooms.current() {
            Some(room) => match room.members.selected {
                Some(i) => if self.current_tab == Tabs::Members {
                    Some((room.id, room.members.members[i as int].1))
                } else {
                    None
                },
                None => None,
            },
            None => None,
        }
    }

    /// The state after a key has been pressed.
    pub open spec fn on_key(self, key: Key) -> AppView {
        match key {
            Key::Up => self.select_previous(),
            Key::Down => self.select_next(),
            Key::Tab => self.next_tab(),
            Key::Enter => self.submit_input(),
            Key::Char(c) => if self.current_tab == Tabs::Input {
                AppView { input: self.input.push(c), ..self }
            } else {
                self
            },
            Key::Backspace => if self.current_tab == Tabs::Input && self.input.len() > 0 {
                AppView { input: self.input.drop_last(), ..self }
            } else {
                self
            },
            Key::Esc => self,
            Key::Other => self,
        }
    }

    /// What is left to do after a key has been pressed.
    pub open spec fn key_action(self, key: Key) -> ActionView {
        match key {
            Key::Esc => ActionView::Quit,
            Key::Enter => match self.submitted() {
                Some((room_id, message)) => ActionView::SendMessage { room_id, message },
                None => ActionView::Nothing,
            },
            Key::Char(c) => match self.kick_target() {
                Some((room_id, user_id)) => if c == 'k' {
                    ActionView::KickUser { room_id, user_id }
                } else {
                    ActionView::Nothing
                },
                None => ActionView::Nothing,
            },
            _ => ActionView::Nothing,
        }
    }

    /// The directory when the members tab is left: the selected room's
    /// roster has nothing selected any more.
    pub open spec fn rooms_without_member_selection(self) -> DirectoryView {
        match self.rooms.current() {
            Some(room) => self.with_current(
                RoomView { members: room.members.deselect(), ..room },
            ).rooms,
            None => self.rooms,
        }
    }

    /// The state after a step to the next tab.
    pub open spec fn next_tab(self) -> AppView {
        AppView {
            rooms: if self.current_tab == Tabs::Members {
                self.rooms_without_member_selection()
            } else {
                self.rooms
            },
            current_tab: self.current_tab.following(self.rooms.selected.is_some()),
            ..self
        }
    }
}

/// The state of the application.
pub struct App {
    rooms: ScrollableRoomList,
    current_tab: Tabs,
    input: InputBuffer,
    user_id: Option<String>,
}

impl View for App {
    type V = AppView;

    closed spec fn view(&self) -> AppView {
        AppView {
            rooms: self.rooms@,
            current_tab: self.current_tab,
            input: self.input@,
            user_id: match self.user_id {
                Some(id) => Some(id@),
                None => None,
            },
        }
    }
}

impl App {
    /// The state is valid (see [`AppView::wf`]).
    pub open spec fn wf(&self) -> bool {
        self@.wf()
    }

    /// Returns a new App instance for the local user with the given user
    /// id, with no rooms yet.
    pub fn new(user_id: Option<String>) -> (r: App)
        ensures
            r.wf(),
            r@ == AppView::initial(
                match user_id {
                    Some(id) => Some(id@),
                    None => None,
                },
            ),
    {
        App {
            rooms: ScrollableRoomList::new(),
            current_tab: Tabs::Room,
            input: InputBuffer::new(),
            user_id,
        }
    }

    /// Switches to the next tab. Leaving the members tab drops the
    /// selection in the selected room's roster.
    pub fn next_tab(&mut self)
        requires
            old(self).wf(),
        ensures
            final(self).wf(),
            final(self)@ == old(self)@.next_tab(),
    {
        let room_selected = self.rooms.selected().is_some();
        match self.current_tab {
            Tabs::Members => {
                match self.rooms.get_current_room() {
                    Some(room) => {
                        room.members.deselect();
                    },
                    None => {},
                }
                assert(self.rooms@.ids() =~= old(self).rooms@.ids());
            },
            _ => {},
        }
        self.current_tab = self.current_tab.next(room_selected);
    }

    /// Whether `sender` is the local user.
    fn is_local_user(&self, sender: &String) -> (r: bool)
        ensures
            r == (sender@ == self@.local_user()),
    {
        proof {
            assert(sender@.len() == 0 <==> sender@ =~= Seq::<char>::empty());
        }
        match &self.user_id {
            Some(id) => *id == *sender,
            None => sender.as_str().is_empty(),
        }
    }

    /// Adds a message, sent at `time` by `sender`, to the room with the
    /// given id, and returns what is to be announced: the message, if the
    /// room is known and the sender is someone else. Nothing happens if the
    /// room is not known.
    pub fn add_message(
        &mut self,
        room_id: &str,
        time: String,
        sender: String,
        message: String,
    ) -> (r: Option<Notification>)
        requires
            old(self).wf(),
        ensures
            final(self).wf(),
            final(self)@ == old(self)@.with_message(room_id@, (time@, sender@, message@)),
            match r {
                Some(n) => old(self)@.announces(room_id@, sender@) && n.summary@ == sender@
                    && n.body@ == message@,
                None => !old(self)@.announces(room_id@, sender@),
            },
    {
        let own = self.is_local_user(&sender);
        proof {
            lemma_index_of_first(self.rooms@.ids(), room_id@);
        }
        match self.rooms.find_by_id(room_id) {
            Some(room) => {
                let summary = sender.clone();
                let body = message.clone();
                room.messages.add_message(time, sender, message);
                proof {
                    let i = old(self).rooms@.find(room_id@).unwrap();
                    lemma_with_room_keeps_valid(old(self).rooms@, i, room@);
                }
                if own {
                    None
                } else {
                    Some(Notification { summary, body })
                }
            },
            None => None,
        }
    }

    /// Handles a message event: the message is added to its room under the
    /// text of its time and of its content. An event whose time cannot be
    /// written is dropped, and so is one for a room that is not known.
    /// Returns what is to be announced, if anything.
    pub fn handle_matrix_message_event(
        &mut self,
        event: MessageEvent,
        homeserver_url: &str,
    ) -> (r: Option<Notification>)
        requires
            old(self).wf(),
        ensures
            final(self).wf(),
            final(self)@ == old(self)@.on_message_event(event, homeserver_url@),
            match r {
                Some(n) => old(self)@.announces_event(event) && n.summary@ == event.sender@
                    && n.body@ == message_text(event.content, homeserver_url@),
                None => !old(self)@.announces_event(event),
            },
    {
        let MessageEvent { room_id, timestamp, sender, content } = event;
        match format_timestamp(timestamp) {
            Some(time) => {
                let message = convert_message_type(content, homeserver_url);
                self.add_message(room_id.as_str(), time, sender, message)
            },
            None => None,
        }
    }

    /// Adds a room to the directory, unless one with its id is there.
    pub fn add(&mut self, room: Room)
        requires
            old(self).wf(),
            room.wf(),
        ensures
            final(self).wf(),
            final(self)@ == old(self)@.add_room(room@),
    {
        self.rooms.add(room);
    }

    /// Adds a room as first observed (see [`Room::new`]), unless one with
    /// its id is in the directory.
    pub fn add_room(
        &mut self,
        name: Option<String>,
        id: String,
        members: Vec<(Option<String>, String)>,
        history: Vec<HistoryEvent>,
        homeserver_url: &str,
    )
        requires
            old(self).wf(),
        ensures
            final(self).wf(),
            final(self)@ == old(self)@.add_room(
                Room::initial(name, id@, members@, history@, homeserver_url@),
            ),
    {
        self.rooms.add_room(name, id, members, history, homeserver_url);
    }

    /// Removes the room with the given id, which the local user has left,
    /// and says whether there was one. If it was the selected room, a tab
    /// that shows or addresses a room gives way to the room tab.
    pub fn leave_room(&mut self, room_id: &str) -> (r: bool)
        requires
            old(self).wf(),
        ensures
            final(self).wf(),
            final(self)@ == old(self)@.leave_room(room_id@),
            r == old(self)@.rooms.contains(room_id@),
    {
        let removed = self.rooms.remove_by_id(room_id);
        if self.rooms.selected().is_none() {
            match self.current_tab {
                Tabs::Members => {
                    self.current_tab = Tabs::Room;
                },
                Tabs::Input => {
                    self.current_tab = Tabs::Room;
                },
                _ => {},
            }
        }
        removed
    }

    /// Puts a user who has joined on the roster of the room with the given
    /// id. Nothing happens if the room is not known, or the user is on the
    /// roster already.
    pub fn member_joined(&mut self, room_id: &str, display_name: String, user_id: String)
        requires
            old(self).wf(),
        ensures
            final(self).wf(),
            final(self)@ == old(self)@.member_joined(room_id@, display_name@, user_id@),
    {
        proof {
            lemma_index_of_first(self.rooms@.ids(), room_id@);
        }
        match self.rooms.find_by_id(room_id) {
            Some(room) => {
                room.members.upsert_or_ignore(display_name, user_id);
                proof {
                    let i = old(self).rooms@.find(room_id@).unwrap();
                    lemma_with_room_keeps_valid(old(self).rooms@, i, room@);
                }
            },
            None => {},
        }
    }

    /// Takes a user who has left off the roster of the room with the given
    /// id. Nothing happens if the room is not known, or the user is not on
    /// the roster.
    pub fn member_left(&mut self, room_id: &str, user_id: &str)
        requires
            old(self).wf(),
        ensures
            final(self).wf(),
            final(self)@ == old(self)@.member_left(room_id@, user_id@),
    {
        proof {
            lemma_index_of_first(self.rooms@.ids(), room_id@);
        }
        match self.rooms.find_by_id(room_id) {
            Some(room) => {
                let _ = room.members.remove_by_user_id(user_id);
                proof {
                    let i = old(self).rooms@.find(room_id@).unwrap();
                    lemma_with_room_keeps_valid(old(self).rooms@, i, room@);
                }
            },
            None => {},
        }
    }

    /// Handles a membership event, and says what is left to do: to load the
    /// room, where the local user has joined one that is not in the
    /// directory.
    pub fn handle_matrix_room_event(&mut self, event: MemberEvent) -> (r: RoomAction)
        requires
            old(self).wf(),
        ensures
            final(self).wf(),
            final(self)@ == old(self)@.on_membership_event(event),
            r == if old(self)@.joins_new_room(event) {
                RoomAction::LoadRoom
            } else {
                RoomAction::Nothing
            },
    {
        let MemberEvent { room_id, membership, state_key, display_name } = event;
        let own = match &self.user_id {
            Some(user) => *user == state_key,
            None => {
                return RoomAction::Nothing;
            },
        };
        match membership {
            MembershipState::Join => {
                if self.rooms.position(&room_id).is_some() {
                    let name = match display_name {
                        Some(name) => name,
                        None => state_key.clone(),
                    };
                    self.member_joined(room_id.as_str(), name, state_key);
                    RoomAction::Nothing
                } else if own {
                    RoomAction::LoadRoom
                } else {
                    RoomAction::Nothing
                }
            },
            MembershipState::Leave => {
                if own {
                    let _ = self.leave_room(room_id.as_str());
                } else {
                    self.member_left(room_id.as_str(), state_key.as_str());
                }
                RoomAction::Nothing
            },
            MembershipState::Other => RoomAction::Nothing,
        }
    }

    /// Moves the selection one step forward in the list that the current
    /// tab shows.
    pub fn select_next(&mut self)
        requires
            old(self).wf(),
        ensures
            final(self).wf(),
            final(self)@ == old(self)@.select_next(),
    {
        match self.current_tab {
            Tabs::Room => {
                self.rooms.next_room();
            },
            Tabs::Messages => {
                let ghost selected = self.rooms@.selected;
                match self.rooms.get_current_room() {
                    Some(room) => {
                        room.messages.next_message();
                        proof {
                            lemma_with_room_keeps_valid(
                                old(self).rooms@,
                                selected.unwrap() as int,
                                room@,
                            );
                        }
                    },
                    None => {},
                }
            },
            Tabs::Members => {
                let ghost selected = self.rooms@.selected;
                match self.rooms.get_current_room() {
                    Some(room) => {
                        room.members.next_member();
                        proof {
                            lemma_with_room_keeps_valid(
                                old(self).rooms@,
                                selected.unwrap() as int,
                                room@,
                            );
                        }
                    },
                    None => {},
                }
            },
            Tabs::Input => {},
        }
    }

    /// Moves the selection one step backward in the list that the current
    /// tab shows.
    pub fn select_previous(&mut self)
        requires
            old(self).wf(),
        ensures
            final(self).wf(),
            final(self)@ == old(self)@.select_previous(),
    {
        match self.current_tab {
            Tabs::Room => {
                self.rooms.previous_room();
            },
            Tabs::Messages => {
                let ghost selected = self.rooms@.selected;
                match self.rooms.get_current_room() {
                    Some(room) => {
                        room.messages.previous_message();
                        proof {
                            lemma_with_room_keeps_valid(
                                old(self).rooms@,
                                selected.unwrap() as int,
                                room@,
                            );
                        }
                    },
                    None => {},
                }
            },
            Tabs::Members => {
                let ghost selected = self.rooms@.selected;
                match self.rooms.get_current_room() {
                    Some(room) => {
                        room.members.previous_member();
                        proof {
                            lemma_with_room_keeps_valid(
                                old(self).rooms@,
                                selected.unwrap() as int,
                                room@,
                            );
                        }
                    },
                    None => {},
                }
            },
            Tabs::Input => {},
        }
    }

    /// Submits the input line. In the input tab the line is emptied, and
    /// what was typed is returned with the id of the selected room, as
    /// (room id, text), unless nothing was typed. In any other tab nothing
    /// happens.
    pub fn submit_input(&mut self) -> (r: Option<(String, String)>)
        requires
            old(self).wf(),
        ensures
            final(self).wf(),
            final(self)@ == old(self)@.submit_input(),
            match r {
                Some(sent) => old(self)@.submitted() == Some((sent.0@, sent.1@)),
                None => old(self)@.submitted().is_none(),
            },
    {
        match self.current_tab {
            Tabs::Input => {
                let message = self.input.drain();
                if message.as_str().is_empty() {
                    return None;
                }
                match self.rooms.current() {
                    Some(room) => Some((room.id.clone(), message)),
                    None => None,
                }
            },
            _ => None,
        }
    }

    /// The selected member of the selected room, as (room id, user id), if
    /// the members tab is the current one.
    pub fn kick_target(&self) -> (r: Option<(String, String)>)
        requires
            self.wf(),
        ensures
            match r {
                Some(target) => self@.kick_target() == Some((target.0@, target.1@)),
                None => self@.kick_target().is_none(),
            },
    {
        match self.current_tab {
            Tabs::Members => match self.rooms.current() {
                Some(room) => {
                    match room.members.get_selected() {
                        Some(member) => Some((room.id.clone(), member.1.clone())),
                        None => None,
                    }
                },
                None => None,
            },
            _ => None,
        }
    }

    /// Handles a key, and says what is left to do. The arrow keys move the
    /// selection in the list that the current tab shows, the tabulator
    /// leads to the next tab, escape ends the session. In the input tab
    /// characters are typed and taken back, and enter submits the line. In
    /// the members tab `k` asks for the selected member to be removed.
    pub fn handle_key(&mut self, key: Key) -> (r: KeyAction)
        requires
            old(self).wf(),
        ensures
            final(self).wf(),
            final(self)@ == old(self)@.on_key(key),
            r@ == old(self)@.key_action(key),
    {
        match key {
            Key::Esc => KeyAction::Quit,
            Key::Up => {
                self.select_previous();
                KeyAction::Nothing
            },
            Key::Down => {
                self.select_next();
                KeyAction::Nothing
            },
            Key::Tab => {
                self.next_tab();
                KeyAction::Nothing
            },
            Key::Enter => match self.submit_input() {
                Some((room_id, message)) => KeyAction::SendMessage { room_id, message },
                None => KeyAction::Nothing,
            },
            Key::Backspace => {
                match self.current_tab {
                    Tabs::Input => {
                        self.input.pop();
                    },
                    _ => {},
                }
                KeyAction::Nothing
            },
            Key::Char(c) => match self.current_tab {
                Tabs::Input => {
                    self.input.push(c);
                    KeyAction::Nothing
                },
                _ => if c == 'k' {
                    match self.kick_target() {
                        Some((room_id, user_id)) => KeyAction::KickUser { room_id, user_id },
                        None => KeyAction::Nothing,
                    }
                } else {
                    KeyAction::Nothing
                },
            },
            Key::Other => KeyAction::Nothing,
        }
    }

    /// The directory of rooms.
    pub fn rooms(&self) -> (r: &ScrollableRoomList)
        ensures
            r@ == self@.rooms,
    {
        &self.rooms
    }

    /// The current tab.
    pub fn current_tab(&self) -> (r: Tabs)
        ensures
            r == self@.current_tab,
    {
        self.current_tab
    }

    /// The text typed so far.
    pub fn input(&self) -> (r: &str)
        ensures
            r@ == self@.input,
    {
        self.input.as_str()
    }

    /// The user id of the local user, if it is known.
    pub fn user_id(&self) -> (r: Option<&String>)
        ensures
            match r {
                Some(id) => self@.user_id == Some(id@),
                None => self@.user_id.is_none(),
            },
    {
        self.user_id.as_ref()
    }
}

/// A step to the next tab keeps the state valid, changes neither the rooms
/// nor which of them is selected, and in the rooms changes at most the
/// selection in the selected room's roster.
pub proof fn lemma_next_tab_keeps_valid(app: AppView)
    requires
        app.wf(),
    ensures
        app.next_tab().wf(),
        app.next_tab().rooms.selected == app.rooms.selected,
        app.next_tab().rooms.ids() == app.rooms.ids(),
        app.current_tab != Tabs::Members ==> app.next_tab().rooms == app.rooms,
{
    if app.current_tab == Tabs::Members {
        let i = app.rooms.selected.unwrap() as int;
        let room = app.rooms.rooms[i];
        lemma_with_room_keeps_valid(
            app.rooms,
            i,
            RoomView { members: room.members.deselect(), ..room },
        );
    }
}

/// With a room selected, four steps from the room tab lead through the
/// messages, the input line and the members back to the room tab, and the
/// roster of the selected room has nothing selected then.
pub proof fn lemma_four_tabs_round(app: AppView)
    requires
        app.wf(),
        app.current_tab == Tabs::Room,
        app.rooms.selected.is_some(),
    ensures
        app.next_tab().current_tab == Tabs::Messages,
        app.next_tab().next_tab().current_tab == Tabs::Input,
        app.next_tab().next_tab().next_tab().current_tab == Tabs::Members,
        app.next_tab().next_tab().next_tab().next_tab().current_tab == Tabs::Room,
        app.next_tab().next_tab().next_tab().next_tab().rooms
            == app.rooms_without_member_selection(),
        app.next_tab().next_tab().next_tab().next_tab().rooms.current().unwrap().members.selected.is_none(),
{
    lemma_next_tab_keeps_valid(app);
    lemma_next_tab_keeps_valid(app.next_tab());
    lemma_next_tab_keeps_valid(app.next_tab().next_tab());
    lemma_next_tab_keeps_valid(app.next_tab().next_tab().next_tab());
}

/// Without a room selected, the step after the messages leads back to the
/// room tab, and no number of steps reaches the input line or the members.
pub proof fn lemma_tabs_without_room(app: AppView)
    requires
        app.wf(),
        app.rooms.selected.is_none(),
    ensures
        app.current_tab == Tabs::Messages ==> app.next_tab().current_tab == Tabs::Room,
        !app.next_tab().current_tab.needs_room(),
        app.next_tab().rooms == app.rooms,
{
}

/// When the local user leaves the selected room, the room is gone, nothing
/// is selected, and a tab that showed or addressed the room has given way to
/// the room tab; the state stays valid whichever room is left.
pub proof fn lemma_leave_room(app: AppView, room_id: Seq<char>)
    requires
        app.wf(),
    ensures
        app.leave_room(room_id).wf(),
        !app.leave_room(room_id).rooms.contains(room_id),
        app.rooms.current().is_some() && app.rooms.current().unwrap().id == room_id ==> {
            &&& app.leave_room(room_id).rooms.selected.is_none()
            &&& app.leave_room(room_id).current_tab == if app.current_tab.needs_room() {
                Tabs::Room
            } else {
                app.current_tab
            }
        },
{
    let ids = app.rooms.ids();
    lemma_index_of_first(ids, room_id);
    match app.rooms.find(room_id) {
        Some(i) => {
            lemma_remove_keeps_distinct(ids, i);
            assert(app.rooms.remove(room_id).ids() =~= ids.remove(i));
            if app.rooms.selected.is_some() {
                let s = app.rooms.selected.unwrap() as int;
                assert(ids[s] == app.rooms.rooms[s].id);
            }
        },
        None => {
            if app.rooms.selected.is_some() {
                let s = app.rooms.selected.unwrap() as int;
                assert(ids[s] == app.rooms.rooms[s].id);
            }
        },
    }
}

/// An empty input line sends nothing, in whatever tab.
pub proof fn lemma_empty_input_sends_nothing(app: AppView, key: Key)
    requires
        app.input.len() == 0,
    ensures
        app.submitted().is_none(),
        !(app.key_action(key) is SendMessage),
{
}

} // verus!
