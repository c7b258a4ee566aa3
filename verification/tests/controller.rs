use matrix_tui::app::{
    App, Key, KeyAction, MemberEvent, MembershipState, MessageEvent, RoomAction,
};
use matrix_tui::content::MessageType;
use matrix_tui::messages::MessageViewMode;
use matrix_tui::room::HistoryEvent;
use matrix_tui::tabs::Tabs;

const HOME: &str = "https://matrix.example.org/";
const ME: &str = "@me:example.org";

fn app_with_rooms(ids: &[&str]) -> App {
    let mut app = App::new(Some(ME.to_string()));
    for id in ids {
        app.add_room(
            Some(format!("Room {}", id)),
            id.to_string(),
            vec![
                (Some("Me".to_string()), ME.to_string()),
                (Some("Alice".to_string()), "@alice:example.org".to_string()),
                (None, "@bob:example.org".to_string()),
            ],
            Vec::new(),
            HOME,
        );
    }
    app
}

fn go_to(app: &mut App, tab: Tabs) {
    for _ in 0..4 {
        if app.current_tab() == tab {
            return;
        }
        app.next_tab();
    }
    assert_eq!(app.current_tab(), tab);
}

fn message(room: &str, timestamp: u64, sender: &str, body: &str) -> MessageEvent {
    MessageEvent {
        room_id: room.to_string(),
        timestamp,
        sender: sender.to_string(),
        content: MessageType::Text { body: body.to_string() },
    }
}

fn membership(room: &str, state: MembershipState, user: &str, name: Option<&str>) -> MemberEvent {
    MemberEvent {
        room_id: room.to_string(),
        membership: state,
        state_key: user.to_string(),
        display_name: name.map(|n| n.to_string()),
    }
}

fn is_nothing(action: &KeyAction) -> bool {
    matches!(action, KeyAction::Nothing)
}

#[test]
fn new_app_is_empty() {
    let app = App::new(None);
    assert_eq!(app.current_tab(), Tabs::Room);
    assert_eq!(app.input(), "");
    assert_eq!(app.rooms().len(), 0);
    assert_eq!(app.user_id(), None);
    let app = App::new(Some(ME.to_string()));
    assert_eq!(app.user_id(), Some(&ME.to_string()));
}

#[test]
fn four_tabs_lead_back_to_the_rooms() {
    let mut app = app_with_rooms(&["!r1:example.org"]);
    assert!(is_nothing(&app.handle_key(Key::Down)));
    assert_eq!(app.rooms().selected(), Some(0));
    app.next_tab();
    assert_eq!(app.current_tab(), Tabs::Messages);
    app.next_tab();
    assert_eq!(app.current_tab(), Tabs::Input);
    app.next_tab();
    assert_eq!(app.current_tab(), Tabs::Members);
    app.next_tab();
    assert_eq!(app.current_tab(), Tabs::Room);
    assert_eq!(app.rooms().selected(), Some(0));
}

#[test]
fn without_a_room_messages_lead_back_to_the_rooms() {
    let mut app = App::new(Some(ME.to_string()));
    app.next_tab();
    assert_eq!(app.current_tab(), Tabs::Messages);
    app.next_tab();
    assert_eq!(app.current_tab(), Tabs::Room);
    let mut app = app_with_rooms(&["!r1:example.org"]);
    assert!(is_nothing(&app.handle_key(Key::Tab)));
    assert!(is_nothing(&app.handle_key(Key::Tab)));
    assert_eq!(app.current_tab(), Tabs::Room);
}

#[test]
fn leaving_the_members_tab_drops_the_member_selection() {
    let mut app = app_with_rooms(&["!r1:example.org"]);
    app.handle_key(Key::Down);
    go_to(&mut app, Tabs::Members);
    app.handle_key(Key::Down);
    app.handle_key(Key::Down);
    assert_eq!(app.rooms().current().map(|r| r.members.selected()), Some(Some(1)));
    app.next_tab();
    assert_eq!(app.current_tab(), Tabs::Room);
    assert_eq!(app.rooms().current().map(|r| r.members.selected()), Some(None));
}

#[test]
fn own_leave_removes_the_room_and_resets_the_tab() {
    let mut app = App::new(Some(ME.to_string()));
    app.add_room(Some("R1".to_string()), "R1".to_string(), Vec::new(), Vec::new(), HOME);
    assert!(app.add_message("R1", "t1".to_string(), "alice".to_string(), "hi".to_string()).is_some());
    app.handle_key(Key::Down);
    go_to(&mut app, Tabs::Members);
    let action = app.handle_matrix_room_event(membership("R1", MembershipState::Leave, ME, None));
    assert_eq!(action, RoomAction::Nothing);
    assert_eq!(app.rooms().len(), 0);
    assert_eq!(app.rooms().selected(), None);
    assert_eq!(app.current_tab(), Tabs::Room);
}

#[test]
fn own_leave_of_the_selected_room_resets_the_input_tab_only() {
    let mut app = app_with_rooms(&["!a:example.org", "!b:example.org"]);
    app.handle_key(Key::Down);
    app.handle_key(Key::Down);
    go_to(&mut app, Tabs::Input);
    app.handle_matrix_room_event(membership("!a:example.org", MembershipState::Leave, ME, None));
    assert_eq!(app.rooms().len(), 1);
    assert_eq!(app.rooms().selected(), Some(0));
    assert_eq!(app.rooms().current().map(|r| r.id.as_str()), Some("!b:example.org"));
    assert_eq!(app.current_tab(), Tabs::Input);
    app.handle_matrix_room_event(membership("!b:example.org", MembershipState::Leave, ME, None));
    assert_eq!(app.rooms().len(), 0);
    assert_eq!(app.current_tab(), Tabs::Room);

    let mut app = app_with_rooms(&["!a:example.org"]);
    app.handle_key(Key::Down);
    go_to(&mut app, Tabs::Messages);
    assert!(app.leave_room("!a:example.org"));
    assert_eq!(app.current_tab(), Tabs::Messages);
    assert!(!app.leave_room("!a:example.org"));
}

#[test]
fn message_event_is_added_and_announced() {
    let mut app = app_with_rooms(&["!r1:example.org"]);
    let note = app.handle_matrix_message_event(
        message("!r1:example.org", 947638923004, "@alice:example.org", "hello"),
        HOME,
    );
    let note = note.expect("a message of someone else is announced");
    assert_eq!(note.summary, "@alice:example.org");
    assert_eq!(note.body, "hello");
    let room = app.rooms().get(0).expect("room");
    assert_eq!(room.messages.len(), 1);
    assert_eq!(
        room.messages.get(0),
        Some(&("12/01/2000 01:02:03".to_string(), "@alice:example.org".to_string(), "hello".to_string()))
    );
    assert_eq!(room.messages.selected(), Some(0));
}

#[test]
fn own_message_is_added_but_not_announced() {
    let mut app = app_with_rooms(&["!r1:example.org"]);
    let note =
        app.handle_matrix_message_event(message("!r1:example.org", 1000, ME, "my own words"), HOME);
    assert!(note.is_none());
    assert_eq!(app.rooms().get(0).map(|r| r.messages.len()), Some(1));
}

#[test]
fn message_for_an_unknown_room_is_dropped() {
    let mut app = app_with_rooms(&["!r1:example.org"]);
    let note = app.handle_matrix_message_event(
        message("!other:example.org", 1000, "@alice:example.org", "hello"),
        HOME,
    );
    assert!(note.is_none());
    assert_eq!(app.rooms().get(0).map(|r| r.messages.len()), Some(0));
    assert_eq!(app.rooms().len(), 1);
}

#[test]
fn message_with_an_unwritable_time_is_dropped() {
    let mut app = app_with_rooms(&["!r1:example.org"]);
    let note = app.handle_matrix_message_event(
        message("!r1:example.org", u64::MAX, "@alice:example.org", "hello"),
        HOME,
    );
    assert!(note.is_none());
    assert_eq!(app.rooms().get(0).map(|r| r.messages.len()), Some(0));
}

#[test]
fn sender_is_compared_with_the_empty_id_when_the_user_is_unknown() {
    let mut app = App::new(None);
    app.add_room(None, "!r:example.org".to_string(), Vec::new(), Vec::new(), HOME);
    assert!(app
        .add_message("!r:example.org", "t".to_string(), "".to_string(), "x".to_string())
        .is_none());
    assert!(app
        .add_message("!r:example.org", "t".to_string(), "@a:example.org".to_string(), "x".to_string())
        .is_some());
    assert_eq!(app.rooms().get(0).map(|r| r.messages.len()), Some(2));
}

#[test]
fn messages_do_not_pull_a_scrolled_timeline_down() {
    let mut app = app_with_rooms(&["!r1:example.org"]);
    for n in 0..3u64 {
        app.handle_matrix_message_event(
            message("!r1:example.org", n * 1000, "@alice:example.org", "hello"),
            HOME,
        );
    }
    app.handle_key(Key::Down);
    go_to(&mut app, Tabs::Messages);
    app.handle_key(Key::Up);
    assert_eq!(app.rooms().current().map(|r| r.messages.selected()), Some(Some(1)));
    assert_eq!(app.rooms().current().map(|r| r.messages.mode()), Some(MessageViewMode::Scroll));
    app.handle_matrix_message_event(
        message("!r1:example.org", 9000, "@alice:example.org", "new"),
        HOME,
    );
    assert_eq!(app.rooms().current().map(|r| r.messages.selected()), Some(Some(1)));
    app.handle_key(Key::Down);
    app.handle_key(Key::Down);
    assert_eq!(app.rooms().current().map(|r| r.messages.selected()), Some(Some(3)));
    assert_eq!(app.rooms().current().map(|r| r.messages.mode()), Some(MessageViewMode::Follow));
}

#[test]
fn join_of_someone_else_is_put_on_the_roster_once() {
    let mut app = app_with_rooms(&["!r1:example.org"]);
    let event = || membership("!r1:example.org", MembershipState::Join, "@carol:example.org", Some("Carol"));
    assert_eq!(app.handle_matrix_room_event(event()), RoomAction::Nothing);
    assert_eq!(app.handle_matrix_room_event(event()), RoomAction::Nothing);
    let room = app.rooms().get(0).expect("room");
    assert_eq!(room.members.len(), 4);
    assert_eq!(
        room.members.get(3),
        Some(&("Carol".to_string(), "@carol:example.org".to_string()))
    );
    app.handle_matrix_room_event(membership("!r1:example.org", MembershipState::Join, "@dan:example.org", None));
    assert_eq!(
        app.rooms().get(0).and_then(|r| r.members.get(4)),
        Some(&("@dan:example.org".to_string(), "@dan:example.org".to_string()))
    );
    assert_eq!(
        app.handle_matrix_room_event(membership("!r1:example.org", MembershipState::Join, ME, Some("Me"))),
        RoomAction::Nothing
    );
    assert_eq!(app.rooms().get(0).map(|r| r.members.len()), Some(5));
}

#[test]
fn own_join_of_an_unknown_room_asks_for_the_room() {
    let mut app = app_with_rooms(&["!r1:example.org"]);
    let action =
        app.handle_matrix_room_event(membership("!new:example.org", MembershipState::Join, ME, Some("Me")));
    assert_eq!(action, RoomAction::LoadRoom);
    assert_eq!(app.rooms().len(), 1);
    app.add_room(
        Some("New".to_string()),
        "!new:example.org".to_string(),
        Vec::new(),
        vec![HistoryEvent::Other],
        HOME,
    );
    assert_eq!(app.rooms().len(), 2);
    let again =
        app.handle_matrix_room_event(membership("!new:example.org", MembershipState::Join, ME, Some("Me")));
    assert_eq!(again, RoomAction::Nothing);
    assert_eq!(app.rooms().len(), 2);
    app.add_room(None, "!new:example.org".to_string(), Vec::new(), Vec::new(), HOME);
    assert_eq!(app.rooms().len(), 2);
    assert_eq!(app.rooms().get(1).map(|r| r.name.as_str()), Some("New"));
}

#[test]
fn events_for_unknown_rooms_are_dropped() {
    let mut app = app_with_rooms(&["!r1:example.org"]);
    for state in [MembershipState::Join, MembershipState::Leave, MembershipState::Other] {
        let action =
            app.handle_matrix_room_event(membership("!x:example.org", state, "@carol:example.org", None));
        assert_eq!(action, RoomAction::Nothing);
    }
    assert_eq!(
        app.handle_matrix_room_event(membership("!x:example.org", MembershipState::Leave, ME, None)),
        RoomAction::Nothing
    );
    assert_eq!(
        app.handle_matrix_room_event(membership("!r1:example.org", MembershipState::Other, "@alice:example.org", None)),
        RoomAction::Nothing
    );
    assert_eq!(app.rooms().len(), 1);
    assert_eq!(app.rooms().get(0).map(|r| r.members.len()), Some(3));
}

#[test]
fn leave_of_someone_else_takes_the_member_off_the_roster() {
    let mut app = app_with_rooms(&["!r1:example.org"]);
    app.handle_key(Key::Down);
    go_to(&mut app, Tabs::Members);
    app.handle_key(Key::Down);
    app.handle_key(Key::Down);
    assert_eq!(app.rooms().current().map(|r| r.members.selected()), Some(Some(1)));
    app.handle_matrix_room_event(membership("!r1:example.org", MembershipState::Leave, "@alice:example.org", None));
    let room = app.rooms().current().expect("room");
    assert_eq!(room.members.len(), 2);
    assert_eq!(room.members.selected(), None);
    assert_eq!(app.current_tab(), Tabs::Members);
    app.handle_matrix_room_event(membership("!r1:example.org", MembershipState::Leave, "@nobody:example.org", None));
    assert_eq!(app.rooms().current().map(|r| r.members.len()), Some(2));
}

#[test]
fn without_a_local_user_membership_events_are_ignored() {
    let mut app = App::new(None);
    app.add_room(None, "!r:example.org".to_string(), Vec::new(), Vec::new(), HOME);
    let action = app.handle_matrix_room_event(membership("!r:example.org", MembershipState::Join, "@a:example.org", None));
    assert_eq!(action, RoomAction::Nothing);
    assert_eq!(app.rooms().get(0).map(|r| r.members.len()), Some(0));
    app.handle_matrix_room_event(membership("!r:example.org", MembershipState::Leave, "", None));
    assert_eq!(app.rooms().len(), 1);
}

#[test]
fn empty_input_sends_nothing() {
    let mut app = app_with_rooms(&["!r1:example.org"]);
    app.handle_key(Key::Down);
    go_to(&mut app, Tabs::Input);
    assert!(is_nothing(&app.handle_key(Key::Enter)));
    assert_eq!(app.submit_input(), None);
    assert_eq!(app.input(), "");
}

#[test]
fn typed_text_is_sent_to_the_selected_room() {
    let mut app = app_with_rooms(&["!a:example.org", "!b:example.org"]);
    app.handle_key(Key::Down);
    app.handle_key(Key::Down);
    go_to(&mut app, Tabs::Input);
    for c in "helo".chars() {
        assert!(is_nothing(&app.handle_key(Key::Char(c))));
    }
    assert_eq!(app.input(), "helo");
    app.handle_key(Key::Backspace);
    app.handle_key(Key::Char('l'));
    app.handle_key(Key::Char('o'));
    app.handle_key(Key::Char('k'));
    app.handle_key(Key::Backspace);
    assert_eq!(app.input(), "hello");
    match app.handle_key(Key::Enter) {
        KeyAction::SendMessage { room_id, message } => {
            assert_eq!(room_id, "!b:example.org");
            assert_eq!(message, "hello");
        }
        _ => panic!("the message is to be sent"),
    }
    assert_eq!(app.input(), "");
    assert!(is_nothing(&app.handle_key(Key::Enter)));
    app.handle_key(Key::Backspace);
    assert_eq!(app.input(), "");
}

#[test]
fn keys_outside_the_input_tab_do_not_type() {
    let mut app = app_with_rooms(&["!r1:example.org"]);
    for tab in [Tabs::Room, Tabs::Messages] {
        go_to(&mut app, tab);
        assert!(is_nothing(&app.handle_key(Key::Char('x'))));
        assert!(is_nothing(&app.handle_key(Key::Char('k'))));
        assert!(is_nothing(&app.handle_key(Key::Backspace)));
        assert!(is_nothing(&app.handle_key(Key::Enter)));
        assert!(is_nothing(&app.handle_key(Key::Other)));
        assert_eq!(app.input(), "");
        assert_eq!(app.submit_input(), None);
    }
}

#[test]
fn escape_ends_the_session_in_every_tab() {
    let mut app = app_with_rooms(&["!r1:example.org"]);
    app.handle_key(Key::Down);
    for _ in 0..4 {
        assert!(matches!(app.handle_key(Key::Esc), KeyAction::Quit));
        app.next_tab();
    }
}

#[test]
fn kick_key_names_the_selected_member() {
    let mut app = app_with_rooms(&["!r1:example.org"]);
    app.handle_key(Key::Down);
    go_to(&mut app, Tabs::Members);
    assert!(is_nothing(&app.handle_key(Key::Char('k'))));
    assert_eq!(app.kick_target(), None);
    app.handle_key(Key::Down);
    app.handle_key(Key::Down);
    app.handle_key(Key::Down);
    app.handle_key(Key::Down);
    assert_eq!(
        app.kick_target(),
        Some(("!r1:example.org".to_string(), "@bob:example.org".to_string()))
    );
    match app.handle_key(Key::Char('k')) {
        KeyAction::KickUser { room_id, user_id } => {
            assert_eq!(room_id, "!r1:example.org");
            assert_eq!(user_id, "@bob:example.org");
        }
        _ => panic!("the member is to be removed"),
    }
    assert!(is_nothing(&app.handle_key(Key::Char('x'))));
    assert_eq!(app.rooms().current().map(|r| r.members.len()), Some(3));
}

#[test]
fn arrow_keys_move_only_the_list_of_the_current_tab() {
    let mut app = app_with_rooms(&["!a:example.org", "!b:example.org"]);
    for n in 0..3u64 {
        app.handle_matrix_message_event(message("!a:example.org", n, "@alice:example.org", "x"), HOME);
    }
    app.handle_key(Key::Down);
    assert_eq!(app.rooms().selected(), Some(0));
    go_to(&mut app, Tabs::Messages);
    app.handle_key(Key::Up);
    assert_eq!(app.rooms().selected(), Some(0));
    assert_eq!(app.rooms().current().map(|r| r.messages.selected()), Some(Some(1)));
    assert_eq!(app.rooms().current().map(|r| r.members.selected()), Some(None));
    go_to(&mut app, Tabs::Input);
    app.handle_key(Key::Up);
    app.handle_key(Key::Down);
    assert_eq!(app.rooms().selected(), Some(0));
    assert_eq!(app.rooms().current().map(|r| r.messages.selected()), Some(Some(1)));
    go_to(&mut app, Tabs::Members);
    app.handle_key(Key::Down);
    assert_eq!(app.rooms().current().map(|r| r.members.selected()), Some(Some(0)));
    assert_eq!(app.rooms().current().map(|r| r.messages.selected()), Some(Some(1)));
    assert_eq!(app.rooms().get(1).map(|r| r.members.selected()), Some(None));
    go_to(&mut app, Tabs::Room);
    app.select_next();
    assert_eq!(app.rooms().selected(), Some(1));
    app.select_previous();
    assert_eq!(app.rooms().selected(), Some(0));
}

#[test]
fn tabs_follow_each_other() {
    assert_eq!(Tabs::Room.next(true), Tabs::Messages);
    assert_eq!(Tabs::Room.next(false), Tabs::Messages);
    assert_eq!(Tabs::Messages.next(true), Tabs::Input);
    assert_eq!(Tabs::Messages.next(false), Tabs::Room);
    assert_eq!(Tabs::Input.next(true), Tabs::Members);
    assert_eq!(Tabs::Members.next(true), Tabs::Room);
    assert_eq!(Tabs::Members.next(false), Tabs::Room);
}
