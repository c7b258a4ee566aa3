use matrix_tui::content::{MediaSource, MessageType};
use matrix_tui::messages::MessageViewMode;
use matrix_tui::room::{gather_history, member_entries, reversed, HistoryEvent, Room};
use matrix_tui::rooms::ScrollableRoomList;

const HOME: &str = "https://matrix.example.org/";

fn text_event(timestamp: u64, sender: &str, body: &str) -> HistoryEvent {
    HistoryEvent::Message {
        timestamp,
        sender: sender.to_string(),
        content: MessageType::Text { body: body.to_string() },
    }
}

fn triple(a: &str, b: &str, c: &str) -> (String, String, String) {
    (a.to_string(), b.to_string(), c.to_string())
}

fn room(id: &str) -> Room {
    Room::new(Some(format!("Room {}", id)), id.to_string(), Vec::new(), Vec::new(), HOME)
}

#[test]
fn backfill_is_turned_into_chronological_order() {
    let history = vec![
        text_event(3000, "@carol:example.org", "m3"),
        text_event(2000, "@bob:example.org", "m2"),
        text_event(1000, "@alice:example.org", "m1"),
    ];
    let room = Room::new(Some("Lobby".to_string()), "!r1:example.org".to_string(), Vec::new(), history, HOME);
    assert_eq!(room.name, "Lobby");
    assert_eq!(room.id, "!r1:example.org");
    assert_eq!(room.messages.len(), 3);
    assert_eq!(room.messages.get(0), Some(&triple("01/01/1970 00:00:01", "@alice:example.org", "m1")));
    assert_eq!(room.messages.get(1), Some(&triple("01/01/1970 00:00:02", "@bob:example.org", "m2")));
    assert_eq!(room.messages.get(2), Some(&triple("01/01/1970 00:00:03", "@carol:example.org", "m3")));
    assert_eq!(room.messages.selected(), Some(2));
    assert_eq!(room.messages.mode(), MessageViewMode::Follow);
}

#[test]
fn backfill_stops_at_the_first_failure() {
    let history = vec![
        text_event(5000, "@a:example.org", "newest"),
        HistoryEvent::Other,
        text_event(4000, "@b:example.org", "older"),
        HistoryEvent::Failed,
        text_event(3000, "@c:example.org", "lost"),
        HistoryEvent::Failed,
    ];
    let messages = gather_history(history, HOME);
    assert_eq!(
        messages,
        vec![
            triple("01/01/1970 00:00:05", "@a:example.org", "newest"),
            triple("01/01/1970 00:00:04", "@b:example.org", "older"),
        ]
    );
    let room = Room::new(
        None,
        "!r:example.org".to_string(),
        Vec::new(),
        vec![HistoryEvent::Failed, text_event(1, "@a:example.org", "x")],
        HOME,
    );
    assert_eq!(room.messages.len(), 0);
    assert_eq!(room.messages.selected(), None);
}

#[test]
fn backfill_renders_content_and_falls_back_to_the_epoch() {
    let history = vec![
        HistoryEvent::Message {
            timestamp: u64::MAX,
            sender: "@a:example.org".to_string(),
            content: MessageType::Image {
                body: "cat.png".to_string(),
                source: MediaSource::Plain("mxc://example.org/cat".to_string()),
            },
        },
    ];
    let messages = gather_history(history, HOME);
    assert_eq!(
        messages,
        vec![triple(
            "01/01/1970 00:00:00",
            "@a:example.org",
            "Has send image: cat.png https://matrix.example.org/_matrix/media/r0/download/example.org/cat"
        )]
    );
}

#[test]
fn room_without_a_name_is_called_unknown() {
    let room = Room::new(None, "!r:example.org".to_string(), Vec::new(), Vec::new(), HOME);
    assert_eq!(room.name, "Unknown name");
    assert_eq!(room.messages.len(), 0);
    assert_eq!(room.members.len(), 0);
}

#[test]
fn member_without_a_display_name_is_shown_by_user_id() {
    let members = vec![
        (Some("Alice".to_string()), "@alice:example.org".to_string()),
        (None, "@bob:example.org".to_string()),
    ];
    assert_eq!(
        member_entries(members.clone()),
        vec![
            ("Alice".to_string(), "@alice:example.org".to_string()),
            ("@bob:example.org".to_string(), "@bob:example.org".to_string()),
        ]
    );
    let room = Room::new(None, "!r:example.org".to_string(), members, Vec::new(), HOME);
    assert_eq!(room.members.len(), 2);
    assert_eq!(
        room.members.get(1),
        Some(&("@bob:example.org".to_string(), "@bob:example.org".to_string()))
    );
    assert_eq!(room.members.selected(), None);
}

#[test]
fn reversed_turns_a_list_round() {
    assert_eq!(reversed(vec![1, 2, 3]), vec![3, 2, 1]);
    assert_eq!(reversed(Vec::<u8>::new()), Vec::<u8>::new());
    assert_eq!(reversed(vec!['x']), vec!['x']);
}

#[test]
fn directory_ignores_a_room_id_it_already_has() {
    let mut rooms = ScrollableRoomList::new();
    assert_eq!(rooms.len(), 0);
    rooms.add(room("!a:example.org"));
    rooms.add(room("!b:example.org"));
    rooms.add_room(Some("Other A".to_string()), "!a:example.org".to_string(), Vec::new(), Vec::new(), HOME);
    assert_eq!(rooms.len(), 2);
    assert_eq!(rooms.get(0).map(|r| r.name.as_str()), Some("Room !a:example.org"));
    assert_eq!(rooms.position(&"!b:example.org".to_string()), Some(1));
    assert_eq!(rooms.position(&"!c:example.org".to_string()), None);
    assert!(rooms.remove_by_id("!a:example.org"));
    rooms.add_room(Some("Other A".to_string()), "!a:example.org".to_string(), Vec::new(), Vec::new(), HOME);
    assert_eq!(rooms.len(), 2);
    assert_eq!(rooms.get(1).map(|r| r.name.as_str()), Some("Other A"));
    for i in 0..rooms.len() {
        for j in 0..i {
            assert_ne!(rooms.get(i).map(|r| r.id.clone()), rooms.get(j).map(|r| r.id.clone()));
        }
    }
}

#[test]
fn directory_navigation_stops_at_both_ends() {
    let mut rooms = ScrollableRoomList::new();
    rooms.next_room();
    assert_eq!(rooms.selected(), None);
    assert!(rooms.get_current_room().is_none());
    rooms.add(room("!a:example.org"));
    rooms.add(room("!b:example.org"));
    rooms.add(room("!c:example.org"));
    assert_eq!(rooms.selected(), None);
    rooms.next_room();
    assert_eq!(rooms.selected(), Some(0));
    rooms.next_room();
    rooms.next_room();
    rooms.next_room();
    assert_eq!(rooms.selected(), Some(2));
    assert_eq!(rooms.current().map(|r| r.id.as_str()), Some("!c:example.org"));
    rooms.previous_room();
    rooms.previous_room();
    rooms.previous_room();
    assert_eq!(rooms.selected(), Some(0));
    assert_eq!(rooms.get_current_room().map(|r| r.id.clone()), Some("!a:example.org".to_string()));
}

#[test]
fn directory_remove_selected_deselects() {
    let mut rooms = ScrollableRoomList::new();
    rooms.add(room("!a:example.org"));
    rooms.add(room("!b:example.org"));
    rooms.add(room("!c:example.org"));
    rooms.next_room();
    rooms.next_room();
    assert!(rooms.remove_by_id("!a:example.org"));
    assert_eq!(rooms.selected(), Some(0));
    assert_eq!(rooms.current().map(|r| r.id.as_str()), Some("!b:example.org"));
    assert!(!rooms.remove_by_id("!a:example.org"));
    assert!(rooms.remove_by_id("!b:example.org"));
    assert_eq!(rooms.selected(), None);
    assert!(rooms.current().is_none());
    assert_eq!(rooms.len(), 1);
}

#[test]
fn directory_hands_out_rooms_for_change() {
    let mut rooms = ScrollableRoomList::new();
    rooms.add(room("!a:example.org"));
    rooms.add(room("!b:example.org"));
    match rooms.find_by_id("!b:example.org") {
        Some(r) => r.messages.add_message("t".to_string(), "@a:example.org".to_string(), "hi".to_string()),
        None => panic!("room not found"),
    }
    assert!(rooms.find_by_id("!x:example.org").is_none());
    assert_eq!(rooms.get(1).map(|r| r.messages.len()), Some(1));
    assert_eq!(rooms.get(0).map(|r| r.messages.len()), Some(0));
    assert!(rooms.get(2).is_none());
}
