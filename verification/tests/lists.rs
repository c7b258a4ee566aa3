use matrix_tui::collection::ScrollableCollection;
use matrix_tui::members::ScrollableMemberList;
use matrix_tui::messages::{MessageViewMode, ScrollableMessageList};

fn msg(n: u32) -> (String, String, String) {
    (format!("t{}", n), format!("@user{}:example.org", n), format!("body {}", n))
}

fn member(name: &str, id: &str) -> (String, String) {
    (name.to_string(), id.to_string())
}

#[test]
fn collection_next_reaches_last_and_stays() {
    let mut list = ScrollableCollection::with_items(vec![10u32, 20, 30, 40]);
    assert_eq!(list.selected(), None);
    for expected in 0..4usize {
        list.next();
        assert_eq!(list.selected(), Some(expected));
    }
    list.next();
    assert_eq!(list.selected(), Some(3));
    list.next();
    assert_eq!(list.selected(), Some(3));
    assert_eq!(list.get_selected(), Some(&40));
}

#[test]
fn collection_previous_stops_at_first() {
    let mut list = ScrollableCollection::with_items(vec![1u8, 2, 3]);
    list.previous();
    assert_eq!(list.selected(), Some(0));
    list.previous();
    assert_eq!(list.selected(), Some(0));
    list.select(Some(2));
    list.previous();
    assert_eq!(list.selected(), Some(1));
}

#[test]
fn collection_empty_is_left_alone() {
    let mut list: ScrollableCollection<u8> = ScrollableCollection::new();
    list.next();
    assert_eq!(list.selected(), None);
    list.previous();
    assert_eq!(list.selected(), None);
    assert_eq!(list.get_selected(), None);
    assert_eq!(list.remove(0), None);
    assert_eq!(list.len(), 0);
}

#[test]
fn collection_select_checks_the_index() {
    let mut list = ScrollableCollection::with_items(vec![1u8, 2]);
    list.select(Some(1));
    assert_eq!(list.selected(), Some(1));
    list.select(Some(2));
    assert_eq!(list.selected(), None);
    list.select(Some(0));
    list.select(None);
    assert_eq!(list.selected(), None);
}

#[test]
fn collection_remove_keeps_the_selected_item() {
    let mut list = ScrollableCollection::with_items(vec!['a', 'b', 'c', 'd']);
    list.select(Some(2));
    assert_eq!(list.remove(0), Some('a'));
    assert_eq!(list.selected(), Some(1));
    assert_eq!(list.get_selected(), Some(&'c'));
    assert_eq!(list.remove(2), Some('d'));
    assert_eq!(list.selected(), Some(1));
    assert_eq!(list.remove(1), Some('c'));
    assert_eq!(list.selected(), None);
    assert_eq!(list.len(), 1);
    assert_eq!(list.get(0), Some(&'b'));
    assert_eq!(list.get(1), None);
}

#[test]
fn collection_get_mut_writes_in_place() {
    let mut list = ScrollableCollection::with_items(vec![1u8, 2, 3]);
    if let Some(item) = list.get_mut(1) {
        *item = 9;
    }
    assert_eq!(list.get(1), Some(&9));
    assert!(list.get_mut(3).is_none());
    assert!(list.get_selected_mut().is_none());
    list.select(Some(2));
    if let Some(item) = list.get_selected_mut() {
        *item = 7;
    }
    assert_eq!(list.get(2), Some(&7));
}

#[test]
fn timeline_starts_empty_and_following() {
    let list = ScrollableMessageList::new();
    assert_eq!(list.len(), 0);
    assert_eq!(list.selected(), None);
    assert_eq!(list.mode(), MessageViewMode::Follow);
}

#[test]
fn timeline_with_messages_selects_the_newest() {
    let list = ScrollableMessageList::with_messages(vec![msg(1), msg(2), msg(3)]);
    assert_eq!(list.len(), 3);
    assert_eq!(list.selected(), Some(2));
    assert_eq!(list.mode(), MessageViewMode::Follow);
    assert_eq!(list.get(0), Some(&msg(1)));
    assert_eq!(list.get(2), Some(&msg(3)));
    assert_eq!(list.get(3), None);
}

#[test]
fn timeline_with_no_messages_selects_nothing() {
    let list = ScrollableMessageList::with_messages(Vec::new());
    assert_eq!(list.selected(), None);
    assert_eq!(list.mode(), MessageViewMode::Follow);
}

#[test]
fn timeline_follows_new_messages() {
    let mut list = ScrollableMessageList::new();
    for n in 0..5u32 {
        let (t, s, b) = msg(n);
        list.add_message(t, s, b);
        assert_eq!(list.selected(), Some(n as usize));
        assert_eq!(list.mode(), MessageViewMode::Follow);
    }
    assert_eq!(list.get(4), Some(&msg(4)));
}

#[test]
fn timeline_scrolls_after_previous_and_follows_again_at_the_end() {
    let mut list = ScrollableMessageList::with_messages(vec![msg(1), msg(2), msg(3)]);
    list.previous_message();
    assert_eq!(list.selected(), Some(1));
    assert_eq!(list.mode(), MessageViewMode::Scroll);
    let (t, s, b) = msg(4);
    list.add_message(t, s, b);
    assert_eq!(list.len(), 4);
    assert_eq!(list.selected(), Some(1));
    assert_eq!(list.mode(), MessageViewMode::Scroll);
    list.next_message();
    assert_eq!(list.selected(), Some(2));
    assert_eq!(list.mode(), MessageViewMode::Scroll);
    list.next_message();
    assert_eq!(list.selected(), Some(3));
    assert_eq!(list.mode(), MessageViewMode::Follow);
    list.next_message();
    assert_eq!(list.selected(), Some(3));
    assert_eq!(list.mode(), MessageViewMode::Follow);
    let (t, s, b) = msg(5);
    list.add_message(t, s, b);
    assert_eq!(list.selected(), Some(4));
}

#[test]
fn timeline_previous_at_the_first_message_stays_and_scrolls() {
    let mut list = ScrollableMessageList::with_messages(vec![msg(1), msg(2)]);
    list.previous_message();
    assert_eq!(list.selected(), Some(0));
    list.previous_message();
    assert_eq!(list.selected(), Some(0));
    assert_eq!(list.mode(), MessageViewMode::Scroll);
}

#[test]
fn timeline_of_one_message_scrolls_after_previous() {
    let mut list = ScrollableMessageList::with_messages(vec![msg(1)]);
    assert_eq!(list.mode(), MessageViewMode::Follow);
    list.previous_message();
    assert_eq!(list.selected(), Some(0));
    assert_eq!(list.mode(), MessageViewMode::Scroll);
    assert_eq!(list.len(), 1);
    let (t, s, b) = msg(2);
    list.add_message(t, s, b);
    assert_eq!(list.selected(), Some(0));
    assert_eq!(list.mode(), MessageViewMode::Scroll);
    list.next_message();
    assert_eq!(list.selected(), Some(1));
    assert_eq!(list.mode(), MessageViewMode::Follow);
}

#[test]
fn timeline_of_one_message_follows_again_after_next() {
    let mut list = ScrollableMessageList::with_messages(vec![msg(1)]);
    list.previous_message();
    assert_eq!(list.mode(), MessageViewMode::Scroll);
    list.next_message();
    assert_eq!(list.selected(), Some(0));
    assert_eq!(list.mode(), MessageViewMode::Follow);
    let (t, s, b) = msg(2);
    list.add_message(t, s, b);
    assert_eq!(list.selected(), Some(1));
}

#[test]
fn timeline_navigation_on_empty_does_nothing() {
    let mut list = ScrollableMessageList::new();
    list.next_message();
    list.previous_message();
    assert_eq!(list.selected(), None);
    assert_eq!(list.mode(), MessageViewMode::Follow);
}

#[test]
fn roster_keeps_the_first_of_equal_user_ids() {
    let list = ScrollableMemberList::with_members(vec![
        member("Alice", "@alice:example.org"),
        member("Bob", "@bob:example.org"),
        member("Alice again", "@alice:example.org"),
    ]);
    assert_eq!(list.len(), 2);
    assert_eq!(list.selected(), None);
    assert_eq!(list.get(0), Some(&member("Alice", "@alice:example.org")));
    assert_eq!(list.get(1), Some(&member("Bob", "@bob:example.org")));
}

#[test]
fn roster_upsert_twice_gives_one_entry() {
    let mut list = ScrollableMemberList::new();
    list.upsert_or_ignore("Alice".to_string(), "@alice:example.org".to_string());
    list.upsert_or_ignore("Alice B".to_string(), "@alice:example.org".to_string());
    assert_eq!(list.len(), 1);
    assert_eq!(list.get(0), Some(&member("Alice", "@alice:example.org")));
    list.upsert_or_ignore("Bob".to_string(), "@bob:example.org".to_string());
    assert_eq!(list.len(), 2);
    assert_eq!(list.position(&"@bob:example.org".to_string()), Some(1));
    assert_eq!(list.position(&"@carol:example.org".to_string()), None);
}

#[test]
fn roster_remove_selected_deselects() {
    let mut list = ScrollableMemberList::with_members(vec![
        member("Alice", "@alice:example.org"),
        member("Bob", "@bob:example.org"),
    ]);
    list.next_member();
    list.next_member();
    assert_eq!(list.selected(), Some(1));
    assert_eq!(list.get_selected(), Some(&member("Bob", "@bob:example.org")));
    assert!(list.remove_by_user_id("@bob:example.org"));
    assert_eq!(list.selected(), None);
    assert_eq!(list.len(), 1);
    assert!(!list.remove_by_user_id("@bob:example.org"));
    assert_eq!(list.len(), 1);
}

#[test]
fn roster_remove_other_keeps_the_selected_member() {
    let mut list = ScrollableMemberList::with_members(vec![
        member("Alice", "@alice:example.org"),
        member("Bob", "@bob:example.org"),
        member("Carol", "@carol:example.org"),
    ]);
    list.next_member();
    list.next_member();
    list.next_member();
    assert_eq!(list.selected(), Some(2));
    assert!(list.remove_by_user_id("@alice:example.org"));
    assert_eq!(list.selected(), Some(1));
    assert_eq!(list.get_selected(), Some(&member("Carol", "@carol:example.org")));
    list.previous_member();
    assert!(list.remove_by_user_id("@carol:example.org"));
    assert_eq!(list.selected(), Some(0));
    assert_eq!(list.get_selected(), Some(&member("Bob", "@bob:example.org")));
}

#[test]
fn roster_navigation_stops_at_both_ends() {
    let mut list = ScrollableMemberList::with_members(vec![
        member("Alice", "@alice:example.org"),
        member("Bob", "@bob:example.org"),
    ]);
    list.previous_member();
    assert_eq!(list.selected(), Some(0));
    list.previous_member();
    assert_eq!(list.selected(), Some(0));
    list.next_member();
    list.next_member();
    list.next_member();
    assert_eq!(list.selected(), Some(1));
    list.deselect();
    assert_eq!(list.selected(), None);
    let mut empty = ScrollableMemberList::new();
    empty.next_member();
    empty.previous_member();
    assert_eq!(empty.selected(), None);
}
