//! The directory of rooms: the rooms the user has joined, at most one per
//! room id, with a selection.

use crate::collection::{
    index_after_removal,
    next_index,
    previous_index,
    selection_valid,
    ScrollableCollection,
};
use crate::ids::{lemma_index_of_first, lemma_push_keeps_distinct, lemma_remove_keeps_distinct};
use crate::room::{HistoryEvent, Room, RoomView};
use vstd::prelude::*;

verus! {

/// The views of stored rooms, in order.
pub open spec fn rooms_view(rooms: Seq<Room>) -> Seq<RoomView> {
    rooms.map_values(|r: Room| r@)
}

/// What a directory is, for the purposes of its contracts.
pub struct DirectoryView {
    /// The rooms, in the order they were added.
    pub rooms: Seq<RoomView>,
    /// The selected index, if any.
    pub selected: Option<usize>,
}

impl DirectoryView {
    /// The room ids, in order.
    pub open spec fn ids(self) -> Seq<Seq<char>> {
        self.rooms.map_values(|r: RoomView| r.id)
    }

    /// A directory is valid when its rooms can be counted in a `usize`, the
    /// selection, if set, points at a room, no room id occurs twice, and
    /// every room is valid.
    pub open spec fn wf(self) -> bool {
        &&& self.rooms.len() <= usize::MAX
        &&& selection_valid(self.selected, self.rooms.len() as int)
        &&& self.ids().no_duplicates()
        &&& forall|i: int| 0 <= i < self.rooms.len() ==> (#[trigger] self.rooms[i]).wf()
    }

    /// Whether a room with this id is in the directory.
    pub open spec fn contains(self, id: Seq<char>) -> bool {
        self.ids().contains(id)
    }

    /// The index of the room with this id, if there is one.
    pub open spec fn find(self, id: Seq<char>) -> Option<int> {
        self.ids().index_of_first(id)
    }

    /// The selected room, if any.
    pub open spec fn current(self) -> Option<RoomView> {
        match self.selected {
            Some(i) => Some(self.rooms[i as int]),
            None => None,
        }
    }

    /// The empty directory.
    pub open spec fn empty() -> DirectoryView {
        DirectoryView { rooms: Seq::empty(), selected: None }
    }

    /// One step forward in the directory.
    pub open spec fn next(self) -> DirectoryView {
        DirectoryView {
            rooms: self.rooms,
            selected: next_index(self.selected, self.rooms.len() as usize),
        }
    }

    /// One step backward in the directory.
    pub open spec fn previous(self) -> DirectoryView {
        DirectoryView {
            rooms: self.rooms,
            selected: previous_index(self.selected, self.rooms.len() as usize),
        }
    }

    /// The directory with the room at `index` replaced.
    pub open spec fn with_room(self, index: int, room: RoomView) -> DirectoryView {
        DirectoryView { rooms: self.rooms.update(index, room), selected: self.selected }
    }

    /// A room is added at the end, unless a room with its id is already in
    /// the directory, in which case nothing changes.
    pub open spec fn add(self, room: RoomView) -> DirectoryView {
        if self.contains(room.id) {
            self
        } else {
            DirectoryView { rooms: self.rooms.push(room), selected: self.selected }
        }
    }

    /// The room with this id is taken out, and the selection is dropped if
    /// it pointed at that room. Nothing changes if there is no such room.
    pub open spec fn remove(self, id: Seq<char>) -> DirectoryView {
        match self.find(id) {
            Some(i) => DirectoryView {
                rooms: self.rooms.remove(i),
                selected: index_after_removal(self.selected, i),
            },
            None => self,
        }
    }
}

/// Scrollable list of rooms.
pub struct ScrollableRoomList {
    list: ScrollableCollection<Room>,
}

impl View for ScrollableRoomList {
    type V = DirectoryView;

    closed spec fn view(&self) -> DirectoryView {
        DirectoryView { rooms: rooms_view(self.list@), selected: self.list.selection() }
    }
}

impl ScrollableRoomList {
    /// The directory is valid (see [`DirectoryView::wf`]).
    pub open spec fn wf(&self) -> bool {
        self@.wf()
    }

    /// An empty directory.
    pub fn new() -> (r: ScrollableRoomList)
        ensures
            r.wf(),
            r@ == DirectoryView::empty(),
    {
        proof {
            assert(rooms_view(Seq::empty()) =~= Seq::empty());
        }
        ScrollableRoomList { list: ScrollableCollection::new() }
    }

    /// The index of the room with this id, if there is one.
    pub fn position(&self, id: &String) -> (r: Option<usize>)
        ensures
            match r {
                Some(i) => self@.find(id@) == Some(i as int) && i < self@.rooms.len(),
                None => self@.find(id@).is_none(),
            },
    {
        let mut i: usize = 0;
        let len: usize = self.list.len();
        while i < len
            invariant
                i <= len,
                len == self@.rooms.len(),
                forall|j: int| 0 <= j < i ==> #[trigger] self@.ids()[j] != id@,
            decreases len - i,
        {
            match self.list.get(i) {
                Some(room) => {
                    if room.id == *id {
                        proof {
                            lemma_index_of_first(self@.ids(), id@);
                            assert(self@.ids()[i as int] == id@);
                        }
                        return Some(i);
                    }
                },
                None => {},
            }
            i = i + 1;
        }
        proof {
            lemma_index_of_first(self@.ids(), id@);
        }
        None
    }

    /// Adds a room unless one with its id is already in the directory.
    pub fn add(&mut self, room: Room)
        requires
            old(self).wf(),
            room.wf(),
        ensures
            final(self).wf(),
            final(self)@ == old(self)@.add(room@),
    {
        proof {
            lemma_index_of_first(self@.ids(), room.id@);
        }
        if self.position(&room.id).is_none() {
            proof {
                lemma_push_keeps_distinct(self@.ids(), room.id@);
            }
            self.list.push(room);
            let _ = self.list.len();
            proof {
                assert(rooms_view(self.list@) =~= rooms_view(old(self).list@).push(room@));
                assert(self@.ids() =~= old(self)@.ids().push(room.id@));
            }
        }
    }

    /// Adds a room as first observed (see [`Room::new`]), unless one with
    /// its id is already in the directory.
    pub fn add_room(
        &mut self,
        name: Option<String>,
        id: String,
        members: Vec<(Option<String>, String)>,
        history: Vec<HistoryEvent>,
        homeserver_url: &str,
    )
        requires
            old(self).wf(),
        ensures
            final(self).wf(),
            final(self)@ == old(self)@.add(
                Room::initial(name, id@, members@, history@, homeserver_url@),
            ),
    {
        let room = Room::new(name, id, members, history, homeserver_url);
        self.add(room);
    }

    /// Removes the room with this id and says whether there was one. The
    /// selection is dropped if it pointed at the removed room.
    pub fn remove_by_id(&mut self, id: &str) -> (r: bool)
        requires
            old(self).wf(),
        ensures
            final(self).wf(),
            r == old(self)@.contains(id@),
            final(self)@ == old(self)@.remove(id@),
    {
        let wanted = String::from_str(id);
        proof {
            lemma_index_of_first(self@.ids(), id@);
        }
        match self.position(&wanted) {
            Some(i) => {
                proof {
                    lemma_remove_keeps_distinct(self@.ids(), i as int);
                }
                let _ = self.list.remove(i);
                proof {
                    assert(rooms_view(self.list@) =~= rooms_view(old(self).list@).remove(i as int));
                    assert(self@.ids() =~= old(self)@.ids().remove(i as int));
                }
                true
            },
            None => false,
        }
    }

    /// Change the selected room to the next one, stopping at the last.
    pub fn next_room(&mut self)
        requires
            old(self).wf(),
        ensures
            final(self).wf(),
            final(self)@ == old(self)@.next(),
    {
        self.list.next();
    }

    /// Change the selected room to the previous one, stopping at the first.
    pub fn previous_room(&mut self)
        requires
            old(self).wf(),
        ensures
            final(self).wf(),
            final(self)@ == old(self)@.previous(),
    {
        self.list.previous();
    }

    /// Returns the selected room. What the caller writes through the
    /// reference takes the place of that room in the directory; the
    /// directory stays valid as long as the room keeps its id and stays
    /// valid.
    pub fn get_current_room(&mut self) -> (r: Option<&mut Room>)
        requires
            old(self).wf(),
        ensures
            match (r, old(self)@.selected) {
                (Some(room), Some(i)) => room@ == old(self)@.rooms[i as int] && final(self)@
                    == old(self)@.with_room(i as int, final(room)@),
                (None, None) => final(self)@ == old(self)@,
                _ => false,
            },
    {
        let ghost before = self.list@;
        let ghost selected = self.list.selection();
        match self.list.get_selected_mut() {
            Some(room) => {
                proof {
                    let i = selected.unwrap() as int;
                    assert(rooms_view(before.update(i, *final(room))) =~= rooms_view(
                        before,
                    ).update(i, final(room)@));
                }
                Some(room)
            },
            None => None,
        }
    }

    /// Returns the room with this id, if there is one. What the caller
    /// writes through the reference takes the place of that room in the
    /// directory; the directory stays valid as long as the room keeps its
    /// id and stays valid.
    pub fn find_by_id(&mut self, id: &str) -> (r: Option<&mut Room>)
        ensures
            match (r, old(self)@.find(id@)) {
                (Some(room), Some(i)) => 0 <= i < old(self)@.rooms.len() && room@ == old(
                    self,
                )@.rooms[i] && final(self)@ == old(self)@.with_room(i, final(room)@),
                (None, None) => final(self)@ == old(self)@,
                _ => false,
            },
    {
        let wanted = String::from_str(id);
        let ghost before = self.list@;
        match self.position(&wanted) {
            Some(index) => match self.list.get_mut(index) {
                Some(room) => {
                    proof {
                        assert(rooms_view(before.update(index as int, *final(room)))
                            =~= rooms_view(before).update(index as int, final(room)@));
                    }
                    Some(room)
                },
                None => None,
            },
            None => None,
        }
    }

    /// The number of rooms.
    pub fn len(&self) -> (r: usize)
        ensures
            r == self@.rooms.len(),
    {
        self.list.len()
    }

    /// The selected index, if any.
    pub fn selected(&self) -> (r: Option<usize>)
        ensures
            r == self@.selected,
    {
        self.list.selected()
    }

    /// The room at `index`, if there is one.
    pub fn get(&self, index: usize) -> (r: Option<&Room>)
        ensures
            match r {
                Some(room) => index < self@.rooms.len() && room@ == self@.rooms[index as int],
                None => index >= self@.rooms.len(),
            },
    {
        self.list.get(index)
    }

    /// The selected room, if any, for reading.
    pub fn current(&self) -> (r: Option<&Room>)
        requires
            self.wf(),
        ensures
            match r {
                Some(room) => self@.current() == Some(room@),
                None => self@.current().is_none(),
            },
    {
        self.list.get_selected()
    }
}

/// A change to the directory.
pub enum DirectoryOp {
    /// A room is added.
    Add(RoomView),
    /// The room with this id is removed.
    Remove(Seq<char>),
}

impl DirectoryView {
    /// The directory after one change.
    pub open spec fn apply(self, op: DirectoryOp) -> DirectoryView {
        match op {
            DirectoryOp::Add(room) => self.add(room),
            DirectoryOp::Remove(id) => self.remove(id),
        }
    }

    /// The directory after a sequence of changes.
    pub open spec fn apply_all(self, ops: Seq<DirectoryOp>) -> DirectoryView
        decreases ops.len(),
    {
        if ops.len() == 0 {
            self
        } else {
            self.apply_all(ops.drop_last()).apply(ops.last())
        }
    }
}

/// Adding a room keeps the room ids distinct, and so does removing one.
pub proof fn lemma_change_keeps_distinct(directory: DirectoryView, op: DirectoryOp)
    requires
        directory.ids().no_duplicates(),
    ensures
        directory.apply(op).ids().no_duplicates(),
{
    match op {
        DirectoryOp::Add(room) => {
            if !directory.contains(room.id) {
                lemma_push_keeps_distinct(directory.ids(), room.id);
                assert(directory.add(room).ids() =~= directory.ids().push(room.id));
            }
        },
        DirectoryOp::Remove(id) => {
            lemma_index_of_first(directory.ids(), id);
            match directory.find(id) {
                Some(i) => {
                    lemma_remove_keeps_distinct(directory.ids(), i);
                    assert(directory.remove(id).ids() =~= directory.ids().remove(i));
                },
                None => {},
            }
        },
    }
}

/// Whatever rooms are added and removed, in whatever order, no two rooms of
/// the directory ever have the same id.
pub proof fn lemma_ids_stay_distinct(directory: DirectoryView, ops: Seq<DirectoryOp>)
    requires
        directory.ids().no_duplicates(),
    ensures
        directory.apply_all(ops).ids().no_duplicates(),
        DirectoryView::empty().apply_all(ops).ids().no_duplicates(),
    decreases ops.len(),
{
    if ops.len() > 0 {
        lemma_ids_stay_distinct(directory, ops.drop_last());
        lemma_change_keeps_distinct(directory.apply_all(ops.drop_last()), ops.last());
        lemma_change_keeps_distinct(
            DirectoryView::empty().apply_all(ops.drop_last()),
            ops.last(),
        );
    }
}

/// Replacing a room by a valid room with the same id keeps the directory
/// valid and the ids as they are.
pub proof fn lemma_with_room_keeps_valid(directory: DirectoryView, index: int, room: RoomView)
    requires
        directory.wf(),
        0 <= index < directory.rooms.len(),
        room.wf(),
        room.id == directory.rooms[index].id,
    ensures
        directory.with_room(index, room).wf(),
        directory.with_room(index, room).ids() == directory.ids(),
{
}

} // verus!
