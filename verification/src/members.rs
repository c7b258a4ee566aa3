//! The member roster of a room: (display name, user id) pairs, at most one
//! per user id, with a selection.

use crate::collection::{
    index_after_removal,
    next_index,
    previous_index,
    selection_valid,
    ScrollableCollection,
};
use crate::ids::{lemma_index_of_first, lemma_push_keeps_distinct, lemma_remove_keeps_distinct};
use vstd::prelude::*;

verus! {

/// A member as the contracts see it: the texts of the display name and of
/// the user id.
pub type MemberView = (Seq<char>, Seq<char>);

/// The texts of a stored member.
pub open spec fn member_view(member: (String, String)) -> MemberView {
    (member.0@, member.1@)
}

/// The texts of stored members, in order.
pub open spec fn members_view(members: Seq<(String, String)>) -> Seq<MemberView> {
    members.map_values(|m: (String, String)| member_view(m))
}

/// What a roster is, for the purposes of its contracts.
pub struct RosterView {
    /// The members as (display name, user id), in the order they were added.
    pub members: Seq<MemberView>,
    /// The selected index, if any.
    pub selected: Option<usize>,
}

impl RosterView {
    /// The user ids of the members, in order.
    pub open spec fn ids(self) -> Seq<Seq<char>> {
        self.members.map_values(|m: MemberView| m.1)
    }

    /// A roster is valid when its members can be counted in a `usize`, the
    /// selection, if set, points at a member, and no user id occurs twice.
    pub open spec fn wf(self) -> bool {
        &&& self.members.len() <= usize::MAX
        &&& selection_valid(self.selected, self.members.len() as int)
        &&& self.ids().no_duplicates()
    }

    /// Whether a member with this user id is on the roster.
    pub open spec fn contains(self, user_id: Seq<char>) -> bool {
        self.ids().contains(user_id)
    }

    /// The index of the member with this user id, if there is one.
    pub open spec fn find(self, user_id: Seq<char>) -> Option<int> {
        self.ids().index_of_first(user_id)
    }

    /// The empty roster.
    pub open spec fn empty() -> RosterView {
        RosterView { members: Seq::empty(), selected: None }
    }

    /// The roster that results from adding the given members one by one to
    /// an empty roster: of several entries with one user id the first stays.
    pub open spec fn of(members: Seq<MemberView>) -> RosterView
        decreases members.len(),
    {
        if members.len() == 0 {
            RosterView::empty()
        } else {
            RosterView::of(members.drop_last()).upsert_or_ignore(members.last().0, members.last().1)
        }
    }

    /// One step forward in the roster.
    pub open spec fn next(self) -> RosterView {
        RosterView {
            members: self.members,
            selected: next_index(self.selected, self.members.len() as usize),
        }
    }

    /// One step backward in the roster.
    pub open spec fn previous(self) -> RosterView {
        RosterView {
            members: self.members,
            selected: previous_index(self.selected, self.members.len() as usize),
        }
    }

    /// The same members with nothing selected.
    pub open spec fn deselect(self) -> RosterView {
        RosterView { members: self.members, selected: None }
    }

    /// A user joins: a new entry at the end, unless the user id is already
    /// on the roster, in which case nothing changes.
    pub open spec fn upsert_or_ignore(
        self,
        display_name: Seq<char>,
        user_id: Seq<char>,
    ) -> RosterView {
        if self.contains(user_id) {
            self
        } else {
            RosterView {
                members: self.members.push((display_name, user_id)),
                selected: self.selected,
            }
        }
    }

    /// A user leaves: the entry with this user id is taken out, and the
    /// selection is dropped if it pointed at that entry. Nothing changes if
    /// the user id is not on the roster.
    pub open spec fn remove(self, user_id: Seq<char>) -> RosterView {
        match self.find(user_id) {
            Some(i) => RosterView {
                members: self.members.remove(i),
                selected: index_after_removal(self.selected, i),
            },
            None => self,
        }
    }
}

/// `find` gives the one index at which a user id stands, and nothing if it
/// stands nowhere.
pub proof fn lemma_find(roster: RosterView, user_id: Seq<char>)
    ensures
        match roster.find(user_id) {
            Some(i) => {
                &&& roster.contains(user_id)
                &&& 0 <= i < roster.members.len()
                &&& roster.members[i].1 == user_id
                &&& forall|j: int| 0 <= j < i ==> (#[trigger] roster.members[j]).1 != user_id
                &&& roster.ids().no_duplicates() ==> forall|j: int|
                    0 <= j < roster.members.len() && j != i ==> (#[trigger] roster.members[j]).1
                        != user_id
            },
            None => {
                &&& !roster.contains(user_id)
                &&& forall|j: int|
                    0 <= j < roster.members.len() ==> (#[trigger] roster.members[j]).1 != user_id
            },
        },
{
    let ids = roster.ids();
    lemma_index_of_first(ids, user_id);
    assert forall|j: int| 0 <= j < roster.members.len() implies (#[trigger] roster.members[j]).1
        == ids[j] by {}
}

/// Adding a member whose user id is new keeps the user ids distinct.
proof fn lemma_join_keeps_distinct(roster: RosterView, display_name: Seq<char>, user_id: Seq<char>)
    requires
        roster.ids().no_duplicates(),
        !roster.contains(user_id),
    ensures
        roster.upsert_or_ignore(display_name, user_id).ids() == roster.ids().push(user_id),
        roster.upsert_or_ignore(display_name, user_id).ids().no_duplicates(),
{
    lemma_push_keeps_distinct(roster.ids(), user_id);
}

/// Taking a member out keeps the user ids distinct, and the user id is gone.
proof fn lemma_leave_keeps_distinct(roster: RosterView, index: int)
    requires
        roster.ids().no_duplicates(),
        0 <= index < roster.members.len(),
    ensures
        (RosterView { members: roster.members.remove(index), selected: None }).ids()
            == roster.ids().remove(index),
        roster.ids().remove(index).no_duplicates(),
        !roster.ids().remove(index).contains(roster.ids()[index]),
{
    lemma_remove_keeps_distinct(roster.ids(), index);
}

/// The members of one room with a selection.
pub struct ScrollableMemberList {
    list: ScrollableCollection<(String, String)>,
}

impl View for ScrollableMemberList {
    type V = RosterView;

    closed spec fn view(&self) -> RosterView {
        RosterView { members: members_view(self.list@), selected: self.list.selection() }
    }
}

impl ScrollableMemberList {
    /// The roster is valid (see [`RosterView::wf`]).
    pub open spec fn wf(&self) -> bool {
        self@.wf()
    }

    /// An empty roster.
    pub fn new() -> (r: ScrollableMemberList)
        ensures
            r.wf(),
            r@ == RosterView::empty(),
    {
        proof {
            assert(members_view(Seq::empty()) =~= Seq::empty());
        }
        ScrollableMemberList { list: ScrollableCollection::new() }
    }

    /// A roster of the given (display name, user id) pairs, with nothing
    /// selected. Of several pairs with one user id only the first is kept.
    pub fn with_members(members: Vec<(String, String)>) -> (r: ScrollableMemberList)
        ensures
            r.wf(),
            r@ == RosterView::of(members_view(members@)),
    {
        let mut roster = ScrollableMemberList::new();
        let mut i: usize = 0;
        while i < members.len()
            invariant
                i <= members.len(),
                roster.wf(),
                roster@ == RosterView::of(members_view(members@).subrange(0, i as int)),
            decreases members.len() - i,
        {
            let display_name = members[i].0.clone();
            let user_id = members[i].1.clone();
            proof {
                let all = members_view(members@);
                assert(all.subrange(0, i + 1).drop_last() =~= all.subrange(0, i as int));
            }
            roster.upsert_or_ignore(display_name, user_id);
            i = i + 1;
        }
        proof {
            let all = members_view(members@);
            assert(all.subrange(0, i as int) =~= all);
        }
        roster
    }

    /// The index of the member with this user id, if there is one.
    pub fn position(&self, user_id: &String) -> (r: Option<usize>)
        requires
            self.wf(),
        ensures
            match r {
                Some(i) => self@.find(user_id@) == Some(i as int),
                None => self@.find(user_id@).is_none(),
            },
    {
        let mut i: usize = 0;
        let len: usize = self.list.len();
        while i < len
            invariant
                i <= len,
                len == self@.members.len(),
                forall|j: int| 0 <= j < i ==> (#[trigger] self@.members[j]).1 != user_id@,
            decreases len - i,
        {
            match self.list.get(i) {
                Some(member) => {
                    if member.1 == *user_id {
                        proof {
                            lemma_find(self@, user_id@);
                            assert(self@.ids()[i as int] == user_id@);
                        }
                        return Some(i);
                    }
                },
                None => {},
            }
            i = i + 1;
        }
        proof {
            lemma_find(self@, user_id@);
        }
        None
    }

    /// Adds a member unless one with this user id is already on the roster.
    pub fn upsert_or_ignore(&mut self, display_name: String, user_id: String)
        requires
            old(self).wf(),
        ensures
            final(self).wf(),
            final(self)@ == old(self)@.upsert_or_ignore(display_name@, user_id@),
    {
        if self.position(&user_id).is_none() {
            proof {
                lemma_find(self@, user_id@);
                lemma_join_keeps_distinct(self@, display_name@, user_id@);
            }
            self.list.push((display_name, user_id));
            let _ = self.list.len();
            proof {
                assert(members_view(self.list@) =~= members_view(old(self).list@).push(
                    (display_name@, user_id@),
                ));
            }
        } else {
            proof {
                lemma_find(self@, user_id@);
            }
        }
    }

    /// Removes the member with this user id and says whether there was one.
    /// The selection is dropped if it pointed at the removed member.
    pub fn remove_by_user_id(&mut self, user_id: &str) -> (r: bool)
        requires
            old(self).wf(),
        ensures
            final(self).wf(),
            r == old(self)@.contains(user_id@),
            final(self)@ == old(self)@.remove(user_id@),
    {
        let wanted = String::from_str(user_id);
        proof {
            lemma_find(self@, user_id@);
        }
        match self.position(&wanted) {
            Some(i) => {
                proof {
                    lemma_leave_keeps_distinct(self@, i as int);
                }
                let _ = self.list.remove(i);
                proof {
                    assert(members_view(self.list@) =~= members_view(old(self).list@).remove(
                        i as int,
                    ));
                }
                true
            },
            None => false,
        }
    }

    /// Selects the next member, stopping at the last.
    pub fn next_member(&mut self)
        requires
            old(self).wf(),
        ensures
            final(self).wf(),
            final(self)@ == old(self)@.next(),
    {
        self.list.next();
    }

    /// Selects the previous member, stopping at the first.
    pub fn previous_member(&mut self)
        requires
            old(self).wf(),
        ensures
            final(self).wf(),
            final(self)@ == old(self)@.previous(),
    {
        self.list.previous();
    }

    /// Drops the selection.
    pub fn deselect(&mut self)
        requires
            old(self).wf(),
        ensures
            final(self).wf(),
            final(self)@ == old(self)@.deselect(),
    {
        self.list.select(None);
    }

    /// The number of members.
    pub fn len(&self) -> (r: usize)
        ensures
            r == self@.members.len(),
    {
        self.list.len()
    }

    /// The selected index, if any.
    pub fn selected(&self) -> (r: Option<usize>)
        ensures
            r == self@.selected,
    {
        self.list.selected()
    }

    /// The member at `index` as (display name, user id), if there is one.
    pub fn get(&self, index: usize) -> (r: Option<&(String, String)>)
        ensures
            match r {
                Some(member) => index < self@.members.len() && member_view(*member)
                    == self@.members[index as int],
                None => index >= self@.members.len(),
            },
    {
        self.list.get(index)
    }

    /// The selected member as (display name, user id), if any.
    pub fn get_selected(&self) -> (r: Option<&(String, String)>)
        requires
            self.wf(),
        ensures
            match (r, self@.selected) {
                (Some(member), Some(i)) => member_view(*member) == self@.members[i as int],
                (None, None) => true,
                _ => false,
            },
    {
        self.list.get_selected()
    }
}

/// Every transition of a valid roster gives a valid roster, as long as the
/// members can still be counted.
pub proof fn lemma_transitions_keep_valid(
    roster: RosterView,
    display_name: Seq<char>,
    user_id: Seq<char>,
    left: Seq<char>,
)
    requires
        roster.wf(),
    ensures
        RosterView::empty().wf(),
        roster.next().wf(),
        roster.previous().wf(),
        roster.deselect().wf(),
        roster.members.len() < usize::MAX ==> roster.upsert_or_ignore(display_name, user_id).wf(),
        roster.remove(left).wf(),
{
    if !roster.contains(user_id) {
        lemma_join_keeps_distinct(roster, display_name, user_id);
    }
    lemma_find(roster, left);
    match roster.find(left) {
        Some(i) => {
            lemma_leave_keeps_distinct(roster, i);
        },
        None => {},
    }
}

/// A user who joins twice, under whatever display names, is on the roster
/// exactly once, and the second join changes nothing.
pub proof fn lemma_upsert_twice(
    roster: RosterView,
    first_name: Seq<char>,
    second_name: Seq<char>,
    user_id: Seq<char>,
)
    requires
        roster.wf(),
    ensures
        roster.upsert_or_ignore(first_name, user_id).upsert_or_ignore(second_name, user_id)
            == roster.upsert_or_ignore(first_name, user_id),
        roster.upsert_or_ignore(first_name, user_id).ids().to_multiset().count(user_id) == 1,
        roster.upsert_or_ignore(first_name, user_id).ids().no_duplicates(),
{
    let after = roster.upsert_or_ignore(first_name, user_id);
    if !roster.contains(user_id) {
        lemma_join_keeps_distinct(roster, first_name, user_id);
        assert(after.ids()[roster.members.len() as int] == user_id);
    }
    after.ids().to_multiset_ensures();
    after.ids().lemma_multiset_has_no_duplicates();
}

/// When the selected member leaves, nothing is selected afterwards, the
/// user id is gone from the roster, and everyone else is still there.
pub proof fn lemma_remove_selected(roster: RosterView, index: usize)
    requires
        roster.wf(),
        roster.selected == Some(index),
    ensures
        roster.remove(roster.members[index as int].1).selected.is_none(),
        !roster.remove(roster.members[index as int].1).contains(roster.members[index as int].1),
        roster.remove(roster.members[index as int].1).members == roster.members.remove(
            index as int,
        ),
{
    let user_id = roster.members[index as int].1;
    lemma_find(roster, user_id);
    lemma_leave_keeps_distinct(roster, index as int);
}

/// Members whose user ids are all different make a roster as they are.
pub proof fn lemma_of_distinct(members: Seq<MemberView>)
    requires
        members.map_values(|m: MemberView| m.1).no_duplicates(),
    ensures
        RosterView::of(members).members == members,
        RosterView::of(members).selected.is_none(),
    decreases members.len(),
{
    if members.len() > 0 {
        let ids = members.map_values(|m: MemberView| m.1);
        let front = members.drop_last();
        let front_ids = front.map_values(|m: MemberView| m.1);
        assert(front_ids =~= ids.drop_last());
        lemma_of_distinct(front);
        let before = RosterView::of(front);
        if before.contains(members.last().1) {
            let k = choose|k: int| 0 <= k < front_ids.len() && front_ids[k] == members.last().1;
            assert(ids[k] == ids[members.len() - 1]);
        }
    }
}

} // verus!
