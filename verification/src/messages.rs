//! The message timeline of a room: messages in chronological order, a
//! selection, and the policy that decides whether the selection follows new
//! messages.

use crate::collection::{next_index, previous_index, ScrollableCollection};
use vstd::prelude::*;

verus! {

/// How the selection reacts to new messages.
#[derive(Debug, Clone, Copy, PartialEq, Eq, Structural)]
pub enum MessageViewMode {
    /// The newest message stays selected as messages arrive.
    Follow,
    /// The selection stays where the user put it.
    Scroll,
}

/// A message as the contracts see it: the texts of its timestamp, its
/// sender and its body.
pub type MessageView = (Seq<char>, Seq<char>, Seq<char>);

/// The texts of a stored message.
pub open spec fn message_view(message: (String, String, String)) -> MessageView {
    (message.0@, message.1@, message.2@)
}

/// The texts of stored messages, in order.
pub open spec fn messages_view(messages: Seq<(String, String, String)>) -> Seq<MessageView> {
    messages.map_values(|m: (String, String, String)| message_view(m))
}

/// What a timeline is, for the purposes of its contracts.
pub struct TimelineView {
    /// The messages as (timestamp, sender, body), oldest first.
    pub messages: Seq<MessageView>,
    /// The selected index, if any.
    pub selected: Option<usize>,
    /// The current policy.
    pub mode: MessageViewMode,
}

impl TimelineView {
    /// The index of the newest message, if there is one.
    pub open spec fn last(self) -> Option<usize> {
        if self.messages.len() == 0 {
            None
        } else {
            Some((self.messages.len() - 1) as usize)
        }
    }

    /// A timeline is valid when its messages can be counted in a `usize`,
    /// something is selected exactly if there is a message, an empty
    /// timeline follows, and a timeline follows only while its newest
    /// message is selected. A timeline may scroll with the newest message
    /// selected: that is where a step back at the first of one message
    /// leaves it.
    pub open spec fn wf(self) -> bool {
        &&& self.messages.len() <= usize::MAX
        &&& match self.selected {
            None => self.messages.len() == 0,
            Some(i) => i < self.messages.len(),
        }
        &&& (self.messages.len() == 0 ==> self.mode == MessageViewMode::Follow)
        &&& (self.mode == MessageViewMode::Follow ==> self.selected == self.last())
    }

    /// The empty timeline, which follows.
    pub open spec fn empty() -> TimelineView {
        TimelineView {
            messages: Seq::empty(),
            selected: None,
            mode: MessageViewMode::Follow,
        }
    }

    /// A timeline of messages already known, oldest first: it follows, with
    /// the newest message selected.
    pub open spec fn of(messages: Seq<MessageView>) -> TimelineView {
        TimelineView {
            messages,
            selected: if messages.len() == 0 {
                None
            } else {
                Some((messages.len() - 1) as usize)
            },
            mode: MessageViewMode::Follow,
        }
    }

    /// A new message arrives: it becomes the newest, and is selected if the
    /// timeline follows; otherwise the selection does not move.
    pub open spec fn append(self, message: MessageView) -> TimelineView {
        TimelineView {
            messages: self.messages.push(message),
            selected: if self.mode == MessageViewMode::Follow {
                Some(self.messages.len() as usize)
            } else {
                self.selected
            },
            mode: self.mode,
        }
    }

    /// One step towards newer messages. Landing on the newest message turns
    /// following on; any other landing place leaves the timeline scrolling.
    /// Nothing happens in an empty timeline.
    pub open spec fn next(self) -> TimelineView {
        if self.messages.len() == 0 {
            self
        } else {
            let selected = next_index(self.selected, self.messages.len() as usize);
            TimelineView {
                messages: self.messages,
                selected,
                mode: if selected == self.last() {
                    MessageViewMode::Follow
                } else {
                    MessageViewMode::Scroll
                },
            }
        }
    }

    /// One step towards older messages. The step turns following off
    /// wherever it lands, also where it cannot move because the first
    /// message is selected already. Nothing happens in an empty timeline.
    pub open spec fn previous(self) -> TimelineView {
        if self.messages.len() == 0 {
            self
        } else {
            TimelineView {
                messages: self.messages,
                selected: previous_index(self.selected, self.messages.len() as usize),
                mode: MessageViewMode::Scroll,
            }
        }
    }
}

/// The messages of one room with a selection that follows or scrolls.
pub struct ScrollableMessageList {
    list: ScrollableCollection<(String, String, String)>,
    mode: MessageViewMode,
}

impl View for ScrollableMessageList {
    type V = TimelineView;

    closed spec fn view(&self) -> TimelineView {
        TimelineView {
            messages: messages_view(self.list@),
            selected: self.list.selection(),
            mode: self.mode,
        }
    }
}

impl ScrollableMessageList {
    /// The timeline is valid (see [`TimelineView::wf`]).
    pub open spec fn wf(&self) -> bool {
        self@.wf()
    }

    /// An empty timeline.
    pub fn new() -> (r: ScrollableMessageList)
        ensures
            r.wf(),
            r@ == TimelineView::empty(),
    {
        proof {
            assert(messages_view(Seq::empty()) =~= Seq::empty());
        }
        ScrollableMessageList { list: ScrollableCollection::new(), mode: MessageViewMode::Follow }
    }

    /// A timeline of the given messages, oldest first, with the newest one
    /// selected.
    pub fn with_messages(messages: Vec<(String, String, String)>) -> (r: ScrollableMessageList)
        ensures
            r.wf(),
            r@ == TimelineView::of(messages_view(messages@)),
    {
        let len: usize = messages.len();
        let mut list = ScrollableCollection::with_items(messages);
        if len > 0 {
            list.select(Some(len - 1));
        }
        ScrollableMessageList { list, mode: MessageViewMode::Follow }
    }

    /// Adds a message sent at `time` by `sender`. While the timeline
    /// follows, the new message becomes the selected one.
    pub fn add_message(&mut self, time: String, sender: String, message: String)
        requires
            old(self).wf(),
        ensures
            final(self).wf(),
            final(self)@ == old(self)@.append((time@, sender@, message@)),
    {
        self.list.push((time, sender, message));
        let len: usize = self.list.len();
        proof {
            assert(messages_view(self.list@) =~= messages_view(old(self).list@).push(
                (time@, sender@, message@),
            ));
        }
        match self.mode {
            MessageViewMode::Follow => {
                self.list.select(Some(len - 1));
            },
            MessageViewMode::Scroll => {},
        }
    }

    /// Selects the next newer message.
    pub fn next_message(&mut self)
        requires
            old(self).wf(),
        ensures
            final(self).wf(),
            final(self)@ == old(self)@.next(),
    {
        let len: usize = self.list.len();
        if len == 0 {
            return ;
        }
        self.list.next();
        self.mode = match self.list.selected() {
            Some(i) => if i == len - 1 {
                MessageViewMode::Follow
            } else {
                MessageViewMode::Scroll
            },
            None => MessageViewMode::Scroll,
        };
    }

    /// Selects the next older message and turns following off.
    pub fn previous_message(&mut self)
        requires
            old(self).wf(),
        ensures
            final(self).wf(),
            final(self)@ == old(self)@.previous(),
    {
        let len: usize = self.list.len();
        if len == 0 {
            return ;
        }
        self.list.previous();
        self.mode = MessageViewMode::Scroll;
    }

    /// The number of messages.
    pub fn len(&self) -> (r: usize)
        ensures
            r == self@.messages.len(),
    {
        self.list.len()
    }

    /// The selected index, if any.
    pub fn selected(&self) -> (r: Option<usize>)
        ensures
            r == self@.selected,
    {
        self.list.selected()
    }

    /// The current policy.
    pub fn mode(&self) -> (r: MessageViewMode)
        ensures
            r == self@.mode,
    {
        self.mode
    }

    /// The message at `index` as (timestamp, sender, body), if there is one.
    pub fn get(&self, index: usize) -> (r: Option<&(String, String, String)>)
        ensures
            match r {
                Some(message) => index < self@.messages.len() && message_view(*message)
                    == self@.messages[index as int],
                None => index >= self@.messages.len(),
            },
    {
        self.list.get(index)
    }
}

/// The timeline after `steps` moves towards newer messages.
pub open spec fn next_repeated(timeline: TimelineView, steps: nat) -> TimelineView
    decreases steps,
{
    if steps == 0 {
        timeline
    } else {
        next_repeated(timeline, (steps - 1) as nat).next()
    }
}

/// Every transition of a valid timeline gives a valid timeline, as long as
/// the messages can still be counted.
pub proof fn lemma_transitions_keep_valid(timeline: TimelineView, message: MessageView)
    requires
        timeline.wf(),
    ensures
        TimelineView::empty().wf(),
        timeline.next().wf(),
        timeline.previous().wf(),
        timeline.messages.len() < usize::MAX ==> timeline.append(message).wf(),
{
}

/// A timeline that follows selects each message as it arrives, and keeps
/// following.
pub proof fn lemma_append_while_following(
    timeline: TimelineView,
    message: MessageView,
)
    requires
        timeline.wf(),
        timeline.mode == MessageViewMode::Follow,
        timeline.messages.len() < usize::MAX,
    ensures
        timeline.append(message).selected == Some(timeline.messages.len() as usize),
        timeline.append(message).selected == timeline.append(message).last(),
        timeline.append(message).mode == MessageViewMode::Follow,
{
}

/// In a timeline that is not empty, one step back turns following off, and
/// a message that arrives afterwards does not move the selection. From the
/// newest of several messages the step leads to the one before it.
pub proof fn lemma_previous_then_append(
    timeline: TimelineView,
    message: MessageView,
)
    requires
        timeline.wf(),
        timeline.messages.len() > 0,
    ensures
        timeline.previous().mode == MessageViewMode::Scroll,
        timeline.previous().append(message).selected == timeline.previous().selected,
        timeline.previous().append(message).mode == MessageViewMode::Scroll,
        timeline.mode == MessageViewMode::Follow && timeline.messages.len() > 1
            ==> timeline.previous().selected == Some((timeline.messages.len() - 2) as usize),
{
}

/// A step back with the first message selected leaves it selected and turns
/// following off, in a timeline of one message as in a longer one; the next
/// message that arrives is not selected, and one step forward in the timeline
/// of one turns following back on.
pub proof fn lemma_previous_at_first(timeline: TimelineView, message: MessageView)
    requires
        timeline.wf(),
        timeline.selected == Some(0usize),
    ensures
        timeline.previous().selected == Some(0usize),
        timeline.previous().mode == MessageViewMode::Scroll,
        timeline.previous().messages == timeline.messages,
        timeline.previous().append(message).selected == Some(0usize),
        timeline.messages.len() == 1 ==> timeline.previous().next().mode
            == MessageViewMode::Follow && timeline.previous().next().selected == Some(0usize),
{
}

/// Moving forward `steps` times from the message at `from` selects the
/// message `steps` further on, or the newest one if there are not that many.
pub proof fn lemma_next_repeated_selection(timeline: TimelineView, from: usize, steps: nat)
    requires
        timeline.wf(),
        timeline.selected == Some(from),
    ensures
        next_repeated(timeline, steps).messages == timeline.messages,
        next_repeated(timeline, steps).wf(),
        next_repeated(timeline, steps).selected == Some(
            if from + steps < timeline.messages.len() {
                (from + steps) as usize
            } else {
                (timeline.messages.len() - 1) as usize
            },
        ),
    decreases steps,
{
    if steps > 0 {
        lemma_next_repeated_selection(timeline, from, (steps - 1) as nat);
    }
}

/// Wherever the selection of a timeline stands, moving forward at least
/// once and often enough to reach the newest message turns following back
/// on, and further steps forward change nothing.
pub proof fn lemma_next_restores_follow(timeline: TimelineView, from: usize, steps: nat)
    requires
        timeline.wf(),
        timeline.selected == Some(from),
        steps > 0,
        from + steps >= timeline.messages.len() - 1,
    ensures
        next_repeated(timeline, steps).selected == timeline.last(),
        next_repeated(timeline, steps).mode == MessageViewMode::Follow,
        next_repeated(timeline, steps).next() == next_repeated(timeline, steps),
{
    lemma_next_repeated_selection(timeline, from, steps);
    lemma_next_repeated_selection(timeline, from, (steps - 1) as nat);
}

} // verus!
