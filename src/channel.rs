use vstd::prelude::*;

use crate::entry::Field;

verus! {

/// A message from the form to its host.
#[derive(Debug)]
pub enum ActionMessage {
    /// The entry was saved.
    Completed,
    /// The host should return to the previous view.
    NavigateBack(bool),
    /// A warning for the user, tied to the field it concerns, if any.
    Notify(String, Option<Field>),
}

/// An `ActionMessage` with its text as a character sequence.
pub enum MessageView {
    Completed,
    NavigateBack(bool),
    Notify(Seq<char>, Option<Field>),
}

impl View for ActionMessage {
    type V = MessageView;

    open spec fn view(&self) -> MessageView {
        match self {
            ActionMessage::Completed => MessageView::Completed,
            ActionMessage::NavigateBack(b) => MessageView::NavigateBack(*b),
            ActionMessage::Notify(m, f) => MessageView::Notify(m@, *f),
        }
    }
}

impl ActionMessage {
    pub fn is_completed(&self) -> (r: bool)
        ensures
            r == (self@ is Completed),
    {
        match self {
            ActionMessage::Completed => true,
            _ => false,
        }
    }
}

/// An ordered queue of messages from the form to its host: messages leave in
/// the order they were sent, and none is dropped.
pub struct ActionChannel {
    queue: Vec<ActionMessage>,
}

impl View for ActionChannel {
    type V = Seq<MessageView>;

    closed spec fn view(&self) -> Seq<MessageView> {
        self.queue@.map_values(|m: ActionMessage| m@)
    }
}

impl ActionChannel {
    pub fn new() -> (r: ActionChannel)
        ensures
            r@ == Seq::<MessageView>::empty(),
    {
        let r = ActionChannel { queue: Vec::new() };
        assert(r@ =~= Seq::<MessageView>::empty());
        r
    }

    /// Appends `m` behind the messages already waiting.
    pub fn send(&mut self, m: ActionMessage)
        ensures
            final(self)@ == old(self)@.push(m@),
    {
        let ghost v = m@;
        self.queue.push(m);
        assert(self@ =~= old(self)@.push(v));
    }

    /// The number of messages waiting.
    pub fn len(&self) -> (r: usize)
        ensures
            r == self@.len(),
    {
        self.queue.len()
    }

    /// Hands out every waiting message, oldest first, and leaves the queue
    /// empty.
    pub fn take_all(&mut self) -> (r: Vec<ActionMessage>)
        ensures
            r@.map_values(|m: ActionMessage| m@) == old(self)@,
            final(self)@ == Seq::<MessageView>::empty(),
    {
        let mut r = Vec::new();
        std::mem::swap(&mut r, &mut self.queue);
        assert(self@ =~= Seq::<MessageView>::empty());
        r
    }
}

} // verus!
