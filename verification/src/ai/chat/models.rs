//! The transcript of a conversation.

use crate::openai::message::{messages_of, Message, MessageView};
use vstd::prelude::*;
use vstd::std_specs::iter::IteratorSpec;

verus! {

/// The messages of one conversation, in the order in which they were said.
/// A transcript only grows: messages are added at its end and never changed.
#[derive(Debug)]
pub struct Transcript(Vec<Message>);

impl View for Transcript {
    type V = Seq<MessageView>;

    closed spec fn view(&self) -> Seq<MessageView> {
        messages_of(self.0@)
    }
}

/// Copies a list of messages.
pub fn clone_messages(messages: &Vec<Message>) -> (r: Vec<Message>)
    ensures
        messages_of(r@) == messages_of(messages@),
{
    let mut out: Vec<Message> = Vec::new();
    let mut i: usize = 0;
    while i < messages.len()
        invariant
            i <= messages@.len(),
            out@.len() == i,
            forall|k: int| 0 <= k < i ==> out@[k]@ == messages@[k]@,
        decreases messages@.len() - i,
    {
        out.push(messages[i].clone());
        i += 1;
    }
    assert(messages_of(out@) =~= messages_of(messages@));
    out
}

impl Transcript {
    /// The messages themselves, of which the view holds the values.
    pub closed spec fn items(&self) -> Seq<Message> {
        self.0@
    }

    /// An empty transcript.
    pub fn new() -> (r: Self)
        ensures
            r@ == Seq::<MessageView>::empty(),
    {
        let r = Transcript(Vec::new());
        assert(messages_of(r.0@) =~= Seq::empty());
        r
    }

    /// A transcript that begins with `messages`.
    pub fn new_with_messages(messages: Vec<Message>) -> (r: Self)
        ensures
            r@ == messages_of(messages@),
    {
        Transcript(messages)
    }

    /// A copy of the messages, in their order.
    pub fn messages(&self) -> (r: Vec<Message>)
        ensures
            messages_of(r@) == self@,
    {
        clone_messages(&self.0)
    }

    /// Adds a message at the end.
    pub fn push(&mut self, msg: Message)
        ensures
            final(self)@ == old(self)@.push(msg@),
    {
        self.0.push(msg);
        assert(messages_of(self.0@) =~= messages_of(old(self).0@).push(msg@));
    }

    /// The number of messages.
    pub fn len(&self) -> (r: usize)
        ensures
            r == self@.len(),
    {
        self.0.len()
    }

    /// Walks over the messages in their order.
    pub fn iter(&self) -> (r: std::slice::Iter<'_, Message>)
        ensures
            r.remaining().unref() == self.items(),
            messages_of(self.items()) == self@,
    {
        let items = self.0.as_slice();
        let r = items.iter();
        proof {
            vstd::std_specs::slice::axiom_spec_slice_iter(items);
        }
        r
    }
}

impl Default for Transcript {
    fn default() -> (r: Self)
        ensures
            r@ == Seq::<MessageView>::empty(),
    {
        Transcript::new()
    }
}

} // verus!
