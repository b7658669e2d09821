//! The sink through which a widget reaches its host.
use vstd::prelude::*;

verus! {

/// A queue of published messages and a request to lay the widgets out again.
pub struct Shell<Message> {
    messages: Vec<Message>,
    is_layout_invalid: bool,
}

impl<Message> View for Shell<Message> {
    type V = Seq<Message>;

    /// The messages published so far, oldest first.
    closed spec fn view(&self) -> Seq<Message> {
        self.messages@
    }
}

impl<Message> Shell<Message> {
    /// Whether the current layout has been declared invalid.
    pub closed spec fn layout_invalid(&self) -> bool {
        self.is_layout_invalid
    }

    /// Creates a [`Shell`] with no messages and a valid layout.
    pub fn new() -> (shell: Self)
        ensures
            shell@ == Seq::<Message>::empty(),
            !shell.layout_invalid(),
    {
        Shell { messages: Vec::new(), is_layout_invalid: false }
    }

    /// Returns true if the [`Shell`] contains no published messages.
    pub fn is_empty(&self) -> (empty: bool)
        ensures
            empty == (self@.len() == 0),
    {
        self.messages.len() == 0
    }

    /// Publishes the given message for the host to process.
    pub fn publish(&mut self, message: Message)
        ensures
            final(self)@ == old(self)@.push(message),
            final(self).layout_invalid() == old(self).layout_invalid(),
    {
        self.messages.push(message);
    }

    /// Returns whether the current layout is invalid or not.
    pub fn is_layout_invalid(&self) -> (invalid: bool)
        ensures
            invalid == self.layout_invalid(),
    {
        self.is_layout_invalid
    }

    /// Invalidates the current layout.
    pub fn invalidate_layout(&mut self)
        ensures
            final(self)@ == old(self)@,
            final(self).layout_invalid(),
    {
        self.is_layout_invalid = true;
    }

    /// The published messages, oldest first.
    pub fn messages(&self) -> (messages: &Vec<Message>)
        ensures
            messages@ == self@,
    {
        &self.messages
    }

    /// Takes the [`Shell`] apart into its published messages, oldest first.
    pub fn into_messages(self) -> (messages: Vec<Message>)
        ensures
            messages@ == self@,
    {
        self.messages
    }
}

} // verus!
