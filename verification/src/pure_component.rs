//! Components whose state is named `State`.
use crate::component::Component;
use crate::component::Instance;
use vstd::prelude::*;

verus! {

/// A reusable, custom widget that keeps a state and turns the events of its
/// content into messages for its parent.
///
/// This is [`Component`] under another name for its state. [`Pure`] makes
/// every [`PureComponent`] a [`Component`].
pub trait PureComponent<Message, Renderer> {
    /// The type of event that the content of the component produces.
    type Event;

    /// The internal state of the component.
    type State;

    /// The content that the component is rendered into.
    type Element;

    /// What an update may do: the state before it, the event, the state
    /// after it and the message that it returns.
    ///
    /// A component that does not say otherwise promises nothing.
    open spec fn update_post(
        &self,
        before: Self::State,
        event: Self::Event,
        after: Self::State,
        message: Option<Message>,
    ) -> bool {
        true
    }

    /// Creates the state that the component starts from.
    fn state(&self) -> Self::State;

    /// Processes an event and updates the state accordingly. The message that
    /// it may return is sent on to the parent.
    fn update(&self, state: &mut Self::State, event: Self::Event) -> (message: Option<Message>)
        ensures
            self.update_post(*old(state), event, *final(state), message),
    ;

    /// Produces the content of the component for the given state.
    fn view(&self, state: &Self::State) -> Self::Element;
}

/// A [`PureComponent`] seen as a [`Component`].
pub struct Pure<C> {
    /// The component itself.
    pub component: C,
}

impl<Message, Renderer, C> Component<Message, Renderer> for Pure<C> where
    C: PureComponent<Message, Renderer>,
 {
    type Event = C::Event;

    type T = C::State;

    type Element = C::Element;

    open spec fn update_post(
        &self,
        before: C::State,
        event: C::Event,
        after: C::State,
        message: Option<Message>,
    ) -> bool {
        self.component.update_post(before, event, after, message)
    }

    fn state(&self) -> (state: C::State)
        ensures
            call_ensures(C::state, (&self.component,), state),
    {
        self.component.state()
    }

    fn update(&self, state: &mut C::State, event: C::Event) -> (message: Option<Message>) {
        self.component.update(state, event)
    }

    fn view(&self, state: &C::State) -> (element: C::Element)
        ensures
            call_ensures(C::view, (&self.component, state), element),
    {
        self.component.view(state)
    }
}

/// Places `component` in the tree. Nothing is rendered until the instance
/// meets its state.
pub fn view<C, Message, Renderer>(component: C) -> (instance: Instance<
    Pure<C>,
    Message,
    Renderer,
>) where C: PureComponent<Message, Renderer>
    ensures
        instance.component() == (Pure { component }),
        instance.element() is None,
        instance.rebuilds() == 0,
{
    crate::component::view(Pure { component })
}

} // verus!
