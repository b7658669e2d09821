//! Widgets with a state of their own.
use crate::event::Status;
use crate::overlay::content_of;
use crate::overlay::Overlay;
use crate::shell::Shell;
use std::marker::PhantomData;
use vstd::prelude::*;

verus! {

/// A reusable, custom widget that keeps a state and turns the events of its
/// content into messages for its parent.
pub trait Component<Message, Renderer> {
    /// The type of event that the content of the component produces.
    type Event;

    /// The internal state of the component.
    type T;

    /// The content that the component is rendered into.
    type Element;

    /// What an update may do: the state before it, the event, the state
    /// after it and the message that it returns.
    ///
    /// A component that does not say otherwise promises nothing.
    open spec fn update_post(
        &self,
        before: Self::T,
        event: Self::Event,
        after: Self::T,
        message: Option<Message>,
    ) -> bool {
        true
    }

    /// Creates the state that the component starts from.
    fn state(&self) -> Self::T;

    /// Processes an event and updates the state accordingly. The message that
    /// it may return is sent on to the parent.
    fn update(&self, state: &mut Self::T, event: Self::Event) -> (message: Option<Message>)
        ensures
            self.update_post(*old(state), event, *final(state), message),
    ;

    /// Produces the content of the component for the given state.
    fn view(&self, state: &Self::T) -> Self::Element;
}

/// Handling `events` in order, one update each, may lead from the state
/// `before` to the state `after` and bring up `messages` for the parent: the
/// messages that the updates return, in the order of their events.
pub open spec fn handled<Message, Renderer, C: Component<Message, Renderer>>(
    component: &C,
    before: C::T,
    events: Seq<C::Event>,
    after: C::T,
    messages: Seq<Message>,
) -> bool
    decreases events.len(),
{
    if events.len() == 0 {
        after == before && messages == Seq::<Message>::empty()
    } else {
        exists|middle: C::T, reply: Option<Message>|
            {
                &&& #[trigger] component.update_post(middle, events.last(), after, reply)
                &&& match reply {
                    Some(message) => {
                        &&& messages.len() > 0
                        &&& messages.last() == message
                        &&& handled(
                            component,
                            before,
                            events.drop_last(),
                            middle,
                            messages.drop_last(),
                        )
                    },
                    None => handled(component, before, events.drop_last(), middle, messages),
                }
            }
    }
}

/// Handling one more event adds the message of its update, if it returns
/// one, to those that came up before.
pub proof fn lemma_handled_push<Message, Renderer, C: Component<Message, Renderer>>(
    component: &C,
    before: C::T,
    events: Seq<C::Event>,
    middle: C::T,
    earlier: Seq<Message>,
    event: C::Event,
    after: C::T,
    reply: Option<Message>,
)
    requires
        handled(component, before, events, middle, earlier),
        component.update_post(middle, event, after, reply),
    ensures
        handled(
            component,
            before,
            events.push(event),
            after,
            match reply {
                Some(message) => earlier.push(message),
                None => earlier,
            },
        ),
{
    let longer = events.push(event);
    assert(longer.drop_last() =~= events);
    assert(component.update_post(middle, longer.last(), after, reply));
    if reply is Some {
        assert(earlier.push(reply->0).drop_last() =~= earlier);
    }
}

/// Without an event nothing happens: the state stays as it is and no
/// message comes up.
pub proof fn lemma_handled_nothing<Message, Renderer, C: Component<Message, Renderer>>(
    component: &C,
    before: C::T,
    after: C::T,
    messages: Seq<Message>,
)
    requires
        handled(component, before, Seq::<C::Event>::empty(), after, messages),
    ensures
        after == before,
        messages == Seq::<Message>::empty(),
{
}

/// Handling a single event is one update: the state is the one that the
/// update leaves, and what comes up is the message that it returns, once, or
/// nothing where it returns none.
pub proof fn lemma_handled_one<Message, Renderer, C: Component<Message, Renderer>>(
    component: &C,
    before: C::T,
    event: C::Event,
    after: C::T,
    messages: Seq<Message>,
)
    requires
        handled(component, before, seq![event], after, messages),
    ensures
        exists|reply: Option<Message>|
            {
                &&& #[trigger] component.update_post(before, event, after, reply)
                &&& messages == match reply {
                    Some(message) => seq![message],
                    None => Seq::<Message>::empty(),
                }
            },
{
    let events = seq![event];
    assert(events.last() == event);
    assert(events.drop_last() =~= Seq::<C::Event>::empty());
    let (middle, reply) = choose|middle: C::T, reply: Option<Message>|
        {
            &&& #[trigger] component.update_post(middle, events.last(), after, reply)
            &&& match reply {
                Some(message) => {
                    &&& messages.len() > 0
                    &&& messages.last() == message
                    &&& handled(component, before, events.drop_last(), middle, messages.drop_last())
                },
                None => handled(component, before, events.drop_last(), middle, messages),
            }
        };
    if reply is Some {
        assert(messages.drop_last() =~= Seq::<Message>::empty());
        assert(messages =~= seq![reply->0]);
    }
    assert(component.update_post(before, event, after, reply));
}

/// No more messages come up than events are handled.
pub proof fn lemma_handled_bound<Message, Renderer, C: Component<Message, Renderer>>(
    component: &C,
    before: C::T,
    events: Seq<C::Event>,
    after: C::T,
    messages: Seq<Message>,
)
    requires
        handled(component, before, events, after, messages),
    ensures
        messages.len() <= events.len(),
    decreases events.len(),
{
    if events.len() > 0 {
        let (middle, reply) = choose|middle: C::T, reply: Option<Message>|
            {
                &&& #[trigger] component.update_post(middle, events.last(), after, reply)
                &&& match reply {
                    Some(message) => {
                        &&& messages.len() > 0
                        &&& messages.last() == message
                        &&& handled(
                            component,
                            before,
                            events.drop_last(),
                            middle,
                            messages.drop_last(),
                        )
                    },
                    None => handled(component, before, events.drop_last(), middle, messages),
                }
            };
        if reply is Some {
            lemma_handled_bound(component, before, events.drop_last(), middle, messages.drop_last());
        } else {
            lemma_handled_bound(component, before, events.drop_last(), middle, messages);
        }
    }
}

/// A component whose updates never return a message never brings one up for
/// the parent, whatever the events.
pub proof fn lemma_handled_silent<Message, Renderer, C: Component<Message, Renderer>>(
    component: &C,
    before: C::T,
    events: Seq<C::Event>,
    after: C::T,
    messages: Seq<Message>,
)
    requires
        handled(component, before, events, after, messages),
        forall|from: C::T, event: C::Event, to: C::T, reply: Option<Message>| #[trigger]
            component.update_post(from, event, to, reply) ==> reply is None,
    ensures
        messages == Seq::<Message>::empty(),
    decreases events.len(),
{
    if events.len() > 0 {
        let (middle, reply) = choose|middle: C::T, reply: Option<Message>|
            {
                &&& #[trigger] component.update_post(middle, events.last(), after, reply)
                &&& match reply {
                    Some(message) => {
                        &&& messages.len() > 0
                        &&& messages.last() == message
                        &&& handled(
                            component,
                            before,
                            events.drop_last(),
                            middle,
                            messages.drop_last(),
                        )
                    },
                    None => handled(component, before, events.drop_last(), middle, messages),
                }
            };
        lemma_handled_silent(component, before, events.drop_last(), middle, messages);
    }
}

/// The state lasts from one batch of events to the next: handling a second
/// batch from the state that the first has left is handling the two in a row.
pub proof fn lemma_handled_append<Message, Renderer, C: Component<Message, Renderer>>(
    component: &C,
    before: C::T,
    first: Seq<C::Event>,
    between: C::T,
    first_messages: Seq<Message>,
    second: Seq<C::Event>,
    after: C::T,
    second_messages: Seq<Message>,
)
    requires
        handled(component, before, first, between, first_messages),
        handled(component, between, second, after, second_messages),
    ensures
        handled(component, before, first + second, after, first_messages + second_messages),
    decreases second.len(),
{
    let events = first + second;
    let messages = first_messages + second_messages;
    if second.len() == 0 {
        assert(events =~= first);
        assert(messages =~= first_messages);
    } else {
        let (middle, reply) = choose|middle: C::T, reply: Option<Message>|
            {
                &&& #[trigger] component.update_post(middle, second.last(), after, reply)
                &&& match reply {
                    Some(message) => {
                        &&& second_messages.len() > 0
                        &&& second_messages.last() == message
                        &&& handled(
                            component,
                            between,
                            second.drop_last(),
                            middle,
                            second_messages.drop_last(),
                        )
                    },
                    None => handled(component, between, second.drop_last(), middle, second_messages),
                }
            };
        assert(events.drop_last() =~= first + second.drop_last());
        assert(component.update_post(middle, events.last(), after, reply));
        if reply is Some {
            lemma_handled_append(
                component,
                before,
                first,
                between,
                first_messages,
                second.drop_last(),
                middle,
                second_messages.drop_last(),
            );
            assert(messages.drop_last() =~= first_messages + second_messages.drop_last());
        } else {
            lemma_handled_append(
                component,
                before,
                first,
                between,
                first_messages,
                second.drop_last(),
                middle,
                second_messages,
            );
        }
    }
}

/// A component that has been placed in the tree for one frame.
///
/// The instance holds the content that was last rendered. The state of the
/// component lasts longer than the instance: the host keeps it, and lends it
/// to the instance for every operation.
pub struct Instance<C, Message, Renderer> where C: Component<Message, Renderer> {
    component: C,
    element: Option<C::Element>,
    rebuilds: Ghost<nat>,
    message: PhantomData<Message>,
    renderer: PhantomData<Renderer>,
}

/// Places `component` in the tree. Nothing is rendered until the instance
/// meets its state.
pub fn view<C, Message, Renderer>(component: C) -> (instance: Instance<C, Message, Renderer>) where
    C: Component<Message, Renderer>,

    ensures
        instance.component() == component,
        instance.element() is None,
        instance.rebuilds() == 0,
{
    Instance {
        component,
        element: None,
        rebuilds: Ghost(0),
        message: PhantomData,
        renderer: PhantomData,
    }
}

impl<C, Message, Renderer> Instance<C, Message, Renderer> where C: Component<Message, Renderer> {
    /// The component that the instance runs.
    pub closed spec fn component(&self) -> C {
        self.component
    }

    /// The content that was last rendered, if any.
    pub closed spec fn element(&self) -> Option<C::Element> {
        self.element
    }

    /// How often the content has been rendered for this instance.
    pub closed spec fn rebuilds(&self) -> nat {
        self.rebuilds@
    }

    /// The content is what the component renders for `state`.
    pub open spec fn shows(&self, state: &C::T) -> bool {
        self.element() matches Some(element) && call_ensures(
            C::view,
            (&self.component(), state),
            element,
        )
    }

    /// What [`Instance::process`] leaves behind.
    ///
    /// The events in `local` have been handled in order, which took the state
    /// from `state_before` to `state_after`, and the messages that came up
    /// follow those of `shell_before` in `shell_after`. The layout is invalid
    /// if it was before, if `local` says so, or if there was an event. Where
    /// there was an event, the content has been rendered once, from the state
    /// after the last update; where there was none, it is `content`.
    pub open spec fn processed(
        &self,
        component: C,
        content: Option<C::Element>,
        rebuilds: nat,
        state_before: C::T,
        local: Shell<C::Event>,
        shell_before: Shell<Message>,
        state_after: C::T,
        shell_after: Shell<Message>,
    ) -> bool {
        &&& self.component() == component
        &&& exists|messages: Seq<Message>|
            {
                &&& #[trigger] handled(&component, state_before, local@, state_after, messages)
                &&& shell_after@ == shell_before@ + messages
            }
        &&& shell_after.layout_invalid() == (shell_before.layout_invalid()
            || local.layout_invalid() || local@.len() > 0)
        &&& if local@.len() > 0 {
            &&& self.shows(&state_after)
            &&& self.rebuilds() == rebuilds + 1
        } else {
            &&& self.element() == content
            &&& self.rebuilds() == rebuilds
        }
    }

    /// Creates the state of the component and renders the first content from
    /// it. The host keeps the state that is returned.
    pub fn state(&mut self) -> (state: C::T)
        ensures
            call_ensures(C::state, (&old(self).component(),), state),
            final(self).component() == old(self).component(),
            final(self).shows(&state),
            final(self).rebuilds() == old(self).rebuilds() + 1,
    {
        let state = self.component.state();
        self.element = Some(self.component.view(&state));
        self.rebuilds = Ghost(self.rebuilds@ + 1);
        state
    }

    /// Renders the content anew from the state that the host kept, which is
    /// left as it is.
    pub fn diff(&mut self, state: &C::T)
        ensures
            final(self).component() == old(self).component(),
            final(self).shows(state),
            final(self).rebuilds() == old(self).rebuilds() + 1,
    {
        self.element = Some(self.component.view(state));
        self.rebuilds = Ghost(self.rebuilds@ + 1);
    }

    /// Returns true if the instance holds content.
    pub fn has_element(&self) -> (has: bool)
        ensures
            has == self.element() is Some,
    {
        self.element.is_some()
    }

    /// Runs `f` on the content.
    pub fn with_element<U, F: FnOnce(&C::Element) -> U>(&self, f: F) -> (result: U)
        requires
            self.element() is Some,
            call_requires(f, (&self.element()->0,)),
        ensures
            call_ensures(f, (&self.element()->0,), result),
    {
        f(self.element.as_ref().unwrap())
    }

    /// Runs `f` on the content, which it may change.
    pub fn with_element_mut<U, F: FnOnce(&mut C::Element) -> U>(&mut self, f: F) -> (result: U)
        requires
            old(self).element() is Some,
            forall|element: &mut C::Element|
                *element == old(self).element()->0 ==> #[trigger] call_requires(f, (element,)),
        ensures
            final(self).component() == old(self).component(),
            final(self).rebuilds() == old(self).rebuilds(),
            exists|element: &mut C::Element|
                {
                    &&& *element == old(self).element()->0
                    &&& final(self).element() == Some(*final(element))
                    &&& #[trigger] call_ensures(f, (element,), result)
                },
    {
        match &mut self.element {
            Some(element) => f(element),
            None => vstd::pervasive::unreached(),
        }
    }

    /// The content, for as long as the instance is borrowed.
    pub fn element_mut(&mut self) -> (element: &mut C::Element)
        requires
            old(self).element() is Some,
        ensures
            *element == old(self).element()->0,
            final(self).element() == Some(*final(element)),
            final(self).component() == old(self).component(),
            final(self).rebuilds() == old(self).rebuilds(),
    {
        match &mut self.element {
            Some(element) => element,
            None => vstd::pervasive::unreached(),
        }
    }

    /// Handles the events that the content has left in `local`.
    ///
    /// Every event is handed to [`Component::update`], in order, and every
    /// message that comes back is published to `shell`. If `local` asks for a
    /// new layout, so does `shell` afterwards. If there was any event, the
    /// content is rendered once more, from the state as the last update left
    /// it, and the layout is invalidated.
    pub fn process(
        &mut self,
        state: &mut C::T,
        local: Shell<C::Event>,
        shell: &mut Shell<Message>,
    )
        ensures
            final(self).processed(
                old(self).component(),
                old(self).element(),
                old(self).rebuilds(),
                *old(state),
                local,
                *old(shell),
                *final(state),
                *final(shell),
            ),
    {
        let invalid = local.is_layout_invalid();
        let events = local.into_messages();
        if invalid {
            shell.invalidate_layout();
        }
        let ghost all = events@;
        let ghost mut messages = Seq::<Message>::empty();
        if events.len() > 0 {
            for event in iter: events.into_iter()
                invariant
                    iter.seq() == all,
                    self.component == old(self).component,
                    handled(&self.component, *old(state), all.take(iter.index()), *state, messages),
                    shell@ == old(shell)@ + messages,
                    shell.layout_invalid() == (old(shell).layout_invalid() || invalid),
            {
                let ghost middle = *state;
                let ghost earlier = messages;
                let reply = self.component.update(state, event);
                proof {
                    let seen = all.take(iter.index() as int);
                    assert(all.take(iter.index() + 1) =~= seen.push(event));
                    lemma_handled_push(
                        &self.component,
                        *old(state),
                        seen,
                        middle,
                        earlier,
                        event,
                        *state,
                        reply,
                    );
                    messages =
                    if reply is Some {
                        earlier.push(reply->0)
                    } else {
                        earlier
                    };
                }
                match reply {
                    Some(message) => {
                        shell.publish(message);
                    },
                    None => {},
                }
            }
            self.element = Some(self.component.view(state));
            self.rebuilds = Ghost(self.rebuilds@ + 1);
            shell.invalidate_layout();
            proof {
                assert(all.take(all.len() as int) =~= all);
            }
        } else {
            proof {
                assert(shell@ + messages =~= shell@);
            }
        }
        proof {
            assert(handled(&self.component(), *old(state), local@, *state, messages));
        }
    }

    /// Hands an event to the content and handles what the content makes of
    /// it.
    ///
    /// `dispatch` delivers the event to the content, which publishes its own
    /// events to the shell it is given: a shell of its own, so that none of
    /// them reaches the parent directly. [`Instance::process`] then handles
    /// what that shell has collected. The status is the one that `dispatch`
    /// returns.
    pub fn on_event<Dispatch>(
        &mut self,
        state: &mut C::T,
        dispatch: Dispatch,
        shell: &mut Shell<Message>,
    ) -> (status: Status) where Dispatch: FnOnce(&mut C::Element, &mut Shell<C::Event>) -> Status
        requires
            old(self).element() is Some,
            forall|element: &mut C::Element, local: &mut Shell<C::Event>|
                *element == old(self).element()->0 && local@ == Seq::<C::Event>::empty()
                    && !local.layout_invalid() ==> #[trigger] call_requires(
                    dispatch,
                    (element, local),
                ),
        ensures
            exists|element: &mut C::Element, local: &mut Shell<C::Event>|
                {
                    &&& *element == old(self).element()->0
                    &&& local@ == Seq::<C::Event>::empty()
                    &&& !local.layout_invalid()
                    &&& #[trigger] call_ensures(dispatch, (element, local), status)
                    &&& final(self).processed(
                        old(self).component(),
                        Some(*final(element)),
                        old(self).rebuilds(),
                        *old(state),
                        *final(local),
                        *old(shell),
                        *final(state),
                        *final(shell),
                    )
                },
    {
        let mut local = Shell::new();
        let status = match &mut self.element {
            Some(element) => dispatch(element, &mut local),
            None => vstd::pervasive::unreached(),
        };
        self.process(state, local, shell);
        status
    }

    /// Lets the content produce its overlay.
    ///
    /// Where the content produces one, the content goes on loan with it and
    /// the instance is left without content until [`Instance::release`]
    /// brings it back. Where it produces none, the loan ends at once and the
    /// instance keeps its content.
    pub fn overlay<Content, Builder>(&mut self, overlay_builder: Builder) -> (overlay: Option<
        Overlay<C::Element, Content>,
    >) where Builder: FnOnce(&mut C::Element) -> Option<Content>
        requires
            old(self).element() is Some,
            forall|element: &mut C::Element|
                *element == old(self).element()->0 ==> #[trigger] call_requires(
                    overlay_builder,
                    (element,),
                ),
        ensures
            final(self).component() == old(self).component(),
            final(self).rebuilds() == old(self).rebuilds(),
            overlay is None ==> final(self).element() is Some,
            exists|element: &mut C::Element|
                {
                    &&& *element == old(self).element()->0
                    &&& #[trigger] call_ensures(overlay_builder, (element,), content_of(overlay))
                    &&& match overlay {
                        Some(lent) => {
                            &&& final(self).element() is None
                            &&& lent.element() == *final(element)
                            &&& lent.content() is Some
                        },
                        None => final(self).element() == Some(*final(element)),
                    }
                },
    {
        let overlay = Overlay::build(&mut self.element, overlay_builder);
        if overlay.has_overlay() {
            Some(overlay)
        } else {
            overlay.release(&mut self.element);
            None
        }
    }

    /// Ends the loan of the content: whatever the instance holds, it holds
    /// the content of `overlay` afterwards.
    pub fn release<Content>(&mut self, overlay: Overlay<C::Element, Content>)
        ensures
            final(self).component() == old(self).component(),
            final(self).rebuilds() == old(self).rebuilds(),
            final(self).element() == Some(overlay.element()),
    {
        overlay.release(&mut self.element);
    }
}

} // verus!
