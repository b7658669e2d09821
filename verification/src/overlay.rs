//! The loan of a widget's content for the time an overlay is shown.
use crate::event::Status;
use vstd::prelude::*;

verus! {

/// The content of a widget, taken out of its cell, together with the overlay
/// that the content has produced.
///
/// While the overlay is shown the cell is empty. [`Overlay::release`] ends
/// the loan and puts the content back.
pub struct Overlay<View, Content> {
    element: View,
    overlay: Option<Content>,
}

/// The overlay that came with a loan, or none where there is no loan.
pub open spec fn content_of<View, Content>(overlay: Option<Overlay<View, Content>>) -> Option<
    Content,
> {
    match overlay {
        Some(lent) => lent.content(),
        None => None,
    }
}

impl<View, Content> Overlay<View, Content> {
    /// The content that is on loan.
    pub closed spec fn element(&self) -> View {
        self.element
    }

    /// The overlay that the content has produced, if any.
    pub closed spec fn content(&self) -> Option<Content> {
        self.overlay
    }

    /// Lets the content in `cell` produce its overlay and takes the content
    /// out of the cell, which is empty afterwards.
    ///
    /// The builder works on the content where it lies: the content leaves
    /// the cell only when the builder has returned.
    pub fn build<Builder>(cell: &mut Option<View>, overlay_builder: Builder) -> (overlay: Self) where
        Builder: FnOnce(&mut View) -> Option<Content>,

        requires
            *old(cell) is Some,
            forall|element: &mut View|
                *element == old(cell)->0 ==> #[trigger] call_requires(overlay_builder, (element,)),
        ensures
            *final(cell) is None,
            exists|element: &mut View|
                {
                    &&& *element == old(cell)->0
                    &&& overlay.element() == *final(element)
                    &&& #[trigger] call_ensures(overlay_builder, (element,), overlay.content())
                },
    {
        let overlay = match cell {
            Some(element) => overlay_builder(element),
            None => None,
        };
        let element = cell.take().unwrap();
        Overlay { element, overlay }
    }

    /// Ends the loan: the content goes back into `cell`, whatever the cell
    /// holds, and the overlay is dropped.
    pub fn release(self, cell: &mut Option<View>)
        ensures
            *final(cell) == Some(self.element()),
    {
        *cell = Some(self.element);
    }

    /// Returns true if the content has produced an overlay.
    pub fn has_overlay(&self) -> (has: bool)
        ensures
            has == self.content() is Some,
    {
        self.overlay.is_some()
    }

    /// Runs `f` on the overlay, if there is one.
    pub fn with_overlay_maybe<T, F>(&self, f: F) -> (result: Option<T>) where
        F: FnOnce(&Content) -> T,

        requires
            self.content() is Some ==> call_requires(f, (&self.content()->0,)),
        ensures
            self.content() is None ==> result is None,
            self.content() is Some ==> result is Some && call_ensures(
                f,
                (&self.content()->0,),
                result->0,
            ),
    {
        match &self.overlay {
            Some(overlay) => Some(f(overlay)),
            None => None,
        }
    }

    /// Runs `f` on the overlay, which it may change, if there is one.
    pub fn with_overlay_mut_maybe<T, F>(&mut self, f: F) -> (result: Option<T>) where
        F: FnOnce(&mut Content) -> T,

        requires
            old(self).content() is Some ==> forall|overlay: &mut Content|
                *overlay == old(self).content()->0 ==> #[trigger] call_requires(f, (overlay,)),
        ensures
            final(self).element() == old(self).element(),
            old(self).content() is None ==> result is None && final(self).content() is None,
            old(self).content() is Some ==> exists|overlay: &mut Content, value: T|
                {
                    &&& *overlay == old(self).content()->0
                    &&& final(self).content() == Some(*final(overlay))
                    &&& result == Some(value)
                    &&& #[trigger] call_ensures(f, (overlay,), value)
                },
    {
        match self.overlay.take() {
            Some(overlay) => {
                let mut overlay = overlay;
                let result = f(&mut overlay);
                self.overlay = Some(overlay);
                Some(result)
            },
            None => None,
        }
    }

    /// Lays the overlay out with `f`. Without an overlay the layout is the
    /// default one.
    pub fn layout<Node, F>(&self, f: F) -> (node: Node) where
        Node: Default,
        F: FnOnce(&Content) -> Node,

        requires
            self.content() is Some ==> call_requires(f, (&self.content()->0,)),
        ensures
            self.content() is None ==> call_ensures(Node::default, (), node),
            self.content() is Some ==> call_ensures(f, (&self.content()->0,), node),
    {
        match self.with_overlay_maybe(f) {
            Some(node) => node,
            None => Node::default(),
        }
    }

    /// Draws the overlay with `f`. Without an overlay nothing is drawn.
    pub fn draw<F>(&self, f: F) where F: FnOnce(&Content) -> ()
        requires
            self.content() is Some ==> call_requires(f, (&self.content()->0,)),
        ensures
            self.content() is Some ==> call_ensures(f, (&self.content()->0,), ()),
    {
        let _ = self.with_overlay_maybe(f);
    }

    /// Asks the overlay for the mouse interaction with `f`. Without an
    /// overlay the interaction is the default one.
    pub fn mouse_interaction<Interaction, F>(&self, f: F) -> (interaction: Interaction) where
        Interaction: Default,
        F: FnOnce(&Content) -> Interaction,

        requires
            self.content() is Some ==> call_requires(f, (&self.content()->0,)),
        ensures
            self.content() is None ==> call_ensures(Interaction::default, (), interaction),
            self.content() is Some ==> call_ensures(f, (&self.content()->0,), interaction),
    {
        match self.with_overlay_maybe(f) {
            Some(interaction) => interaction,
            None => Interaction::default(),
        }
    }

    /// Hands an event to the overlay with `f`. Without an overlay the event
    /// is ignored.
    pub fn on_event<F>(&mut self, f: F) -> (status: Status) where F: FnOnce(&mut Content) -> Status
        requires
            old(self).content() is Some ==> forall|overlay: &mut Content|
                *overlay == old(self).content()->0 ==> #[trigger] call_requires(f, (overlay,)),
        ensures
            final(self).element() == old(self).element(),
            old(self).content() is None ==> status == Status::Ignored && final(self).content()
                is None,
            old(self).content() is Some ==> exists|overlay: &mut Content|
                {
                    &&& *overlay == old(self).content()->0
                    &&& final(self).content() == Some(*final(overlay))
                    &&& #[trigger] call_ensures(f, (overlay,), status)
                },
    {
        match self.with_overlay_mut_maybe(f) {
            Some(status) => status,
            None => Status::Ignored,
        }
    }
}

} // verus!
