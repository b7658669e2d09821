//! A piece of content together with the overlay that was built from it.
use vstd::prelude::*;

verus! {

/// A piece of content and the overlay that it has produced.
///
/// An overlay is built from the content it belongs to and may change it on
/// the way. The cache keeps the two together, and gives the content back
/// when it is taken apart.
pub struct PureCache<Element, Overlay> {
    pub(crate) element: Option<Element>,
    pub(crate) overlay: Option<Overlay>,
}

impl<Element, Overlay> PureCache<Element, Overlay> {
    /// The content of the cache, if it has any.
    pub closed spec fn element(&self) -> Option<Element> {
        self.element
    }

    /// The overlay that the content has produced, if any.
    pub closed spec fn overlay(&self) -> Option<Overlay> {
        self.overlay
    }

    /// Builds a cache from `element` and from the overlay that
    /// `overlay_builder` makes of it. Without content there is no overlay,
    /// and the builder does not run.
    pub fn build<Builder>(element: Option<Element>, overlay_builder: Builder) -> (cache: Self) where
        Builder: FnOnce(&mut Element) -> Option<Overlay>,

        requires
            element is Some ==> forall|content: &mut Element|
                *content == element->0 ==> #[trigger] call_requires(overlay_builder, (content,)),
        ensures
            element is None ==> cache.element() is None && cache.overlay() is None,
            element is Some ==> exists|content: &mut Element|
                {
                    &&& *content == element->0
                    &&& cache.element() == Some(*final(content))
                    &&& #[trigger] call_ensures(overlay_builder, (content,), cache.overlay())
                },
    {
        match element {
            Some(element) => {
                let mut element = element;
                let overlay = overlay_builder(&mut element);
                PureCache { element: Some(element), overlay }
            },
            None => PureCache { element: None, overlay: None },
        }
    }

    /// Takes the cache apart: the overlay is dropped, the content comes back.
    pub fn into_heads(self) -> (element: Option<Element>)
        ensures
            element == self.element(),
    {
        self.element
    }

    /// The overlay that the content has produced, if any.
    pub fn borrow_overlay(&self) -> (overlay: &Option<Overlay>)
        ensures
            *overlay == self.overlay(),
    {
        &self.overlay
    }

    /// Runs `f` on the overlay, which it may change or remove.
    pub fn with_overlay_mut<T, F>(&mut self, f: F) -> (result: T) where
        F: FnOnce(&mut Option<Overlay>) -> T,

        requires
            forall|overlay: &mut Option<Overlay>|
                *overlay == old(self).overlay() ==> #[trigger] call_requires(f, (overlay,)),
        ensures
            final(self).element() == old(self).element(),
            exists|overlay: &mut Option<Overlay>|
                {
                    &&& *overlay == old(self).overlay()
                    &&& final(self).overlay() == *final(overlay)
                    &&& #[trigger] call_ensures(f, (overlay,), result)
                },
    {
        f(&mut self.overlay)
    }
}

} // verus!
