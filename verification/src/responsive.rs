//! A widget that is aware of the space it is given.
use crate::history::changes;
use crate::size::Size;
use vstd::prelude::*;

verus! {

/// The content of a [`Responsive`] widget and the size it was built for.
pub struct Content<View> {
    size: Option<Size>,
    element: Option<View>,
    history: Ghost<Seq<Size>>,
    renders: Ghost<nat>,
}

impl<View> Content<View> {
    /// The size that the content was last resolved for, if it ever was.
    pub closed spec fn size(&self) -> Option<Size> {
        self.size
    }

    /// The content, once it has been built.
    pub closed spec fn element(&self) -> Option<View> {
        self.element
    }

    /// The sizes that the content has been resolved for, oldest first.
    pub closed spec fn history(&self) -> Seq<Size> {
        self.history@
    }

    /// How often the content has been built.
    pub closed spec fn renders(&self) -> nat {
        self.renders@
    }

    /// Content that was never resolved is empty. Content that was resolved
    /// is there, its size is the last one it was resolved for, and it has
    /// been built once for the first size and once for every change of size
    /// since.
    pub closed spec fn wf(&self) -> bool {
        if self.history@.len() == 0 {
            &&& self.size is None
            &&& self.element is None
            &&& self.renders@ == 0
        } else {
            &&& self.size == Some(self.history@.last())
            &&& self.element is Some
            &&& self.renders@ == 1 + changes(self.history@)
        }
    }

    /// The content has been built once for the first size it was resolved
    /// for and once more for every size in its history that differs from the
    /// one before it. Where the size did not change, it was not built.
    pub proof fn lemma_renders(&self)
        requires
            self.wf(),
        ensures
            self.history().len() == 0 ==> self.renders() == 0 && self.element() is None,
            self.history().len() > 0 ==> {
                &&& self.size() == Some(self.history().last())
                &&& self.element() is Some
                &&& self.renders() == 1 + changes(self.history())
            },
    {
    }

    /// Content that has not been resolved for any size.
    pub fn new() -> (content: Self)
        ensures
            content.wf(),
            content.size() is None,
            content.element() is None,
            content.history() == Seq::<Size>::empty(),
            content.renders() == 0,
    {
        Content { size: None, element: None, history: Ghost(Seq::empty()), renders: Ghost(0) }
    }

    /// Resolves the content for `new_size`: where that is the size it has,
    /// the content stays as it is; otherwise `view` builds it anew.
    pub fn update<Render>(&mut self, new_size: Size, view: &Render) where Render: Fn(Size) -> View
        requires
            old(self).wf(),
            old(self).size() != Some(new_size) ==> call_requires(*view, (new_size,)),
        ensures
            final(self).wf(),
            final(self).size() == Some(new_size),
            final(self).history() == old(self).history().push(new_size),
            old(self).size() == Some(new_size) ==> {
                &&& final(self).element() == old(self).element()
                &&& final(self).renders() == old(self).renders()
            },
            old(self).size() != Some(new_size) ==> {
                &&& final(self).element() matches Some(element) && call_ensures(
                    *view,
                    (new_size,),
                    element,
                )
                &&& final(self).renders() == old(self).renders() + 1
            },
    {
        proof {
            assert(self.history@.push(new_size).drop_last() =~= self.history@);
        }
        let same = match self.size {
            Some(size) => size.width == new_size.width && size.height == new_size.height,
            None => false,
        };
        if !same {
            self.element = Some(view(new_size));
            self.size = Some(new_size);
            self.renders = Ghost(self.renders@ + 1);
        }
        self.history = Ghost(self.history@.push(new_size));
    }
}

/// A widget that builds its content from the size that is available to it,
/// and builds it again only when that size changes.
pub struct Responsive<View, Render> {
    view: Render,
    content: Content<View>,
}

impl<View, Render> Responsive<View, Render> where Render: Fn(Size) -> View {
    /// The function that builds the content for a size.
    pub closed spec fn renderer(&self) -> Render {
        self.view
    }

    /// The content and the size it was built for.
    pub closed spec fn content(&self) -> Content<View> {
        self.content
    }

    /// Creates a new [`Responsive`] widget with a closure that produces its
    /// content from the size that is available. Nothing is built until the
    /// widget is laid out.
    pub fn new(view: Render) -> (responsive: Self)
        ensures
            responsive.renderer() == view,
            responsive.content().wf(),
            responsive.content().size() is None,
            responsive.content().history() == Seq::<Size>::empty(),
            responsive.content().renders() == 0,
            responsive.content().element() is None,
    {
        Responsive { view, content: Content::new() }
    }

    /// Lays the widget out in `size`. The content is built again if, and
    /// only if, `size` is not the size of the layout pass before.
    pub fn layout(&mut self, size: Size)
        requires
            old(self).content().wf(),
            old(self).content().size() != Some(size) ==> call_requires(
                old(self).renderer(),
                (size,),
            ),
        ensures
            final(self).renderer() == old(self).renderer(),
            final(self).content().wf(),
            final(self).content().size() == Some(size),
            final(self).content().history() == old(self).content().history().push(size),
            old(self).content().size() == Some(size) ==> {
                &&& final(self).content().element() == old(self).content().element()
                &&& final(self).content().renders() == old(self).content().renders()
            },
            old(self).content().size() != Some(size) ==> {
                &&& final(self).content().element() matches Some(element) && call_ensures(
                    old(self).renderer(),
                    (size,),
                    element,
                )
                &&& final(self).content().renders() == old(self).content().renders() + 1
            },
    {
        self.content.update(size, &self.view);
    }

    /// The size of the last layout pass, if there was one.
    pub fn size(&self) -> (size: Option<Size>)
        ensures
            size == self.content().size(),
    {
        self.content.size
    }

    /// Runs `f` on the content.
    pub fn with_element<T, F>(&self, f: F) -> (result: T) where F: FnOnce(&View) -> T
        requires
            self.content().element() is Some,
            call_requires(f, (&self.content().element()->0,)),
        ensures
            call_ensures(f, (&self.content().element()->0,), result),
    {
        f(self.content.element.as_ref().unwrap())
    }

    /// The content, for as long as the widget is borrowed.
    pub fn element_mut(&mut self) -> (element: &mut View)
        requires
            old(self).content().wf(),
            old(self).content().element() is Some,
        ensures
            *element == old(self).content().element()->0,
            final(self).content().element() == Some(*final(element)),
            final(self).content().wf(),
            final(self).content().size() == old(self).content().size(),
            final(self).content().history() == old(self).content().history(),
            final(self).content().renders() == old(self).content().renders(),
            final(self).renderer() == old(self).renderer(),
    {
        match &mut self.content.element {
            Some(element) => element,
            None => vstd::pervasive::unreached(),
        }
    }
}

} // verus!
