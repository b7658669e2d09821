//! A widget that memoizes a computation by the digest of its dependency.
use crate::history::changes;
use crate::overlay::content_of;
use crate::overlay::Overlay;
use std::hash::Hash;
use std::hash::Hasher;
use std::marker::PhantomData;
use vstd::prelude::*;

verus! {

/// The digest of `dependency` under the toolkit's layout hasher.
///
/// The body feeds the dependency to a fresh `iced_native::Hasher` and returns
/// what `finish` gives. Nothing is claimed of the number that comes back: it
/// depends on how the dependency's type feeds the hasher.
#[verifier::external_body]
fn hash_of<Dependency: Hash>(dependency: &Dependency) -> (hash: u64) {
    let mut hasher = iced_native::Hasher::default();
    dependency.hash(&mut hasher);
    hasher.finish()
}

/// What a [`Cached`] widget keeps between frames: the last output of its
/// computation and the digest of the dependency that produced it.
pub struct Internal<Output> {
    output: Option<Output>,
    hash: u64,
    history: Ghost<Seq<u64>>,
    evaluations: Ghost<nat>,
}

impl<Output> Internal<Output> {
    /// The output that the slot holds.
    pub closed spec fn spec_output(&self) -> Output {
        self.output->0
    }

    /// The digest of the dependency that the slot was last reconciled with.
    pub closed spec fn spec_hash(&self) -> u64 {
        self.hash
    }

    /// The digests that the slot has met, oldest first: the one it was
    /// created with, then one for every reconciliation.
    pub closed spec fn history(&self) -> Seq<u64> {
        self.history@
    }

    /// How often the computation has run on behalf of this slot.
    pub closed spec fn evaluations(&self) -> nat {
        self.evaluations@
    }

    /// The slot holds an output, its digest is the last one it met, and the
    /// computation has run once for the first digest and once for every
    /// change of digest since.
    pub closed spec fn wf(&self) -> bool {
        &&& self.output is Some
        &&& self.history@.len() > 0
        &&& self.hash == self.history@.last()
        &&& self.evaluations@ == 1 + changes(self.history@)
    }

    /// The computation has run once for the digest that the slot was created
    /// with and once more for every digest in its history that differs from
    /// the one before it. Where the digest did not change, it did not run.
    pub proof fn lemma_evaluations(&self)
        requires
            self.wf(),
        ensures
            self.history().len() > 0,
            self.spec_hash() == self.history().last(),
            self.evaluations() == 1 + changes(self.history()),
    {
    }

    /// The output that the slot holds.
    pub fn output(&self) -> (output: &Output)
        requires
            self.wf(),
        ensures
            *output == self.spec_output(),
    {
        self.output.as_ref().unwrap()
    }

    /// The digest of the dependency that the slot was last reconciled with.
    pub fn hash(&self) -> (hash: u64)
        ensures
            hash == self.spec_hash(),
    {
        self.hash
    }
}

/// A widget whose content is rendered from the output of a computation, which
/// runs again only when the digest of its dependency changes.
///
/// The widget itself is made anew on every frame. What lasts is the
/// [`Internal`] slot, which the host keeps for it.
pub struct Cached<Dependency, Output, View, Computation, Render> {
    dependency: Dependency,
    computation: Computation,
    view: Render,
    element: Option<View>,
    marker: PhantomData<Output>,
}

impl<Dependency, Output, View, Computation, Render> Cached<
    Dependency,
    Output,
    View,
    Computation,
    Render,
> where
    Dependency: Hash,
    Computation: Fn(&Dependency, Option<Output>) -> Output,
    Render: Fn(&Output) -> View,
 {
    /// The value that the computation depends on.
    pub closed spec fn dependency(&self) -> Dependency {
        self.dependency
    }

    /// The computation that turns the dependency, and the output before it if
    /// there is one, into an output.
    pub closed spec fn computation(&self) -> Computation {
        self.computation
    }

    /// The function that renders an output.
    pub closed spec fn renderer(&self) -> Render {
        self.view
    }

    /// The content that the widget currently shows, if it has any.
    pub closed spec fn element(&self) -> Option<View> {
        self.element
    }

    /// `self` and `other` agree on everything but their content.
    pub open spec fn same_description(&self, other: &Self) -> bool {
        &&& self.dependency() == other.dependency()
        &&& self.computation() == other.computation()
        &&& self.renderer() == other.renderer()
    }

    /// Every output that the computation may give for `previous` can be
    /// rendered.
    pub open spec fn can_compute(&self, previous: Option<Output>) -> bool {
        &&& call_requires(self.computation(), (&self.dependency(), previous))
        &&& forall|output: Output| #[trigger]
            call_ensures(self.computation(), (&self.dependency(), previous), output)
                ==> call_requires(self.renderer(), (&output,))
    }

    /// The widget can be reconciled with `slot` when the digest of its
    /// dependency is `hash`.
    pub open spec fn can_reconcile(&self, slot: &Internal<Output>, hash: u64) -> bool {
        if hash == slot.spec_hash() {
            call_requires(self.renderer(), (&slot.spec_output(),))
        } else {
            self.can_compute(Some(slot.spec_output()))
        }
    }

    /// The content is a rendering of `output`.
    pub open spec fn shows(&self, output: &Output) -> bool {
        self.element() matches Some(element) && call_ensures(
            self.renderer(),
            (output,),
            element,
        )
    }

    /// Describes a widget by its dependency, the computation that turns the
    /// dependency into an output, and the function that renders the output.
    pub fn new(dependency: Dependency, computation: Computation, view: Render) -> (cached: Self)
        ensures
            cached.dependency() == dependency,
            cached.computation() == computation,
            cached.renderer() == view,
            cached.element() is None,
    {
        Cached { dependency, computation, view, element: None, marker: PhantomData }
    }

    /// Creates the slot of a widget that enters the tree: runs the
    /// computation without a previous output and renders what it gives.
    pub fn state(&mut self) -> (slot: Internal<Output>)
        requires
            old(self).can_compute(None),
        ensures
            slot.wf(),
            slot.history() == seq![slot.spec_hash()],
            slot.evaluations() == 1,
            call_ensures(
                old(self).computation(),
                (&old(self).dependency(), None),
                slot.spec_output(),
            ),
            final(self).same_description(old(self)),
            final(self).shows(&slot.spec_output()),
    {
        let hash = hash_of(&self.dependency);
        let output = (self.computation)(&self.dependency, None);
        let element = (self.view)(&output);
        self.element = Some(element);
        let history = Ghost(Seq::empty().push(hash));
        let evaluations = Ghost(1nat);
        Internal { output: Some(output), hash, history, evaluations }
    }

    /// Reconciles the widget with the slot that the host kept for it, given
    /// the digest of the widget's dependency.
    ///
    /// Where the digest is the one in the slot, the output stays as it is.
    /// Where it differs, the computation runs on the dependency and the
    /// former output, which it takes over. Either way the content is rendered
    /// anew from the output that the slot then holds.
    pub fn reconcile(&mut self, slot: &mut Internal<Output>, hash: u64)
        requires
            old(slot).wf(),
            old(self).can_reconcile(old(slot), hash),
        ensures
            final(slot).wf(),
            final(slot).spec_hash() == hash,
            final(slot).history() == old(slot).history().push(hash),
            hash == old(slot).spec_hash() ==> {
                &&& final(slot).spec_output() == old(slot).spec_output()
                &&& final(slot).evaluations() == old(slot).evaluations()
            },
            hash != old(slot).spec_hash() ==> {
                &&& call_ensures(
                    old(self).computation(),
                    (&old(self).dependency(), Some(old(slot).spec_output())),
                    final(slot).spec_output(),
                )
                &&& final(slot).evaluations() == old(slot).evaluations() + 1
            },
            final(self).same_description(old(self)),
            final(self).shows(&final(slot).spec_output()),
    {
        proof {
            let before = slot.history@;
            assert(before.push(hash).drop_last() =~= before);
        }
        if slot.hash != hash {
            let previous = slot.output.take();
            let output = (self.computation)(&self.dependency, previous);
            let element = (self.view)(&output);
            slot.output = Some(output);
            slot.hash = hash;
            slot.evaluations = Ghost((slot.evaluations@ + 1) as nat);
            self.element = Some(element);
        } else {
            let element = (self.view)(slot.output.as_ref().unwrap());
            self.element = Some(element);
        }
        slot.history = Ghost(slot.history@.push(hash));
    }

    /// Reconciles the widget with the slot that the host kept for it.
    ///
    /// The digest of the dependency is taken, and [`Cached::reconcile`] does
    /// the rest: the contract is that of `reconcile` for the digest that the
    /// slot holds afterwards.
    pub fn diff(&mut self, slot: &mut Internal<Output>)
        requires
            old(slot).wf(),
            forall|hash: u64| old(self).can_reconcile(old(slot), hash),
        ensures
            final(slot).wf(),
            final(slot).history() == old(slot).history().push(final(slot).spec_hash()),
            final(slot).spec_hash() == old(slot).spec_hash() ==> {
                &&& final(slot).spec_output() == old(slot).spec_output()
                &&& final(slot).evaluations() == old(slot).evaluations()
            },
            final(slot).spec_hash() != old(slot).spec_hash() ==> {
                &&& call_ensures(
                    old(self).computation(),
                    (&old(self).dependency(), Some(old(slot).spec_output())),
                    final(slot).spec_output(),
                )
                &&& final(slot).evaluations() == old(slot).evaluations() + 1
            },
            final(self).same_description(old(self)),
            final(self).shows(&final(slot).spec_output()),
    {
        let hash = hash_of(&self.dependency);
        self.reconcile(slot, hash);
    }

    /// Returns true if the widget holds content.
    pub fn has_element(&self) -> (has: bool)
        ensures
            has == self.element() is Some,
    {
        self.element.is_some()
    }

    /// Runs `f` on the content.
    pub fn with_element<T, F>(&self, f: F) -> (result: T) where F: FnOnce(&View) -> T
        requires
            self.element() is Some,
            call_requires(f, (&self.element()->0,)),
        ensures
            call_ensures(f, (&self.element()->0,), result),
    {
        f(self.element.as_ref().unwrap())
    }

    /// Runs `f` on the content, which it may change.
    pub fn with_element_mut<T, F>(&mut self, f: F) -> (result: T) where F: FnOnce(&mut View) -> T
        requires
            old(self).element() is Some,
            forall|element: &mut View|
                *element == old(self).element()->0 ==> #[trigger] call_requires(f, (element,)),
        ensures
            final(self).same_description(old(self)),
            exists|element: &mut View|
                {
                    &&& *element == old(self).element()->0
                    &&& final(self).element() == Some(*final(element))
                    &&& #[trigger] call_ensures(f, (element,), result)
                },
    {
        match &mut self.element {
            Some(element) => f(element),
            None => vstd::pervasive::unreached(),
        }
    }

    /// The content, for as long as the widget is borrowed.
    pub fn element_mut(&mut self) -> (element: &mut View)
        requires
            old(self).element() is Some,
        ensures
            *element == old(self).element()->0,
            final(self).element() == Some(*final(element)),
            final(self).same_description(old(self)),
    {
        match &mut self.element {
            Some(element) => element,
            None => vstd::pervasive::unreached(),
        }
    }

    /// Lets the content produce its overlay.
    ///
    /// Where the content produces one, the content goes on loan with it and
    /// the widget is left without content until [`Cached::release`] brings
    /// it back. Where it produces none, the loan ends at once and the widget
    /// keeps its content.
    pub fn overlay<Content, Builder>(&mut self, overlay_builder: Builder) -> (overlay: Option<
        Overlay<View, Content>,
    >) where Builder: FnOnce(&mut View) -> Option<Content>
        requires
            old(self).element() is Some,
            forall|element: &mut View|
                *element == old(self).element()->0 ==> #[trigger] call_requires(
                    overlay_builder,
                    (element,),
                ),
        ensures
            final(self).same_description(old(self)),
            overlay is None ==> final(self).element() is Some,
            exists|element: &mut View|
                {
                    &&& *element == old(self).element()->0
                    &&& #[trigger] call_ensures(overlay_builder, (element,), content_of(overlay))
                    &&& match overlay {
                        Some(lent) => {
                            &&& final(self).element() is None
                            &&& lent.element() == *final(element)
                            &&& lent.content() is Some
                        },
                        None => final(self).element() == Some(*final(element)),
                    }
                },
    {
        let overlay = Overlay::build(&mut self.element, overlay_builder);
        if overlay.has_overlay() {
            Some(overlay)
        } else {
            overlay.release(&mut self.element);
            None
        }
    }

    /// Ends the loan of the content: whatever the widget holds, it holds
    /// the content of `overlay` afterwards.
    pub fn release<Content>(&mut self, overlay: Overlay<View, Content>)
        ensures
            final(self).same_description(old(self)),
            final(self).element() == Some(overlay.element()),
    {
        overlay.release(&mut self.element);
    }
}

} // verus!
