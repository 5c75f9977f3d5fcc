use crate::cell::{
    element_layout, element_paint, Element, Handle, LayoutId, ViewError, Window, WindowModel,
};
use std::marker::PhantomData;
use std::rc::Rc;
use vstd::prelude::*;
use vstd::view::View as Modeled;

verus! {

/// A typed view node: a state cell bound to a render function. `P` is the
/// state type of the parent that holds it; the node never reads a value of it.
pub struct View<S, P, F> {
    pub state: Handle,
    pub render: Rc<F>,
    pub own_state_type: PhantomData<S>,
    pub parent_state_type: PhantomData<P>,
}

/// The window and result after a layout whose render built `e`:
/// the state goes back to its cell and `e` is laid out.
pub open spec fn view_layout<S>(w: WindowModel<S>, e: Element) -> (
    WindowModel<S>,
    Result<(LayoutId, Element), ViewError>,
) {
    let (w2, r) = element_layout(w, e);
    (w2, match r {
        Ok(id) => Ok((id, e)),
        Err(err) => Err(err),
    })
}

/// The render function accepts every state.
pub open spec fn renders_all<S, F: Fn(&S) -> Element>(render: F) -> bool {
    forall|s: &S| render.requires((s,))
}

/// Binds a state cell to a render function.
pub fn view<S, P, F: Fn(&S) -> Element>(state: Handle, render: F) -> (r: View<S, P, F>)
    ensures
        r.state == state,
        *r.render == render,
{
    View {
        state,
        render: Rc::new(render),
        own_state_type: PhantomData,
        parent_state_type: PhantomData,
    }
}

impl<S, P, F> Clone for View<S, P, F> {
    /// Shares the state cell and the render function: nothing is copied.
    fn clone(&self) -> (r: Self)
        ensures
            r.state == self.state,
            r.render == self.render,
    {
        View {
            state: self.state,
            render: Rc::clone(&self.render),
            own_state_type: PhantomData,
            parent_state_type: PhantomData,
        }
    }
}

impl<S, P, F: Fn(&S) -> Element> View<S, P, F> {
    /// Layout can run on `w`: the cell is in it, a fresh layout identifier is
    /// left, and the render function accepts every state.
    pub open spec fn ready(self, w: WindowModel<S>) -> bool {
        &&& w.contains(self.state)
        &&& w.next_layout < usize::MAX
        &&& renders_all::<S, F>(*self.render)
    }

    /// `e` is what the render function may build from the state in the cell.
    pub open spec fn renders(self, w: WindowModel<S>, e: Element) -> bool {
        (*self.render).ensures((&w.slots[self.state.id as int]->Some_0,), e)
    }

    /// Renders a fresh sub-tree from the current state, once, and lays it out.
    /// Fails with `BorrowConflict` while the cell's scope is open, and with the
    /// sub-tree's own error where its layout fails.
    pub fn layout(&self, parent: &mut P, w: &mut Window<S>) -> (r: Result<
        (LayoutId, Element),
        ViewError,
    >)
        requires
            self.ready(old(w)@),
        ensures
            *final(parent) == *old(parent),
            old(w)@.is_open(self.state) ==> r == Err::<(LayoutId, Element), ViewError>(
                ViewError::BorrowConflict,
            ) && final(w)@ == old(w)@,
            !old(w)@.is_open(self.state) ==> exists|e: Element|
                self.renders(old(w)@, e) && (final(w)@, r) == view_layout(old(w)@, e),
    {
        self.object_layout(w)
    }

    /// Paints the frame state that this node's layout produced, with the
    /// cell's scope open, at no offset.
    pub fn paint(&self, layout: LayoutId, parent: &mut P, frame: &Element, w: &mut Window<S>) -> (r:
        Result<(), ViewError>)
        requires
            old(w)@.contains(self.state),
        ensures
            *final(parent) == *old(parent),
            old(w)@.is_open(self.state) ==> r == Err::<(), ViewError>(ViewError::BorrowConflict)
                && final(w)@ == old(w)@,
            !old(w)@.is_open(self.state) ==> (final(w)@, r) == element_paint(old(w)@, *frame),
    {
        self.object_paint(layout, frame, w)
    }

    /// The erasure bridge's layout: the same acquire, render and layout
    /// sequence as `layout`, against the window alone.
    pub fn object_layout(&self, w: &mut Window<S>) -> (r: Result<(LayoutId, Element), ViewError>)
        requires
            self.ready(old(w)@),
        ensures
            old(w)@.is_open(self.state) ==> r == Err::<(LayoutId, Element), ViewError>(
                ViewError::BorrowConflict,
            ) && final(w)@ == old(w)@,
            !old(w)@.is_open(self.state) ==> exists|e: Element|
                self.renders(old(w)@, e) && (final(w)@, r) == view_layout(old(w)@, e),
    {
        let ghost w0 = w@;
        let s = match w.begin_update(self.state) {
            Ok(s) => s,
            Err(err) => return Err(err),
        };
        let element = (*self.render)(&s);
        let r = element.layout(w);
        w.end_update(self.state, s);
        let out = match r {
            Ok(id) => Ok((id, element)),
            Err(err) => Err(err),
        };
        proof {
            assert(w@.slots =~= w0.slots);
            assert(self.renders(w0, element));
            assert((w@, out) == view_layout(w0, element));
        }
        out
    }

    /// The erasure bridge's paint: paints a frame state that this node's own
    /// layout produced.
    pub fn object_paint(&self, layout: LayoutId, frame: &Element, w: &mut Window<S>) -> (r: Result<(), ViewError>)
        requires
            old(w)@.contains(self.state),
        ensures
            old(w)@.is_open(self.state) ==> r == Err::<(), ViewError>(ViewError::BorrowConflict)
                && final(w)@ == old(w)@,
            !old(w)@.is_open(self.state) ==> (final(w)@, r) == element_paint(old(w)@, *frame),
    {
        let ghost w0 = w@;
        let s = match w.begin_update(self.state) {
            Ok(s) => s,
            Err(err) => return Err(err),
        };
        let r = frame.paint(w);
        w.end_update(self.state, s);
        proof {
            assert(w@.slots =~= w0.slots);
        }
        r
    }

    /// Wraps this node in shared storage, as an erased node for a parent whose
    /// state type is `Q`.
    pub fn into_any<Q>(self) -> (r: AnyView<Q, S, P, F>)
        ensures
            *r.view == self,
    {
        AnyView { view: Rc::new(self), parent_state_type: PhantomData }
    }
}

/// An erased view node: a shared typed node, presented to a parent whose state
/// type is `Q`. Its layout and paint forward to the erasure bridge.
pub struct AnyView<Q, S, P, F> {
    pub view: Rc<View<S, P, F>>,
    pub parent_state_type: PhantomData<Q>,
}

impl<Q, S, P, F> Clone for AnyView<Q, S, P, F> {
    /// Shares the wrapped node: independent clones see the same state.
    fn clone(&self) -> (r: Self)
        ensures
            r.view == self.view,
    {
        AnyView { view: Rc::clone(&self.view), parent_state_type: PhantomData }
    }
}

impl<Q, S, P, F: Fn(&S) -> Element> AnyView<Q, S, P, F> {
    /// Lays out the wrapped node through the bridge; `parent` is unused.
    pub fn layout(&self, parent: &mut Q, w: &mut Window<S>) -> (r: Result<
        (LayoutId, Element),
        ViewError,
    >)
        requires
            self.view.ready(old(w)@),
        ensures
            *final(parent) == *old(parent),
            old(w)@.is_open(self.view.state) ==> r == Err::<(LayoutId, Element), ViewError>(
                ViewError::BorrowConflict,
            ) && final(w)@ == old(w)@,
            !old(w)@.is_open(self.view.state) ==> exists|e: Element|
                self.view.renders(old(w)@, e) && (final(w)@, r) == view_layout(old(w)@, e),
    {
        self.view.object_layout(w)
    }

    /// Paints the wrapped node's frame state through the bridge; `parent` is
    /// unused.
    pub fn paint(&self, layout: LayoutId, parent: &mut Q, frame: &Element, w: &mut Window<S>) -> (r:
        Result<(), ViewError>)
        requires
            old(w)@.contains(self.view.state),
        ensures
            *final(parent) == *old(parent),
            old(w)@.is_open(self.view.state) ==> r == Err::<(), ViewError>(
                ViewError::BorrowConflict,
            ) && final(w)@ == old(w)@,
            !old(w)@.is_open(self.view.state) ==> (final(w)@, r) == element_paint(
                old(w)@,
                *frame,
            ),
    {
        self.view.object_paint(layout, frame, w)
    }
}

/// The window and result of a full cycle: layout of the rendered `e`, then
/// paint of the frame state it produced.
pub open spec fn cycle<S>(w: WindowModel<S>, e: Element) -> (WindowModel<S>, Result<(), ViewError>) {
    let (w2, r) = view_layout(w, e);
    match r {
        Ok((_, f)) => element_paint(w2, f),
        Err(err) => (w2, Err(err)),
    }
}

/// Clones of a node share one cell: a state stored through one clone's handle
/// is the state that every other clone reads.
pub proof fn lemma_clones_share_state<S, P, F>(
    v: View<S, P, F>,
    c: View<S, P, F>,
    w: WindowModel<S>,
    s: S,
)
    requires
        c.state == v.state,
        w.contains(v.state),
    ensures
        w.closed(c.state, s).slots[v.state.id as int] == Some(s),
        w.closed(c.state, s).contains(v.state),
{
}

/// Clones of an erased node share one wrapped node, so one cell: a state
/// stored through one clone is the state that every other clone reads.
pub proof fn lemma_erased_clones_share_state<Q, S, P, F>(
    a: AnyView<Q, S, P, F>,
    b: AnyView<Q, S, P, F>,
    w: WindowModel<S>,
    s: S,
)
    requires
        b.view == a.view,
        w.contains(a.view.state),
    ensures
        w.closed(b.view.state, s).slots[a.view.state.id as int] == Some(s),
{
}

/// Erasing a node changes nothing that a cycle does: for each sub-tree its
/// render may build, the erased node renders it too and ends in the same
/// window and result.
pub proof fn lemma_erased_cycle_matches_typed<Q, S, P, F: Fn(&S) -> Element>(
    v: View<S, P, F>,
    a: AnyView<Q, S, P, F>,
    w: WindowModel<S>,
    e: Element,
)
    requires
        *a.view == v,
    ensures
        a.view.renders(w, e) == v.renders(w, e),
        a.view.ready(w) == v.ready(w),
        a.view.state == v.state,
        w.is_open(a.view.state) == w.is_open(v.state),
{
}

/// The bridge's paint always accepts the frame state that its own layout
/// produced in the same cycle: that frame state is the rendered sub-tree,
/// and painting it succeeds.
pub proof fn lemma_own_frame_paints<S>(w: WindowModel<S>, e: Element)
    requires
        view_layout(w, e).1 is Ok,
    ensures
        view_layout(w, e).1->Ok_0.1 == e,
        element_paint(view_layout(w, e).0, e).1 == Ok::<(), ViewError>(()),
        cycle(w, e).1 == Ok::<(), ViewError>(()),
{
}

/// Re-entering an open scope fails and leaves the outer scope whole: once the
/// cell is open a second opening finds it open, and closing the outer scope
/// with its state restores the window.
pub proof fn lemma_reentrant_update_fails<S>(w: WindowModel<S>, h: Handle)
    requires
        w.contains(h),
        !w.is_open(h),
    ensures
        w.opened(h).is_open(h),
        w.opened(h).contains(h),
        w.opened(h).closed(h, w.slots[h.id as int]->Some_0) == w,
{
    assert(w.opened(h).closed(h, w.slots[h.id as int]->Some_0).slots =~= w.slots);
}

} // verus!
