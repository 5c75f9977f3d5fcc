use vstd::prelude::*;

verus! {

/// What a layout or paint call can fail with.
#[derive(Debug, Clone, Copy, PartialEq, Eq, Structural)]
pub enum ViewError {
    /// A state cell's exclusive-access scope was entered while already open.
    BorrowConflict,
    /// A sub-tree's layout or paint call failed.
    ChildFailed,
}

/// Identifies one node's computed layout.
#[derive(Debug, Clone, Copy, PartialEq, Eq, Structural)]
pub struct LayoutId {
    pub id: usize,
}

/// A stable key of one state cell in a `Window`. Copies of a handle share the
/// same cell: they never duplicate the state it holds.
#[derive(Debug, Clone, Copy, PartialEq, Eq, Structural)]
pub struct Handle {
    pub id: usize,
}

/// A display node built by a render function.
#[derive(Debug, PartialEq, Eq)]
pub enum Element {
    /// A run of text, painted as it stands.
    Text(String),
    /// A node whose layout and paint always fail.
    Broken,
}

/// The environment that layout and paint run in: an arena of state cells, the
/// counter that hands out layout identifiers, and the text painted so far.
///
/// A cell holds `None` while an exclusive-access scope on it is open.
pub struct Window<S> {
    pub slots: Vec<Option<S>>,
    pub next_layout: usize,
    pub painted: Vec<String>,
}

/// The mathematical model of a `Window`.
pub struct WindowModel<S> {
    pub slots: Seq<Option<S>>,
    pub next_layout: nat,
    pub painted: Seq<Seq<char>>,
}

impl<S> View for Window<S> {
    type V = WindowModel<S>;

    open spec fn view(&self) -> WindowModel<S> {
        WindowModel {
            slots: self.slots@,
            next_layout: self.next_layout as nat,
            painted: self.painted@.map_values(|t: String| t@),
        }
    }
}

impl<S> WindowModel<S> {
    /// The handle names a cell of this window.
    pub open spec fn contains(self, h: Handle) -> bool {
        h.id < self.slots.len()
    }

    /// An exclusive-access scope on the cell is open.
    pub open spec fn is_open(self, h: Handle) -> bool {
        self.slots[h.id as int] is None
    }

    /// The window with the cell's state taken out, its scope open.
    pub open spec fn opened(self, h: Handle) -> WindowModel<S> {
        WindowModel { slots: self.slots.update(h.id as int, None), ..self }
    }

    /// The window with `s` put back in the cell, its scope closed.
    pub open spec fn closed(self, h: Handle, s: S) -> WindowModel<S> {
        WindowModel { slots: self.slots.update(h.id as int, Some(s)), ..self }
    }

    /// The window after one fresh layout identifier was handed out.
    pub open spec fn advanced(self) -> WindowModel<S> {
        WindowModel { next_layout: self.next_layout + 1, ..self }
    }

    /// The window after `t` was painted.
    pub open spec fn with_painted(self, t: Seq<char>) -> WindowModel<S> {
        WindowModel { painted: self.painted.push(t), ..self }
    }
}

impl<S> Window<S> {
    /// A window with no cells, nothing laid out and nothing painted.
    pub fn new() -> (r: Window<S>)
        ensures
            r@.slots.len() == 0,
            r@.next_layout == 0,
            r@.painted.len() == 0,
    {
        Window { slots: Vec::new(), next_layout: 0, painted: Vec::new() }
    }

    /// Moves `s` into a new cell and returns its handle.
    pub fn insert(&mut self, s: S) -> (h: Handle)
        requires
            old(self).slots.len() < usize::MAX,
        ensures
            h.id == old(self)@.slots.len(),
            final(self)@.slots == old(self)@.slots.push(Some(s)),
            final(self)@.next_layout == old(self)@.next_layout,
            final(self)@.painted == old(self)@.painted,
    {
        let h = Handle { id: self.slots.len() };
        self.slots.push(Some(s));
        h
    }

    /// The state of a cell, or `None` while its scope is open.
    pub fn read(&self, h: Handle) -> (r: Option<&S>)
        requires
            self@.contains(h),
        ensures
            r == match self@.slots[h.id as int] {
                Some(s) => Some(&s),
                None => None::<&S>,
            },
    {
        match &self.slots[h.id] {
            Some(s) => Some(s),
            None => None,
        }
    }

    /// Opens the exclusive-access scope of a cell and hands out its state.
    /// A second opening while the scope is open fails with `BorrowConflict`
    /// and changes nothing.
    pub fn begin_update(&mut self, h: Handle) -> (r: Result<S, ViewError>)
        requires
            old(self)@.contains(h),
        ensures
            old(self)@.is_open(h) ==> r == Err::<S, ViewError>(ViewError::BorrowConflict)
                && final(self)@ == old(self)@,
            !old(self)@.is_open(h) ==> r == Ok::<S, ViewError>(
                old(self)@.slots[h.id as int]->Some_0,
            ) && final(self)@ == old(self)@.opened(h),
    {
        let mut taken: Option<S> = None;
        self.slots.set_and_swap(h.id, &mut taken);
        match taken {
            Some(s) => Ok(s),
            None => {
                proof {
                    assert(self.slots@ =~= old(self).slots@);
                }
                Err(ViewError::BorrowConflict)
            },
        }
    }

    /// Closes the open scope of a cell, storing `s` as its state.
    pub fn end_update(&mut self, h: Handle, s: S)
        requires
            old(self)@.contains(h),
        ensures
            final(self)@ == old(self)@.closed(h, s),
    {
        self.slots.set(h.id, Some(s));
    }

    /// Replaces the state of a cell from outside any render. Fails with
    /// `BorrowConflict`, changing nothing, while the cell's scope is open.
    pub fn set_state(&mut self, h: Handle, s: S) -> (r: Result<(), ViewError>)
        requires
            old(self)@.contains(h),
        ensures
            old(self)@.is_open(h) ==> r == Err::<(), ViewError>(ViewError::BorrowConflict)
                && final(self)@ == old(self)@,
            !old(self)@.is_open(h) ==> r == Ok::<(), ViewError>(())
                && final(self)@ == old(self)@.closed(h, s),
    {
        if self.slots[h.id].is_none() {
            return Err(ViewError::BorrowConflict);
        }
        self.slots.set(h.id, Some(s));
        Ok(())
    }
}

impl Element {
    /// Lays out this node: a text run gets the next fresh identifier.
    pub fn layout<S>(&self, w: &mut Window<S>) -> (r: Result<LayoutId, ViewError>)
        requires
            old(w).next_layout < usize::MAX,
        ensures
            (final(w)@, r) == element_layout(old(w)@, *self),
    {
        match self {
            Element::Text(_) => {
                let id = LayoutId { id: w.next_layout };
                w.next_layout = w.next_layout + 1;
                Ok(id)
            },
            Element::Broken => Err(ViewError::ChildFailed),
        }
    }

    /// Paints this node: a text run is appended to what the window painted.
    pub fn paint<S>(&self, w: &mut Window<S>) -> (r: Result<(), ViewError>)
        ensures
            (final(w)@, r) == element_paint(old(w)@, *self),
    {
        match self {
            Element::Text(t) => {
                w.painted.push(t.clone());
                proof {
                    assert(w@.painted =~= old(w)@.painted.push(t@));
                }
                Ok(())
            },
            Element::Broken => Err(ViewError::ChildFailed),
        }
    }
}

/// The window and result after laying out `e`.
pub open spec fn element_layout<S>(w: WindowModel<S>, e: Element) -> (WindowModel<S>, Result<LayoutId, ViewError>) {
    match e {
        Element::Text(_) => (w.advanced(), Ok(LayoutId { id: w.next_layout as usize })),
        Element::Broken => (w, Err(ViewError::ChildFailed)),
    }
}

/// The window and result after painting `e`.
pub open spec fn element_paint<S>(w: WindowModel<S>, e: Element) -> (WindowModel<S>, Result<(), ViewError>) {
    match e {
        Element::Text(t) => (w.with_painted(t@), Ok(())),
        Element::Broken => (w, Err(ViewError::ChildFailed)),
    }
}

} // verus!
