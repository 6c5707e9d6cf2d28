//! Failure kinds shared by the geometric queries, and the store of raw
//! (externally authored) libraries and cells that [`crate::cell::RawLayoutPtr`]
//! references.

use vstd::prelude::*;

verus! {

/// The failure kinds a layout query can produce.
#[derive(Clone, Copy, Debug, PartialEq, Eq, Structural)]
pub enum LayoutError {
    /// A geometric or attribute query was made on a cell with no view able to
    /// answer it.
    Validation,
    /// A relative placement has not been resolved to an absolute coordinate.
    Unresolved,
    /// A shared cell reference could not be resolved to a stored cell.
    Unavailable,
}

/// Result type returned by every fallible layout query.
pub type LayoutResult<T> = Result<T, LayoutError>;

/// A raw, externally authored library.  Only its name is visible here.
#[derive(Clone, Debug)]
pub struct RawLibrary {
    pub name: String,
}

/// A raw, externally authored cell.  Only its name is visible here; its
/// content is never traversed by this crate.
#[derive(Clone, Debug)]
pub struct RawCell {
    pub name: String,
}

/// Identifier of a [`RawLibrary`] within a [`RawArena`].
#[derive(Clone, Copy, Debug, PartialEq, Eq, Structural)]
pub struct RawLibId {
    pub index: usize,
}

/// Identifier of a [`RawCell`] within a [`RawArena`].
#[derive(Clone, Copy, Debug, PartialEq, Eq, Structural)]
pub struct RawCellId {
    pub index: usize,
}

/// Arena of raw libraries and cells.  Entries are shared by identifier and
/// never removed, so every identifier handed out stays valid for as long as
/// the arena lives.
#[derive(Clone, Debug)]
pub struct RawArena {
    pub libs: Vec<RawLibrary>,
    pub cells: Vec<RawCell>,
}

impl RawArena {
    /// The raw library stored under `id`, if `id` is in range.
    pub open spec fn spec_lib(self, id: RawLibId) -> Option<RawLibrary> {
        if id.index < self.libs@.len() {
            Some(self.libs@[id.index as int])
        } else {
            None
        }
    }

    /// The raw cell stored under `id`, if `id` is in range.
    pub open spec fn spec_cell(self, id: RawCellId) -> Option<RawCell> {
        if id.index < self.cells@.len() {
            Some(self.cells@[id.index as int])
        } else {
            None
        }
    }

    /// Create an empty arena.
    pub fn new() -> (r: Self)
        ensures
            r.libs@ == Seq::<RawLibrary>::empty(),
            r.cells@ == Seq::<RawCell>::empty(),
    {
        RawArena { libs: Vec::new(), cells: Vec::new() }
    }

    /// Store a raw library and return its identifier.
    pub fn add_lib(&mut self, lib: RawLibrary) -> (id: RawLibId)
        ensures
            final(self).libs@ == old(self).libs@.push(lib),
            final(self).cells@ == old(self).cells@,
            id.index == old(self).libs@.len(),
            final(self).spec_lib(id) == Some(lib),
    {
        let id = RawLibId { index: self.libs.len() };
        self.libs.push(lib);
        id
    }

    /// Store a raw cell and return its identifier.
    pub fn add_cell(&mut self, cell: RawCell) -> (id: RawCellId)
        ensures
            final(self).cells@ == old(self).cells@.push(cell),
            final(self).libs@ == old(self).libs@,
            id.index == old(self).cells@.len(),
            final(self).spec_cell(id) == Some(cell),
    {
        let id = RawCellId { index: self.cells.len() };
        self.cells.push(cell);
        id
    }

    /// Shared read access to the raw cell under `id`; fails exactly when `id`
    /// does not refer to a stored cell.
    pub fn cell(&self, id: RawCellId) -> (r: Option<&RawCell>)
        ensures
            match r {
                Some(c) => self.spec_cell(id) == Some(*c),
                None => self.spec_cell(id) is None,
            },
    {
        if id.index < self.cells.len() {
            Some(&self.cells[id.index])
        } else {
            None
        }
    }
}

} // verus!
