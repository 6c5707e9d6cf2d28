//! Shared ownership of cell definitions: an arena addressed by stable
//! integer identifiers.
//!
//! Many instances, across many layouts, may reference one cell definition.
//! Instead of shared pointers, instances hold a [`CellId`] into a
//! [`CellArena`]; reads need no locking, and replacing a cell's views goes
//! through the arena, so it is serialized against all readers by Rust's
//! borrow rules.  Because entries are never removed, an identifier handed out
//! by [`CellArena::add`] stays valid for as long as the arena lives.

use vstd::prelude::*;

use crate::cell::{Cell, CellView};
use crate::raw::LayoutError;

verus! {

/// Identifier of a [`Cell`] within a [`CellArena`].
#[derive(Clone, Copy, Debug, PartialEq, Eq, Structural)]
pub struct CellId {
    pub index: usize,
}

/// Arena of cell definitions, shared by identifier.
#[derive(Clone, Debug)]
pub struct CellArena {
    pub cells: Vec<Cell>,
}

impl CellArena {
    /// The cell stored under `id`, if `id` is in range.
    pub open spec fn spec_get(self, id: CellId) -> Option<Cell> {
        if id.index < self.cells@.len() {
            Some(self.cells@[id.index as int])
        } else {
            None
        }
    }

    /// Create an empty arena.
    pub fn new() -> (r: Self)
        ensures
            r.cells@ == Seq::<Cell>::empty(),
    {
        CellArena { cells: Vec::new() }
    }

    /// Store a cell definition and return its identifier.
    pub fn add(&mut self, cell: Cell) -> (id: CellId)
        ensures
            final(self).cells@ == old(self).cells@.push(cell),
            id.index == old(self).cells@.len(),
            final(self).spec_get(id) == Some(cell),
    {
        let id = CellId { index: self.cells.len() };
        self.cells.push(cell);
        id
    }

    /// Shared read access to the cell under `id`; fails exactly when `id`
    /// does not refer to a stored cell.
    pub fn get(&self, id: CellId) -> (r: Option<&Cell>)
        ensures
            match r {
                Some(c) => self.spec_get(id) == Some(*c),
                None => self.spec_get(id) is None,
            },
    {
        if id.index < self.cells.len() {
            Some(&self.cells[id.index])
        } else {
            None
        }
    }

    /// Store `view` into the matching view slot of the cell under `id`,
    /// replacing any prior view of the same kind; fails exactly when `id`
    /// does not refer to a stored cell.
    pub fn add_view_at(&mut self, id: CellId, view: CellView) -> (r: Result<(), LayoutError>)
        ensures
            old(self).spec_get(id) matches Some(c) ==> r == Ok::<(), LayoutError>(())
                && final(self).cells@ == old(self).cells@.update(
                id.index as int,
                c.with_view(view),
            ),
            old(self).spec_get(id) is None ==> r == Err::<(), LayoutError>(LayoutError::Unavailable)
                && *final(self) == *old(self),
    {
        if id.index < self.cells.len() {
            self.cells[id.index].add_view(view);
            Ok(())
        } else {
            Err(LayoutError::Unavailable)
        }
    }
}

} // verus!
