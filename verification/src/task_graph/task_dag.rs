//! The content model: what a task graph wants drawn, cell by cell.

use std::sync::Arc;
use vstd::prelude::*;

verus! {

/// One glyph that the content wants drawn at a cell of the viewport.
#[derive(Clone, Copy, Debug, PartialEq, Eq, Structural)]
pub struct DrawCell {
    pub row: usize,
    pub col: usize,
    pub glyph: char,
}

/// The content handed to the renderer. The renderer replaces it as a whole and
/// reads from it only the cells to draw, in the order in which they were added.
#[derive(Debug)]
pub struct TaskDag {
    pub cells: Vec<DrawCell>,
}

impl View for TaskDag {
    type V = Seq<DrawCell>;

    open spec fn view(&self) -> Seq<DrawCell> {
        self.cells@
    }
}

impl Default for TaskDag {
    fn default() -> (dag: TaskDag)
        ensures
            dag@ == Seq::<DrawCell>::empty(),
    {
        TaskDag { cells: Vec::new() }
    }
}

impl TaskDag {
    /// Moves the content behind a shared pointer, unchanged.
    pub fn to_arc(self) -> (shared: Arc<Self>)
        ensures
            *shared == self,
    {
        Arc::new(self)
    }
}

} // verus!
