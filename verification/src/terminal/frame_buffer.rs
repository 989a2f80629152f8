//! The frame buffer pair: the grid that the terminal shows, the grid staged
//! for the next frame, and the diff that reconciles them.

use crate::task_graph::task_dag::DrawCell;
use crate::task_graph::task_dag::TaskDag;
use crate::terminal::command::TerminalCommand;
use crate::terminal::command::BLANK;
use vstd::prelude::*;

verus! {

/// One cell of a grid. A staged cell that is `Untouched` asks for no change in
/// this frame; it is never written to the terminal, and the committed grid
/// never holds one.
#[derive(Clone, Copy, Debug, PartialEq, Eq, Structural)]
pub enum Cell {
    Untouched,
    Glyph(char),
}

/// What a cell shows once a staged value has been applied to it.
pub open spec fn resolved(shown: Cell, staged: Cell) -> Cell {
    if staged is Untouched {
        shown
    } else {
        staged
    }
}

/// Whether a staged value asks for a glyph other than the one shown.
pub open spec fn needs_repaint(shown: Cell, staged: Cell) -> bool {
    staged is Glyph && staged != shown
}

/// The committed grid after the staged grid has been applied to it.
pub open spec fn merged(committed: Seq<Cell>, staged: Seq<Cell>) -> Seq<Cell> {
    Seq::new(committed.len(), |i: int| resolved(committed[i], staged[i]))
}

/// The move that puts the cursor on cell `index` of a row-major grid that is
/// `width` cells wide and has its top left corner at the given origin.
pub open spec fn move_to_cell(origin_row: int, origin_col: int, width: int, index: int)
    -> TerminalCommand {
    TerminalCommand::MoveTo {
        col: (origin_col + index % width) as usize,
        row: (origin_row + index / width) as usize,
    }
}

/// The writes that repaint the first `n` cells: for each cell that needs it, in
/// row-major order, a move to the cell and then its new glyph.
pub open spec fn repaint_prefix(
    committed: Seq<Cell>,
    staged: Seq<Cell>,
    width: int,
    origin_row: int,
    origin_col: int,
    n: nat,
) -> Seq<TerminalCommand>
    decreases n,
{
    if n == 0 {
        Seq::empty()
    } else {
        let before = repaint_prefix(committed, staged, width, origin_row, origin_col, (n - 1) as nat);
        if needs_repaint(committed[n - 1], staged[n - 1]) {
            before.push(move_to_cell(origin_row, origin_col, width, n - 1)).push(
                TerminalCommand::Print(staged[n - 1]->Glyph_0),
            )
        } else {
            before
        }
    }
}

/// The staged grid that a content asks for on a `width` by `height` viewport:
/// every cell untouched, then each cell of the content written in turn at index
/// `row * width + col`. A later cell overwrites an earlier one; a cell outside
/// the viewport is left out.
pub open spec fn paint(content: Seq<DrawCell>, width: nat, height: nat) -> Seq<Cell>
    decreases content.len(),
{
    if content.len() == 0 {
        Seq::new(width * height, |i: int| Cell::Untouched)
    } else {
        let below = paint(content.drop_last(), width, height);
        let cell = content.last();
        if cell.row < height && cell.col < width {
            below.update(cell.row * width + cell.col, Cell::Glyph(cell.glyph))
        } else {
            below
        }
    }
}

/// The mathematical value of a buffer pair.
pub struct GridModel {
    pub width: nat,
    pub height: nat,
    pub committed: Seq<Cell>,
    pub staged: Seq<Cell>,
}

impl GridModel {
    /// Both grids cover the whole viewport, and the committed grid holds glyphs only.
    pub open spec fn wf(self) -> bool {
        &&& self.width <= u16::MAX
        &&& self.height <= u16::MAX
        &&& self.committed.len() == self.width * self.height
        &&& self.staged.len() == self.width * self.height
        &&& forall|i: int| 0 <= i < self.committed.len() ==> self.committed[i] is Glyph
    }

    /// A fresh pair for a viewport: the committed grid blank, the staged grid untouched.
    pub open spec fn laid_out(width: nat, height: nat) -> GridModel {
        GridModel {
            width,
            height,
            committed: Seq::new(width * height, |i: int| Cell::Glyph(BLANK)),
            staged: Seq::new(width * height, |i: int| Cell::Untouched),
        }
    }

    /// The pair with the staged grid repopulated from a content.
    pub open spec fn stage(self, content: Seq<DrawCell>) -> GridModel {
        GridModel { staged: paint(content, self.width, self.height), ..self }
    }

    /// The writes of a commit, without the closing move and flush.
    pub open spec fn repaint(self, origin_row: int, origin_col: int) -> Seq<TerminalCommand> {
        repaint_prefix(
            self.committed,
            self.staged,
            self.width as int,
            origin_row,
            origin_col,
            self.committed.len(),
        )
    }

    /// The batch of a commit: the writes, a move to the line below the
    /// viewport, and one flush.
    pub open spec fn commit_commands(self, origin_row: int, origin_col: int) -> Seq<
        TerminalCommand,
    > {
        self.repaint(origin_row, origin_col).push(
            TerminalCommand::MoveTo { col: 0, row: (origin_row + self.height) as usize },
        ).push(TerminalCommand::Flush)
    }

    /// The pair after a commit: both grids hold the frame that the terminal now shows.
    pub open spec fn commit(self) -> GridModel {
        GridModel {
            committed: merged(self.committed, self.staged),
            staged: merged(self.committed, self.staged),
            ..self
        }
    }
}

/// The two cell grids of the renderer, row-major and equally sized, with the
/// dimensions of the viewport that they were last laid out for.
pub struct FrameBuffers {
    width: u16,
    height: u16,
    committed: Vec<Cell>,
    staged: Vec<Cell>,
}

impl View for FrameBuffers {
    type V = GridModel;

    closed spec fn view(&self) -> GridModel {
        GridModel {
            width: self.width as nat,
            height: self.height as nat,
            committed: self.committed@,
            staged: self.staged@,
        }
    }
}

/// A grid of 16-bit dimensions has a length that fits in any `usize`.
proof fn lemma_area_fits(width: u16, height: u16)
    ensures
        width * height <= usize::MAX,
{
    assert(width * height <= 0xFFFF * 0xFFFF) by (nonlinear_arith)
        requires
            width <= 0xFFFF,
            height <= 0xFFFF,
    ;
}

/// A cell inside the viewport has its row-major index inside the grid.
proof fn lemma_cell_index_in_grid(row: int, col: int, width: int, height: int)
    requires
        0 <= row < height,
        0 <= col < width,
    ensures
        0 <= row * width,
        0 <= row * width + col < width * height,
{
    assert(0 <= row * width && (row + 1) * width <= height * width && (row + 1) * width == row
        * width + width && height * width == width * height) by (nonlinear_arith)
        requires
            0 <= row < height,
            0 <= col < width,
    ;
}

/// The row and column of a grid index lie inside the viewport.
proof fn lemma_index_in_viewport(index: int, width: int, height: int)
    requires
        0 <= index < width * height,
        0 <= width,
        0 <= height,
    ensures
        0 < width,
        0 <= index / width < height,
        0 <= index % width < width,
{
    assert(0 < width) by (nonlinear_arith)
        requires
            0 <= index < width * height,
            0 <= width,
            0 <= height,
    ;
    vstd::arithmetic::div_mod::lemma_fundamental_div_mod(index, width);
    vstd::arithmetic::div_mod::lemma_mod_pos_bound(index, width);
    assert(0 <= index / width < height) by (nonlinear_arith)
        requires
            0 < width,
            0 <= index < width * height,
            index == width * (index / width) + index % width,
            0 <= index % width < width,
    ;
}

impl FrameBuffers {
    /// The invariant of the pair, stated of its value.
    pub open spec fn wf(&self) -> bool {
        self@.wf()
    }

    /// An empty pair, for a viewport without cells.
    pub fn new() -> (buffers: FrameBuffers)
        ensures
            buffers.wf(),
            buffers@ == GridModel::laid_out(0, 0),
    {
        let buffers = FrameBuffers {
            width: 0,
            height: 0,
            committed: Vec::new(),
            staged: Vec::new(),
        };
        assert(buffers@.committed =~= GridModel::laid_out(0, 0).committed);
        assert(buffers@.staged =~= GridModel::laid_out(0, 0).staged);
        buffers
    }

    /// The width of the viewport that the grids were laid out for.
    pub fn width(&self) -> (width: u16)
        ensures
            width == self@.width,
    {
        self.width
    }

    /// The height of the viewport that the grids were laid out for.
    pub fn height(&self) -> (height: u16)
        ensures
            height == self@.height,
    {
        self.height
    }

    /// Resizes both grids to `width * height` cells, the committed grid filled
    /// with blanks and the staged grid untouched.
    pub fn relayout(&mut self, width: u16, height: u16)
        ensures
            final(self).wf(),
            final(self)@ == GridModel::laid_out(width as nat, height as nat),
    {
        proof {
            lemma_area_fits(width, height);
        }
        let cells: usize = width as usize * height as usize;
        let mut committed: Vec<Cell> = Vec::new();
        let mut staged: Vec<Cell> = Vec::new();
        let mut i: usize = 0;
        while i < cells
            invariant
                i <= cells,
                committed@ == Seq::new(i as nat, |k: int| Cell::Glyph(BLANK)),
                staged@ == Seq::new(i as nat, |k: int| Cell::Untouched),
            decreases cells - i,
        {
            committed.push(Cell::Glyph(BLANK));
            staged.push(Cell::Untouched);
            i = i + 1;
        }
        self.width = width;
        self.height = height;
        self.committed = committed;
        self.staged = staged;
    }

    /// Clears the staged grid to untouched, then writes every cell that the
    /// content wants drawn. Cells outside the viewport are left out.
    pub fn stage(&mut self, content: &TaskDag)
        requires
            old(self).wf(),
        ensures
            final(self).wf(),
            final(self)@ == old(self)@.stage(content@),
    {
        proof {
            lemma_area_fits(self.width, self.height);
        }
        let cells: usize = self.staged.len();
        let mut i: usize = 0;
        while i < cells
            invariant
                i <= cells,
                cells == self.staged@.len(),
                self.width == old(self).width,
                self.height == old(self).height,
                self.committed == old(self).committed,
                forall|k: int| 0 <= k < i ==> self.staged@[k] == Cell::Untouched,
            decreases cells - i,
        {
            self.staged.set(i, Cell::Untouched);
            i = i + 1;
        }
        assert(self.staged@ =~= paint(content@.take(0), self.width as nat, self.height as nat));
        let mut n: usize = 0;
        while n < content.cells.len()
            invariant
                n <= content.cells.len(),
                self.width == old(self).width,
                self.height == old(self).height,
                self.committed == old(self).committed,
                self.staged@.len() == self.width * self.height,
                self.staged@ == paint(content@.take(n as int), self.width as nat, self.height as nat),
            decreases content.cells.len() - n,
        {
            let cell = content.cells[n];
            assert(content@.take(n + 1).drop_last() =~= content@.take(n as int));
            assert(content@.take(n + 1).last() == cell);
            if cell.row < self.height as usize && cell.col < self.width as usize {
                proof {
                    lemma_area_fits(self.width, self.height);
                    lemma_cell_index_in_grid(
                        cell.row as int,
                        cell.col as int,
                        self.width as int,
                        self.height as int,
                    );
                }
                self.staged.set(cell.row * self.width as usize + cell.col, Cell::Glyph(cell.glyph));
            }
            n = n + 1;
        }
        assert(content@.take(n as int) =~= content@);
    }

    /// Reconciles the terminal with the staged grid. A cell whose staged value
    /// is untouched keeps its glyph; a cell whose staged value equals the glyph
    /// shown is skipped; every other cell gets, appended to `out`, a move and a
    /// write of its new glyph. The batch closes with a move below the viewport
    /// and one flush, after which both grids hold the frame shown and change
    /// places.
    pub fn commit(&mut self, origin_row: u16, origin_col: u16, out: &mut Vec<TerminalCommand>)
        requires
            old(self).wf(),
        ensures
            final(self).wf(),
            final(self)@ == old(self)@.commit(),
            final(out)@ == old(out)@ + old(self)@.commit_commands(
                origin_row as int,
                origin_col as int,
            ),
    {
        proof {
            lemma_area_fits(self.width, self.height);
        }
        let ghost start = out@;
        let ghost shown = self.committed@;
        let ghost wanted = self.staged@;
        let width: usize = self.width as usize;
        let cells: usize = self.committed.len();
        let mut i: usize = 0;
        while i < cells
            invariant
                i <= cells,
                cells == shown.len(),
                shown.len() == wanted.len(),
                shown.len() == self.width * self.height,
                width == self.width,
                self.width == old(self).width,
                self.height == old(self).height,
                self.committed@.len() == cells,
                self.staged@.len() == cells,
                forall|k: int| 0 <= k < shown.len() ==> shown[k] is Glyph,
                forall|k: int|
                    0 <= k < i ==> self.committed@[k] == resolved(shown[k], wanted[k])
                        && self.staged@[k] == resolved(shown[k], wanted[k]),
                forall|k: int|
                    i <= k < cells ==> self.committed@[k] == shown[k] && self.staged@[k]
                        == wanted[k],
                out@ == start + repaint_prefix(
                    shown,
                    wanted,
                    width as int,
                    origin_row as int,
                    origin_col as int,
                    i as nat,
                ),
            decreases cells - i,
        {
            let next = self.staged[i];
            let kept = self.committed[i];
            assert(next == wanted[i as int] && kept == shown[i as int]);
            match next {
                Cell::Untouched => {
                    self.staged.set(i, kept);
                },
                Cell::Glyph(glyph) => {
                    if next != kept {
                        proof {
                            lemma_index_in_viewport(i as int, self.width as int, self.height as int);
                        }
                        out.push(
                            TerminalCommand::MoveTo {
                                col: origin_col as usize + i % width,
                                row: origin_row as usize + i / width,
                            },
                        );
                        out.push(TerminalCommand::Print(glyph));
                        self.committed.set(i, next);
                    }
                },
            }
            i = i + 1;
            assert(out@ =~= start + repaint_prefix(
                shown,
                wanted,
                width as int,
                origin_row as int,
                origin_col as int,
                i as nat,
            ));
        }
        out.push(TerminalCommand::MoveTo { col: 0, row: origin_row as usize + self.height as usize });
        out.push(TerminalCommand::Flush);
        std::mem::swap(&mut self.committed, &mut self.staged);
        assert(self.committed@ =~= merged(shown, wanted));
        assert(self.staged@ =~= merged(shown, wanted));
    }
}

/// The indices among the first `n` cells that a commit repaints, in row-major order.
pub open spec fn changed_cells(committed: Seq<Cell>, staged: Seq<Cell>, n: nat) -> Seq<int>
    decreases n,
{
    if n == 0 {
        Seq::empty()
    } else {
        let before = changed_cells(committed, staged, (n - 1) as nat);
        if needs_repaint(committed[n - 1], staged[n - 1]) {
            before.push(n - 1)
        } else {
            before
        }
    }
}

/// The changed cells among the first `n` are exactly the cells below `n` that
/// need a repaint, each once and in ascending order.
pub proof fn lemma_changed_cells_sorted(committed: Seq<Cell>, staged: Seq<Cell>, n: nat)
    ensures
        forall|j: int|
            0 <= j < changed_cells(committed, staged, n).len() ==> {
                &&& 0 <= #[trigger] changed_cells(committed, staged, n)[j] < n
                &&& needs_repaint(
                    committed[changed_cells(committed, staged, n)[j]],
                    staged[changed_cells(committed, staged, n)[j]],
                )
            },
        forall|j: int, k: int|
            0 <= j < k < changed_cells(committed, staged, n).len() ==> changed_cells(
                committed,
                staged,
                n,
            )[j] < changed_cells(committed, staged, n)[k],
        forall|i: int|
            0 <= i < n && needs_repaint(committed[i], staged[i]) ==> changed_cells(
                committed,
                staged,
                n,
            ).contains(i),
    decreases n,
{
    if n > 0 {
        let before = changed_cells(committed, staged, (n - 1) as nat);
        let now = changed_cells(committed, staged, n);
        lemma_changed_cells_sorted(committed, staged, (n - 1) as nat);
        assert forall|i: int| 0 <= i < n && needs_repaint(committed[i], staged[i]) implies now.contains(
            i,
        ) by {
            if i < n - 1 {
                assert(before.contains(i));
                let j = choose|j: int| 0 <= j < before.len() && before[j] == i;
                assert(now[j] == i);
            } else {
                assert(now[now.len() - 1] == i);
            }
        }
    }
}

/// The writes of a repaint come in pairs, one pair for each changed cell and
/// in the order of the cells: a move to the cell, then its staged glyph.
pub proof fn lemma_repaint_pairs(
    committed: Seq<Cell>,
    staged: Seq<Cell>,
    width: int,
    origin_row: int,
    origin_col: int,
    n: nat,
)
    ensures
        repaint_prefix(committed, staged, width, origin_row, origin_col, n).len() == 2
            * changed_cells(committed, staged, n).len(),
        forall|j: int|
            0 <= j < changed_cells(committed, staged, n).len() ==> {
                &&& repaint_prefix(committed, staged, width, origin_row, origin_col, n)[2 * j]
                    == move_to_cell(
                    origin_row,
                    origin_col,
                    width,
                    #[trigger] changed_cells(committed, staged, n)[j],
                )
                &&& repaint_prefix(committed, staged, width, origin_row, origin_col, n)[2 * j + 1]
                    == TerminalCommand::Print(
                    staged[changed_cells(committed, staged, n)[j]]->Glyph_0,
                )
            },
    decreases n,
{
    if n > 0 {
        lemma_repaint_pairs(committed, staged, width, origin_row, origin_col, (n - 1) as nat);
    }
}

/// Where no cell among the first `n` needs a repaint, nothing is written for them.
pub proof fn lemma_repaint_silent(
    committed: Seq<Cell>,
    staged: Seq<Cell>,
    width: int,
    origin_row: int,
    origin_col: int,
    n: nat,
)
    requires
        forall|i: int| 0 <= i < n ==> !needs_repaint(committed[i], staged[i]),
    ensures
        repaint_prefix(committed, staged, width, origin_row, origin_col, n)
            == Seq::<TerminalCommand>::empty(),
    decreases n,
{
    if n > 0 {
        lemma_repaint_silent(committed, staged, width, origin_row, origin_col, (n - 1) as nat);
    }
}

/// Painting a content gives a grid that covers the viewport.
pub proof fn lemma_paint_len(content: Seq<DrawCell>, width: nat, height: nat)
    ensures
        paint(content, width, height).len() == width * height,
    decreases content.len(),
{
    if content.len() > 0 {
        lemma_paint_len(content.drop_last(), width, height);
        let cell = content.last();
        if cell.row < height && cell.col < width {
            lemma_cell_index_in_grid(cell.row as int, cell.col as int, width as int, height as int);
        }
    }
}

impl GridModel {
    /// Staging and committing keep a pair well formed.
    pub proof fn lemma_wf_preserved(self, content: Seq<DrawCell>)
        requires
            self.wf(),
        ensures
            self.stage(content).wf(),
            self.commit().wf(),
            GridModel::laid_out(self.width, self.height).wf(),
    {
        lemma_paint_len(content, self.width, self.height);
    }

    /// A commit that follows a commit writes nothing and changes nothing: once
    /// a frame is committed, the staged grid equals the committed grid in
    /// every cell.
    pub proof fn lemma_commit_idempotent(self, origin_row: int, origin_col: int)
        requires
            self.wf(),
        ensures
            self.commit().committed == self.commit().staged,
            self.commit().repaint(origin_row, origin_col) == Seq::<TerminalCommand>::empty(),
            self.commit().commit() == self.commit(),
    {
        let once = self.commit();
        lemma_repaint_silent(
            once.committed,
            once.staged,
            once.width as int,
            origin_row,
            origin_col,
            once.committed.len(),
        );
        assert(merged(once.committed, once.staged) =~= once.committed);
    }

    /// Staging a content again after it was committed changes no cell of the
    /// screen: the next commit writes nothing.
    pub proof fn lemma_same_content_is_silent(
        self,
        content: Seq<DrawCell>,
        origin_row: int,
        origin_col: int,
    )
        requires
            self.wf(),
        ensures
            self.stage(content).commit().stage(content).repaint(origin_row, origin_col)
                == Seq::<TerminalCommand>::empty(),
            self.stage(content).commit().stage(content).commit().committed == self.stage(
                content,
            ).commit().committed,
    {
        lemma_paint_len(content, self.width, self.height);
        let shown = self.stage(content).commit();
        let again = shown.stage(content);
        lemma_repaint_silent(
            again.committed,
            again.staged,
            again.width as int,
            origin_row,
            origin_col,
            again.committed.len(),
        );
        assert(again.commit().committed =~= shown.committed);
    }

    /// A commit issues one move and one write for each cell whose staged glyph
    /// differs from the glyph shown, in row-major order of those cells, and
    /// nothing else before the closing move and flush.
    pub proof fn lemma_commit_writes_changed_cells(self, origin_row: int, origin_col: int)
        requires
            self.wf(),
        ensures
            ({
                let cells = changed_cells(self.committed, self.staged, self.committed.len());
                let writes = self.repaint(origin_row, origin_col);
                &&& writes.len() == 2 * cells.len()
                &&& forall|j: int|
                    0 <= j < cells.len() ==> {
                        &&& 0 <= #[trigger] cells[j] < self.committed.len()
                        &&& needs_repaint(self.committed[cells[j]], self.staged[cells[j]])
                        &&& writes[2 * j] == move_to_cell(
                            origin_row,
                            origin_col,
                            self.width as int,
                            cells[j],
                        )
                        &&& writes[2 * j + 1] == TerminalCommand::Print(
                            self.staged[cells[j]]->Glyph_0,
                        )
                    }
                &&& forall|j: int, k: int| 0 <= j < k < cells.len() ==> cells[j] < cells[k]
                &&& forall|i: int|
                    0 <= i < self.committed.len() && needs_repaint(
                        self.committed[i],
                        self.staged[i],
                    ) ==> cells.contains(i)
            }),
    {
        lemma_changed_cells_sorted(self.committed, self.staged, self.committed.len());
        lemma_repaint_pairs(
            self.committed,
            self.staged,
            self.width as int,
            origin_row,
            origin_col,
            self.committed.len(),
        );
    }

    /// Where the two grids differ in exactly `k` cells, none of them staged as
    /// untouched, a commit issues exactly `k` pairs of a move and a write.
    pub proof fn lemma_commit_counts_differences(self, origin_row: int, origin_col: int, k: nat)
        requires
            self.wf(),
            Set::new(|i: int| 0 <= i < self.committed.len() && self.committed[i] != self.staged[i]).len()
                == k,
            forall|i: int|
                0 <= i < self.committed.len() && self.committed[i] != self.staged[i]
                    ==> self.staged[i] is Glyph,
        ensures
            self.repaint(origin_row, origin_col).len() == 2 * k,
    {
        let cells = changed_cells(self.committed, self.staged, self.committed.len());
        let differing = Set::new(
            |i: int| 0 <= i < self.committed.len() && self.committed[i] != self.staged[i],
        );
        self.lemma_commit_writes_changed_cells(origin_row, origin_col);
        assert(cells.no_duplicates());
        cells.unique_seq_to_set();
        assert(cells.to_set() =~= differing) by {
            assert forall|i: int| cells.to_set().contains(i) implies differing.contains(i) by {
                let j = choose|j: int| 0 <= j < cells.len() && cells[j] == i;
                assert(0 <= cells[j] < self.committed.len());
            }
        }
    }

    /// A cell staged as untouched shows after the commit the glyph that it
    /// showed before.
    pub proof fn lemma_untouched_preserved(self, index: int)
        requires
            self.wf(),
            0 <= index < self.committed.len(),
            self.staged[index] is Untouched,
        ensures
            self.commit().committed[index] == self.committed[index],
            self.commit().committed[index] is Glyph,
    {
    }
}

/// Whether a grid holds glyphs only.
fn all_glyphs(grid: &Vec<Cell>) -> (glyphs_only: bool)
    ensures
        glyphs_only == forall|i: int| 0 <= i < grid@.len() ==> grid@[i] is Glyph,
{
    let mut i: usize = 0;
    while i < grid.len()
        invariant
            i <= grid@.len(),
            forall|k: int| 0 <= k < i ==> grid@[k] is Glyph,
        decreases grid@.len() - i,
    {
        match grid[i] {
            Cell::Untouched => {
                return false;
            },
            Cell::Glyph(_) => {},
        }
        i = i + 1;
    }
    true
}

/// A copy of a grid.
fn copy_of(grid: &Vec<Cell>) -> (copy: Vec<Cell>)
    ensures
        copy@ == grid@,
{
    let mut copy: Vec<Cell> = Vec::new();
    let mut i: usize = 0;
    while i < grid.len()
        invariant
            i <= grid@.len(),
            copy@ == grid@.take(i as int),
        decreases grid@.len() - i,
    {
        copy.push(grid[i]);
        i = i + 1;
        assert(copy@ =~= grid@.take(i as int));
    }
    assert(grid@.take(i as int) =~= grid@);
    copy
}

impl FrameBuffers {
    /// A pair made of two given grids, where they can be the grids of a
    /// `width` by `height` viewport: both have `width * height` cells, and
    /// the committed grid holds glyphs only.
    pub fn from_grids(width: u16, height: u16, committed: Vec<Cell>, staged: Vec<Cell>) -> (made:
        Option<FrameBuffers>)
        ensures
            made is Some <==> (GridModel {
                width: width as nat,
                height: height as nat,
                committed: committed@,
                staged: staged@,
            }).wf(),
            made is Some ==> made->Some_0@ == (GridModel {
                width: width as nat,
                height: height as nat,
                committed: committed@,
                staged: staged@,
            }),
    {
        proof {
            lemma_area_fits(width, height);
        }
        let cells: usize = width as usize * height as usize;
        if committed.len() != cells || staged.len() != cells || !all_glyphs(&committed) {
            None
        } else {
            Some(FrameBuffers { width, height, committed, staged })
        }
    }

    /// A copy of the committed grid, row-major.
    pub fn committed_cells(&self) -> (cells: Vec<Cell>)
        ensures
            cells@ == self@.committed,
    {
        copy_of(&self.committed)
    }

    /// A copy of the staged grid, row-major.
    pub fn staged_cells(&self) -> (cells: Vec<Cell>)
        ensures
            cells@ == self@.staged,
    {
        copy_of(&self.staged)
    }
}

} // verus!
