//! The commands that the renderer asks of the terminal. A batch of them is
//! plain data: the renderer computes it, and whoever owns the terminal writes it.

use vstd::prelude::*;

verus! {

/// The glyph of an empty cell.
pub const BLANK: char = ' ';

/// One primitive of terminal output.
#[derive(Clone, Copy, Debug, PartialEq, Eq, Structural)]
pub enum TerminalCommand {
    /// Moves the cursor to an absolute position, counted from the top left corner.
    MoveTo { col: usize, row: usize },
    /// Writes one character at the cursor.
    Print(char),
    /// Scrolls the screen up by this many lines.
    ScrollUp(u16),
    /// Sends everything queued so far to the terminal in one write.
    Flush,
}

/// The commands that blank one row of a rectangle: a move to the row's first
/// cell, then one blank for each of its `width` cells.
pub open spec fn clear_row(origin_row: int, origin_col: int, width: nat, row: int) -> Seq<
    TerminalCommand,
> {
    seq![TerminalCommand::MoveTo { col: origin_col as usize, row: (origin_row + row) as usize }]
        + Seq::new(width, |i: int| TerminalCommand::Print(BLANK))
}

/// The commands that blank the first `rows` rows of a rectangle, top row first.
pub open spec fn clear_rows(origin_row: int, origin_col: int, width: nat, rows: nat) -> Seq<
    TerminalCommand,
>
    decreases rows,
{
    if rows == 0 {
        Seq::empty()
    } else {
        clear_rows(origin_row, origin_col, width, (rows - 1) as nat) + clear_row(
            origin_row,
            origin_col,
            width,
            rows - 1,
        )
    }
}

/// The commands that fill a `width` by `height` rectangle with blanks and leave
/// the cursor at its top left corner.
pub open spec fn clear_commands(origin_row: int, origin_col: int, width: nat, height: nat) -> Seq<
    TerminalCommand,
> {
    clear_rows(origin_row, origin_col, width, height).push(
        TerminalCommand::MoveTo { col: origin_col as usize, row: origin_row as usize },
    )
}

/// Appends to `out` the commands that blank a rectangle of the screen.
pub fn push_clear(
    out: &mut Vec<TerminalCommand>,
    origin_row: u16,
    origin_col: u16,
    width: u16,
    height: u16,
)
    ensures
        final(out)@ == old(out)@ + clear_commands(
            origin_row as int,
            origin_col as int,
            width as nat,
            height as nat,
        ),
{
    let ghost start = out@;
    let mut row: u16 = 0;
    while row < height
        invariant
            row <= height,
            out@ == start + clear_rows(origin_row as int, origin_col as int, width as nat, row as nat),
        decreases height - row,
    {
        let ghost before = out@;
        out.push(TerminalCommand::MoveTo { col: origin_col as usize, row: origin_row as usize + row as usize });
        let mut col: u16 = 0;
        while col < width
            invariant
                col <= width,
                out@ == before + seq![
                    TerminalCommand::MoveTo {
                        col: origin_col as usize,
                        row: (origin_row + row) as usize,
                    },
                ] + Seq::new(col as nat, |i: int| TerminalCommand::Print(BLANK)),
            decreases width - col,
        {
            out.push(TerminalCommand::Print(BLANK));
            col = col + 1;
        }
        row = row + 1;
        assert(out@ == start + clear_rows(
            origin_row as int,
            origin_col as int,
            width as nat,
            row as nat,
        ));
    }
    out.push(TerminalCommand::MoveTo { col: origin_col as usize, row: origin_row as usize });
}

} // verus!
