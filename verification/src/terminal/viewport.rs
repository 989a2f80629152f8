//! The viewport: the drawing rectangle inside the physical terminal, what is
//! left of the screen once a border is set aside.

use crate::terminal::command::TerminalCommand;
use crate::terminal::renderer::RenderError;
use crate::terminal::renderer::RenderErrorCategory;
use vstd::prelude::*;

verus! {

/// The cells set aside in each dimension of the physical terminal.
pub const BORDER: u16 = 5;

/// What is left of a physical dimension once the border is taken off: never
/// less than zero.
pub open spec fn virtual_extent(physical: nat) -> nat {
    (vstd::math::max(physical as int, BORDER as int) - BORDER) as nat
}

/// The mathematical value of a viewport.
pub struct ViewportModel {
    pub physical_width: nat,
    pub physical_height: nat,
    pub virtual_width: nat,
    pub virtual_height: nat,
    pub origin_row: nat,
    pub origin_col: nat,
}

impl ViewportModel {
    /// The virtual size is the physical size less the border, and every
    /// measure fits in 16 bits, as terminals report them.
    pub open spec fn wf(self) -> bool {
        &&& self.physical_width <= u16::MAX
        &&& self.physical_height <= u16::MAX
        &&& self.origin_row <= u16::MAX
        &&& self.origin_col <= u16::MAX
        &&& self.virtual_width == virtual_extent(self.physical_width)
        &&& self.virtual_height == virtual_extent(self.physical_height)
    }

    /// The viewport of a renderer that has not probed its terminal yet.
    pub open spec fn empty() -> ViewportModel {
        ViewportModel {
            physical_width: 0,
            physical_height: 0,
            virtual_width: 0,
            virtual_height: 0,
            origin_row: 0,
            origin_col: 0,
        }
    }

    /// Whether a reported size can be that of a terminal: each dimension fits
    /// in 16 bits.
    pub open spec fn admits(width: nat, height: nat) -> bool {
        width <= u16::MAX && height <= u16::MAX
    }

    /// The viewport for a new physical size, at the same origin.
    pub open spec fn resize(self, width: nat, height: nat) -> ViewportModel {
        ViewportModel {
            physical_width: width,
            physical_height: height,
            virtual_width: virtual_extent(width),
            virtual_height: virtual_extent(height),
            ..self
        }
    }

    /// Whether a new physical size changes either virtual dimension.
    pub open spec fn resized_by(self, width: nat, height: nat) -> bool {
        virtual_extent(width) != self.virtual_width || virtual_extent(height)
            != self.virtual_height
    }

    /// Whether a viewport that starts on the cursor's row would run past the
    /// bottom of the screen.
    pub open spec fn overflows(self, cursor_row: nat) -> bool {
        cursor_row + self.virtual_height > self.physical_height
    }

    /// The row on which the viewport starts after the screen was scrolled for
    /// it: one line is left free below it, where the screen has room for one.
    pub open spec fn scrolled_row(self) -> nat {
        if self.physical_height - self.virtual_height >= 1 {
            (self.physical_height - self.virtual_height - 1) as nat
        } else {
            0
        }
    }

    /// The viewport placed at the cursor, or moved up where it would overflow.
    pub open spec fn place(self, cursor_col: nat, cursor_row: nat) -> ViewportModel {
        ViewportModel {
            origin_col: cursor_col,
            origin_row: if self.overflows(cursor_row) {
                self.scrolled_row()
            } else {
                cursor_row
            },
            ..self
        }
    }

    /// The commands that make room for a viewport that would overflow: two
    /// newlines more than the rows that are missing, a flush, a scroll by the
    /// viewport's height, a move to the new origin row, and a flush. Nothing
    /// where the viewport fits.
    pub open spec fn place_commands(self, cursor_row: nat) -> Seq<TerminalCommand> {
        if self.overflows(cursor_row) {
            Seq::new(
                (cursor_row + self.virtual_height - self.physical_height + 2) as nat,
                |i: int| TerminalCommand::Print('\n'),
            ) + seq![
                TerminalCommand::Flush,
                TerminalCommand::ScrollUp(self.virtual_height as u16),
                TerminalCommand::MoveTo { col: 0, row: self.scrolled_row() as usize },
                TerminalCommand::Flush,
            ]
        } else {
            Seq::empty()
        }
    }
}

/// The geometry of the drawing rectangle.
pub struct Viewport {
    physical_width: u16,
    physical_height: u16,
    virtual_width: u16,
    virtual_height: u16,
    origin_row: u16,
    origin_col: u16,
}

impl View for Viewport {
    type V = ViewportModel;

    closed spec fn view(&self) -> ViewportModel {
        ViewportModel {
            physical_width: self.physical_width as nat,
            physical_height: self.physical_height as nat,
            virtual_width: self.virtual_width as nat,
            virtual_height: self.virtual_height as nat,
            origin_row: self.origin_row as nat,
            origin_col: self.origin_col as nat,
        }
    }
}

/// Takes the border off a physical dimension.
fn shrink(physical: u16) -> (extent: u16)
    ensures
        extent == virtual_extent(physical as nat),
{
    if physical > BORDER {
        physical - BORDER
    } else {
        0
    }
}

impl Viewport {
    /// The invariant of the viewport, stated of its value.
    pub open spec fn wf(&self) -> bool {
        self@.wf()
    }

    /// A viewport without cells at the top left corner.
    pub fn new() -> (viewport: Viewport)
        ensures
            viewport.wf(),
            viewport@ == ViewportModel::empty(),
    {
        Viewport {
            physical_width: 0,
            physical_height: 0,
            virtual_width: 0,
            virtual_height: 0,
            origin_row: 0,
            origin_col: 0,
        }
    }

    /// The width of the physical terminal, in cells.
    pub fn physical_width(&self) -> (n: u16)
        ensures
            n == self@.physical_width,
    {
        self.physical_width
    }

    /// The height of the physical terminal, in cells.
    pub fn physical_height(&self) -> (n: u16)
        ensures
            n == self@.physical_height,
    {
        self.physical_height
    }

    /// The width of the drawing rectangle, in cells.
    pub fn virtual_width(&self) -> (n: u16)
        ensures
            n == self@.virtual_width,
    {
        self.virtual_width
    }

    /// The height of the drawing rectangle, in cells.
    pub fn virtual_height(&self) -> (n: u16)
        ensures
            n == self@.virtual_height,
    {
        self.virtual_height
    }

    /// The terminal row of the drawing rectangle's top left corner.
    pub fn origin_row(&self) -> (n: u16)
        ensures
            n == self@.origin_row,
    {
        self.origin_row
    }

    /// The terminal column of the drawing rectangle's top left corner.
    pub fn origin_col(&self) -> (n: u16)
        ensures
            n == self@.origin_col,
    {
        self.origin_col
    }

    /// Takes in the answer of a size probe. A size that is missing, or that no
    /// terminal can have, is a terminal failure and leaves the viewport as it
    /// was; any other size becomes the physical size, and the result says
    /// whether either virtual dimension changed.
    pub fn resize_to(&mut self, probe: Option<(usize, usize)>) -> (outcome: Result<
        bool,
        RenderError,
    >)
        requires
            old(self).wf(),
        ensures
            final(self).wf(),
            match probe {
                Some((width, height)) if ViewportModel::admits(width as nat, height as nat) => {
                    &&& outcome == Ok::<bool, RenderError>(
                        old(self)@.resized_by(width as nat, height as nat),
                    )
                    &&& final(self)@ == old(self)@.resize(width as nat, height as nat)
                },
                Some(_) => {
                    &&& outcome is Err
                    &&& outcome->Err_0.category == RenderErrorCategory::ETerminal
                    &&& outcome->Err_0.detail@ == "Terminal size out of range"@
                    &&& final(self)@ == old(self)@
                },
                None => {
                    &&& outcome is Err
                    &&& outcome->Err_0.category == RenderErrorCategory::ETerminal
                    &&& outcome->Err_0.detail@ == "Cannot get terminal size"@
                    &&& final(self)@ == old(self)@
                },
            },
    {
        match probe {
            None => Err(RenderError::terminal("Cannot get terminal size".to_owned())),
            Some((width, height)) => {
                if width > u16::MAX as usize || height > u16::MAX as usize {
                    Err(RenderError::terminal("Terminal size out of range".to_owned()))
                } else {
                    let virtual_width = shrink(width as u16);
                    let virtual_height = shrink(height as u16);
                    let changed = virtual_width != self.virtual_width || virtual_height
                        != self.virtual_height;
                    self.physical_width = width as u16;
                    self.physical_height = height as u16;
                    self.virtual_width = virtual_width;
                    self.virtual_height = virtual_height;
                    Ok(changed)
                }
            },
        }
    }

    /// Places the viewport at the cursor. Where it would then run past the
    /// bottom of the screen, the result scrolls the screen to make room and the
    /// viewport moves up; where it fits, the result is empty.
    pub fn update_pos(&mut self, cursor_col: u16, cursor_row: u16) -> (batch: Vec<TerminalCommand>)
        requires
            old(self).wf(),
        ensures
            final(self).wf(),
            final(self)@ == old(self)@.place(cursor_col as nat, cursor_row as nat),
            batch@ == old(self)@.place_commands(cursor_row as nat),
    {
        let mut batch: Vec<TerminalCommand> = Vec::new();
        self.origin_col = cursor_col;
        self.origin_row = cursor_row;
        let room: u16 = self.physical_height - self.virtual_height;
        if cursor_row > room {
            let newlines: usize = (cursor_row - room) as usize + 2;
            let mut i: usize = 0;
            while i < newlines
                invariant
                    i <= newlines,
                    batch@ == Seq::new(i as nat, |k: int| TerminalCommand::Print('\n')),
                decreases newlines - i,
            {
                batch.push(TerminalCommand::Print('\n'));
                i = i + 1;
            }
            let row: u16 = if room >= 1 {
                room - 1
            } else {
                0
            };
            self.origin_row = row;
            batch.push(TerminalCommand::Flush);
            batch.push(TerminalCommand::ScrollUp(self.virtual_height));
            batch.push(TerminalCommand::MoveTo { col: 0, row: row as usize });
            batch.push(TerminalCommand::Flush);
        }
        batch
    }
}

} // verus!
