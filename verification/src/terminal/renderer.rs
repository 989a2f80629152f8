//! The renderer: the viewport, the frame buffers and the content that it
//! draws, with the frame pipeline and the scheduler of the render loop.

use crate::task_graph::task_dag::DrawCell;
use crate::task_graph::task_dag::TaskDag;
use crate::terminal::command::clear_commands;
use crate::terminal::command::push_clear;
use crate::terminal::command::TerminalCommand;
use crate::terminal::frame_buffer::FrameBuffers;
use crate::terminal::frame_buffer::GridModel;
use crate::terminal::viewport::Viewport;
use crate::terminal::viewport::ViewportModel;
use crate::terminal::viewport::BORDER;
use crate::terminal::Terminal;
use vstd::prelude::*;

verus! {

/// The two kinds of failure of a render session.
#[derive(Clone, Copy, Debug, PartialEq, Eq, Structural)]
pub enum RenderErrorCategory {
    /// Shared state could not be acquired consistently.
    EMutex,
    /// A read, write or query against the terminal failed.
    ETerminal,
}

/// A failure of a render session, with a detail for a human reader.
#[derive(Debug)]
pub struct RenderError {
    pub category: RenderErrorCategory,
    pub detail: String,
}

impl RenderError {
    /// The failure of a terminal operation.
    pub fn terminal(detail: String) -> (error: RenderError)
        ensures
            error.category == RenderErrorCategory::ETerminal,
            error.detail == detail,
    {
        RenderError { category: RenderErrorCategory::ETerminal, detail }
    }

    /// The failure to acquire shared state.
    pub fn synchronization(detail: String) -> (error: RenderError)
        ensures
            error.category == RenderErrorCategory::EMutex,
            error.detail == detail,
    {
        RenderError { category: RenderErrorCategory::EMutex, detail }
    }
}

/// The frames that the loop renders between two looks at the terminal's size
/// and at the termination signal.
pub const POLL_CADENCE: u64 = 30;

/// Where the render loop stands.
#[derive(Clone, Copy, Debug, PartialEq, Eq, Structural)]
pub enum LoopPhase {
    /// Nothing is placed yet: the next step seeds the size and the origin.
    Initializing,
    /// Frames are being produced.
    Running,
    /// The loop is over: nothing more is written.
    Terminated,
}

/// What the terminal answered to the probes made before a step of the loop.
#[derive(Clone, Copy, Debug)]
pub struct TerminalReport {
    /// The physical size as (width, height), where it could be had.
    pub size: Option<(usize, usize)>,
    /// The cursor as (column, row), where it could be had.
    pub cursor: Option<(u16, u16)>,
}

/// The probes that the next step of the loop reads from its report.
#[derive(Clone, Copy, Debug, PartialEq, Eq, Structural)]
pub enum ProbeRequest {
    Nothing,
    Size,
    SizeAndCursor,
}

/// The size and position report of a renderer.
#[derive(Clone, Copy, Debug, PartialEq, Eq, Structural)]
pub struct RenderStatus {
    pub physical_width: usize,
    pub physical_height: usize,
    pub virtual_width: usize,
    pub virtual_height: usize,
    pub origin_row: usize,
    pub origin_col: usize,
}

/// The width that a size probe brought, zero where it brought none.
pub open spec fn probed_width(size: Option<(usize, usize)>) -> nat {
    match size {
        Some((width, _)) => width as nat,
        None => 0,
    }
}

/// The height that a size probe brought, zero where it brought none.
pub open spec fn probed_height(size: Option<(usize, usize)>) -> nat {
    match size {
        Some((_, height)) => height as nat,
        None => 0,
    }
}

/// The column that a cursor probe brought, zero where it brought none.
pub open spec fn probed_col(cursor: Option<(u16, u16)>) -> nat {
    match cursor {
        Some((col, _)) => col as nat,
        None => 0,
    }
}

/// The row that a cursor probe brought, zero where it brought none.
pub open spec fn probed_row(cursor: Option<(u16, u16)>) -> nat {
    match cursor {
        Some((_, row)) => row as nat,
        None => 0,
    }
}

/// Whether a size probe brought a size that a terminal can have.
pub open spec fn usable_size(size: Option<(usize, usize)>) -> bool {
    size is Some && ViewportModel::admits(probed_width(size), probed_height(size))
}

/// The detail of the failure that an unusable size probe stands for.
pub open spec fn size_failure_detail(size: Option<(usize, usize)>) -> Seq<char> {
    if size is Some {
        "Terminal size out of range"@
    } else {
        "Cannot get terminal size"@
    }
}

/// The mathematical value of a renderer.
pub struct RendererModel {
    pub viewport: ViewportModel,
    pub grids: GridModel,
    pub content: Seq<DrawCell>,
    pub layout_dirty: bool,
    pub terminate: bool,
    pub phase: LoopPhase,
    pub frames: nat,
}

impl RendererModel {
    /// The viewport and the grids are well formed, the grids fit the viewport
    /// unless a layout is pending, and a poll is never overdue.
    pub open spec fn wf(self) -> bool {
        &&& self.viewport.wf()
        &&& self.grids.wf()
        &&& self.frames <= POLL_CADENCE
        &&& !self.layout_dirty ==> self.grids.width == self.viewport.virtual_width
            && self.grids.height == self.viewport.virtual_height
    }

    /// A renderer as constructed: empty, with a layout pending.
    pub open spec fn initial() -> RendererModel {
        RendererModel {
            viewport: ViewportModel::empty(),
            grids: GridModel::laid_out(0, 0),
            content: Seq::empty(),
            layout_dirty: true,
            terminate: false,
            phase: LoopPhase::Initializing,
            frames: 0,
        }
    }

    /// The content replaced as a whole, together with the request for a layout.
    pub open spec fn update_tasks(self, content: Seq<DrawCell>) -> RendererModel {
        RendererModel { content, layout_dirty: true, ..self }
    }

    /// The termination signal set.
    pub open spec fn request_termination(self) -> RendererModel {
        RendererModel { terminate: true, ..self }
    }

    /// A new physical size taken in: a layout is pending if either virtual
    /// dimension changed.
    pub open spec fn resize(self, width: nat, height: nat) -> RendererModel {
        RendererModel {
            viewport: self.viewport.resize(width, height),
            layout_dirty: self.layout_dirty || self.viewport.resized_by(width, height),
            ..self
        }
    }

    /// The viewport placed at the cursor.
    pub open spec fn place(self, cursor_col: nat, cursor_row: nat) -> RendererModel {
        RendererModel { viewport: self.viewport.place(cursor_col, cursor_row), ..self }
    }

    /// The grids laid out anew for the viewport.
    pub open spec fn relayout(self) -> RendererModel {
        RendererModel {
            grids: GridModel::laid_out(self.viewport.virtual_width, self.viewport.virtual_height),
            ..self
        }
    }

    /// The clear of the rectangle that the grids covered before a layout.
    pub open spec fn relayout_commands(self) -> Seq<TerminalCommand> {
        clear_commands(
            self.viewport.origin_row as int,
            self.viewport.origin_col as int,
            self.grids.width,
            self.grids.height,
        )
    }

    /// The staged grid repopulated from the content.
    pub open spec fn stage(self) -> RendererModel {
        RendererModel { grids: self.grids.stage(self.content), ..self }
    }

    /// The staged grid committed.
    pub open spec fn commit(self) -> RendererModel {
        RendererModel { grids: self.grids.commit(), ..self }
    }

    /// The batch of a commit at the viewport's origin.
    pub open spec fn commit_commands(self) -> Seq<TerminalCommand> {
        self.grids.commit_commands(self.viewport.origin_row as int, self.viewport.origin_col as int)
    }

    /// The renderer as the frame pipeline finds it once a pending layout is done.
    pub open spec fn laid_out(self) -> RendererModel {
        if self.layout_dirty {
            RendererModel { layout_dirty: false, ..self.relayout() }
        } else {
            self
        }
    }

    /// One frame: a pending layout is done and its flag cleared, the content
    /// is staged, and the staged grid is committed.
    pub open spec fn frame(self) -> RendererModel {
        self.laid_out().stage().commit()
    }

    /// The batch of one frame: the clear of a pending layout, then the commit.
    pub open spec fn frame_commands(self) -> Seq<TerminalCommand> {
        if self.layout_dirty {
            self.relayout_commands() + self.laid_out().stage().commit_commands()
        } else {
            self.laid_out().stage().commit_commands()
        }
    }

    /// The loop ended.
    pub open spec fn stopped(self) -> RendererModel {
        RendererModel { phase: LoopPhase::Terminated, ..self }
    }

    /// The probes that the next step reads.
    pub open spec fn wanted_probe(self) -> ProbeRequest {
        match self.phase {
            LoopPhase::Initializing => ProbeRequest::SizeAndCursor,
            LoopPhase::Running => if self.frames >= POLL_CADENCE {
                ProbeRequest::Size
            } else {
                ProbeRequest::Nothing
            },
            LoopPhase::Terminated => ProbeRequest::Nothing,
        }
    }

    /// Whether a step fails on a report: a probe that the step reads is
    /// missing or unusable.
    pub open spec fn step_fails(self, report: TerminalReport) -> bool {
        match self.wanted_probe() {
            ProbeRequest::Nothing => false,
            ProbeRequest::Size => !usable_size(report.size),
            ProbeRequest::SizeAndCursor => !usable_size(report.size) || report.cursor is None,
        }
    }

    /// The detail of the failure of a step.
    pub open spec fn step_failure_detail(self, report: TerminalReport) -> Seq<char> {
        if !usable_size(report.size) {
            size_failure_detail(report.size)
        } else {
            "Cannot get cursor position"@
        }
    }

    /// The renderer after one step of the loop.
    pub open spec fn step(self, report: TerminalReport) -> RendererModel {
        let width = probed_width(report.size);
        let height = probed_height(report.size);
        match self.phase {
            LoopPhase::Terminated => self,
            LoopPhase::Initializing => {
                if !usable_size(report.size) {
                    self.stopped()
                } else if report.cursor is None {
                    self.resize(width, height).stopped()
                } else {
                    RendererModel {
                        phase: LoopPhase::Running,
                        frames: 0,
                        ..self.resize(width, height).place(
                            probed_col(report.cursor),
                            probed_row(report.cursor),
                        ).relayout()
                    }
                }
            },
            LoopPhase::Running => {
                if self.frames < POLL_CADENCE {
                    RendererModel { frames: self.frames + 1, ..self.frame() }
                } else if !usable_size(report.size) {
                    self.stopped()
                } else if self.terminate {
                    RendererModel { frames: 0, ..self.resize(width, height).stopped() }
                } else {
                    RendererModel { frames: 1, ..self.resize(width, height).frame() }
                }
            },
        }
    }

    /// The batch that a step hands out where it does not fail.
    pub open spec fn step_commands(self, report: TerminalReport) -> Seq<TerminalCommand> {
        let width = probed_width(report.size);
        let height = probed_height(report.size);
        match self.phase {
            LoopPhase::Terminated => Seq::empty(),
            LoopPhase::Initializing => {
                let sized = self.resize(width, height);
                let placed = sized.place(probed_col(report.cursor), probed_row(report.cursor));
                sized.viewport.place_commands(probed_row(report.cursor))
                    + placed.relayout_commands().push(TerminalCommand::Flush)
            },
            LoopPhase::Running => {
                if self.frames < POLL_CADENCE {
                    self.frame_commands()
                } else if self.terminate {
                    Seq::empty()
                } else {
                    self.resize(width, height).frame_commands()
                }
            },
        }
    }

    /// The renderer after a run of steps, one for each report in turn.
    pub open spec fn run(self, reports: Seq<TerminalReport>) -> RendererModel
        decreases reports.len(),
    {
        if reports.len() == 0 {
            self
        } else {
            self.step(reports.first()).run(reports.drop_first())
        }
    }

    /// Whether `after` and `outcome` are what taking in a size probe makes of
    /// `self`: an unusable probe is a terminal failure and changes nothing;
    /// a usable one is taken in, and the outcome says whether the virtual
    /// size changed.
    pub open spec fn takes_in(
        self,
        probe: Option<(usize, usize)>,
        after: RendererModel,
        outcome: Result<bool, RenderError>,
    ) -> bool {
        if usable_size(probe) {
            &&& outcome == Ok::<bool, RenderError>(
                self.viewport.resized_by(probed_width(probe), probed_height(probe)),
            )
            &&& after == self.resize(probed_width(probe), probed_height(probe))
        } else {
            &&& outcome is Err
            &&& outcome->Err_0.category == RenderErrorCategory::ETerminal
            &&& outcome->Err_0.detail@ == size_failure_detail(probe)
            &&& after == self
        }
    }
}

/// The renderer of the dashboard. It owns the viewport and both grids, and
/// holds the state that a content producer shares with the render loop: the
/// content, the request for a layout and the termination signal.
pub struct Renderer {
    viewport: Viewport,
    buffers: FrameBuffers,
    task_graph: TaskDag,
    new_layout: bool,
    finished: bool,
    phase: LoopPhase,
    frames: u64,
}

impl View for Renderer {
    type V = RendererModel;

    closed spec fn view(&self) -> RendererModel {
        RendererModel {
            viewport: self.viewport@,
            grids: self.buffers@,
            content: self.task_graph@,
            layout_dirty: self.new_layout,
            terminate: self.finished,
            phase: self.phase,
            frames: self.frames as nat,
        }
    }
}

impl Renderer {
    /// The invariant of the renderer, stated of its value.
    pub open spec fn wf(&self) -> bool {
        self@.wf()
    }

    /// A renderer with an empty viewport, empty grids and no content. A
    /// layout is pending, so that the first frame lays out.
    pub fn new() -> (made: Result<Renderer, RenderError>)
        ensures
            made is Ok,
            made->Ok_0.wf(),
            made->Ok_0@ == RendererModel::initial(),
    {
        let r = Renderer {
            viewport: Viewport::new(),
            buffers: FrameBuffers::new(),
            task_graph: TaskDag::default(),
            new_layout: true,
            finished: false,
            phase: LoopPhase::Initializing,
            frames: 0,
        };
        Ok(r)
    }

    /// Replaces the content as a whole and asks for a layout, in one step.
    pub fn update_tasks(&mut self, tasks: TaskDag) -> (done: Result<(), RenderError>)
        requires
            old(self).wf(),
        ensures
            done is Ok,
            final(self).wf(),
            final(self)@ == old(self)@.update_tasks(tasks@),
    {
        self.task_graph = tasks;
        self.new_layout = true;
        Ok(())
    }

    /// Sets the termination signal. The loop sees it at its next poll.
    pub fn request_termination(&mut self)
        requires
            old(self).wf(),
        ensures
            final(self).wf(),
            final(self)@ == old(self)@.request_termination(),
    {
        self.finished = true;
    }

    /// Takes in the answer of a size probe, and asks for a layout where
    /// either virtual dimension changed.
    pub fn resize_to(&mut self, probe: Option<(usize, usize)>) -> (outcome: Result<
        bool,
        RenderError,
    >)
        requires
            old(self).wf(),
        ensures
            final(self).wf(),
            old(self)@.takes_in(probe, final(self)@, outcome),
    {
        let outcome = self.viewport.resize_to(probe);
        match &outcome {
            Ok(changed) => {
                if *changed {
                    self.new_layout = true;
                }
            },
            Err(_) => {},
        }
        outcome
    }

    /// Asks the terminal for its size and takes the answer in.
    pub fn detect_resize(&mut self) -> (outcome: Result<bool, RenderError>)
        requires
            old(self).wf(),
        ensures
            final(self).wf(),
            exists|probe: Option<(usize, usize)>|
                old(self)@.takes_in(probe, final(self)@, outcome),
    {
        let probe = Terminal::get_size();
        self.resize_to(probe)
    }

    /// Places the viewport at the cursor, and scrolls the screen where the
    /// viewport would run past its bottom.
    pub fn update_pos(&mut self, cursor_col: u16, cursor_row: u16) -> (batch: Vec<TerminalCommand>)
        requires
            old(self).wf(),
        ensures
            final(self).wf(),
            final(self)@ == old(self)@.place(cursor_col as nat, cursor_row as nat),
            batch@ == old(self)@.viewport.place_commands(cursor_row as nat),
    {
        self.viewport.update_pos(cursor_col, cursor_row)
    }

    /// Lays both grids out for the viewport, the committed grid blank and the
    /// staged grid untouched. The result clears the rectangle that the grids
    /// covered before, and flushes.
    pub fn detect_layout(&mut self) -> (batch: Vec<TerminalCommand>)
        requires
            old(self).wf(),
        ensures
            final(self).wf(),
            final(self)@ == old(self)@.relayout(),
            batch@ == old(self)@.relayout_commands().push(TerminalCommand::Flush),
    {
        let mut batch: Vec<TerminalCommand> = Vec::new();
        self.relayout_into(&mut batch);
        batch.push(TerminalCommand::Flush);
        batch
    }

    /// Does a layout and appends its clear to `out`, without a flush.
    fn relayout_into(&mut self, out: &mut Vec<TerminalCommand>)
        requires
            old(self).wf(),
        ensures
            final(self).wf(),
            final(self)@ == old(self)@.relayout(),
            final(out)@ == old(out)@ + old(self)@.relayout_commands(),
    {
        push_clear(
            out,
            self.viewport.origin_row(),
            self.viewport.origin_col(),
            self.buffers.width(),
            self.buffers.height(),
        );
        self.buffers.relayout(self.viewport.virtual_width(), self.viewport.virtual_height());
    }

    /// Populates the staged grid from the content.
    pub fn fill_pre_render(&mut self)
        requires
            old(self).wf(),
        ensures
            final(self).wf(),
            final(self)@ == old(self)@.stage(),
    {
        self.buffers.stage(&self.task_graph);
    }

    /// Commits the staged grid: the result repaints the cells that changed,
    /// moves the cursor below the viewport, and flushes once.
    pub fn commit_to_screen(&mut self) -> (batch: Vec<TerminalCommand>)
        requires
            old(self).wf(),
        ensures
            final(self).wf(),
            final(self)@ == old(self)@.commit(),
            batch@ == old(self)@.commit_commands(),
    {
        let mut batch: Vec<TerminalCommand> = Vec::new();
        self.buffers.commit(self.viewport.origin_row(), self.viewport.origin_col(), &mut batch);
        batch
    }

    /// Produces one frame: does a pending layout and clears its flag, stages
    /// the content, and commits. The result is the frame's whole output,
    /// flushed once at its end.
    pub fn render_single_frame(&mut self) -> (batch: Vec<TerminalCommand>)
        requires
            old(self).wf(),
        ensures
            final(self).wf(),
            final(self)@ == old(self)@.frame(),
            batch@ == old(self)@.frame_commands(),
    {
        let mut batch: Vec<TerminalCommand> = Vec::new();
        if self.new_layout {
            self.relayout_into(&mut batch);
            self.new_layout = false;
        }
        self.buffers.stage(&self.task_graph);
        self.buffers.commit(self.viewport.origin_row(), self.viewport.origin_col(), &mut batch);
        batch
    }
}

impl Renderer {
    /// Where the loop stands.
    pub fn phase(&self) -> (phase: LoopPhase)
        ensures
            phase == self@.phase,
    {
        self.phase
    }

    /// Whether a layout is pending.
    pub fn is_layout_dirty(&self) -> (dirty: bool)
        ensures
            dirty == self@.layout_dirty,
    {
        self.new_layout
    }

    /// Whether termination was requested.
    pub fn is_finished(&self) -> (finished: bool)
        ensures
            finished == self@.terminate,
    {
        self.finished
    }

    /// The frames rendered since the loop last polled the terminal.
    pub fn frames_since_poll(&self) -> (frames: u64)
        ensures
            frames == self@.frames,
    {
        self.frames
    }

    /// The viewport.
    pub fn viewport(&self) -> (viewport: &Viewport)
        ensures
            viewport@ == self@.viewport,
    {
        &self.viewport
    }

    /// The frame buffers.
    pub fn buffers(&self) -> (buffers: &FrameBuffers)
        ensures
            buffers@ == self@.grids,
    {
        &self.buffers
    }

    /// The size and position report: physical size, virtual size and origin.
    pub fn p_info(&self) -> (status: RenderStatus)
        ensures
            status.physical_width == self@.viewport.physical_width,
            status.physical_height == self@.viewport.physical_height,
            status.virtual_width == self@.viewport.virtual_width,
            status.virtual_height == self@.viewport.virtual_height,
            status.origin_row == self@.viewport.origin_row,
            status.origin_col == self@.viewport.origin_col,
    {
        RenderStatus {
            physical_width: self.viewport.physical_width() as usize,
            physical_height: self.viewport.physical_height() as usize,
            virtual_width: self.viewport.virtual_width() as usize,
            virtual_height: self.viewport.virtual_height() as usize,
            origin_row: self.viewport.origin_row() as usize,
            origin_col: self.viewport.origin_col() as usize,
        }
    }

    /// The probes that the next step of the loop reads from its report: size
    /// and cursor before the first step, the size at each poll, else nothing.
    pub fn wanted_probe(&self) -> (wanted: ProbeRequest)
        ensures
            wanted == self@.wanted_probe(),
    {
        match self.phase {
            LoopPhase::Initializing => ProbeRequest::SizeAndCursor,
            LoopPhase::Running => {
                if self.frames >= POLL_CADENCE {
                    ProbeRequest::Size
                } else {
                    ProbeRequest::Nothing
                }
            },
            LoopPhase::Terminated => ProbeRequest::Nothing,
        }
    }

    /// Takes in the failure of a terminal operation that the caller made for
    /// the loop, such as the write of a batch: the loop ends, and the result
    /// is the error to hand on.
    pub fn fail_terminal(&mut self, detail: String) -> (error: RenderError)
        requires
            old(self).wf(),
        ensures
            final(self).wf(),
            final(self)@ == old(self)@.stopped(),
            error.category == RenderErrorCategory::ETerminal,
            error.detail == detail,
    {
        self.phase = LoopPhase::Terminated;
        RenderError::terminal(detail)
    }

    /// One step of the render loop. The caller probes the terminal as
    /// `wanted_probe` says, hands the answers in, and writes the batch that
    /// comes back.
    ///
    /// The first step seeds the size, places the viewport at the cursor and
    /// lays out. Every later step renders one frame; after each
    /// `POLL_CADENCE` frames the step first takes in the terminal's size and
    /// looks at the termination signal, and ends the loop where it is set.
    /// A probe that the step needs and cannot use is a terminal failure,
    /// which ends the loop. Once the loop has ended a step does nothing.
    pub fn render_loop(&mut self, report: TerminalReport) -> (outcome: Result<
        Vec<TerminalCommand>,
        RenderError,
    >)
        requires
            old(self).wf(),
        ensures
            final(self).wf(),
            final(self)@ == old(self)@.step(report),
            outcome is Err <==> old(self)@.step_fails(report),
            outcome is Ok ==> outcome->Ok_0@ == old(self)@.step_commands(report),
            outcome is Err ==> outcome->Err_0.category == RenderErrorCategory::ETerminal
                && outcome->Err_0.detail@ == old(self)@.step_failure_detail(report),
    {
        match self.phase {
            LoopPhase::Terminated => Ok(Vec::new()),
            LoopPhase::Initializing => {
                match self.resize_to(report.size) {
                    Err(error) => {
                        self.phase = LoopPhase::Terminated;
                        Err(error)
                    },
                    Ok(_) => {
                        match report.cursor {
                            None => {
                                self.phase = LoopPhase::Terminated;
                                Err(RenderError::terminal("Cannot get cursor position".to_owned()))
                            },
                            Some((col, row)) => {
                                let mut batch = self.update_pos(col, row);
                                let mut cleared = self.detect_layout();
                                batch.append(&mut cleared);
                                self.phase = LoopPhase::Running;
                                self.frames = 0;
                                Ok(batch)
                            },
                        }
                    },
                }
            },
            LoopPhase::Running => {
                if self.frames >= POLL_CADENCE {
                    match self.resize_to(report.size) {
                        Err(error) => {
                            self.phase = LoopPhase::Terminated;
                            return Err(error);
                        },
                        Ok(_) => {},
                    }
                    self.frames = 0;
                    if self.finished {
                        self.phase = LoopPhase::Terminated;
                        return Ok(Vec::new());
                    }
                }
                let batch = self.render_single_frame();
                self.frames = self.frames + 1;
                Ok(batch)
            },
        }
    }
}

impl RendererModel {
    /// Every operation keeps a renderer well formed.
    pub proof fn lemma_wf_preserved(
        self,
        content: Seq<DrawCell>,
        width: nat,
        height: nat,
        cursor_col: nat,
        cursor_row: nat,
    )
        requires
            self.wf(),
            ViewportModel::admits(width, height),
            cursor_col <= u16::MAX,
            cursor_row <= u16::MAX,
        ensures
            RendererModel::initial().wf(),
            self.update_tasks(content).wf(),
            self.request_termination().wf(),
            self.resize(width, height).wf(),
            self.place(cursor_col, cursor_row).wf(),
            self.relayout().wf(),
            self.stage().wf(),
            self.commit().wf(),
            self.frame().wf(),
    {
        self.grids.lemma_wf_preserved(self.content);
        self.laid_out().grids.lemma_wf_preserved(self.content);
        self.laid_out().stage().grids.lemma_wf_preserved(self.content);
        assert(self.viewport.virtual_width * self.viewport.virtual_height <= 0xFFFF * 0xFFFF)
            by (nonlinear_arith)
            requires
                self.viewport.virtual_width <= 0xFFFF,
                self.viewport.virtual_height <= 0xFFFF,
        ;
    }

    /// Whatever size a terminal reports, a layout that follows leaves both
    /// grids with `virtual_width * virtual_height` cells, where each virtual
    /// dimension is the physical one less the border and never below zero.
    /// A frame does the same, since it lays out whenever the size changed.
    pub proof fn lemma_layout_fits_viewport(self, width: nat, height: nat)
        requires
            self.wf(),
            ViewportModel::admits(width, height),
        ensures
            ({
                let sized = self.resize(width, height);
                let virtual_width = vstd::math::max(width as int, BORDER as int) - BORDER;
                let virtual_height = vstd::math::max(height as int, BORDER as int) - BORDER;
                &&& sized.viewport.virtual_width == virtual_width
                &&& sized.viewport.virtual_height == virtual_height
                &&& sized.relayout().grids.committed.len() == virtual_width * virtual_height
                &&& sized.relayout().grids.staged.len() == virtual_width * virtual_height
                &&& sized.frame().grids.committed.len() == virtual_width * virtual_height
                &&& sized.frame().grids.staged.len() == virtual_width * virtual_height
            }),
    {
        let sized = self.resize(width, height);
        crate::terminal::frame_buffer::lemma_paint_len(
            sized.content,
            sized.laid_out().grids.width,
            sized.laid_out().grids.height,
        );
    }

    /// A size that changes either virtual dimension asks for a layout; a size
    /// that changes neither leaves the request as it was. So once the layout
    /// is done and its flag cleared, the same size reported again changes
    /// nothing.
    pub proof fn lemma_resize_asks_for_layout_once(self, width: nat, height: nat)
        requires
            self.wf(),
            ViewportModel::admits(width, height),
        ensures
            self.viewport.resized_by(width, height) ==> self.resize(width, height).layout_dirty,
            !self.viewport.resized_by(width, height) ==> self.resize(width, height).layout_dirty
                == self.layout_dirty,
            ({
                let settled = RendererModel { layout_dirty: false, ..self.resize(width, height) };
                !settled.viewport.resized_by(width, height) && settled.resize(width, height)
                    == settled
            }),
    {
    }

    /// Of two updates of the content with no frame in between, only the later
    /// one counts: the renderer, its next frame and that frame's batch are
    /// what they would be had the earlier update never been made.
    pub proof fn lemma_last_update_wins(self, first: Seq<DrawCell>, second: Seq<DrawCell>)
        ensures
            self.update_tasks(first).update_tasks(second) == self.update_tasks(second),
            self.update_tasks(first).update_tasks(second).frame() == self.update_tasks(
                second,
            ).frame(),
            self.update_tasks(first).update_tasks(second).frame_commands() == self.update_tasks(
                second,
            ).frame_commands(),
            self.update_tasks(first).update_tasks(second).content == second,
    {
    }

    /// The frame that follows an update shows the new content and nothing
    /// else: the grids are those of a fresh layout on which the content was
    /// staged and committed, whatever was shown or staged before.
    pub proof fn lemma_update_shown_by_next_frame(self, content: Seq<DrawCell>)
        ensures
            self.update_tasks(content).frame().grids == GridModel::laid_out(
                self.viewport.virtual_width,
                self.viewport.virtual_height,
            ).stage(content).commit(),
            !self.update_tasks(content).frame().layout_dirty,
            self.update_tasks(content).frame().content == content,
    {
    }

    /// A request for termination is seen at the next poll and not before:
    /// a running loop goes on for the frames that are left until the poll,
    /// and ends at the step that polls, if that step can use its size probe.
    pub proof fn lemma_termination_seen_at_poll(self, reports: Seq<TerminalReport>)
        requires
            self.phase == LoopPhase::Running,
            self.terminate,
            self.frames <= POLL_CADENCE,
            reports.len() == POLL_CADENCE - self.frames + 1,
            usable_size(reports.last().size),
        ensures
            self.run(reports).phase == LoopPhase::Terminated,
            forall|n: int|
                0 <= n < reports.len() ==> (#[trigger] self.run(reports.take(n))).phase
                    == LoopPhase::Running,
        decreases reports.len(),
    {
        let next = self.step(reports.first());
        let rest = reports.drop_first();
        if self.frames < POLL_CADENCE {
            assert(rest.last() == reports.last());
            next.lemma_termination_seen_at_poll(rest);
            assert forall|n: int| 0 <= n < reports.len() implies (#[trigger] self.run(
                reports.take(n),
            )).phase == LoopPhase::Running by {
                if n > 0 {
                    assert(reports.take(n).first() == reports.first());
                    assert(reports.take(n).drop_first() =~= rest.take(n - 1));
                    assert(next.run(rest.take(n - 1)).phase == LoopPhase::Running);
                }
            }
        } else {
            assert(reports.first() == reports.last());
            assert(next.run(rest) == next);
            assert(reports.take(0).len() == 0);
        }
    }

    /// The loop only moves forward, from initializing to running to
    /// terminated, and once it has terminated a step changes nothing and
    /// writes nothing.
    pub proof fn lemma_phases_move_forward(self, report: TerminalReport)
        ensures
            self.phase == LoopPhase::Terminated ==> self.step(report) == self
                && !self.step_fails(report) && self.step_commands(report)
                == Seq::<TerminalCommand>::empty(),
            self.phase == LoopPhase::Running ==> self.step(report).phase
                != LoopPhase::Initializing,
            self.step_fails(report) ==> self.step(report).phase == LoopPhase::Terminated,
            self.step(report).terminate == self.terminate,
    {
    }
}

} // verus!
