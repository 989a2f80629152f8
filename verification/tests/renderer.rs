use std::sync::Arc;
use term_dashboard::task_graph::task_dag::DrawCell;
use term_dashboard::task_graph::task_dag::TaskDag;
use term_dashboard::terminal::command::TerminalCommand;
use term_dashboard::terminal::frame_buffer::Cell;
use term_dashboard::terminal::renderer::LoopPhase;
use term_dashboard::terminal::renderer::ProbeRequest;
use term_dashboard::terminal::renderer::RenderError;
use term_dashboard::terminal::renderer::RenderErrorCategory;
use term_dashboard::terminal::renderer::RenderStatus;
use term_dashboard::terminal::renderer::Renderer;
use term_dashboard::terminal::Terminal;

fn content(cells: &[(usize, usize, char)]) -> TaskDag {
    TaskDag { cells: cells.iter().map(|&(row, col, glyph)| DrawCell { row, col, glyph }).collect() }
}

fn placed(width: usize, height: usize, cursor_col: u16, cursor_row: u16) -> Renderer {
    let mut renderer = Renderer::new().unwrap();
    renderer.resize_to(Some((width, height))).unwrap();
    renderer.update_pos(cursor_col, cursor_row);
    renderer.detect_layout();
    renderer
}

fn glyph_writes(batch: &[TerminalCommand]) -> Vec<(usize, usize, char)> {
    let mut writes = Vec::new();
    for pair in batch.windows(2) {
        if let (TerminalCommand::MoveTo { col, row }, TerminalCommand::Print(glyph)) = (pair[0], pair[1]) {
            if glyph != ' ' {
                writes.push((row, col, glyph));
            }
        }
    }
    writes
}

#[test]
fn new_renderer_is_empty_and_wants_a_layout() {
    let renderer = Renderer::new().unwrap();
    assert_eq!(renderer.phase(), LoopPhase::Initializing);
    assert!(renderer.is_layout_dirty());
    assert!(!renderer.is_finished());
    assert_eq!(renderer.frames_since_poll(), 0);
    assert_eq!(renderer.wanted_probe(), ProbeRequest::SizeAndCursor);
    assert_eq!(renderer.buffers().width(), 0);
    assert_eq!(renderer.buffers().height(), 0);
    assert!(renderer.buffers().committed_cells().is_empty());
    assert_eq!(renderer.p_info(), RenderStatus {
        physical_width: 0,
        physical_height: 0,
        virtual_width: 0,
        virtual_height: 0,
        origin_row: 0,
        origin_col: 0,
    });
}

#[test]
fn default_content_is_empty() {
    assert!(TaskDag::default().cells.is_empty());
}

#[test]
fn to_arc_keeps_the_content() {
    let shared: Arc<TaskDag> = content(&[(1, 2, 'X')]).to_arc();
    assert_eq!(shared.cells, vec![DrawCell { row: 1, col: 2, glyph: 'X' }]);
}

#[test]
fn error_constructors_set_category_and_detail() {
    let error = RenderError::terminal(String::from("write failed"));
    assert_eq!(error.category, RenderErrorCategory::ETerminal);
    assert_eq!(error.detail, "write failed");
    let error = RenderError::synchronization(String::from("poisoned"));
    assert_eq!(error.category, RenderErrorCategory::EMutex);
    assert_eq!(error.detail, "poisoned");
}

#[test]
fn layout_sizes_both_grids_to_the_virtual_area() {
    for (width, height) in [(40usize, 10usize), (0, 0), (3, 4), (5, 5), (6, 6), (200, 50), (5, 100)] {
        let mut renderer = Renderer::new().unwrap();
        renderer.resize_to(Some((width, height))).unwrap();
        renderer.detect_layout();
        let virtual_width = width.max(5) - 5;
        let virtual_height = height.max(5) - 5;
        let status = renderer.p_info();
        assert_eq!(status.virtual_width, virtual_width);
        assert_eq!(status.virtual_height, virtual_height);
        assert_eq!(renderer.buffers().committed_cells().len(), virtual_width * virtual_height);
        assert_eq!(renderer.buffers().staged_cells().len(), virtual_width * virtual_height);
    }
}

#[test]
fn frame_lays_out_for_the_size_taken_in() {
    let mut renderer = Renderer::new().unwrap();
    renderer.resize_to(Some((12, 9))).unwrap();
    renderer.render_single_frame();
    assert_eq!(renderer.buffers().width(), 7);
    assert_eq!(renderer.buffers().height(), 4);
    assert_eq!(renderer.buffers().committed_cells().len(), 28);
    assert!(!renderer.is_layout_dirty());
}

#[test]
fn empty_terminal_renders_nothing_and_does_not_fail() {
    let mut renderer = Renderer::new().unwrap();
    renderer.resize_to(Some((0, 0))).unwrap();
    renderer.update_tasks(content(&[(0, 0, 'X')])).unwrap();
    let batch = renderer.render_single_frame();
    assert!(glyph_writes(&batch).is_empty());
    assert!(renderer.buffers().committed_cells().is_empty());
    let batch = renderer.render_single_frame();
    assert_eq!(batch, vec![TerminalCommand::MoveTo { col: 0, row: 0 }, TerminalCommand::Flush]);
}

#[test]
fn resize_asks_for_a_layout_once() {
    let mut renderer = Renderer::new().unwrap();
    renderer.resize_to(Some((40, 10))).unwrap();
    renderer.render_single_frame();
    assert!(!renderer.is_layout_dirty());
    assert_eq!(renderer.resize_to(Some((50, 10))).unwrap(), true);
    assert!(renderer.is_layout_dirty());
    renderer.render_single_frame();
    assert!(!renderer.is_layout_dirty());
    assert_eq!(renderer.resize_to(Some((50, 10))).unwrap(), false);
    assert!(!renderer.is_layout_dirty());
}

#[test]
fn resize_keeps_a_pending_layout_pending() {
    let mut renderer = Renderer::new().unwrap();
    renderer.resize_to(Some((40, 10))).unwrap();
    assert!(renderer.is_layout_dirty());
    assert_eq!(renderer.resize_to(Some((40, 10))).unwrap(), false);
    assert!(renderer.is_layout_dirty());
}

#[test]
fn failed_resize_changes_nothing() {
    let mut renderer = Renderer::new().unwrap();
    renderer.resize_to(Some((40, 10))).unwrap();
    renderer.render_single_frame();
    let before = renderer.p_info();
    let error = renderer.resize_to(None).unwrap_err();
    assert_eq!(error.category, RenderErrorCategory::ETerminal);
    assert_eq!(error.detail, "Cannot get terminal size");
    let error = renderer.resize_to(Some((65536, 65536))).unwrap_err();
    assert_eq!(error.category, RenderErrorCategory::ETerminal);
    assert_eq!(error.detail, "Terminal size out of range");
    assert_eq!(renderer.p_info(), before);
    assert!(!renderer.is_layout_dirty());
}

#[test]
fn detect_resize_follows_the_probe() {
    let probe = Terminal::get_size();
    let mut renderer = Renderer::new().unwrap();
    match renderer.detect_resize() {
        Ok(_) => {
            let status = renderer.p_info();
            assert_eq!(status.virtual_width, status.physical_width.max(5) - 5);
            assert_eq!(status.virtual_height, status.physical_height.max(5) - 5);
        }
        Err(error) => {
            assert_eq!(error.category, RenderErrorCategory::ETerminal);
            assert_eq!(renderer.p_info().physical_width, 0);
            assert_eq!(renderer.p_info().physical_height, 0);
        }
    }
    if let Some((width, height)) = probe {
        assert!(width > 0 && height > 0);
    }
}

#[test]
fn glyph_is_written_at_its_offset_from_the_origin() {
    let mut renderer = placed(40, 10, 3, 1);
    let status = renderer.p_info();
    assert_eq!(status.virtual_width, 35);
    assert_eq!(status.virtual_height, 5);
    assert_eq!(status.origin_row, 1);
    assert_eq!(status.origin_col, 3);
    renderer.update_tasks(content(&[(2, 2, 'X')])).unwrap();
    renderer.fill_pre_render();
    let batch = renderer.commit_to_screen();
    assert_eq!(batch, vec![
        TerminalCommand::MoveTo { col: 5, row: 3 },
        TerminalCommand::Print('X'),
        TerminalCommand::MoveTo { col: 0, row: 6 },
        TerminalCommand::Flush,
    ]);
    assert_eq!(renderer.buffers().committed_cells()[2 * 35 + 2], Cell::Glyph('X'));
}

#[test]
fn frame_writes_the_glyph_once() {
    let mut renderer = placed(40, 10, 3, 1);
    renderer.update_tasks(content(&[(2, 2, 'X')])).unwrap();
    let batch = renderer.render_single_frame();
    assert_eq!(glyph_writes(&batch), vec![(3, 5, 'X')]);
    let flushes = batch.iter().filter(|c| **c == TerminalCommand::Flush).count();
    assert_eq!(flushes, 1);
    let batch = renderer.render_single_frame();
    assert_eq!(batch, vec![TerminalCommand::MoveTo { col: 0, row: 6 }, TerminalCommand::Flush]);
}

#[test]
fn origin_moves_up_when_the_viewport_would_overflow() {
    let mut renderer = Renderer::new().unwrap();
    renderer.resize_to(Some((40, 10))).unwrap();
    let batch = renderer.update_pos(0, 8);
    assert_eq!(renderer.p_info().origin_row, 4);
    assert_eq!(batch.len(), 9);
    assert!(batch.contains(&TerminalCommand::ScrollUp(5)));
    assert!(batch.contains(&TerminalCommand::MoveTo { col: 0, row: 4 }));
}

#[test]
fn later_update_replaces_the_earlier_one() {
    let first = [(0, 0, 'A'), (1, 1, 'A'), (2, 2, 'A')];
    let second = [(0, 1, 'B'), (1, 1, 'B')];
    let mut renderer = placed(40, 10, 0, 0);
    renderer.update_tasks(content(&first)).unwrap();
    renderer.update_tasks(content(&second)).unwrap();
    let batch = renderer.render_single_frame();
    assert_eq!(glyph_writes(&batch), vec![(0, 1, 'B'), (1, 1, 'B')]);

    let mut only_second = placed(40, 10, 0, 0);
    only_second.update_tasks(content(&second)).unwrap();
    assert_eq!(only_second.render_single_frame(), batch);
    assert_eq!(only_second.buffers().committed_cells(), renderer.buffers().committed_cells());
}

#[test]
fn update_asks_for_a_layout() {
    let mut renderer = placed(40, 10, 0, 0);
    renderer.render_single_frame();
    assert!(!renderer.is_layout_dirty());
    renderer.update_tasks(TaskDag::default()).unwrap();
    assert!(renderer.is_layout_dirty());
}

#[test]
fn update_clears_the_previous_frame() {
    let mut renderer = placed(10, 7, 0, 0);
    renderer.update_tasks(content(&[(0, 0, 'A')])).unwrap();
    renderer.render_single_frame();
    renderer.update_tasks(content(&[(1, 1, 'B')])).unwrap();
    let batch = renderer.render_single_frame();
    let blanks = batch.iter().filter(|c| **c == TerminalCommand::Print(' ')).count();
    assert_eq!(blanks, 10);
    assert_eq!(glyph_writes(&batch), vec![(1, 1, 'B')]);
    assert_eq!(renderer.buffers().committed_cells()[0], Cell::Glyph(' '));
    assert_eq!(renderer.buffers().committed_cells()[6], Cell::Glyph('B'));
}

#[test]
fn layout_clears_the_rectangle_laid_out_before() {
    let mut renderer = placed(8, 7, 2, 1);
    renderer.resize_to(Some((20, 20))).unwrap();
    let batch = renderer.detect_layout();
    assert_eq!(batch, vec![
        TerminalCommand::MoveTo { col: 2, row: 1 },
        TerminalCommand::Print(' '),
        TerminalCommand::Print(' '),
        TerminalCommand::Print(' '),
        TerminalCommand::MoveTo { col: 2, row: 2 },
        TerminalCommand::Print(' '),
        TerminalCommand::Print(' '),
        TerminalCommand::Print(' '),
        TerminalCommand::MoveTo { col: 2, row: 1 },
        TerminalCommand::Flush,
    ]);
    assert_eq!(renderer.buffers().width(), 15);
    assert_eq!(renderer.buffers().height(), 15);
}

#[test]
fn layout_leaves_the_flag_to_the_frame() {
    let mut renderer = Renderer::new().unwrap();
    renderer.resize_to(Some((40, 10))).unwrap();
    renderer.detect_layout();
    assert!(renderer.is_layout_dirty());
    renderer.render_single_frame();
    assert!(!renderer.is_layout_dirty());
}

#[test]
fn termination_request_is_recorded() {
    let mut renderer = Renderer::new().unwrap();
    renderer.request_termination();
    assert!(renderer.is_finished());
    assert_eq!(renderer.phase(), LoopPhase::Initializing);
}
