use term_dashboard::task_graph::task_dag::DrawCell;
use term_dashboard::task_graph::task_dag::TaskDag;
use term_dashboard::terminal::command::TerminalCommand;
use term_dashboard::terminal::command::BLANK;
use term_dashboard::terminal::frame_buffer::Cell;
use term_dashboard::terminal::frame_buffer::FrameBuffers;

fn glyphs(text: &str) -> Vec<Cell> {
    text.chars().map(Cell::Glyph).collect()
}

fn staged(text: &str) -> Vec<Cell> {
    text.chars().map(|c| if c == '.' { Cell::Untouched } else { Cell::Glyph(c) }).collect()
}

fn pair(width: u16, height: u16, committed: &str, wanted: &str) -> FrameBuffers {
    FrameBuffers::from_grids(width, height, glyphs(committed), staged(wanted)).unwrap()
}

fn commit(buffers: &mut FrameBuffers, origin_row: u16, origin_col: u16) -> Vec<TerminalCommand> {
    let mut batch = Vec::new();
    buffers.commit(origin_row, origin_col, &mut batch);
    batch
}

fn draw(row: usize, col: usize, glyph: char) -> DrawCell {
    DrawCell { row, col, glyph }
}

#[test]
fn new_pair_is_empty() {
    let buffers = FrameBuffers::new();
    assert_eq!(buffers.width(), 0);
    assert_eq!(buffers.height(), 0);
    assert!(buffers.committed_cells().is_empty());
    assert!(buffers.staged_cells().is_empty());
}

#[test]
fn relayout_blanks_committed_and_clears_staged() {
    let mut buffers = pair(2, 1, "ab", "cd");
    buffers.relayout(3, 2);
    assert_eq!(buffers.width(), 3);
    assert_eq!(buffers.height(), 2);
    assert_eq!(buffers.committed_cells(), vec![Cell::Glyph(BLANK); 6]);
    assert_eq!(buffers.staged_cells(), vec![Cell::Untouched; 6]);
}

#[test]
fn relayout_to_nothing_gives_empty_grids() {
    let mut buffers = pair(2, 1, "ab", "cd");
    buffers.relayout(0, 7);
    assert!(buffers.committed_cells().is_empty());
    assert!(buffers.staged_cells().is_empty());
    buffers.relayout(7, 0);
    assert!(buffers.committed_cells().is_empty());
    assert_eq!(commit(&mut buffers, 2, 3), vec![
        TerminalCommand::MoveTo { col: 0, row: 2 },
        TerminalCommand::Flush,
    ]);
}

#[test]
fn from_grids_checks_the_lengths() {
    assert!(FrameBuffers::from_grids(2, 2, glyphs("abcd"), staged("....")).is_some());
    assert!(FrameBuffers::from_grids(2, 2, glyphs("abc"), staged("....")).is_none());
    assert!(FrameBuffers::from_grids(2, 2, glyphs("abcd"), staged("...")).is_none());
    assert!(FrameBuffers::from_grids(0, 0, Vec::new(), Vec::new()).is_some());
}

#[test]
fn from_grids_refuses_an_untouched_committed_cell() {
    assert!(FrameBuffers::from_grids(2, 1, staged("a."), staged("..")).is_none());
}

#[test]
fn stage_writes_cells_by_row_major_index() {
    let mut buffers = pair(3, 2, "abcdef", "zzzzzz");
    let content = TaskDag { cells: vec![draw(1, 2, 'X'), draw(0, 1, 'Y')] };
    buffers.stage(&content);
    assert_eq!(buffers.staged_cells(), staged(".Y...X"));
    assert_eq!(buffers.committed_cells(), glyphs("abcdef"));
}

#[test]
fn stage_lets_a_later_cell_overwrite_an_earlier_one() {
    let mut buffers = pair(2, 2, "abcd", "....");
    let content = TaskDag { cells: vec![draw(1, 0, 'X'), draw(1, 0, 'Y')] };
    buffers.stage(&content);
    assert_eq!(buffers.staged_cells(), staged("..Y."));
}

#[test]
fn stage_leaves_out_cells_outside_the_viewport() {
    let mut buffers = pair(2, 2, "abcd", "....");
    let content = TaskDag {
        cells: vec![draw(2, 0, 'X'), draw(0, 2, 'Y'), draw(usize::MAX, usize::MAX, 'Z'), draw(1, 1, 'W')],
    };
    buffers.stage(&content);
    assert_eq!(buffers.staged_cells(), staged("...W"));
}

#[test]
fn stage_of_empty_content_is_all_untouched() {
    let mut buffers = pair(2, 2, "abcd", "wxyz");
    buffers.stage(&TaskDag::default());
    assert_eq!(buffers.staged_cells(), vec![Cell::Untouched; 4]);
}

#[test]
fn commit_repaints_changed_cells_in_row_major_order() {
    let mut buffers = pair(3, 2, "abcdef", "aXcYeZ");
    let batch = commit(&mut buffers, 10, 20);
    assert_eq!(batch, vec![
        TerminalCommand::MoveTo { col: 21, row: 10 },
        TerminalCommand::Print('X'),
        TerminalCommand::MoveTo { col: 20, row: 11 },
        TerminalCommand::Print('Y'),
        TerminalCommand::MoveTo { col: 22, row: 11 },
        TerminalCommand::Print('Z'),
        TerminalCommand::MoveTo { col: 0, row: 12 },
        TerminalCommand::Flush,
    ]);
    assert_eq!(buffers.committed_cells(), glyphs("aXcYeZ"));
}

#[test]
fn commit_issues_one_pair_for_each_differing_cell() {
    let committed = "abcdefghijkl";
    for wanted in ["abcdefghijkl", "Xbcdefghijkl", "abcdeXghijkY", "XYZWVUTSRQPO"] {
        let differing = committed.chars().zip(wanted.chars()).filter(|(a, b)| a != b).count();
        let mut buffers = pair(4, 3, committed, wanted);
        let batch = commit(&mut buffers, 0, 0);
        assert_eq!(batch.len(), 2 * differing + 2);
        let prints = batch.iter().filter(|c| matches!(c, TerminalCommand::Print(_))).count();
        assert_eq!(prints, differing);
    }
}

#[test]
fn commit_skips_untouched_cells_and_keeps_their_glyphs() {
    let mut buffers = pair(2, 2, "abcd", ".X..");
    let batch = commit(&mut buffers, 0, 0);
    assert_eq!(batch, vec![
        TerminalCommand::MoveTo { col: 1, row: 0 },
        TerminalCommand::Print('X'),
        TerminalCommand::MoveTo { col: 0, row: 2 },
        TerminalCommand::Flush,
    ]);
    assert_eq!(buffers.committed_cells(), glyphs("aXcd"));
}

#[test]
fn commit_never_leaves_untouched_in_either_grid() {
    let mut buffers = pair(2, 2, "abcd", ".X.Y");
    commit(&mut buffers, 0, 0);
    assert_eq!(buffers.committed_cells(), glyphs("aXcY"));
    assert_eq!(buffers.staged_cells(), glyphs("aXcY"));
}

#[test]
fn commit_twice_writes_nothing_the_second_time() {
    let mut buffers = pair(3, 1, "abc", "X.Z");
    let first = commit(&mut buffers, 4, 5);
    assert_eq!(first.len(), 6);
    let second = commit(&mut buffers, 4, 5);
    assert_eq!(second, vec![TerminalCommand::MoveTo { col: 0, row: 5 }, TerminalCommand::Flush]);
    assert_eq!(buffers.committed_cells(), glyphs("XbZ"));
}

#[test]
fn restaging_the_same_content_writes_nothing() {
    let mut buffers = pair(3, 1, "abc", "...");
    let content = TaskDag { cells: vec![draw(0, 0, 'X'), draw(0, 2, 'Z')] };
    buffers.stage(&content);
    assert_eq!(commit(&mut buffers, 0, 0).len(), 6);
    buffers.stage(&content);
    assert_eq!(commit(&mut buffers, 0, 0).len(), 2);
    assert_eq!(buffers.committed_cells(), glyphs("XbZ"));
}

#[test]
fn commit_flushes_once_at_the_end() {
    let mut buffers = pair(3, 2, "abcdef", "ghijkl");
    let batch = commit(&mut buffers, 0, 0);
    let flushes = batch.iter().filter(|c| **c == TerminalCommand::Flush).count();
    assert_eq!(flushes, 1);
    assert_eq!(batch.last(), Some(&TerminalCommand::Flush));
}

#[test]
fn commit_appends_to_what_is_queued() {
    let mut buffers = pair(1, 1, "a", "b");
    let mut batch = vec![TerminalCommand::ScrollUp(1)];
    buffers.commit(0, 0, &mut batch);
    assert_eq!(batch, vec![
        TerminalCommand::ScrollUp(1),
        TerminalCommand::MoveTo { col: 0, row: 0 },
        TerminalCommand::Print('b'),
        TerminalCommand::MoveTo { col: 0, row: 1 },
        TerminalCommand::Flush,
    ]);
}

#[test]
fn staged_blank_over_blank_is_not_repainted() {
    let mut buffers = FrameBuffers::new();
    buffers.relayout(2, 1);
    buffers.stage(&TaskDag { cells: vec![draw(0, 0, ' '), draw(0, 1, 'X')] });
    let batch = commit(&mut buffers, 0, 0);
    assert_eq!(batch, vec![
        TerminalCommand::MoveTo { col: 1, row: 0 },
        TerminalCommand::Print('X'),
        TerminalCommand::MoveTo { col: 0, row: 1 },
        TerminalCommand::Flush,
    ]);
}

#[test]
fn positions_past_sixteen_bits_are_not_wrapped() {
    let mut buffers = pair(1, 2, "ab", ".X");
    let batch = commit(&mut buffers, 65535, 65535);
    assert_eq!(batch, vec![
        TerminalCommand::MoveTo { col: 65535, row: 65536 },
        TerminalCommand::Print('X'),
        TerminalCommand::MoveTo { col: 0, row: 65537 },
        TerminalCommand::Flush,
    ]);
}
