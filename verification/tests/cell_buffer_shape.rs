#[test]
fn cell_default_values() {
    // Cell() must have these defaults:
    // text=" ", fg="", bg="", bold=false, dim=false, underline=false, italic=false
    let defaults = [("text", " "), ("fg", ""), ("bg", "")];
    assert_eq!(defaults.len(), 3);
    // Boolean defaults: bold=false, dim=false, underline=false, italic=false
}

#[test]
fn cell_text_invariant_no_empty() {
    // Empty text is forbidden; must be " " for empty cells.
    let empty_cell_text = " ";
    assert_eq!(empty_cell_text.len(), 1);
    assert_ne!(empty_cell_text, "");
}

#[test]
fn screen_buffer_default_values() {
    // ScreenBuffer() defaults:
    // cols=0, rows=0, cells=[], cursor_col=1, cursor_row=1, cursor_visible=true
    let defaults: Vec<(&str, i64)> = vec![
        ("cols", 0),
        ("rows", 0),
        ("cursor_col", 1),
        ("cursor_row", 1),
    ];
    assert_eq!(defaults.len(), 4);
}

#[test]
fn row_major_flat_index_formula() {
    // Index = (row - 1) * cols + (col - 1) for 1-based col/row
    let cols = 80u32;
    let idx = |col: u32, row: u32| (row - 1) * cols + (col - 1);
    // Cell at (1,1) → index 0
    assert_eq!(idx(1, 1), 0);
    // Cell at (80,1) → index 79
    assert_eq!(idx(80, 1), 79);
    // Cell at (1,2) → index 80
    assert_eq!(idx(1, 2), 80);
    // Cell at (80,24) → index 1919
    assert_eq!(idx(80, 24), 1919);
}

#[test]
fn flat_cells_total_count() {
    // BufferNew(80, 24) → cells.length() == 80 * 24 == 1920
    let cols = 80u32;
    let rows = 24u32;
    assert_eq!(cols * rows, 1920);
}
