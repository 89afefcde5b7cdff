//! The generated content of several pages: the two-tone board that the
//! `InteractiveViewer` page zooms, the cells of the horizontal strips in the
//! nested-scroll list, the fading rings of the `CustomPaint` page, and the
//! swatches of the `Responsive` column demo.

use vstd::prelude::*;
use vstd::string::*;
use crate::palette::{rgb, Rgb};
use crate::text::{
    decimal, decimal_text, digit_char, join2, join3, lemma_cancel_prefix, lemma_decimal_digits, lemma_decimal_injective,
    lemma_decimal_tail_injective, lemma_split_at_separator,
};

verus! {

/// A coloured box with a label.
#[derive(Debug, PartialEq, Eq)]
pub struct Cell {
    pub color: Rgb,
    pub label: String,
}

/// The side of the two-tone board.
pub const BOARD_SIDE: u32 = 8;

/// The number of cells in each horizontal strip.
pub const STRIP_CELLS: u32 = 12;

/// The number of rings the `CustomPaint` page draws.
pub const RING_COUNT: u32 = 4;

/// The shade of two-tone board square (`row`, `col`): dark and light squares
/// alternate along rows and columns.
pub open spec fn square_shade(row: int, col: int) -> int {
    40 + ((row + col) % 2) * 60
}

/// The colour of two-tone board square (`row`, `col`).
pub open spec fn square_rgb(row: int, col: int) -> Rgb {
    rgb(square_shade(row, col) as u8, (square_shade(row, col) + 30) as u8, 120)
}

/// The label of two-tone board square (`row`, `col`): its row, then its column.
pub open spec fn square_label(row: nat, col: nat) -> Seq<char> {
    decimal(row) + decimal(col)
}

/// Two-tone board square (`row`, `col`).
pub fn board_square(row: u32, col: u32) -> (c: Cell)
    ensures
        c.color == square_rgb(row as int, col as int),
        c.label@ == square_label(row as nat, col as nat),
{
    let shade: u64 = 40 + ((row as u64 + col as u64) % 2) * 60;
    let r = decimal_text(row as u64);
    let k = decimal_text(col as u64);
    Cell { color: Rgb { r: shade as u8, g: (shade + 30) as u8, b: 120 }, label: join2(r.as_str(), k.as_str()) }
}

/// The whole two-tone board, row by row.
pub fn two_tone_board() -> (board: Vec<Vec<Cell>>)
    ensures
        board.len() == BOARD_SIDE,
        forall|r: int| 0 <= r < BOARD_SIDE ==> #[trigger] board[r].len() == BOARD_SIDE,
        forall|r: int, c: int|
            0 <= r < BOARD_SIDE && 0 <= c < BOARD_SIDE ==> (#[trigger] board[r][c]).color == square_rgb(r, c)
                && board[r][c].label@ == square_label(r as nat, c as nat),
{
    let mut board: Vec<Vec<Cell>> = Vec::new();
    let mut row: u32 = 0;
    while row < BOARD_SIDE
        invariant
            row <= BOARD_SIDE,
            board.len() == row,
            forall|r: int| 0 <= r < row ==> #[trigger] board[r].len() == BOARD_SIDE,
            forall|r: int, c: int|
                0 <= r < row && 0 <= c < BOARD_SIDE ==> (#[trigger] board[r][c]).color == square_rgb(r, c)
                    && board[r][c].label@ == square_label(r as nat, c as nat),
        decreases BOARD_SIDE - row,
    {
        let mut line: Vec<Cell> = Vec::new();
        let mut col: u32 = 0;
        while col < BOARD_SIDE
            invariant
                col <= BOARD_SIDE,
                line.len() == col,
                forall|c: int| 0 <= c < col ==> (#[trigger] line[c]).color == square_rgb(row as int, c)
                    && line[c].label@ == square_label(row as nat, c as nat),
            decreases BOARD_SIDE - col,
        {
            line.push(board_square(row, col));
            col = col + 1;
        }
        board.push(line);
        row = row + 1;
    }
    board
}

/// The colour of cell `col` of a strip: its red channel grows with the
/// column.
pub open spec fn strip_rgb(col: int) -> Rgb {
    rgb((40 + col * 8) as u8, 44, 70)
}

/// The label of cell `col` of strip `row`: "row.col".
pub open spec fn strip_label(row: nat, col: nat) -> Seq<char> {
    decimal(row) + "."@ + decimal(col)
}

/// Cell `col` of the strip in list row `row`; the red channel must fit.
pub fn strip_cell(row: u32, col: u32) -> (c: Cell)
    requires
        40 + col * 8 <= 255,
    ensures
        c.color == strip_rgb(col as int),
        c.label@ == strip_label(row as nat, col as nat),
{
    let r = decimal_text(row as u64);
    let k = decimal_text(col as u64);
    Cell { color: Rgb { r: (40 + col * 8) as u8, g: 44, b: 70 }, label: join3(r.as_str(), ".", k.as_str()) }
}

/// The strip of list row `row`, cell by cell.
pub fn strip(row: u32) -> (cells: Vec<Cell>)
    ensures
        cells.len() == STRIP_CELLS,
        forall|c: int| 0 <= c < STRIP_CELLS ==> (#[trigger] cells[c]).color == strip_rgb(c)
            && cells[c].label@ == strip_label(row as nat, c as nat),
{
    let mut cells: Vec<Cell> = Vec::new();
    let mut col: u32 = 0;
    while col < STRIP_CELLS
        invariant
            col <= STRIP_CELLS,
            cells.len() == col,
            forall|c: int| 0 <= c < col ==> (#[trigger] cells[c]).color == strip_rgb(c)
                && cells[c].label@ == strip_label(row as nat, c as nat),
        decreases STRIP_CELLS - col,
    {
        cells.push(strip_cell(row, col));
        col = col + 1;
    }
    cells
}

/// The message shown when a strip cell is tapped: "Cell row.col".
pub fn strip_tap_message(row: u32, col: u32) -> (m: String)
    ensures
        m@ == "Cell "@ + strip_label(row as nat, col as nat),
{
    let r = decimal_text(row as u64);
    let k = decimal_text(col as u64);
    let mut m = join3("Cell ", r.as_str(), ".");
    m.append(k.as_str());
    m
}

/// The title of list row `i` in a list whose rows are called `name`:
/// "name i".
pub open spec fn row_title_spec(name: Seq<char>, i: nat) -> Seq<char> {
    name + " "@ + decimal(i)
}

/// The title of row `i` of a list whose rows are called `name`, such as
/// "Row 12" or "Compact item 3".
pub fn row_title(name: &str, i: u64) -> (t: String)
    ensures
        t@ == row_title_spec(name@, i as nat),
{
    let n = decimal_text(i);
    join3(name, " ", n.as_str())
}

/// The message shown when row `i` of a list whose rows are called `name` is
/// tapped: its title, then " tapped".
pub fn row_tap_message(name: &str, i: u64) -> (m: String)
    ensures
        m@ == row_title_spec(name@, i as nat) + " tapped"@,
{
    let mut m = row_title(name, i);
    m.append(" tapped");
    m
}

/// Distinct rows of one list have distinct titles, so a tap message names
/// the row that was tapped.
pub proof fn law_row_titles_distinct(name: Seq<char>, i: nat, j: nat)
    requires
        i != j,
    ensures
        row_title_spec(name, i) != row_title_spec(name, j),
{
    reveal_strlit(" ");
    if row_title_spec(name, i) == row_title_spec(name, j) {
        let k: int = name.len() as int + 1;
        assert(row_title_spec(name, i).subrange(k, row_title_spec(name, i).len() as int) =~= decimal(i));
        assert(row_title_spec(name, j).subrange(k, row_title_spec(name, j).len() as int) =~= decimal(j));
        lemma_decimal_injective(i, j);
    }
}

/// The opacity of ring `i`, counted from the outermost.
pub open spec fn ring_alpha_spec(i: int) -> int {
    255 - i * 50
}

/// The opacity of ring `i`; `i * 50` must fit in a byte.
pub fn ring_alpha(i: u32) -> (a: u8)
    requires
        i <= 5,
    ensures
        a == ring_alpha_spec(i as int),
{
    255 - (i * 50) as u8
}

/// The opacities of the page's rings, outermost first.
pub fn ring_alphas() -> (alphas: Vec<u8>)
    ensures
        alphas.len() == RING_COUNT,
        forall|i: int| 0 <= i < RING_COUNT ==> #[trigger] alphas[i] == ring_alpha_spec(i),
{
    let mut alphas: Vec<u8> = Vec::new();
    let mut i: u32 = 0;
    while i < RING_COUNT
        invariant
            i <= RING_COUNT,
            alphas.len() == i,
            forall|k: int| 0 <= k < i ==> #[trigger] alphas[k] == ring_alpha_spec(k),
        decreases RING_COUNT - i,
    {
        alphas.push(ring_alpha(i));
        i = i + 1;
    }
    alphas
}

/// The colour of swatch `i` of the column demo.
pub open spec fn column_rgb(i: int) -> Rgb {
    rgb((60 + i * 30) as u8, 90, 170)
}

/// The label of swatch `i` of `cols`: "i+1/cols".
pub open spec fn column_label(i: nat, cols: nat) -> Seq<char> {
    decimal(i + 1) + "/"@ + decimal(cols)
}

/// The swatches of the column demo for `cols` columns; the red channel of
/// each must fit in a byte.
pub fn column_swatches(cols: u32) -> (cells: Vec<Cell>)
    requires
        cols <= 7,
    ensures
        cells.len() == cols,
        forall|i: int| 0 <= i < cols ==> (#[trigger] cells[i]).color == column_rgb(i)
            && cells[i].label@ == column_label(i as nat, cols as nat),
{
    let total = decimal_text(cols as u64);
    let mut cells: Vec<Cell> = Vec::new();
    let mut i: u32 = 0;
    while i < cols
        invariant
            i <= cols <= 7,
            cells.len() == i,
            total@ == decimal(cols as nat),
            forall|k: int| 0 <= k < i ==> (#[trigger] cells[k]).color == column_rgb(k)
                && cells[k].label@ == column_label(k as nat, cols as nat),
        decreases cols - i,
    {
        let n = decimal_text(i as u64 + 1);
        let label = join3(n.as_str(), "/", total.as_str());
        cells.push(Cell { color: Rgb { r: (60 + i * 30) as u8, g: 90, b: 170 }, label });
        i = i + 1;
    }
    cells
}

/// The heading of the column demo for `cols` columns.
pub open spec fn columns_heading_spec(cols: nat) -> Seq<char> {
    decimal(cols) + " column(s)"@
}

/// The heading of the column demo: "cols column(s)".
pub fn columns_heading(cols: u32) -> (h: String)
    ensures
        h@ == columns_heading_spec(cols as nat),
{
    let n = decimal_text(cols as u64);
    join2(n.as_str(), " column(s)")
}

/// Neighbouring squares of the two-tone board differ, along a row and along a
/// column, while diagonal neighbours match; every square is one of two
/// shades.
pub proof fn law_board_alternates(row: int, col: int)
    requires
        0 <= row,
        0 <= col,
    ensures
        square_shade(row, col) != square_shade(row, col + 1),
        square_shade(row, col) != square_shade(row + 1, col),
        square_shade(row, col) == square_shade(row + 1, col + 1),
        square_shade(row, col) == 40 || square_shade(row, col) == 100,
{
}

/// Along a strip each cell is redder than the one before it.
pub proof fn law_strip_reddens(col: int)
    requires
        0 <= col,
        40 + (col + 1) * 8 <= 255,
    ensures
        strip_rgb(col).r < strip_rgb(col + 1).r,
{
}

/// Each ring, drawn inside the previous one, is more transparent than it.
pub proof fn law_rings_fade(i: int)
    requires
        0 <= i,
        i + 1 < RING_COUNT,
    ensures
        0 < ring_alpha_spec(i + 1) < ring_alpha_spec(i) <= 255,
{
}

/// The board's colours follow its squares: the square at the corner is the
/// dark colour, every square is the dark or the light one according to the
/// parity of row plus column, and neighbours along a row or a column differ
/// in colour while diagonal neighbours share it.
pub proof fn law_board_colours(row: int, col: int)
    requires
        0 <= row,
        0 <= col,
    ensures
        square_rgb(0, 0) == rgb(40, 70, 120),
        (row + col) % 2 == 0 ==> square_rgb(row, col) == rgb(40, 70, 120),
        (row + col) % 2 == 1 ==> square_rgb(row, col) == rgb(100, 130, 120),
        square_rgb(row, col) != square_rgb(row + 1, col),
        square_rgb(row, col) != square_rgb(row, col + 1),
        square_rgb(row, col) == square_rgb(row + 1, col + 1),
{
}

/// A column swatch's label names its position and the column count it was
/// built for: labels for different counts, or for different positions,
/// differ; the text after the slash is the count; and the last swatch of
/// `cols` reads "cols/cols".
pub proof fn law_column_labels_name_count(i: nat, j: nat, cols: nat, other: nat)
    ensures
        (i != j || cols != other) ==> column_label(i, cols) != column_label(j, other),
        column_label(i, cols).subrange(
            column_label(i, cols).len() - decimal(cols).len(),
            column_label(i, cols).len() as int,
        ) == decimal(cols),
        cols >= 1 ==> column_label((cols - 1) as nat, cols) == decimal(cols) + "/"@ + decimal(cols),
{
    reveal_strlit("/");
    let a = column_label(i, cols);
    let lenc = decimal(cols).len();
    assert(a.subrange(a.len() - lenc, a.len() as int) =~= decimal(cols));
    if (i != j || cols != other) && column_label(i, cols) == column_label(j, other) {
        lemma_decimal_digits(i + 1);
        lemma_decimal_digits(j + 1);
        assert("/"@ =~= seq!['/']);
        assert(column_label(i, cols) =~= decimal(i + 1) + seq!['/'] + decimal(cols));
        assert(column_label(j, other) =~= decimal(j + 1) + seq!['/'] + decimal(other));
        lemma_split_at_separator(decimal(i + 1), decimal(cols), decimal(j + 1), decimal(other), '/');
        lemma_decimal_injective(i + 1, j + 1);
        lemma_decimal_injective(cols, other);
    }
}

/// The heading names the column count: it starts with the count's
/// rendering, and different counts give different headings.
pub proof fn law_columns_heading_names_count(c: nat, d: nat)
    ensures
        columns_heading_spec(c).subrange(0, decimal(c).len() as int) == decimal(c),
        c != d ==> columns_heading_spec(c) != columns_heading_spec(d),
{
    reveal_strlit(" column(s)");
    assert(columns_heading_spec(c).subrange(0, decimal(c).len() as int) =~= decimal(c));
    if c != d && columns_heading_spec(c) == columns_heading_spec(d) {
        lemma_decimal_tail_injective(c, " column(s)"@, d, " column(s)"@);
    }
}

/// A strip cell's label names its row before the dot and its column after
/// it, so different cells of the list carry different labels.
pub proof fn law_strip_label_names_cell(r: nat, c: nat, s: nat, d: nat)
    ensures
        strip_label(r, c).subrange(0, decimal(r).len() as int) == decimal(r),
        strip_label(r, c)[decimal(r).len() as int] == '.',
        strip_label(r, c).subrange(decimal(r).len() as int + 1, strip_label(r, c).len() as int) == decimal(c),
        (r != s || c != d) ==> strip_label(r, c) != strip_label(s, d),
{
    reveal_strlit(".");
    let a = strip_label(r, c);
    assert(a.subrange(0, decimal(r).len() as int) =~= decimal(r));
    assert(a.subrange(decimal(r).len() as int + 1, a.len() as int) =~= decimal(c));
    if (r != s || c != d) && strip_label(r, c) == strip_label(s, d) {
        assert(strip_label(r, c) =~= decimal(r) + ("."@ + decimal(c)));
        assert(strip_label(s, d) =~= decimal(s) + ("."@ + decimal(d)));
        lemma_decimal_tail_injective(r, "."@ + decimal(c), s, "."@ + decimal(d));
        lemma_cancel_prefix("."@, decimal(c), decimal(d));
        lemma_decimal_injective(c, d);
    }
}

/// On the board, whose rows and columns are single digits, a square's label
/// is two characters: its row's digit, then its column's.
pub proof fn law_square_label_names_square(row: nat, col: nat)
    requires
        row < 10,
        col < 10,
    ensures
        square_label(row, col).len() == 2,
        square_label(row, col)[0] == digit_char(row),
        square_label(row, col)[1] == digit_char(col),
{
}

/// Along the column demo each swatch is redder than the one before it.
pub proof fn law_column_swatches_redden(i: int)
    requires
        0 <= i,
        60 + (i + 1) * 30 <= 255,
    ensures
        column_rgb(i).r < column_rgb(i + 1).r,
{
}

} // verus!
