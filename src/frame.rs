use crate::ansi::{cell_to_ansi, encode_cell};
use crate::cell::{glyph_of, CellView};
use crate::screen::{cell_at, screen_cells, screen_size, VtScreen};
use vstd::prelude::*;

verus! {

/// How a frame is reconciled with what the host terminal already shows.
#[derive(Clone, Copy, Debug, PartialEq, Eq, Structural)]
pub enum Strategy {
    /// Move up over the previous frame, clear to the end of the screen and
    /// print the new frame in its place.
    ScrollAppend,
    /// Draw the frame in a region anchored at the bottom of the host
    /// terminal, then put the cursor back where it was.
    FixedBottomRegion,
}

/// One operation on the host terminal.
#[derive(Clone, Debug)]
pub enum TermOp {
    SavePosition,
    RestorePosition,
    /// Move the cursor to a column and a row, both counted from 0.
    MoveTo(u16, u16),
    /// Move the cursor up by this many rows.
    MoveUp(u16),
    ClearFromCursorDown,
    Print(String),
    Flush,
}

/// What an operation is, with the printed text as a sequence of characters.
pub enum OpView {
    SavePosition,
    RestorePosition,
    MoveTo(nat, nat),
    MoveUp(nat),
    ClearFromCursorDown,
    Print(Seq<char>),
    Flush,
}

impl View for TermOp {
    type V = OpView;

    open spec fn view(&self) -> OpView {
        match self {
            TermOp::SavePosition => OpView::SavePosition,
            TermOp::RestorePosition => OpView::RestorePosition,
            TermOp::MoveTo(c, r) => OpView::MoveTo(*c as nat, *r as nat),
            TermOp::MoveUp(n) => OpView::MoveUp(*n as nat),
            TermOp::ClearFromCursorDown => OpView::ClearFromCursorDown,
            TermOp::Print(s) => OpView::Print(s@),
            TermOp::Flush => OpView::Flush,
        }
    }
}

/// What a list of operations holds.
pub open spec fn ops_view(ops: Seq<TermOp>) -> Seq<OpView> {
    ops.map_values(|o: TermOp| o@)
}

/// The text of one row: each cell's escape sequence followed by its glyph.
pub open spec fn row_text(row: Seq<CellView>) -> Seq<char>
    decreases row.len(),
{
    if row.len() == 0 {
        seq![]
    } else {
        row_text(row.drop_last()) + encode_cell(row.last()) + glyph_of(row.last())
    }
}

/// The text of a frame of the first `n` rows, each ended by a newline.
pub open spec fn frame_text(g: Seq<Seq<CellView>>, n: nat) -> Seq<char>
    decreases n,
{
    if n == 0 {
        seq![]
    } else {
        frame_text(g, (n - 1) as nat) + row_text(g[n - 1]) + seq!['\n']
    }
}

/// The number of rows a frame draws: the used height, but never more than
/// the screen has.
pub open spec fn render_rows_of(total_rows: nat, used_height: nat) -> nat {
    if used_height < total_rows {
        used_height
    } else {
        total_rows
    }
}

/// The host row at which a bottom-anchored frame of `rows` rows starts:
/// `height - rows - 1`, or 0 where that would be negative.
pub open spec fn start_row_of(terminal_height: nat, rows: nat) -> nat {
    if terminal_height > rows + 1 {
        (terminal_height - rows - 1) as nat
    } else {
        0
    }
}

/// The operations that draw a frame of `rows` rows with text `text`, given
/// the height of the previous frame and of the host terminal.
pub open spec fn frame_ops(
    strategy: Strategy,
    last_height: nat,
    terminal_height: nat,
    rows: nat,
    text: Seq<char>,
) -> Seq<OpView> {
    match strategy {
        Strategy::ScrollAppend => (if last_height > 0 {
            seq![OpView::MoveUp(last_height)]
        } else {
            seq![]
        }) + seq![OpView::ClearFromCursorDown, OpView::Print(text), OpView::Flush],
        Strategy::FixedBottomRegion => seq![
            OpView::SavePosition,
            OpView::MoveTo(0, start_row_of(terminal_height, rows)),
            OpView::Print(text),
            OpView::RestorePosition,
            OpView::Flush,
        ],
    }
}

/// After a scroll-append frame of `h1` rows, a shorter frame of `h2` rows
/// first moves the cursor up by all `h1` rows and only then clears to the end
/// of the screen, so no row of the taller frame is left behind.
pub proof fn scroll_append_clears_taller_frame(
    h1: nat,
    h2: nat,
    terminal_height: nat,
    text: Seq<char>,
)
    requires
        h2 < h1,
    ensures
        frame_ops(Strategy::ScrollAppend, h1, terminal_height, h2, text) == seq![
            OpView::MoveUp(h1),
            OpView::ClearFromCursorDown,
            OpView::Print(text),
            OpView::Flush,
        ],
{
    assert(frame_ops(Strategy::ScrollAppend, h1, terminal_height, h2, text) =~= seq![
        OpView::MoveUp(h1),
        OpView::ClearFromCursorDown,
        OpView::Print(text),
        OpView::Flush,
    ]);
}

/// The number of rows to draw: `used_height`, capped at `total_rows`.
pub fn clamp_render_rows(total_rows: u16, used_height: u16) -> (r: u16)
    ensures
        r as nat == render_rows_of(total_rows as nat, used_height as nat),
        r <= total_rows,
{
    if used_height < total_rows {
        used_height
    } else {
        total_rows
    }
}

/// The host row where a bottom-anchored frame of `rows` rows starts.
pub fn start_row(terminal_height: u16, rows: u16) -> (r: u16)
    ensures
        r as nat == start_row_of(terminal_height as nat, rows as nat),
{
    terminal_height.saturating_sub(rows).saturating_sub(1)
}

proof fn lemma_row_text_take(row: Seq<CellView>, j: int)
    requires
        0 <= j < row.len(),
    ensures
        row_text(row.take(j + 1)) == row_text(row.take(j)) + encode_cell(row[j]) + glyph_of(row[j]),
{
    assert(row.take(j + 1).drop_last() =~= row.take(j));
    assert(row.take(j + 1).last() == row[j]);
}

/// The text of the first `n` rows of the screen.
pub(crate) fn build_frame(screen: &VtScreen, n: u16) -> (r: String)
    requires
        n <= screen_cells(*screen).len(),
    ensures
        r@ == frame_text(screen_cells(*screen), n as nat),
{
    let (_, cols) = screen_size(screen);
    let ghost g = screen_cells(*screen);
    let mut frame = String::new();
    let mut row: u16 = 0;
    while row < n
        invariant
            g == screen_cells(*screen),
            n <= g.len(),
            row <= n,
            forall|i: int| 0 <= i < g.len() ==> #[trigger] g[i].len() == cols,
            frame@ == frame_text(g, row as nat),
        decreases n - row,
    {
        let ghost line = g[row as int];
        let mut col: u16 = 0;
        assert(line.take(0) =~= Seq::<CellView>::empty());
        while col < cols
            invariant
                g == screen_cells(*screen),
                row < n <= g.len(),
                line == g[row as int],
                line.len() == cols,
                col <= cols,
                frame@ == frame_text(g, row as nat) + row_text(line.take(col as int)),
            decreases cols - col,
        {
            proof {
                lemma_row_text_take(line, col as int);
                reveal_strlit(" ");
            }
            if let Some(cell) = cell_at(screen, row, col) {
                let code = cell_to_ansi(&cell);
                frame.append(code.as_str());
                if !cell.contents.as_str().is_empty() {
                    frame.append(cell.contents.as_str());
                } else {
                    frame.append(" ");
                }
            }
            col += 1;
        }
        proof {
            reveal_strlit("\n");
        }
        frame.append("\n");
        assert(line.take(cols as int) =~= line);
        row += 1;
    }
    frame
}

} // verus!
