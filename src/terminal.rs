use crate::cell::{cell_visible, CellView};
use crate::frame::{
    build_frame, clamp_render_rows, frame_ops, frame_text, ops_view, render_rows_of, start_row,
    Strategy, TermOp,
};
use crate::screen::{
    cell_at, cell_is_blank, grid_has_size, new_screen, process_bytes, screen_dims, screen_fed,
    screen_size, vt_grid, VtScreen,
};
use vstd::prelude::*;

verus! {

/// The height reported for a screen with no visible content: one row, so that
/// an empty frame still clears a one-row gutter.
pub const MIN_USED_HEIGHT: u16 = 1;

/// A row holds content when one of its cells is visible.
pub open spec fn row_visible(row: Seq<CellView>) -> bool {
    exists|j: int| 0 <= j < row.len() && cell_visible(#[trigger] row[j])
}

/// The number of rows down to the lowest one that holds content, or
/// `MIN_USED_HEIGHT` when none does.
pub open spec fn used_height_of(g: Seq<Seq<CellView>>) -> nat
    decreases g.len(),
{
    if g.len() == 0 {
        MIN_USED_HEIGHT as nat
    } else if row_visible(g.last()) {
        g.len()
    } else {
        used_height_of(g.drop_last())
    }
}

/// How a blank grid measures: the floor, whatever its number of rows.
pub proof fn used_height_of_blank_grid(g: Seq<Seq<CellView>>)
    requires
        forall|i: int, j: int|
            0 <= i < g.len() && 0 <= j < g[i].len() ==> !cell_visible(#[trigger] g[i][j]),
    ensures
        used_height_of(g) == MIN_USED_HEIGHT as nat,
    decreases g.len(),
{
    if g.len() > 0 {
        assert(!row_visible(g.last())) by {
            assert(forall|j: int| 0 <= j < g.last().len() ==> #[trigger] g.last()[j] == g[g.len() - 1][j]);
        }
        assert forall|i: int, j: int|
            0 <= i < g.drop_last().len() && 0 <= j < g.drop_last()[i].len() implies !cell_visible(
            #[trigger] g.drop_last()[i][j],
        ) by {
            assert(g.drop_last()[i] == g[i]);
        }
        used_height_of_blank_grid(g.drop_last());
    }
}

/// When row `k` holds content and no row below it does, the used height is
/// `k + 1`.
pub proof fn used_height_of_lowest_visible_row(g: Seq<Seq<CellView>>, k: int)
    requires
        0 <= k < g.len(),
        row_visible(g[k]),
        forall|i: int| k < i < g.len() ==> !row_visible(#[trigger] g[i]),
    ensures
        used_height_of(g) == k + 1,
    decreases g.len(),
{
    if g.len() > k + 1 {
        assert(!row_visible(g[g.len() - 1]));
        assert forall|i: int| k < i < g.drop_last().len() implies !row_visible(
            #[trigger] g.drop_last()[i],
        ) by {
            assert(g.drop_last()[i] == g[i]);
        }
        used_height_of_lowest_visible_row(g.drop_last(), k);
    }
}

proof fn lemma_used_height_take(g: Seq<Seq<CellView>>, i: int)
    requires
        0 <= i < g.len(),
    ensures
        used_height_of(g.take(i + 1)) == if row_visible(g[i]) {
            (i + 1) as nat
        } else {
            used_height_of(g.take(i))
        },
{
    assert(g.take(i + 1).drop_last() =~= g.take(i));
    assert(g.take(i + 1).last() == g[i]);
}

/// What a read of the child's output did.
#[derive(Clone, Copy, Debug, PartialEq, Eq, Structural)]
pub enum Outcome {
    /// Nothing was read: the screen is as it was.
    Eof,
    /// The bytes were fed to the terminal emulation.
    Updated,
}

/// A virtual terminal: the emulated screen of a child process, the way its
/// frames are drawn, and the height of the frame last drawn.
pub struct VirtualTerminal {
    screen: VtScreen,
    strategy: Strategy,
    last_render_height: u16,
}

impl VirtualTerminal {
    /// The number of rows of the virtual screen, fixed when it is made.
    pub closed spec fn rows(&self) -> nat {
        screen_dims(self.screen).0
    }

    /// The number of columns of the virtual screen, fixed when it is made.
    pub closed spec fn cols(&self) -> nat {
        screen_dims(self.screen).1
    }

    /// Every byte of the child's output fed to the screen so far.
    pub closed spec fn fed(&self) -> Seq<u8> {
        screen_fed(self.screen)
    }

    /// The cells of the virtual screen, row by row: what a terminal of this
    /// size shows after the bytes fed so far.
    pub open spec fn cells(&self) -> Seq<Seq<CellView>> {
        vt_grid(self.rows(), self.cols(), self.fed())
    }

    /// A screen of at least one row and two columns (a double-width
    /// character needs two), holding `rows` rows of `cols` cells.
    pub open spec fn wf(&self) -> bool {
        &&& self.rows() > 0
        &&& self.cols() >= 2
        &&& grid_has_size(self.cells(), self.rows(), self.cols())
    }

    /// How this terminal's frames are reconciled with the host terminal.
    pub closed spec fn strategy(&self) -> Strategy {
        self.strategy
    }

    /// The number of rows drawn by the previous frame (0 before the first).
    pub closed spec fn last_height(&self) -> nat {
        self.last_render_height as nat
    }

    /// A terminal of `rows` rows and `cols` columns, fed nothing and all
    /// blank, whose frames are drawn by `strategy`.
    pub fn new(rows: u16, cols: u16, strategy: Strategy) -> (r: VirtualTerminal)
        requires
            rows > 0,
            cols >= 2,
        ensures
            r.wf(),
            r.rows() == rows,
            r.cols() == cols,
            r.fed() == Seq::<u8>::empty(),
            forall|i: int, j: int|
                0 <= i < rows && 0 <= j < cols ==> cell_is_blank(#[trigger] r.cells()[i][j]),
            r.strategy() == strategy,
            r.last_height() == 0,
    {
        VirtualTerminal { screen: new_screen(rows, cols), strategy, last_render_height: 0 }
    }

    /// The number of rows and columns of the virtual screen.
    pub fn size(&self) -> (r: (u16, u16))
        ensures
            r.0 as nat == self.rows(),
            r.1 as nat == self.cols(),
            grid_has_size(self.cells(), r.0 as nat, r.1 as nat),
    {
        screen_size(&self.screen)
    }

    /// Feeds one chunk of the child's output to the terminal emulation. An
    /// empty chunk is the end of the stream: nothing changes.
    pub fn pump(&mut self, bytes: &[u8]) -> (r: Outcome)
        requires
            old(self).wf(),
        ensures
            r == (if bytes@.len() == 0 {
                Outcome::Eof
            } else {
                Outcome::Updated
            }),
            bytes@.len() == 0 ==> *final(self) == *old(self),
            final(self).fed() == old(self).fed() + bytes@,
            final(self).wf(),
            final(self).rows() == old(self).rows(),
            final(self).cols() == old(self).cols(),
            final(self).last_height() == old(self).last_height(),
            final(self).strategy() == old(self).strategy(),
    {
        if bytes.len() == 0 {
            assert(self.fed() + bytes@ =~= self.fed());
            return Outcome::Eof;
        }
        process_bytes(&mut self.screen, bytes);
        Outcome::Updated
    }

    /// Whether row `row` holds a visible cell; a row past the screen holds none.
    fn is_row_non_empty(&self, row: u16) -> (r: bool)
        ensures
            r == (row < self.cells().len() && row_visible(self.cells()[row as int])),
    {
        let (_, cols) = screen_size(&self.screen);
        let ghost g = self.cells();
        let mut col: u16 = 0;
        while col < cols
            invariant
                g == self.cells(),
                grid_has_size(g, g.len(), cols as nat),
                col <= cols,
                row < g.len() ==> forall|j: int| 0 <= j < col ==> !cell_visible(#[trigger] g[row as int][j]),
            decreases cols - col,
        {
            if let Some(cell) = cell_at(&self.screen, row, col) {
                if cell.is_visible() {
                    return true;
                }
            }
            col += 1;
        }
        false
    }

    /// The number of rows down to the lowest one that holds a visible cell,
    /// or `MIN_USED_HEIGHT` when the screen is blank.
    pub fn get_used_height(&self) -> (r: u16)
        ensures
            r as nat == used_height_of(self.cells()),
            MIN_USED_HEIGHT <= r,
            r as nat <= self.cells().len() || r == MIN_USED_HEIGHT,
    {
        let (rows, _) = screen_size(&self.screen);
        let ghost g = self.cells();
        let mut row: u16 = rows;
        assert(g.take(rows as int) =~= g);
        while row > 0
            invariant
                g == self.cells(),
                g.len() == rows,
                row <= rows,
                used_height_of(g) == used_height_of(g.take(row as int)),
            decreases row,
        {
            row -= 1;
            proof {
                lemma_used_height_take(g, row as int);
            }
            if self.is_row_non_empty(row) {
                return row + 1;
            }
        }
        assert(g.take(0) =~= Seq::<Seq<CellView>>::empty());
        MIN_USED_HEIGHT
    }

    /// The number of rows the next frame draws: the used height, capped at
    /// the number of rows of the screen.
    pub fn render_rows(&self) -> (r: u16)
        ensures
            r as nat == render_rows_of(self.cells().len(), used_height_of(self.cells())),
            r as nat <= self.cells().len(),
    {
        let (rows, _) = screen_size(&self.screen);
        clamp_render_rows(rows, self.get_used_height())
    }

    /// The text of a frame of the first `n` rows: for each cell its escape
    /// sequence and its glyph (a space for an empty cell), a newline after
    /// each row.
    pub fn frame(&self, n: u16) -> (r: String)
        requires
            n as nat <= self.cells().len(),
        ensures
            r@ == frame_text(self.cells(), n as nat),
    {
        build_frame(&self.screen, n)
    }

    /// The operations that draw the current screen on a host terminal of
    /// `terminal_height` rows; the frame's height is kept for the next one.
    pub fn draw(&mut self, terminal_height: u16) -> (r: Vec<TermOp>)
        ensures
            ({
                let g = old(self).cells();
                let n = render_rows_of(g.len(), used_height_of(g));
                &&& ops_view(r@) == frame_ops(
                    old(self).strategy(),
                    old(self).last_height(),
                    terminal_height as nat,
                    n,
                    frame_text(g, n),
                )
                &&& final(self).last_height() == n
            }),
            final(self).rows() == old(self).rows(),
            final(self).cols() == old(self).cols(),
            final(self).fed() == old(self).fed(),
            final(self).cells() == old(self).cells(),
            final(self).strategy() == old(self).strategy(),
    {
        let n = self.render_rows();
        let text = self.frame(n);
        let mut ops: Vec<TermOp> = Vec::new();
        match self.strategy {
            Strategy::ScrollAppend => {
                if self.last_render_height > 0 {
                    ops.push(TermOp::MoveUp(self.last_render_height));
                }
                ops.push(TermOp::ClearFromCursorDown);
                ops.push(TermOp::Print(text));
                ops.push(TermOp::Flush);
            },
            Strategy::FixedBottomRegion => {
                ops.push(TermOp::SavePosition);
                ops.push(TermOp::MoveTo(0, start_row(terminal_height, n)));
                ops.push(TermOp::Print(text));
                ops.push(TermOp::RestorePosition);
                ops.push(TermOp::Flush);
            },
        }
        assert(ops_view(ops@) =~= frame_ops(
            self.strategy,
            self.last_render_height as nat,
            terminal_height as nat,
            n as nat,
            frame_text(self.cells(), n as nat),
        ));
        self.last_render_height = n;
        ops
    }

    /// Feeds one chunk of the child's output and returns the operations that
    /// redraw the screen. An empty chunk is the end of the stream: nothing
    /// changes and nothing is drawn.
    pub fn render(&mut self, bytes: &[u8], terminal_height: u16) -> (r: Vec<TermOp>)
        requires
            old(self).wf(),
        ensures
            bytes@.len() == 0 ==> r@.len() == 0 && *final(self) == *old(self),
            bytes@.len() > 0 ==> ({
                let g = final(self).cells();
                let n = render_rows_of(g.len(), used_height_of(g));
                &&& ops_view(r@) == frame_ops(
                    old(self).strategy(),
                    old(self).last_height(),
                    terminal_height as nat,
                    n,
                    frame_text(g, n),
                )
                &&& final(self).last_height() == n
            }),
            final(self).fed() == old(self).fed() + bytes@,
            final(self).wf(),
            final(self).rows() == old(self).rows(),
            final(self).cols() == old(self).cols(),
            final(self).strategy() == old(self).strategy(),
    {
        match self.pump(bytes) {
            Outcome::Eof => Vec::new(),
            Outcome::Updated => self.draw(terminal_height),
        }
    }
}

} // verus!
