use crate::cell::{Cell, CellView, Color};
use vstd::prelude::*;

verus! {

/// The terminal-emulation state of a child's output: a `vt100::Parser`.
/// Verus does not accept a declaration of that type (its callback parameter
/// is bounded by an outside trait), so it is held here, seen only through
/// `screen_dims`, `screen_fed` and the functions below.
#[verifier::external_body]
pub struct VtScreen {
    parser: vt100::Parser,
}

/// The number of rows and columns the screen was made with.
pub uninterp spec fn screen_dims(s: VtScreen) -> (nat, nat);

/// Every byte fed to the screen since it was made, in order.
pub uninterp spec fn screen_fed(s: VtScreen) -> Seq<u8>;

/// The visible cells of a terminal of `rows` rows and `cols` columns, with no
/// scrollback, after it has interpreted `fed`: one sequence of cells per row,
/// top row first.
pub uninterp spec fn vt_grid(rows: nat, cols: nat, fed: Seq<u8>) -> Seq<Seq<CellView>>;

/// The visible cells of a screen.
pub open spec fn screen_cells(s: VtScreen) -> Seq<Seq<CellView>> {
    vt_grid(screen_dims(s).0, screen_dims(s).1, screen_fed(s))
}

/// A grid of `rows` rows of `cols` cells each.
pub open spec fn grid_has_size(g: Seq<Seq<CellView>>, rows: nat, cols: nat) -> bool {
    &&& g.len() == rows
    &&& forall|i: int| 0 <= i < g.len() ==> #[trigger] g[i].len() == cols
}

/// A cell with no text, in the default colours and with no attribute set.
pub open spec fn cell_is_blank(c: CellView) -> bool {
    &&& c.contents.len() == 0
    &&& c.fg == Color::Default
    &&& c.bg == Color::Default
    &&& !c.bold && !c.dim && !c.italic && !c.underline && !c.inverse
}

/// Relies on vt100::Parser::new: a screen of the given size, fed nothing yet,
/// whose cells are all blank (no scrollback is kept). The grid's
/// `scroll_bottom` is `rows - 1`, so a screen needs a row; a double-width
/// character computes `cols - 2`, so it needs two columns.
#[verifier::external_body]
pub(crate) fn new_screen(rows: u16, cols: u16) -> (p: VtScreen)
    requires
        rows > 0,
        cols >= 2,
    ensures
        screen_dims(p) == (rows as nat, cols as nat),
        screen_fed(p) == Seq::<u8>::empty(),
        grid_has_size(vt_grid(rows as nat, cols as nat, screen_fed(p)), rows as nat, cols as nat),
        forall|i: int, j: int|
            0 <= i < rows && 0 <= j < cols ==> cell_is_blank(
                #[trigger] vt_grid(rows as nat, cols as nat, screen_fed(p))[i][j],
            ),
{
    VtScreen { parser: vt100::Parser::new(rows, cols, 0) }
}

/// Relies on vt100::Parser::process: it interprets the bytes after those fed
/// before, and never changes the screen's size (only Screen::set_size
/// resizes). Printing a double-width character computes `cols - 2`, so the
/// screen must have two columns.
#[verifier::external_body]
pub(crate) fn process_bytes(p: &mut VtScreen, bytes: &[u8])
    requires
        screen_dims(*old(p)).0 > 0,
        screen_dims(*old(p)).1 >= 2,
    ensures
        screen_dims(*final(p)) == screen_dims(*old(p)),
        screen_fed(*final(p)) == screen_fed(*old(p)) + bytes@,
        grid_has_size(
            vt_grid(screen_dims(*final(p)).0, screen_dims(*final(p)).1, screen_fed(*final(p))),
            screen_dims(*final(p)).0,
            screen_dims(*final(p)).1,
        ),
{
    p.parser.process(bytes)
}

/// Relies on vt100::Screen::size: the number of rows and columns of the screen.
#[verifier::external_body]
pub(crate) fn screen_size(p: &VtScreen) -> (r: (u16, u16))
    ensures
        (r.0 as nat, r.1 as nat) == screen_dims(*p),
        grid_has_size(vt_grid(r.0 as nat, r.1 as nat, screen_fed(*p)), r.0 as nat, r.1 as nat),
{
    p.parser.screen().size()
}

/// Relies on vt100::Screen::cell: the cell at a row and column of the visible
/// screen, or `None` outside it.
#[verifier::external_body]
pub(crate) fn cell_at(p: &VtScreen, row: u16, col: u16) -> (r: Option<Cell>)
    ensures
        match r {
            Some(c) => row < screen_cells(*p).len() && col < screen_cells(*p)[row as int].len()
                && c@ == screen_cells(*p)[row as int][col as int],
            None => !(row < screen_cells(*p).len() && col < screen_cells(*p)[row as int].len()),
        },
{
    let c = p.parser.screen().cell(row, col)?;
    let color = |k: vt100::Color| match k {
        vt100::Color::Default => Color::Default,
        vt100::Color::Idx(i) => Color::Idx(i),
        vt100::Color::Rgb(r, g, b) => Color::Rgb(r, g, b),
    };
    let (fg, bg) = (color(c.fgcolor()), color(c.bgcolor()));
    let contents = c.contents().to_string();
    let (bold, dim, italic) = (c.bold(), c.dim(), c.italic());
    let (underline, inverse) = (c.underline(), c.inverse());
    Some(Cell { contents, fg, bg, bold, dim, italic, underline, inverse })
}

} // verus!
