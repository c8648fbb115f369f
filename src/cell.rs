use vstd::prelude::*;

verus! {

/// The colour of a cell's foreground or background.
#[derive(Clone, Copy, Debug, PartialEq, Eq, Structural)]
pub enum Color {
    /// The terminal's own default colour.
    Default,
    /// One of the 256 indexed palette colours.
    Idx(u8),
    /// A true colour, as red, green and blue.
    Rgb(u8, u8, u8),
}

/// One character cell of a virtual screen, with its style.
#[derive(Clone, Debug)]
pub struct Cell {
    /// The text of the cell: empty for a blank cell, else one printable
    /// character possibly followed by combining characters.
    pub contents: String,
    pub fg: Color,
    pub bg: Color,
    pub bold: bool,
    pub dim: bool,
    pub italic: bool,
    pub underline: bool,
    pub inverse: bool,
}

/// What a cell is, as a mathematical value.
pub struct CellView {
    pub contents: Seq<char>,
    pub fg: Color,
    pub bg: Color,
    pub bold: bool,
    pub dim: bool,
    pub italic: bool,
    pub underline: bool,
    pub inverse: bool,
}

impl View for Cell {
    type V = CellView;

    open spec fn view(&self) -> CellView {
        CellView {
            contents: self.contents@,
            fg: self.fg,
            bg: self.bg,
            bold: self.bold,
            dim: self.dim,
            italic: self.italic,
            underline: self.underline,
            inverse: self.inverse,
        }
    }
}

/// A cell counts as visible when it holds text other than a single space.
pub open spec fn cell_visible(c: CellView) -> bool {
    c.contents.len() > 0 && c.contents != seq![' ']
}

/// The text a frame shows for a cell: its contents, or a space when it has none.
pub open spec fn glyph_of(c: CellView) -> Seq<char> {
    if c.contents.len() > 0 {
        c.contents
    } else {
        seq![' ']
    }
}

impl Cell {
    /// A blank cell in the default colours, with no attributes.
    pub fn blank() -> (r: Cell)
        ensures
            r@.contents.len() == 0,
            r@.fg == Color::Default,
            r@.bg == Color::Default,
            !r@.bold && !r@.dim && !r@.italic && !r@.underline && !r@.inverse,
    {
        Cell {
            contents: String::new(),
            fg: Color::Default,
            bg: Color::Default,
            bold: false,
            dim: false,
            italic: false,
            underline: false,
            inverse: false,
        }
    }

    /// Whether this cell holds text other than a single space.
    pub fn is_visible(&self) -> (r: bool)
        ensures
            r == cell_visible(self@),
    {
        proof {
            reveal_strlit(" ");
        }
        let space = String::from_str(" ");
        assert(space@ =~= seq![' ']);
        !self.contents.as_str().is_empty() && !(self.contents == space)
    }
}

} // verus!
