use crate::cell::{Cell, CellView, Color};
use vstd::prelude::*;

verus! {

/// The decimal digit for `d`, which is below ten.
pub open spec fn digit_char(d: nat) -> char {
    if d == 0 {
        '0'
    } else if d == 1 {
        '1'
    } else if d == 2 {
        '2'
    } else if d == 3 {
        '3'
    } else if d == 4 {
        '4'
    } else if d == 5 {
        '5'
    } else if d == 6 {
        '6'
    } else if d == 7 {
        '7'
    } else if d == 8 {
        '8'
    } else {
        '9'
    }
}

/// `n` written in decimal, without leading zeros.
pub open spec fn decimal(n: nat) -> Seq<char>
    decreases n,
{
    if n < 10 {
        seq![digit_char(n)]
    } else {
        decimal(n / 10).push(digit_char(n % 10))
    }
}

/// The SGR parameter that selects a colour, for the foreground or the background.
pub open spec fn color_code(c: Color, fg: bool) -> Seq<char> {
    let lead = if fg {
        '3'
    } else {
        '4'
    };
    match c {
        Color::Default => seq![lead, '9'],
        Color::Idx(i) => seq![lead, '8', ';', '5', ';'] + decimal(i as nat),
        Color::Rgb(r, g, b) => seq![lead, '8', ';', '2', ';'] + decimal(r as nat) + seq![';']
            + decimal(g as nat) + seq![';'] + decimal(b as nat),
    }
}

/// `Some(code)` where `on`, else nothing.
pub open spec fn code_if(on: bool, code: char) -> Seq<Seq<char>> {
    if on {
        seq![seq![code]]
    } else {
        seq![]
    }
}

/// The SGR parameters of a cell: its attributes in the fixed order bold, dim,
/// italic, underline, inverse, then its foreground and its background colour.
pub open spec fn sgr_codes(c: CellView) -> Seq<Seq<char>> {
    code_if(c.bold, '1') + code_if(c.dim, '2') + code_if(c.italic, '3') + code_if(c.underline, '4')
        + code_if(c.inverse, '7') + seq![color_code(c.fg, true), color_code(c.bg, false)]
}

/// The parameters joined by `;`.
pub open spec fn join_codes(codes: Seq<Seq<char>>) -> Seq<char>
    decreases codes.len(),
{
    if codes.len() == 0 {
        seq![]
    } else if codes.len() == 1 {
        codes[0]
    } else {
        join_codes(codes.drop_last()) + seq![';'] + codes.last()
    }
}

/// The escape sequence that sets a cell's style: `ESC [ codes m`.
pub open spec fn encode_cell(c: CellView) -> Seq<char> {
    seq!['\u{1b}', '['] + join_codes(sgr_codes(c)) + seq!['m']
}

/// What a sequence of strings holds.
pub open spec fn string_views(v: Seq<String>) -> Seq<Seq<char>> {
    v.map_values(|s: String| s@)
}

fn push_digit(s: &mut String, d: u8)
    requires
        d < 10,
    ensures
        final(s)@ == old(s)@.push(digit_char(d as nat)),
{
    proof {
        reveal_strlit("0");
        reveal_strlit("1");
        reveal_strlit("2");
        reveal_strlit("3");
        reveal_strlit("4");
        reveal_strlit("5");
        reveal_strlit("6");
        reveal_strlit("7");
        reveal_strlit("8");
        reveal_strlit("9");
    }
    let digit = if d == 0 {
        "0"
    } else if d == 1 {
        "1"
    } else if d == 2 {
        "2"
    } else if d == 3 {
        "3"
    } else if d == 4 {
        "4"
    } else if d == 5 {
        "5"
    } else if d == 6 {
        "6"
    } else if d == 7 {
        "7"
    } else if d == 8 {
        "8"
    } else {
        "9"
    };
    s.append(digit);
    assert(final(s)@ =~= old(s)@.push(digit_char(d as nat)));
}

/// Appends `n` in decimal.
fn push_decimal(s: &mut String, n: u8)
    ensures
        final(s)@ == old(s)@ + decimal(n as nat),
{
    let ghost start = s@;
    if n >= 100 {
        push_digit(s, n / 100);
    }
    if n >= 10 {
        push_digit(s, (n / 10) % 10);
    }
    push_digit(s, n % 10);
    proof {
        let m = n as nat;
        if m >= 100 {
            assert(decimal(m / 100) == seq![digit_char(m / 100)]);
            assert((m / 10) / 10 == m / 100);
            assert(decimal(m / 10) == decimal(m / 100).push(digit_char((m / 10) % 10)));
        } else if m >= 10 {
            assert(decimal(m / 10) == seq![digit_char(m / 10)]);
        }
        assert(s@ =~= start + decimal(m));
    }
}

fn color_to_ansi_code(color: &Color, is_foreground: bool) -> (r: String)
    ensures
        r@ == color_code(*color, is_foreground),
{
    proof {
        reveal_strlit("39");
        reveal_strlit("49");
        reveal_strlit("38;5;");
        reveal_strlit("48;5;");
        reveal_strlit("38;2;");
        reveal_strlit("48;2;");
        reveal_strlit(";");
    }
    let mut s = String::new();
    match color {
        Color::Default => {
            s.append(if is_foreground { "39" } else { "49" });
        },
        Color::Idx(i) => {
            s.append(if is_foreground { "38;5;" } else { "48;5;" });
            push_decimal(&mut s, *i);
        },
        Color::Rgb(r, g, b) => {
            s.append(if is_foreground { "38;2;" } else { "48;2;" });
            push_decimal(&mut s, *r);
            s.append(";");
            push_decimal(&mut s, *g);
            s.append(";");
            push_decimal(&mut s, *b);
        },
    }
    assert(s@ =~= color_code(*color, is_foreground));
    s
}

/// Encoding depends on the cell's value alone: two cells that are equal as
/// values, or one cell encoded twice, give the same escape sequence.
pub proof fn encode_is_deterministic(a: Cell, b: Cell)
    requires
        a@ == b@,
    ensures
        encode_cell(a@) == encode_cell(b@),
{
}

proof fn lemma_join_step(codes: Seq<Seq<char>>, i: int)
    requires
        0 <= i < codes.len(),
    ensures
        join_codes(codes.take(i + 1)) == if i == 0 {
            codes[0]
        } else {
            join_codes(codes.take(i)) + seq![';'] + codes[i]
        },
{
    assert(codes.take(i + 1).drop_last() =~= codes.take(i));
}

/// The escape sequence that sets the style of `cell`: its attribute codes in
/// the fixed order bold, dim, italic, underline, inverse, then one foreground
/// and one background code, joined by `;`.
pub fn cell_to_ansi(cell: &Cell) -> (r: String)
    ensures
        r@ == encode_cell(cell@),
{
    proof {
        reveal_strlit("1");
        reveal_strlit("2");
        reveal_strlit("3");
        reveal_strlit("4");
        reveal_strlit("7");
    }
    let mut codes: Vec<String> = Vec::new();
    if cell.bold {
        let code = String::from_str("1");
        assert(code@ =~= seq!['1']);
        codes.push(code);
    }
    assert(string_views(codes@) =~= code_if(cell.bold, '1'));
    if cell.dim {
        let code = String::from_str("2");
        assert(code@ =~= seq!['2']);
        codes.push(code);
    }
    assert(string_views(codes@) =~= code_if(cell.bold, '1') + code_if(cell.dim, '2'));
    if cell.italic {
        let code = String::from_str("3");
        assert(code@ =~= seq!['3']);
        codes.push(code);
    }
    assert(string_views(codes@) =~= code_if(cell.bold, '1') + code_if(cell.dim, '2') + code_if(
        cell.italic,
        '3',
    ));
    if cell.underline {
        let code = String::from_str("4");
        assert(code@ =~= seq!['4']);
        codes.push(code);
    }
    assert(string_views(codes@) =~= code_if(cell.bold, '1') + code_if(cell.dim, '2') + code_if(
        cell.italic,
        '3',
    ) + code_if(cell.underline, '4'));
    if cell.inverse {
        let code = String::from_str("7");
        assert(code@ =~= seq!['7']);
        codes.push(code);
    }
    codes.push(color_to_ansi_code(&cell.fg, true));
    codes.push(color_to_ansi_code(&cell.bg, false));
    let ghost views = string_views(codes@);
    assert(views =~= sgr_codes(cell@));

    proof {
        reveal_strlit("\u{1b}[");
        reveal_strlit(";");
        reveal_strlit("m");
    }
    let mut out = String::from_str("\u{1b}[");
    let mut i: usize = 0;
    while i < codes.len()
        invariant
            0 <= i <= codes.len(),
            views == string_views(codes@),
            out@ == seq!['\u{1b}', '['] + join_codes(views.take(i as int)),
        decreases codes.len() - i,
    {
        proof {
            lemma_join_step(views, i as int);
            reveal_strlit(";");
        }
        let ghost before = out@;
        if i > 0 {
            out.append(";");
        }
        assert(views[i as int] == codes@[i as int]@);
        assert(views.take(0) =~= Seq::<Seq<char>>::empty());
        out.append(codes[i].as_str());
        if i > 0 {
            assert(out@ =~= before + seq![';'] + views[i as int]);
        } else {
            assert(out@ =~= before + views[i as int]);
        }
        assert(out@ =~= seq!['\u{1b}', '['] + join_codes(views.take(i + 1)));
        i += 1;
    }
    assert(views.take(codes.len() as int) =~= views);
    out.append("m");
    assert(out@ =~= encode_cell(cell@));
    out
}

} // verus!
