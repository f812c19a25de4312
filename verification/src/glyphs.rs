use vstd::prelude::*;
use crate::error::ClockError;

verus! {

/// Number of registered fonts; font ids are `0..FONT_COUNT`.
pub const FONT_COUNT: usize = 3;

/// Every font holds the ten digits followed by the separator.
pub const SYMBOL_COUNT: usize = 11;

/// Index of the time separator within a font.
pub const SEPARATOR: usize = 10;

/// Solid block digits, five rows tall; the separator is one column wide.
pub const BLOCK_FONT: [[&'static str; 5]; 11] = [
    ["███", "█ █", "█ █", "█ █", "███"],
    [" █ ", "██ ", " █ ", " █ ", "███"],
    ["███", "  █", "███", "█  ", "███"],
    ["███", "  █", "███", "  █", "███"],
    ["█ █", "█ █", "███", "  █", "  █"],
    ["███", "█  ", "███", "  █", "███"],
    ["███", "█  ", "███", "█ █", "███"],
    ["███", "  █", "  █", "  █", "  █"],
    ["███", "█ █", "███", "█ █", "███"],
    ["███", "█ █", "███", "  █", "███"],
    [" ", "█", " ", "█", " "],
];

/// Outlined digits drawn with ASCII punctuation, six rows tall.
pub const FIGLET_FONT: [[&'static str; 6]; 11] = [
    ["   ___   ", "  / _ \\  ", " | | | | ", " | | | | ", " | |_| | ", "  \\___/  "],
    ["  __     ", " /_ |    ", "  | |    ", "  | |    ", "  | |    ", "  |_|    "],
    ["  ___    ", " |__ \\   ", "    ) |  ", "   / /   ", "  / /_   ", " |____|  "],
    ["  ____   ", " |___ \\  ", "   __) | ", "  |__ <  ", "  ___) | ", " |____/  "],
    ["  _  _   ", " | || |  ", " | || |_ ", " |__   _|", "    | |  ", "    |_|  "],
    ["  _____  ", " | ____| ", " | |__   ", " |___ \\  ", "  ___) | ", " |____/  "],
    ["    __   ", "   / /   ", "  / /_   ", " | '_ \\  ", " | (_) | ", "  \\___/  "],
    ["  ______ ", " |____  |", "     / / ", "    / /  ", "   / /   ", "  /_/    "],
    ["   ___   ", "  / _ \\  ", " | (_) | ", "  > _ <  ", " | (_) | ", "  \\___/  "],
    ["   ___   ", "  / _ \\  ", " | (_) | ", "  \\__, | ", "    / /  ", "   /_/   "],
    ["         ", "  _      ", " (_)     ", "         ", "  _      ", " (_)     "],
];

/// Digits drawn with rounded box-drawing strokes, six rows tall.
pub const ROUNDED_FONT: [[&'static str; 6]; 11] = [
    ["╭─────╮", "│ ╭─╮ │", "│ │ │ │", "│ │ │ │", "│ ╰─╯ │", "╰─────╯"],
    ["  ╭─╮  ", "╭─╯ │  ", "╰─╮ │  ", "  │ │  ", "╭─╯ ╰─╮", "╰─────╯"],
    ["╭─────╮", "╰───╮ │", "╭───╯ │", "│ ╭───╯", "│ ╰───╮", "╰─────╯"],
    ["╭─────╮", "╰───╮ │", "╭───╯ │", "╰───╮ │", "╭───╯ │", "╰─────╯"],
    ["╭─╮ ╭─╮", "│ │ │ │", "│ ╰─╯ │", "╰───╮ │", "    │ │", "    ╰─╯"],
    ["╭─────╮", "│ ╭───╯", "│ ╰───╮", "╰───╮ │", "╭───╯ │", "╰─────╯"],
    ["╭─────╮", "│ ╭───╯", "│ ╰───╮", "│ ╭─╮ │", "│ ╰─╯ │", "╰─────╯"],
    ["╭─────╮", "╰───╮ │", "    │ │", "    │ │", "    │ │", "    ╰─╯"],
    ["╭─────╮", "│ ╭─╮ │", "│ ╰─╯ │", "│ ╭─╮ │", "│ ╰─╯ │", "╰─────╯"],
    ["╭─────╮", "│ ╭─╮ │", "│ ╰─╯ │", "╰───╮ │", "╭───╯ │", "╰─────╯"],
    ["       ", "  ╭─╮  ", "  ╰─╯  ", "  ╭─╮  ", "  ╰─╯  ", "       "],
];
/// The font id names a registered font.
pub open spec fn known_font(font: int) -> bool {
    0 <= font < FONT_COUNT
}

/// The index names a symbol of a font: a digit or the separator.
pub open spec fn known_symbol(symbol: int) -> bool {
    0 <= symbol < SYMBOL_COUNT
}

/// Number of rows of every glyph of a font.
pub open spec fn font_height(font: int) -> nat {
    if font == 0 {
        5
    } else {
        6
    }
}

/// Number of characters in every row of one glyph.
pub open spec fn glyph_width(font: int, symbol: int) -> nat {
    if font == 0 {
        if symbol == SEPARATOR {
            1
        } else {
            3
        }
    } else if font == 1 {
        9
    } else {
        7
    }
}

/// The glyph table: row `row` of the glyph that font `font` holds for `symbol`.
pub open spec fn glyph_row(font: int, symbol: int, row: int) -> Seq<char> {
    if font == 0 {
        BLOCK_FONT[symbol][row]@
    } else if font == 1 {
        FIGLET_FONT[symbol][row]@
    } else {
        ROUNDED_FONT[symbol][row]@
    }
}

/// A glyph as a sequence of rows, top to bottom.
pub open spec fn glyph(font: int, symbol: int) -> Seq<Seq<char>> {
    Seq::new(font_height(font), |row: int| glyph_row(font, symbol, row))
}

/// The digit that a number stands for in a lookup: its value modulo ten.
pub open spec fn fold_digit(number: int) -> int {
    number % 10
}

proof fn lemma_block_font_widths(symbol: int, row: int)
    requires
        known_symbol(symbol),
        0 <= row < 5,
    ensures
        BLOCK_FONT[symbol][row]@.len() == glyph_width(0, symbol),
{
    reveal_strlit("███");
    reveal_strlit("█ █");
    reveal_strlit(" █ ");
    reveal_strlit("██ ");
    reveal_strlit("  █");
    reveal_strlit("█  ");
    reveal_strlit(" ");
    reveal_strlit("█");
}

proof fn lemma_figlet_font_widths(symbol: int, row: int)
    requires
        known_symbol(symbol),
        0 <= row < 6,
    ensures
        FIGLET_FONT[symbol][row]@.len() == 9,
{
    reveal_strlit("   ___   ");
    reveal_strlit("  / _ \\  ");
    reveal_strlit(" | | | | ");
    reveal_strlit(" | |_| | ");
    reveal_strlit("  \\___/  ");
    reveal_strlit("  __     ");
    reveal_strlit(" /_ |    ");
    reveal_strlit("  | |    ");
    reveal_strlit("  |_|    ");
    reveal_strlit("  ___    ");
    reveal_strlit(" |__ \\   ");
    reveal_strlit("    ) |  ");
    reveal_strlit("   / /   ");
    reveal_strlit("  / /_   ");
    reveal_strlit(" |____|  ");
    reveal_strlit("  ____   ");
    reveal_strlit(" |___ \\  ");
    reveal_strlit("   __) | ");
    reveal_strlit("  |__ <  ");
    reveal_strlit("  ___) | ");
    reveal_strlit(" |____/  ");
    reveal_strlit("  _  _   ");
    reveal_strlit(" | || |  ");
    reveal_strlit(" | || |_ ");
    reveal_strlit(" |__   _|");
    reveal_strlit("    | |  ");
    reveal_strlit("    |_|  ");
    reveal_strlit("  _____  ");
    reveal_strlit(" | ____| ");
    reveal_strlit(" | |__   ");
    reveal_strlit("    __   ");
    reveal_strlit(" | '_ \\  ");
    reveal_strlit(" | (_) | ");
    reveal_strlit("  ______ ");
    reveal_strlit(" |____  |");
    reveal_strlit("     / / ");
    reveal_strlit("    / /  ");
    reveal_strlit("  /_/    ");
    reveal_strlit("  > _ <  ");
    reveal_strlit("  \\__, | ");
    reveal_strlit("   /_/   ");
    reveal_strlit("         ");
    reveal_strlit("  _      ");
    reveal_strlit(" (_)     ");
}

proof fn lemma_rounded_font_widths(symbol: int, row: int)
    requires
        known_symbol(symbol),
        0 <= row < 6,
    ensures
        ROUNDED_FONT[symbol][row]@.len() == 7,
{
    reveal_strlit("╭─────╮");
    reveal_strlit("│ ╭─╮ │");
    reveal_strlit("│ │ │ │");
    reveal_strlit("│ ╰─╯ │");
    reveal_strlit("╰─────╯");
    reveal_strlit("  ╭─╮  ");
    reveal_strlit("╭─╯ │  ");
    reveal_strlit("╰─╮ │  ");
    reveal_strlit("  │ │  ");
    reveal_strlit("╭─╯ ╰─╮");
    reveal_strlit("╰───╮ │");
    reveal_strlit("╭───╯ │");
    reveal_strlit("│ ╭───╯");
    reveal_strlit("│ ╰───╮");
    reveal_strlit("╭─╮ ╭─╮");
    reveal_strlit("    │ │");
    reveal_strlit("    ╰─╯");
    reveal_strlit("       ");
    reveal_strlit("  ╰─╯  ");
}

/// Every glyph of every font is a rectangle: each of its rows has the width
/// of the glyph. This holds of the tables as they are written, so that no
/// frame has to check it.
pub proof fn lemma_glyph_rectangular(font: int, symbol: int, row: int)
    requires
        known_font(font),
        known_symbol(symbol),
        0 <= row < font_height(font),
    ensures
        glyph_row(font, symbol, row).len() == glyph_width(font, symbol),
{
    if font == 0 {
        lemma_block_font_widths(symbol, row);
    } else if font == 1 {
        lemma_figlet_font_widths(symbol, row);
    } else {
        lemma_rounded_font_widths(symbol, row);
    }
}

/// Number of rows of every glyph of `font`.
pub fn font_rows(font: usize) -> (r: Result<usize, ClockError>)
    ensures
        known_font(font as int) ==> r == Ok::<usize, ClockError>(
            font_height(font as int) as usize,
        ),
        !known_font(font as int) ==> r == Err::<usize, ClockError>(ClockError::UnknownFont),
{
    if font == 0 {
        Ok(5)
    } else if font < FONT_COUNT {
        Ok(6)
    } else {
        Err(ClockError::UnknownFont)
    }
}

fn glyph_row_text(font: usize, symbol: usize, row: usize) -> (text: &'static str)
    requires
        known_font(font as int),
        known_symbol(symbol as int),
        row < font_height(font as int),
    ensures
        text@ == glyph_row(font as int, symbol as int, row as int),
{
    if font == 0 {
        BLOCK_FONT[symbol][row]
    } else if font == 1 {
        FIGLET_FONT[symbol][row]
    } else {
        ROUNDED_FONT[symbol][row]
    }
}

/// The glyph that `font` holds for `symbol`, as owned rows.
pub(crate) fn glyph_rows(font: usize, symbol: usize) -> (rows: Vec<String>)
    requires
        known_font(font as int),
        known_symbol(symbol as int),
    ensures
        rows.deep_view() == glyph(font as int, symbol as int),
{
    let height: usize = if font == 0 { 5 } else { 6 };
    let mut rows: Vec<String> = Vec::with_capacity(height);
    let mut row: usize = 0;
    while row < height
        invariant
            known_font(font as int),
            known_symbol(symbol as int),
            height == font_height(font as int),
            row <= height,
            rows@.len() == row,
            forall|k: int|
                0 <= k < row ==> (#[trigger] rows@[k])@ == glyph_row(
                    font as int,
                    symbol as int,
                    k,
                ),
        decreases height - row,
    {
        rows.push(String::from_str(glyph_row_text(font, symbol, row)));
        row = row + 1;
    }
    assert(rows.deep_view() =~= glyph(font as int, symbol as int));
    rows
}

/// The glyph of the digit `number` stands for, as owned rows.
///
/// A number outside `0..10` is folded into that range by its value modulo ten.
pub fn generate_digit_art(number: i8, font: usize) -> (r: Result<Vec<String>, ClockError>)
    ensures
        known_font(font as int) ==> r is Ok && r->Ok_0.deep_view() == glyph(
            font as int,
            fold_digit(number as int),
        ),
        !known_font(font as int) ==> r == Err::<Vec<String>, ClockError>(ClockError::UnknownFont),
{
    if font >= FONT_COUNT {
        return Err(ClockError::UnknownFont);
    }
    let remainder: i8 = number % 10;
    let digit: usize = if remainder < 0 {
        (remainder + 10) as usize
    } else {
        remainder as usize
    };
    Ok(glyph_rows(font, digit))
}

/// The glyph of the time separator in `font`, as owned rows.
pub fn separator_art(font: usize) -> (r: Result<Vec<String>, ClockError>)
    ensures
        known_font(font as int) ==> r is Ok && r->Ok_0.deep_view() == glyph(
            font as int,
            SEPARATOR as int,
        ),
        !known_font(font as int) ==> r == Err::<Vec<String>, ClockError>(ClockError::UnknownFont),
{
    if font >= FONT_COUNT {
        return Err(ClockError::UnknownFont);
    }
    Ok(glyph_rows(font, SEPARATOR))
}

/// The decimal digit that a character shows, if it shows one.
pub open spec fn char_digit(c: char) -> Option<int> {
    if '0' <= c <= '9' {
        Some(c as int - '0' as int)
    } else {
        None
    }
}

/// Reads a character as a decimal digit.
pub fn symbol_digit(c: char) -> (r: Option<u8>)
    ensures
        r is Some <==> char_digit(c) is Some,
        r matches Some(d) ==> char_digit(c) == Some(d as int),
{
    match c {
        '0' => Some(0),
        '1' => Some(1),
        '2' => Some(2),
        '3' => Some(3),
        '4' => Some(4),
        '5' => Some(5),
        '6' => Some(6),
        '7' => Some(7),
        '8' => Some(8),
        '9' => Some(9),
        _ => None,
    }
}

/// The glyph of the digit that the character `c` shows.
///
/// An unknown font is reported first; a character that shows no decimal
/// digit is an invalid symbol.
pub fn symbol_art(c: char, font: usize) -> (r: Result<Vec<String>, ClockError>)
    ensures
        !known_font(font as int) ==> r == Err::<Vec<String>, ClockError>(ClockError::UnknownFont),
        known_font(font as int) && char_digit(c) is None ==> r == Err::<Vec<String>, ClockError>(
            ClockError::InvalidSymbol,
        ),
        known_font(font as int) && char_digit(c) is Some ==> r is Ok && r->Ok_0.deep_view()
            == glyph(font as int, char_digit(c)->Some_0),
{
    if font >= FONT_COUNT {
        return Err(ClockError::UnknownFont);
    }
    match symbol_digit(c) {
        Some(digit) => Ok(glyph_rows(font, digit as usize)),
        None => Err(ClockError::InvalidSymbol),
    }
}

} // verus!
