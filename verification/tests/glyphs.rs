use termclock::error::ClockError;
use termclock::glyphs::font_rows;
use termclock::glyphs::generate_digit_art;
use termclock::glyphs::separator_art;
use termclock::glyphs::symbol_art;
use termclock::glyphs::symbol_digit;
use termclock::glyphs::BLOCK_FONT;
use termclock::glyphs::FIGLET_FONT;
use termclock::glyphs::FONT_COUNT;
use termclock::glyphs::ROUNDED_FONT;
use termclock::glyphs::SEPARATOR;
use termclock::glyphs::SYMBOL_COUNT;

fn table_rows(font: usize, symbol: usize) -> Vec<String> {
    match font {
        0 => BLOCK_FONT[symbol].iter().map(|row| row.to_string()).collect(),
        1 => FIGLET_FONT[symbol].iter().map(|row| row.to_string()).collect(),
        _ => ROUNDED_FONT[symbol].iter().map(|row| row.to_string()).collect(),
    }
}

#[test]
fn fonts_have_the_heights_of_their_glyphs() {
    assert_eq!(FONT_COUNT, 3);
    assert_eq!(SYMBOL_COUNT, 11);
    assert_eq!(SEPARATOR, 10);
    assert_eq!(font_rows(0), Ok(5));
    assert_eq!(font_rows(1), Ok(6));
    assert_eq!(font_rows(2), Ok(6));
    assert_eq!(font_rows(3), Err(ClockError::UnknownFont));
    assert_eq!(font_rows(usize::MAX), Err(ClockError::UnknownFont));
}

#[test]
fn digit_art_is_the_table_entry() {
    assert_eq!(
        generate_digit_art(0, 0).unwrap(),
        vec!["███", "█ █", "█ █", "█ █", "███"]
    );
    assert_eq!(
        generate_digit_art(4, 0).unwrap(),
        vec!["█ █", "█ █", "███", "  █", "  █"]
    );
    assert_eq!(
        generate_digit_art(7, 1).unwrap(),
        vec!["  ______ ", " |____  |", "     / / ", "    / /  ", "   / /   ", "  /_/    "]
    );
    assert_eq!(
        generate_digit_art(1, 2).unwrap(),
        vec!["  ╭─╮  ", "╭─╯ │  ", "╰─╮ │  ", "  │ │  ", "╭─╯ ╰─╮", "╰─────╯"]
    );
    for font in 0..FONT_COUNT {
        for digit in 0..10i8 {
            assert_eq!(
                generate_digit_art(digit, font).unwrap(),
                table_rows(font, digit as usize)
            );
        }
    }
}

#[test]
fn digit_art_folds_numbers_into_digits() {
    assert_eq!(generate_digit_art(13, 0), generate_digit_art(3, 0));
    assert_eq!(generate_digit_art(10, 1), generate_digit_art(0, 1));
    assert_eq!(generate_digit_art(127, 2), generate_digit_art(7, 2));
    assert_eq!(generate_digit_art(-1, 0), generate_digit_art(9, 0));
    assert_eq!(generate_digit_art(-10, 0), generate_digit_art(0, 0));
    assert_eq!(generate_digit_art(-128, 0), generate_digit_art(2, 0));
}

#[test]
fn digit_art_rejects_unknown_fonts() {
    assert_eq!(generate_digit_art(0, 3), Err(ClockError::UnknownFont));
    assert_eq!(generate_digit_art(42, FONT_COUNT), Err(ClockError::UnknownFont));
    assert_eq!(generate_digit_art(-7, usize::MAX), Err(ClockError::UnknownFont));
}

#[test]
fn separator_art_is_the_last_table_entry() {
    assert_eq!(separator_art(0).unwrap(), vec![" ", "█", " ", "█", " "]);
    assert_eq!(
        separator_art(1).unwrap(),
        vec!["         ", "  _      ", " (_)     ", "         ", "  _      ", " (_)     "]
    );
    assert_eq!(
        separator_art(2).unwrap(),
        vec!["       ", "  ╭─╮  ", "  ╰─╯  ", "  ╭─╮  ", "  ╰─╯  ", "       "]
    );
    assert_eq!(separator_art(3), Err(ClockError::UnknownFont));
}

#[test]
fn every_glyph_is_a_rectangle_as_tall_as_its_font() {
    for font in 0..FONT_COUNT {
        let height = font_rows(font).unwrap();
        for symbol in 0..SYMBOL_COUNT {
            let rows = if symbol == SEPARATOR {
                separator_art(font).unwrap()
            } else {
                generate_digit_art(symbol as i8, font).unwrap()
            };
            assert_eq!(rows.len(), height);
            let width = rows[0].chars().count();
            let expected = match (font, symbol) {
                (0, 10) => 1,
                (0, _) => 3,
                (1, _) => 9,
                _ => 7,
            };
            assert_eq!(width, expected);
            for row in &rows {
                assert_eq!(row.chars().count(), width);
            }
        }
    }
}

#[test]
fn symbol_digit_reads_decimal_digits_only() {
    let digits = ['0', '1', '2', '3', '4', '5', '6', '7', '8', '9'];
    for (value, c) in digits.iter().enumerate() {
        assert_eq!(symbol_digit(*c), Some(value as u8));
    }
    assert_eq!(symbol_digit(':'), None);
    assert_eq!(symbol_digit('/'), None);
    assert_eq!(symbol_digit('a'), None);
    assert_eq!(symbol_digit(' '), None);
    assert_eq!(symbol_digit('-'), None);
    assert_eq!(symbol_digit('٣'), None);
}

#[test]
fn symbol_art_draws_digit_characters() {
    assert_eq!(symbol_art('5', 0), generate_digit_art(5, 0));
    assert_eq!(symbol_art('0', 1), generate_digit_art(0, 1));
    assert_eq!(symbol_art('9', 2), generate_digit_art(9, 2));
}

#[test]
fn symbol_art_reports_invalid_symbols_after_unknown_fonts() {
    assert_eq!(symbol_art(':', 0), Err(ClockError::InvalidSymbol));
    assert_eq!(symbol_art('x', 2), Err(ClockError::InvalidSymbol));
    assert_eq!(symbol_art('5', 3), Err(ClockError::UnknownFont));
    assert_eq!(symbol_art('x', 3), Err(ClockError::UnknownFont));
}
