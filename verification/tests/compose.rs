use termclock::compose::compose;
use termclock::compose::ArtBlock;
use termclock::error::ClockError;
use termclock::glyphs::generate_digit_art;
use termclock::glyphs::separator_art;
use termclock::time::sample;
use termclock::time::Time;

fn rows_of(lines: &[&str]) -> Vec<String> {
    lines.iter().map(|line| line.to_string()).collect()
}

#[test]
fn compose_draws_the_reading_in_block_glyphs() {
    let block = compose(&Time::new(7, 5, 9).unwrap(), 0).unwrap();
    assert_eq!(
        block.rows,
        rows_of(&[
            " ███ ███   ███ ███   ███ ███",
            " █ █   █ █ █ █ █   █ █ █ █ █",
            " █ █   █   █ █ ███   █ █ ███",
            " █ █   █ █ █ █   █ █ █ █   █",
            " ███   █   ███ ███   ███ ███",
        ])
    );
}

#[test]
fn compose_draws_the_reading_in_outlined_glyphs() {
    let block = compose(&Time::new(7, 5, 9).unwrap(), 1).unwrap();
    assert_eq!(
        block.rows,
        rows_of(&[
            "    ___      ______               ___      _____                ___       ___   ",
            "   / _ \\    |____  |   _         / _ \\    | ____|    _         / _ \\     / _ \\  ",
            "  | | | |       / /   (_)       | | | |   | |__     (_)       | | | |   | (_) | ",
            "  | | | |      / /              | | | |   |___ \\              | | | |    \\__, | ",
            "  | |_| |     / /      _        | |_| |    ___) |    _        | |_| |      / /  ",
            "   \\___/     /_/      (_)        \\___/    |____/    (_)        \\___/      /_/   ",
        ])
    );
}

#[test]
fn compose_draws_the_reading_in_rounded_glyphs() {
    let block = compose(&Time::new(7, 5, 9).unwrap(), 2).unwrap();
    assert_eq!(
        block.rows,
        rows_of(&[
            " ╭─────╮ ╭─────╮         ╭─────╮ ╭─────╮         ╭─────╮ ╭─────╮",
            " │ ╭─╮ │ ╰───╮ │   ╭─╮   │ ╭─╮ │ │ ╭───╯   ╭─╮   │ ╭─╮ │ │ ╭─╮ │",
            " │ │ │ │     │ │   ╰─╯   │ │ │ │ │ ╰───╮   ╰─╯   │ │ │ │ │ ╰─╯ │",
            " │ │ │ │     │ │   ╭─╮   │ │ │ │ ╰───╮ │   ╭─╮   │ │ │ │ ╰───╮ │",
            " │ ╰─╯ │     │ │   ╰─╯   │ ╰─╯ │ ╭───╯ │   ╰─╯   │ ╰─╯ │ ╭───╯ │",
            " ╰─────╯     ╰─╯         ╰─────╯ ╰─────╯         ╰─────╯ ╰─────╯",
        ])
    );
}

#[test]
fn compose_uses_both_digits_of_every_field() {
    let block = compose(&Time::new(12, 34, 56).unwrap(), 0).unwrap();
    assert_eq!(
        block.rows,
        rows_of(&[
            "  █  ███   ███ █ █   ███ ███",
            " ██    █ █   █ █ █ █ █   █  ",
            "  █  ███   ███ ███   ███ ███",
            "  █  █   █   █   █ █   █ █ █",
            " ███ ███   ███   █   ███ ███",
        ])
    );
}

#[test]
fn compose_holds_the_glyphs_in_order_one_space_apart() {
    let font = 0;
    let block = compose(&Time::new(7, 5, 9).unwrap(), font).unwrap();
    let separator = separator_art(font).unwrap();
    let glyphs = [
        generate_digit_art(0, font).unwrap(),
        generate_digit_art(7, font).unwrap(),
        separator.clone(),
        generate_digit_art(0, font).unwrap(),
        generate_digit_art(5, font).unwrap(),
        separator,
        generate_digit_art(0, font).unwrap(),
        generate_digit_art(9, font).unwrap(),
    ];
    for (index, row) in block.rows.iter().enumerate() {
        let mut rest: Vec<char> = row.chars().collect();
        for glyph in &glyphs {
            assert_eq!(rest[0], ' ');
            let expected: Vec<char> = glyph[index].chars().collect();
            assert_eq!(rest[1..1 + expected.len()], expected[..]);
            rest = rest.split_off(1 + expected.len());
        }
        assert!(rest.is_empty());
    }
}

#[test]
fn compose_is_rectangular_for_every_font_and_reading() {
    let widths = [28, 80, 64];
    let heights = [5, 6, 6];
    for font in 0..3 {
        let mut elapsed: u64 = 0;
        while elapsed < 86400 {
            let block = compose(&sample(elapsed, 0), font).unwrap();
            assert_eq!(block.rows.len(), heights[font]);
            for row in &block.rows {
                assert_eq!(row.chars().count(), widths[font]);
            }
            elapsed += 61;
        }
    }
}

#[test]
fn compose_rejects_unknown_fonts() {
    let time = Time::new(7, 5, 9).unwrap();
    assert_eq!(compose(&time, 3), Err(ClockError::UnknownFont));
    assert_eq!(compose(&time, usize::MAX), Err(ClockError::UnknownFont));
}

#[test]
fn blank_block_has_empty_rows() {
    assert_eq!(ArtBlock::blank(0).rows, Vec::<String>::new());
    assert_eq!(ArtBlock::blank(3).rows, rows_of(&["", "", ""]));
}

#[test]
fn append_glyph_puts_one_space_before_each_row() {
    let mut block = ArtBlock::blank(2);
    block.append_glyph(&rows_of(&["ab", "cd"]));
    assert_eq!(block.rows, rows_of(&[" ab", " cd"]));
    block.append_glyph(&rows_of(&["x", "y"]));
    assert_eq!(block.rows, rows_of(&[" ab x", " cd y"]));
}

#[test]
fn append_glyph_keeps_the_rows_both_sides_have() {
    let mut block = ArtBlock::blank(3);
    block.append_glyph(&rows_of(&["a", "b"]));
    assert_eq!(block.rows, rows_of(&[" a", " b"]));
    block.append_glyph(&rows_of(&["1", "2", "3"]));
    assert_eq!(block.rows, rows_of(&[" a 1", " b 2"]));
    block.append_glyph(&Vec::new());
    assert_eq!(block.rows, Vec::<String>::new());
}
