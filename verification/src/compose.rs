use vstd::prelude::*;
use crate::error::ClockError;
use crate::glyphs::font_height;
use crate::glyphs::font_rows;
use crate::glyphs::glyph;
use crate::glyphs::glyph_row;
use crate::glyphs::glyph_rows;
use crate::glyphs::glyph_width;
use crate::glyphs::known_font;
use crate::glyphs::known_symbol;
use crate::glyphs::lemma_glyph_rectangular;
use crate::glyphs::separator_art;
use crate::glyphs::symbol_art;
use crate::glyphs::SEPARATOR;
use crate::time::field_text;
use crate::time::two_digits;
use crate::time::Time;
use crate::time::WallClock;

verus! {

/// The symbols that show a reading, left to right: the hours, the separator,
/// the minutes, the separator, the seconds, each field as two digits.
pub open spec fn clock_symbols(clock: WallClock) -> Seq<int> {
    seq![
        clock.hours / 10,
        clock.hours % 10,
        SEPARATOR as int,
        clock.minutes / 10,
        clock.minutes % 10,
        SEPARATOR as int,
        clock.seconds / 10,
        clock.seconds % 10,
    ]
}

/// Row `row` of the art that shows `symbols`: for each symbol in turn, one
/// space and then that row of its glyph.
pub open spec fn art_row(font: int, symbols: Seq<int>, row: int) -> Seq<char>
    decreases symbols.len(),
{
    if symbols.len() == 0 {
        Seq::empty()
    } else {
        art_row(font, symbols.drop_last(), row) + seq![' '] + glyph_row(font, symbols.last(), row)
    }
}

/// The art that shows `symbols` in `font`, top row first.
pub open spec fn art(font: int, symbols: Seq<int>) -> Seq<Seq<char>> {
    Seq::new(font_height(font), |row: int| art_row(font, symbols, row))
}

/// Number of characters in every row of the art that shows `symbols`.
pub open spec fn art_width(font: int, symbols: Seq<int>) -> nat
    decreases symbols.len(),
{
    if symbols.len() == 0 {
        0
    } else {
        art_width(font, symbols.drop_last()) + 1 + glyph_width(font, symbols.last())
    }
}

/// All rows have the same number of characters.
pub open spec fn rectangular(rows: Seq<Seq<char>>) -> bool {
    forall|i: int, j: int|
        0 <= i < rows.len() && 0 <= j < rows.len() ==> (#[trigger] rows[i]).len()
            == (#[trigger] rows[j]).len()
}

/// A block grown by one glyph: each row gains a space and the glyph's row of
/// the same index. Rows that either side lacks are dropped.
pub open spec fn appended(block: Seq<Seq<char>>, glyph: Seq<Seq<char>>) -> Seq<Seq<char>> {
    Seq::new(
        if block.len() <= glyph.len() {
            block.len()
        } else {
            glyph.len()
        },
        |row: int| block[row] + seq![' '] + glyph[row],
    )
}

/// A block of `height` rows, all empty.
pub open spec fn blank(height: nat) -> Seq<Seq<char>> {
    Seq::new(height, |row: int| Seq::<char>::empty())
}

/// Rows of text that together show a clock reading in large glyphs.
#[derive(Debug, PartialEq, Eq)]
pub struct ArtBlock {
    pub rows: Vec<String>,
}

impl View for ArtBlock {
    type V = Seq<Seq<char>>;

    open spec fn view(&self) -> Seq<Seq<char>> {
        self.rows.deep_view()
    }
}

impl ArtBlock {
    /// A block of `height` empty rows, ready to take glyphs.
    pub fn blank(height: usize) -> (block: ArtBlock)
        ensures
            block@ == blank(height as nat),
    {
        let mut rows: Vec<String> = Vec::with_capacity(height);
        let mut row: usize = 0;
        while row < height
            invariant
                row <= height,
                rows@.len() == row,
                forall|k: int| 0 <= k < row ==> (#[trigger] rows@[k])@ == Seq::<char>::empty(),
            decreases height - row,
        {
            rows.push(String::new());
            row = row + 1;
        }
        let block = ArtBlock { rows };
        assert(block@ =~= blank(height as nat));
        block
    }

    /// Puts a glyph to the right of the block, one space away from it.
    pub fn append_glyph(&mut self, glyph: &Vec<String>)
        ensures
            final(self)@ == appended(old(self)@, glyph.deep_view()),
    {
        proof {
            reveal_strlit(" ");
        }
        let count: usize = if self.rows.len() <= glyph.len() {
            self.rows.len()
        } else {
            glyph.len()
        };
        let mut rows: Vec<String> = Vec::with_capacity(count);
        let mut row: usize = 0;
        while row < count
            invariant
                row <= count,
                count <= self.rows@.len(),
                count <= glyph@.len(),
                rows@.len() == row,
                " "@ == seq![' '],
                forall|k: int|
                    0 <= k < row ==> (#[trigger] rows@[k])@ == self.rows@[k]@ + seq![' ']
                        + glyph@[k]@,
            decreases count - row,
        {
            let mut line: String = self.rows[row].clone();
            line.append(" ");
            line.append(glyph[row].as_str());
            rows.push(line);
            row = row + 1;
        }
        assert(rows.deep_view() =~= appended(self@, glyph.deep_view()));
        self.rows = rows;
    }
}

/// Every symbol of `symbols` is a digit or the separator.
pub open spec fn known_symbols(symbols: Seq<int>) -> bool {
    forall|k: int| 0 <= k < symbols.len() ==> known_symbol(#[trigger] symbols[k])
}

/// A valid reading is shown by eight symbols, each of them in the font.
pub proof fn lemma_clock_symbols_known(clock: WallClock)
    requires
        clock.valid(),
    ensures
        clock_symbols(clock).len() == 8,
        known_symbols(clock_symbols(clock)),
{
}

/// Putting the glyph of one more symbol to the right of the art for
/// `symbols` gives the art for `symbols` followed by that symbol.
pub proof fn lemma_append_art(font: int, symbols: Seq<int>, symbol: int)
    ensures
        appended(art(font, symbols), glyph(font, symbol)) == art(font, symbols.push(symbol)),
{
    let longer = symbols.push(symbol);
    assert(longer.drop_last() =~= symbols);
    assert(longer.last() == symbol);
    assert(appended(art(font, symbols), glyph(font, symbol)) =~= art(font, longer));
}

/// A row of the art for `symbols` followed by one more symbol is the row for
/// `symbols`, one space, and the row of the glyph of that symbol.
pub proof fn lemma_art_row_push(font: int, symbols: Seq<int>, symbol: int, row: int)
    ensures
        art_row(font, symbols.push(symbol), row) == art_row(font, symbols, row) + seq![' ']
            + glyph_row(font, symbol, row),
{
    assert(symbols.push(symbol).drop_last() =~= symbols);
}

/// Each row of the art of a reading holds, from left to right, the rows of
/// the glyphs of the first hour digit, the second, the separator, the two
/// minute digits, the separator and the two second digits, each of them
/// behind exactly one space.
pub proof fn lemma_clock_art_row(clock: WallClock, font: int, row: int)
    ensures
        art_row(font, clock_symbols(clock), row) == seq![' '] + glyph_row(
            font,
            clock.hours / 10,
            row,
        ) + seq![' '] + glyph_row(font, clock.hours % 10, row) + seq![' '] + glyph_row(
            font,
            SEPARATOR as int,
            row,
        ) + seq![' '] + glyph_row(font, clock.minutes / 10, row) + seq![' '] + glyph_row(
            font,
            clock.minutes % 10,
            row,
        ) + seq![' '] + glyph_row(font, SEPARATOR as int, row) + seq![' '] + glyph_row(
            font,
            clock.seconds / 10,
            row,
        ) + seq![' '] + glyph_row(font, clock.seconds % 10, row),
{
    let s0 = Seq::<int>::empty();
    let s1 = s0.push(clock.hours / 10);
    let s2 = s1.push(clock.hours % 10);
    let s3 = s2.push(SEPARATOR as int);
    let s4 = s3.push(clock.minutes / 10);
    let s5 = s4.push(clock.minutes % 10);
    let s6 = s5.push(SEPARATOR as int);
    let s7 = s6.push(clock.seconds / 10);
    let s8 = s7.push(clock.seconds % 10);
    assert(s8 =~= clock_symbols(clock));
    lemma_art_row_push(font, s0, clock.hours / 10, row);
    lemma_art_row_push(font, s1, clock.hours % 10, row);
    lemma_art_row_push(font, s2, SEPARATOR as int, row);
    lemma_art_row_push(font, s3, clock.minutes / 10, row);
    lemma_art_row_push(font, s4, clock.minutes % 10, row);
    lemma_art_row_push(font, s5, SEPARATOR as int, row);
    lemma_art_row_push(font, s6, clock.seconds / 10, row);
    lemma_art_row_push(font, s7, clock.seconds % 10, row);
    assert(art_row(font, s0, row) + seq![' '] =~= seq![' ']);
}

/// Every row of the art for `symbols` is as wide as the glyphs of its
/// symbols and the spaces before them together.
pub proof fn lemma_art_row_width(font: int, symbols: Seq<int>, row: int)
    requires
        known_font(font),
        known_symbols(symbols),
        0 <= row < font_height(font),
    ensures
        art_row(font, symbols, row).len() == art_width(font, symbols),
    decreases symbols.len(),
{
    if symbols.len() > 0 {
        lemma_art_row_width(font, symbols.drop_last(), row);
        lemma_glyph_rectangular(font, symbols.last(), row);
    }
}

/// The art for any symbols of a font is a rectangle, as tall as the font.
pub proof fn lemma_art_rectangular(font: int, symbols: Seq<int>)
    requires
        known_font(font),
        known_symbols(symbols),
    ensures
        art(font, symbols).len() == font_height(font),
        rectangular(art(font, symbols)),
        forall|row: int|
            0 <= row < font_height(font) ==> (#[trigger] art(font, symbols)[row]).len()
                == art_width(font, symbols),
{
    assert forall|row: int| 0 <= row < font_height(font) implies (#[trigger] art(
        font,
        symbols,
    )[row]).len() == art_width(font, symbols) by {
        lemma_art_row_width(font, symbols, row);
    }
}

/// The art of a valid reading is a rectangle in every font: all its rows
/// have the same number of characters.
pub proof fn lemma_compose_rectangular(clock: WallClock, font: int)
    requires
        clock.valid(),
        known_font(font),
    ensures
        rectangular(art(font, clock_symbols(clock))),
        art(font, clock_symbols(clock)).len() == font_height(font),
{
    lemma_clock_symbols_known(clock);
    lemma_art_rectangular(font, clock_symbols(clock));
}

/// One more symbol widens the art by a space and the symbol's glyph.
pub proof fn lemma_art_width_push(font: int, symbols: Seq<int>, symbol: int)
    ensures
        art_width(font, symbols.push(symbol)) == art_width(font, symbols) + 1 + glyph_width(
            font,
            symbol,
        ),
{
    assert(symbols.push(symbol).drop_last() =~= symbols);
}

/// The width of the art of a valid reading: six digits and two separators,
/// each behind one space. That is 28 characters in the block font, 80 in
/// the outlined one and 64 in the rounded one.
pub proof fn lemma_clock_art_width(clock: WallClock, font: int)
    requires
        clock.valid(),
        known_font(font),
    ensures
        art_width(font, clock_symbols(clock)) == 6 * (1 + glyph_width(font, 0)) + 2 * (1
            + glyph_width(font, SEPARATOR as int)),
        art_width(font, clock_symbols(clock)) == if font == 0 {
            28int
        } else if font == 1 {
            80int
        } else {
            64int
        },
{
    let s0 = Seq::<int>::empty();
    let s1 = s0.push(clock.hours / 10);
    let s2 = s1.push(clock.hours % 10);
    let s3 = s2.push(SEPARATOR as int);
    let s4 = s3.push(clock.minutes / 10);
    let s5 = s4.push(clock.minutes % 10);
    let s6 = s5.push(SEPARATOR as int);
    let s7 = s6.push(clock.seconds / 10);
    assert(s7.push(clock.seconds % 10) =~= clock_symbols(clock));
    lemma_art_width_push(font, s0, clock.hours / 10);
    lemma_art_width_push(font, s1, clock.hours % 10);
    lemma_art_width_push(font, s2, SEPARATOR as int);
    lemma_art_width_push(font, s3, clock.minutes / 10);
    lemma_art_width_push(font, s4, clock.minutes % 10);
    lemma_art_width_push(font, s5, SEPARATOR as int);
    lemma_art_width_push(font, s6, clock.seconds / 10);
    lemma_art_width_push(font, s7, clock.seconds % 10);
}

/// Appends the glyphs of the two digits that show `value`, reading the
/// digits back from the field's text. A character that shows no digit is
/// drawn as the digit zero.
fn append_field(block: &mut ArtBlock, value: i8, font: usize)
    requires
        known_font(font as int),
        0 <= value < 100,
    ensures
        final(block)@ == appended(
            appended(old(block)@, glyph(font as int, value as int / 10)),
            glyph(font as int, value as int % 10),
        ),
{
    let ghost start = block@;
    let text: String = field_text(value);
    let count: usize = text.as_str().unicode_len();
    let mut index: usize = 0;
    while index < count
        invariant
            known_font(font as int),
            0 <= value < 100,
            count == 2,
            index <= count,
            text@ == two_digits(value as int),
            index == 0 ==> block@ == start,
            index == 1 ==> block@ == appended(start, glyph(font as int, value as int / 10)),
            index == 2 ==> block@ == appended(
                appended(start, glyph(font as int, value as int / 10)),
                glyph(font as int, value as int % 10),
            ),
        decreases count - index,
    {
        let c: char = text.as_str().get_char(index);
        let glyph: Vec<String> = match symbol_art(c, font) {
            Ok(glyph) => glyph,
            Err(_) => glyph_rows(font, 0),
        };
        block.append_glyph(&glyph);
        index = index + 1;
    }
}

/// The art that shows `time` in the glyphs of `font`.
///
/// An unknown font is the only failure. The art is as tall as the font and
/// every row of it has the same width.
pub fn compose(time: &Time, font: usize) -> (r: Result<ArtBlock, ClockError>)
    ensures
        known_font(font as int) ==> r is Ok && r->Ok_0@ == art(
            font as int,
            clock_symbols(time@),
        ),
        known_font(font as int) ==> rectangular(r->Ok_0@) && r->Ok_0@.len() == font_height(
            font as int,
        ),
        !known_font(font as int) ==> r is Err && r->Err_0 == ClockError::UnknownFont,
{
    let height: usize = match font_rows(font) {
        Ok(height) => height,
        Err(e) => {
            return Err(e);
        },
    };
    let separator: Vec<String> = match separator_art(font) {
        Ok(separator) => separator,
        Err(e) => {
            return Err(e);
        },
    };
    let ghost clock = time@;
    let ghost f = font as int;
    let ghost mut shown: Seq<int> = Seq::empty();
    let mut block: ArtBlock = ArtBlock::blank(height);
    assert(block@ =~= art(f, shown));

    append_field(&mut block, time.hours(), font);
    proof {
        lemma_append_art(f, shown, clock.hours / 10);
        lemma_append_art(f, shown.push(clock.hours / 10), clock.hours % 10);
        shown = shown.push(clock.hours / 10).push(clock.hours % 10);
    }
    block.append_glyph(&separator);
    proof {
        lemma_append_art(f, shown, SEPARATOR as int);
        shown = shown.push(SEPARATOR as int);
    }
    append_field(&mut block, time.minutes(), font);
    proof {
        lemma_append_art(f, shown, clock.minutes / 10);
        lemma_append_art(f, shown.push(clock.minutes / 10), clock.minutes % 10);
        shown = shown.push(clock.minutes / 10).push(clock.minutes % 10);
    }
    block.append_glyph(&separator);
    proof {
        lemma_append_art(f, shown, SEPARATOR as int);
        shown = shown.push(SEPARATOR as int);
    }
    append_field(&mut block, time.seconds(), font);
    proof {
        lemma_append_art(f, shown, clock.seconds / 10);
        lemma_append_art(f, shown.push(clock.seconds / 10), clock.seconds % 10);
        shown = shown.push(clock.seconds / 10).push(clock.seconds % 10);
        assert(shown =~= clock_symbols(clock));
        lemma_compose_rectangular(clock, f);
    }
    Ok(block)
}

} // verus!
