use vstd::prelude::*;
use crate::compose::rectangular;
use crate::compose::ArtBlock;

verus! {

/// The size of the terminal viewport, in character cells.
#[derive(Clone, Copy, Debug, PartialEq, Eq, Structural)]
pub struct Terminal {
    pub rows: u16,
    pub cols: u16,
}

/// Number of blank lines above a centered block: half the terminal's height
/// less half the block's, and none where the terminal is the shorter one.
pub open spec fn blank_lines(terminal_rows: int, block_rows: int) -> nat {
    if terminal_rows / 2 >= block_rows / 2 {
        (terminal_rows / 2 - block_rows / 2) as nat
    } else {
        0
    }
}

/// Width of the field in which a centered row is set to the right: half the
/// terminal's width and half the row's, and never more than the terminal's.
pub open spec fn field_width(terminal_cols: int, row_width: int) -> int {
    if terminal_cols / 2 + row_width / 2 <= terminal_cols {
        terminal_cols / 2 + row_width / 2
    } else {
        terminal_cols
    }
}

/// `count` spaces.
pub open spec fn spaces(count: nat) -> Seq<char> {
    Seq::new(count, |k: int| ' ')
}

/// The row set to the right of a field of `width` characters: spaces are put
/// before it until it fills the field; a row that is too long stays whole.
pub open spec fn right_justified(row: Seq<char>, width: int) -> Seq<char> {
    if row.len() >= width {
        row
    } else {
        spaces((width - row.len()) as nat) + row
    }
}

/// The width of a block: that of its first row, and nothing for no rows.
pub open spec fn row_width(block: Seq<Seq<char>>) -> int {
    if block.len() == 0 {
        0
    } else {
        block[0].len() as int
    }
}

/// The lines of a block centered in a terminal: the blank lines, then each
/// row set to the right of the field.
pub open spec fn centered(block: Seq<Seq<char>>, terminal: Terminal) -> Seq<Seq<char>> {
    Seq::new(
        blank_lines(terminal.rows as int, block.len() as int),
        |k: int| Seq::<char>::empty(),
    ) + Seq::new(
        block.len(),
        |k: int| right_justified(block[k], field_width(terminal.cols as int, row_width(block))),
    )
}

/// The lines that show a block: its own rows, or the centered ones.
pub open spec fn laid_out(block: Seq<Seq<char>>, center: bool, terminal: Terminal) -> Seq<
    Seq<char>,
> {
    if center {
        centered(block, terminal)
    } else {
        block
    }
}

/// The text of a frame: every line followed by a line feed.
pub open spec fn frame_text(lines: Seq<Seq<char>>) -> Seq<char>
    decreases lines.len(),
{
    if lines.len() == 0 {
        Seq::empty()
    } else {
        frame_text(lines.drop_last()) + lines.last() + seq!['\n']
    }
}

/// A centered frame is well formed whatever the sizes: it holds the blank
/// lines and then one line for each row, and each of those lines is its row
/// behind a number of spaces that is never negative.
pub proof fn lemma_centered_well_formed(block: Seq<Seq<char>>, terminal: Terminal, row: int)
    requires
        0 <= row < block.len(),
    ensures
        centered(block, terminal).len() == blank_lines(terminal.rows as int, block.len() as int)
            + block.len(),
        ({
            let line = centered(block, terminal)[blank_lines(
                terminal.rows as int,
                block.len() as int,
            ) + row];
            &&& line.len() >= block[row].len()
            &&& line == spaces((line.len() - block[row].len()) as nat) + block[row]
        }),
{
    let above = blank_lines(terminal.rows as int, block.len() as int);
    let field = field_width(terminal.cols as int, row_width(block));
    let line = centered(block, terminal)[above + row];
    assert(line == right_justified(block[row], field));
    if block[row].len() >= field {
        assert(line =~= spaces(0) + block[row]);
    }
}

/// The blank lines of a centered frame are empty.
pub proof fn lemma_centered_blank_lines(block: Seq<Seq<char>>, terminal: Terminal, line: int)
    requires
        0 <= line < blank_lines(terminal.rows as int, block.len() as int),
    ensures
        centered(block, terminal)[line] == Seq::<char>::empty(),
{
}

/// A rectangular block that fits the terminal's width is centered into
/// lines that fit it too.
pub proof fn lemma_centered_fits(block: Seq<Seq<char>>, terminal: Terminal, row: int)
    requires
        rectangular(block),
        0 <= row < block.len(),
        row_width(block) <= terminal.cols,
    ensures
        centered(block, terminal)[blank_lines(terminal.rows as int, block.len() as int)
            + row].len() <= terminal.cols,
{
    assert(block[row].len() == block[0].len());
}

/// In a terminal that is neither taller nor wider than a rectangular block,
/// centering degrades to the block itself: no blank lines, no padding.
pub proof fn lemma_small_terminal_keeps_block(block: Seq<Seq<char>>, terminal: Terminal)
    requires
        rectangular(block),
        terminal.rows <= block.len(),
        terminal.cols <= row_width(block),
    ensures
        centered(block, terminal) == block,
{
    assert forall|k: int| 0 <= k < block.len() implies right_justified(
        #[trigger] block[k],
        field_width(terminal.cols as int, row_width(block)),
    ) == block[k] by {
        assert(block[k].len() == block[0].len());
    }
    assert(centered(block, terminal) =~= block);
}

/// The lines that are written to the terminal for one repaint.
#[derive(Debug, PartialEq, Eq)]
pub struct RenderedFrame {
    pub lines: Vec<String>,
}

impl View for RenderedFrame {
    type V = Seq<Seq<char>>;

    open spec fn view(&self) -> Seq<Seq<char>> {
        self.lines.deep_view()
    }
}

/// A row with spaces before it until it is `width` characters long.
fn pad_left(row: &String, width: usize) -> (line: String)
    ensures
        line@ == right_justified(row@, width as int),
{
    proof {
        reveal_strlit(" ");
    }
    let length: usize = row.as_str().unicode_len();
    let mut line: String = String::new();
    let mut filled: usize = length;
    while filled < width
        invariant
            length == row@.len(),
            length <= filled,
            length < width ==> filled <= width,
            length >= width ==> filled == length,
            " "@ == seq![' '],
            line@ == spaces((filled - length) as nat),
        decreases width - filled,
    {
        line.append(" ");
        filled = filled + 1;
        assert(line@ =~= spaces((filled - length) as nat));
    }
    let ghost padding = line@;
    line.append(row.as_str());
    proof {
        assert(line@ == padding + row@);
        if length >= width {
            assert(filled == length);
            assert(padding =~= Seq::<char>::empty());
            assert(padding + row@ =~= row@);
        } else {
            assert(filled == width);
            assert(padding == spaces((width - length) as nat));
        }
    }
    line
}

/// Lays a block out for the terminal.
///
/// Without centering the lines are the block's rows. With it they are
/// `blank_lines` empty lines followed by the rows, each set to the right of
/// a field of `field_width` characters. A terminal smaller than the block
/// gets no blank lines and a field no wider than itself.
pub fn layout(block: &ArtBlock, center: bool, terminal: Terminal) -> (frame: RenderedFrame)
    ensures
        frame@ == laid_out(block@, center, terminal),
        !center ==> frame@ == block@,
        center ==> frame@.len() == blank_lines(terminal.rows as int, block@.len() as int)
            + block@.len(),
{
    let count: usize = block.rows.len();
    let mut lines: Vec<String> = Vec::new();
    if !center {
        let mut row: usize = 0;
        while row < count
            invariant
                count == block.rows@.len(),
                row <= count,
                lines@.len() == row,
                forall|k: int| 0 <= k < row ==> (#[trigger] lines@[k])@ == block.rows@[k]@,
            decreases count - row,
        {
            lines.push(block.rows[row].clone());
            row = row + 1;
        }
        let frame = RenderedFrame { lines };
        assert(frame@ =~= block@);
        return frame;
    }
    let half_rows: usize = (terminal.rows / 2) as usize;
    let blank: usize = if half_rows >= count / 2 {
        half_rows - count / 2
    } else {
        0
    };
    let width: usize = if count == 0 {
        0
    } else {
        block.rows[0].as_str().unicode_len()
    };
    let cols: usize = terminal.cols as usize;
    let field: usize = if width / 2 <= cols - cols / 2 {
        cols / 2 + width / 2
    } else {
        cols
    };
    assert(blank == blank_lines(terminal.rows as int, block@.len() as int));
    assert(width == row_width(block@));
    assert(field == field_width(terminal.cols as int, row_width(block@)));
    let mut above: usize = 0;
    while above < blank
        invariant
            above <= blank,
            lines@.len() == above,
            forall|k: int| 0 <= k < above ==> (#[trigger] lines@[k])@ == Seq::<char>::empty(),
        decreases blank - above,
    {
        lines.push(String::new());
        above = above + 1;
    }
    let mut row: usize = 0;
    while row < count
        invariant
            count == block.rows@.len(),
            row <= count,
            lines@.len() == blank + row,
            forall|k: int| 0 <= k < blank ==> (#[trigger] lines@[k])@ == Seq::<char>::empty(),
            forall|k: int|
                blank <= k < blank + row ==> (#[trigger] lines@[k])@ == right_justified(
                    block.rows@[k - blank]@,
                    field as int,
                ),
        decreases count - row,
    {
        lines.push(pad_left(&block.rows[row], field));
        row = row + 1;
    }
    let frame = RenderedFrame { lines };
    proof {
        let target = centered(block@, terminal);
        assert(frame@.len() == target.len());
        assert forall|k: int| 0 <= k < frame@.len() implies frame@[k] == target[k] by {
            if k >= blank {
                assert(frame@[k] == right_justified(block@[k - blank], field as int));
            }
        }
        assert(frame@ =~= target);
    }
    frame
}

impl RenderedFrame {
    /// The frame as one text, every line ended by a line feed.
    pub fn text(&self) -> (text: String)
        ensures
            text@ == frame_text(self@),
    {
        proof {
            reveal_strlit("\n");
        }
        let count: usize = self.lines.len();
        let mut text: String = String::new();
        let mut row: usize = 0;
        while row < count
            invariant
                count == self.lines@.len(),
                row <= count,
                "\n"@ == seq!['\n'],
                text@ == frame_text(self@.take(row as int)),
            decreases count - row,
        {
            text.append(self.lines[row].as_str());
            text.append("\n");
            proof {
                let shown = self@.take(row + 1);
                assert(shown.drop_last() =~= self@.take(row as int));
                assert(shown.last() == self.lines@[row as int]@);
            }
            row = row + 1;
        }
        assert(self@.take(count as int) =~= self@);
        text
    }
}

} // verus!
