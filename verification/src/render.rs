use vstd::prelude::*;
use crate::compose::art;
use crate::compose::clock_symbols;
use crate::compose::compose;
use crate::compose::ArtBlock;
use crate::error::ClockError;
use crate::glyphs::known_font;
use crate::layout::centered;
use crate::layout::layout;
use crate::layout::RenderedFrame;
use crate::layout::Terminal;
use crate::time::Time;
use crate::time::WallClock;

verus! {

/// What a block becomes on the terminal. Left-aligned, it needs no terminal
/// size; centered, it needs one and fails without.
pub open spec fn placed(block: Seq<Seq<char>>, center: bool, terminal: Option<Terminal>) -> Result<
    Seq<Seq<char>>,
    ClockError,
> {
    if !center {
        Ok(block)
    } else {
        match terminal {
            Some(size) => Ok(centered(block, size)),
            None => Err(ClockError::TerminalUnavailable),
        }
    }
}

/// What a repaint shows for a reading: the lines of its frame, or why there
/// is none. An unknown font is reported before a missing terminal size.
pub open spec fn rendered(
    clock: WallClock,
    center: bool,
    font: int,
    terminal: Option<Terminal>,
) -> Result<Seq<Seq<char>>, ClockError> {
    if !known_font(font) {
        Err(ClockError::UnknownFont)
    } else {
        placed(art(font, clock_symbols(clock)), center, terminal)
    }
}

/// The lines of a frame that was rendered, or the error in its place.
pub open spec fn outcome(r: Result<RenderedFrame, ClockError>) -> Result<
    Seq<Seq<char>>,
    ClockError,
> {
    match r {
        Ok(frame) => Ok(frame@),
        Err(e) => Err(e),
    }
}

/// `termsize::get`: the rows and columns that the terminal on standard
/// output reports, or nothing where standard output is no terminal or does
/// not answer. Nothing is claimed of the numbers.
#[verifier::external_body]
pub(crate) fn terminal_size() -> (r: Option<Terminal>) {
    match termsize::get() {
        Some(size) => Some(Terminal { rows: size.rows, cols: size.cols }),
        None => None,
    }
}

/// Lays a block out, given what the terminal answered about its size.
pub fn place(block: &ArtBlock, center: bool, terminal: Option<Terminal>) -> (r: Result<
    RenderedFrame,
    ClockError,
>)
    ensures
        outcome(r) == placed(block@, center, terminal),
{
    if !center {
        Ok(layout(block, false, Terminal { rows: 0, cols: 0 }))
    } else {
        match terminal {
            Some(size) => Ok(layout(block, true, size)),
            None => Err(ClockError::TerminalUnavailable),
        }
    }
}

/// The frame that shows `time`, given what the terminal answered about its
/// size.
pub fn render_with_terminal(
    time: &Time,
    center: bool,
    font: usize,
    terminal: Option<Terminal>,
) -> (r: Result<RenderedFrame, ClockError>)
    ensures
        outcome(r) == rendered(time@, center, font as int, terminal),
{
    match compose(time, font) {
        Ok(block) => place(&block, center, terminal),
        Err(e) => Err(e),
    }
}

/// The frame that shows `time`, centered in the terminal on standard output
/// if `center` is set.
///
/// The terminal is asked for its size only where the frame is centered and
/// the font is known; the frame is the one rendered for whatever it answered.
pub fn render_time_art(time: &Time, center: bool, font: usize) -> (r: Result<
    RenderedFrame,
    ClockError,
>)
    ensures
        !center ==> outcome(r) == rendered(time@, false, font as int, None),
        center ==> exists|terminal: Option<Terminal>|
            outcome(r) == #[trigger] rendered(time@, true, font as int, terminal),
{
    match compose(time, font) {
        Ok(block) => {
            let terminal: Option<Terminal> = if center {
                terminal_size()
            } else {
                None
            };
            let r = place(&block, center, terminal);
            assert(outcome(r) == rendered(time@, center, font as int, terminal));
            r
        },
        Err(e) => {
            assert(outcome(Err::<RenderedFrame, ClockError>(e)) == rendered(
                time@,
                center,
                font as int,
                None,
            ));
            Err(e)
        },
    }
}

} // verus!
