use vstd::prelude::*;
use crate::error::ClockError;
use crate::glyphs::FONT_COUNT;
use crate::layout::RenderedFrame;
use crate::layout::Terminal;
use crate::render::render_with_terminal;
use crate::render::rendered;
use crate::render::terminal_size;
use crate::time::get_current_time;
use crate::time::wall_clock;
use crate::time::Time;
use crate::time::WallClock;

verus! {

/// The refresh loop between two ticks: idle, remembering the second that
/// the frame on screen shows.
#[derive(Clone, Copy, Debug, PartialEq, Eq, Structural)]
pub struct RefreshState {
    pub last_displayed_second: i8,
}

/// What one tick meets: the second it sampled, and whether a frame can be
/// rendered for it.
pub struct TickInput {
    pub second: int,
    pub paintable: bool,
}

/// What a run of ticks leaves behind.
pub struct Run {
    /// The second remembered as displayed.
    pub last: int,
    /// How many ticks repainted.
    pub repaints: nat,
    /// The second of the latest frame painted during the run, if any was.
    pub painted: Option<int>,
}

/// A tick repaints when its second differs from the one displayed and the
/// frame for it can be rendered.
pub open spec fn repaints_at(last: int, tick: TickInput) -> bool {
    tick.second != last && tick.paintable
}

/// The second displayed after a tick: the sampled one where the tick
/// repainted, the old one where it did not.
pub open spec fn displayed_after(last: int, tick: TickInput) -> int {
    if repaints_at(last, tick) {
        tick.second
    } else {
        last
    }
}

/// The refresh loop run over `ticks`, starting with `last` displayed.
pub open spec fn run(last: int, ticks: Seq<TickInput>) -> Run
    decreases ticks.len(),
{
    if ticks.len() == 0 {
        Run { last, repaints: 0, painted: None }
    } else {
        let before = run(last, ticks.drop_last());
        let tick = ticks.last();
        Run {
            last: displayed_after(before.last, tick),
            repaints: if repaints_at(before.last, tick) {
                before.repaints + 1
            } else {
                before.repaints
            },
            painted: if repaints_at(before.last, tick) {
                Some(tick.second)
            } else {
                before.painted
            },
        }
    }
}

/// The second sampled just before tick `index`: the one displayed at the
/// start for the first tick.
pub open spec fn previous_second(last: int, ticks: Seq<TickInput>, index: int) -> int {
    if index == 0 {
        last
    } else {
        ticks[index - 1].second
    }
}

/// Number of ticks among the first `upto` whose second differs from the one
/// sampled just before.
pub open spec fn boundaries(last: int, ticks: Seq<TickInput>, upto: int) -> nat
    decreases upto,
{
    if upto <= 0 {
        0
    } else {
        boundaries(last, ticks, upto - 1) + if ticks[upto - 1].second != previous_second(
            last,
            ticks,
            upto - 1,
        ) {
            1nat
        } else {
            0nat
        }
    }
}

/// Ticks that all sample the second already displayed repaint nothing and
/// leave the state as it was.
pub proof fn lemma_no_change_no_repaint(last: int, ticks: Seq<TickInput>)
    requires
        forall|k: int| 0 <= k < ticks.len() ==> (#[trigger] ticks[k]).second == last,
    ensures
        run(last, ticks).repaints == 0,
        run(last, ticks).last == last,
        run(last, ticks).painted is None,
    decreases ticks.len(),
{
    if ticks.len() > 0 {
        lemma_no_change_no_repaint(last, ticks.drop_last());
        assert(ticks.last() == ticks[ticks.len() - 1]);
    }
}

/// The second remembered as displayed is always that of the latest frame
/// painted; before any frame is painted it is the one the run began with.
pub proof fn lemma_displayed_is_last_painted(last: int, ticks: Seq<TickInput>)
    ensures
        match run(last, ticks).painted {
            Some(second) => run(last, ticks).last == second && run(last, ticks).repaints > 0,
            None => run(last, ticks).last == last && run(last, ticks).repaints == 0,
        },
    decreases ticks.len(),
{
    if ticks.len() > 0 {
        lemma_displayed_is_last_painted(last, ticks.drop_last());
    }
}

/// Where every frame can be rendered, the loop repaints exactly once for
/// each change of the sampled second, and displays the second sampled last.
pub proof fn lemma_one_repaint_per_boundary(last: int, ticks: Seq<TickInput>)
    requires
        forall|k: int| 0 <= k < ticks.len() ==> (#[trigger] ticks[k]).paintable,
    ensures
        run(last, ticks).repaints == boundaries(last, ticks, ticks.len() as int),
        run(last, ticks).last == previous_second(last, ticks, ticks.len() as int),
    decreases ticks.len(),
{
    if ticks.len() > 0 {
        let before = ticks.drop_last();
        lemma_one_repaint_per_boundary(last, before);
        lemma_boundaries_of_prefix(last, ticks, before, before.len() as int);
        assert(ticks.last() == ticks[ticks.len() - 1]);
        if before.len() > 0 {
            assert(before[before.len() - 1] == ticks[before.len() - 1]);
        }
    }
}

/// The boundaries among the first ticks of a run depend on those ticks only.
proof fn lemma_boundaries_of_prefix(
    last: int,
    ticks: Seq<TickInput>,
    prefix: Seq<TickInput>,
    upto: int,
)
    requires
        0 <= upto <= prefix.len() <= ticks.len(),
        forall|k: int| 0 <= k < prefix.len() ==> prefix[k] == ticks[k],
    ensures
        boundaries(last, prefix, upto) == boundaries(last, ticks, upto),
    decreases upto,
{
    if upto > 0 {
        lemma_boundaries_of_prefix(last, ticks, prefix, upto - 1);
    }
}

impl RefreshState {
    /// The state before the first tick: second zero counts as displayed.
    pub fn new() -> (state: RefreshState)
        ensures
            state.last_displayed_second == 0,
    {
        RefreshState { last_displayed_second: 0 }
    }

    /// Whether the frame on screen is out of date for `time`.
    pub fn needs_repaint(&self, time: &Time) -> (due: bool)
        ensures
            due == (time@.seconds != self.last_displayed_second),
    {
        time.seconds() != self.last_displayed_second
    }
}

/// What a tick met, as the run of the loop counts it.
pub open spec fn tick_input(
    clock: WallClock,
    center: bool,
    font: int,
    terminal: Option<Terminal>,
) -> TickInput {
    TickInput { second: clock.seconds, paintable: rendered(clock, center, font, terminal) is Ok }
}

/// What one tick of the refresh loop does, given the reading it sampled
/// and what the terminal answered about its size.
///
/// Where the second has not changed there is nothing to paint. Where it
/// has, the frame for the reading is rendered, and only a frame that was
/// rendered moves the displayed second on; an error leaves the state as it
/// was.
pub open spec fn advanced(
    before: RefreshState,
    after: RefreshState,
    r: Result<Option<RenderedFrame>, ClockError>,
    clock: WallClock,
    center: bool,
    font: int,
    terminal: Option<Terminal>,
) -> bool {
    let tick = tick_input(clock, center, font, terminal);
    &&& match r {
        Ok(Some(frame)) => clock.seconds != before.last_displayed_second && rendered(
            clock,
            center,
            font,
            terminal,
        ) == Ok::<Seq<Seq<char>>, ClockError>(frame@),
        Ok(None) => clock.seconds == before.last_displayed_second,
        Err(e) => clock.seconds != before.last_displayed_second && rendered(
            clock,
            center,
            font,
            terminal,
        ) == Err::<Seq<Seq<char>>, ClockError>(e),
    }
    &&& (r matches Ok(Some(_))) == repaints_at(before.last_displayed_second as int, tick)
    &&& after.last_displayed_second == displayed_after(before.last_displayed_second as int, tick)
}

/// One tick of the refresh loop, given the time it sampled and what the
/// terminal answered about its size.
pub fn advance(
    state: &mut RefreshState,
    time: &Time,
    center: bool,
    font: usize,
    terminal: Option<Terminal>,
) -> (r: Result<Option<RenderedFrame>, ClockError>)
    ensures
        advanced(*old(state), *final(state), r, time@, center, font as int, terminal),
{
    if !state.needs_repaint(time) {
        return Ok(None);
    }
    match render_with_terminal(time, center, font, terminal) {
        Ok(frame) => {
            state.last_displayed_second = time.seconds();
            Ok(Some(frame))
        },
        Err(e) => Err(e),
    }
}

/// A tick of the loop extends the run by what it met: the state it leaves
/// is the one the longer run displays, and it is counted as a repaint
/// exactly where it hands out a frame.
pub proof fn lemma_advance_extends_run(
    last: int,
    ticks: Seq<TickInput>,
    before: RefreshState,
    after: RefreshState,
    r: Result<Option<RenderedFrame>, ClockError>,
    clock: WallClock,
    center: bool,
    font: int,
    terminal: Option<Terminal>,
)
    requires
        run(last, ticks).last == before.last_displayed_second,
        advanced(before, after, r, clock, center, font, terminal),
    ensures
        ({
            let longer = run(last, ticks.push(tick_input(clock, center, font, terminal)));
            &&& longer.last == after.last_displayed_second
            &&& longer.repaints == run(last, ticks).repaints + if r matches Ok(Some(_)) {
                1nat
            } else {
                0nat
            }
        }),
{
    let tick = tick_input(clock, center, font, terminal);
    assert(ticks.push(tick).drop_last() =~= ticks);
}

/// One tick of the refresh loop: samples the clock `timezone` hours away
/// from UTC and repaints if the second has changed.
///
/// The terminal is asked for its size only for a centered repaint in a known
/// font. Whatever the clock and the terminal answer, the tick is the one
/// that `advanced` describes for some number of elapsed seconds and some
/// answer of the terminal; a clock that cannot answer leaves the state as
/// it was.
pub fn tick(state: &mut RefreshState, timezone: i8, center: bool, font: usize) -> (r: Result<
    Option<RenderedFrame>,
    ClockError,
>)
    ensures
        (r == Err::<Option<RenderedFrame>, ClockError>(ClockError::TimeSourceUnavailable)
            && *final(state) == *old(state)) || exists|elapsed: u64, terminal: Option<Terminal>|
            #[trigger] advanced(
                *old(state),
                *final(state),
                r,
                wall_clock(elapsed as int, timezone as int),
                center,
                font as int,
                terminal,
            ),
{
    let time: Time = match get_current_time(timezone) {
        Ok(time) => time,
        Err(e) => {
            return Err(e);
        },
    };
    let ghost elapsed: u64 = choose|elapsed: u64|
        time@ == #[trigger] wall_clock(elapsed as int, timezone as int);
    let terminal: Option<Terminal> = if center && font < FONT_COUNT && state.needs_repaint(&time) {
        terminal_size()
    } else {
        None
    };
    let r = advance(state, &time, center, font, terminal);
    assert(advanced(
        *old(state),
        *state,
        r,
        wall_clock(elapsed as int, timezone as int),
        center,
        font as int,
        terminal,
    ));
    r
}

} // verus!
