//! The main loop of the firmware.
//!
//! Each pass takes the report and the waiting action off the panel, moves the game on, draws it,
//! and sends the report over the serial port. All of that is work of the game and of the board, so
//! the loop is a machine that says what it wants to be done next, and is told what came of it.

use vstd::prelude::*;

use crate::clock;
use crate::display;
use crate::display::{Column, Drawing, Label};
use crate::game::{Action, Screen};
use crate::handler;
use crate::handler::Pins;
use crate::panel::{Collected, PanelModel};
use crate::rotary;

verus! {

/// What the main loop wants to be done.
#[derive(Clone, Copy, Debug, PartialEq, Eq)]
pub enum Request {
    /// Take the report and the waiting action off the panel.
    Collect,
    /// Tell the game what the player did.
    Act(Action),
    /// Let the game tick.
    Tick,
    /// Read the microsecond counter.
    Counter,
    /// Clear the picture.
    Clear,
    /// Ask the game for its screen.
    Look,
    /// Ask the game for the height of Ferris.
    Height,
    /// Ask the game for the score.
    Score,
    /// Draw something into the picture.
    Draw(Drawing),
    /// Send the picture to the display.
    Flush,
    /// Write the report to the serial port.
    Report([u8; 3]),
    /// Write a newline to the serial port.
    EndLine,
    /// Let the USB device do its work.
    Poll,
    /// Read what came in over the serial port, and drop it.
    Discard,
}

/// What came of a request.
#[derive(Clone, Copy, Debug, PartialEq, Eq)]
pub enum Reply {
    /// What was taken off the panel.
    Collected(Collected),
    /// Where the counter stands.
    Counter(u64),
    /// The screen of the game.
    Look(Screen),
    /// The height of Ferris.
    Height(i32),
    /// The score.
    Score(u32),
    /// Whether the USB device has something to be read.
    Poll(bool),
    /// It has been done.
    Done,
}

/// How far a pass has come.
#[derive(Clone, Copy, Debug, PartialEq, Eq, Structural)]
pub enum Stage {
    Collect,
    Act(Action),
    Tick,
    Counter,
    Clear,
    Look,
    StartFerris,
    StartText,
    Height,
    /// Holds the height of Ferris.
    NormalFerris(i32),
    Score,
    /// Holds the score.
    NormalText(u32),
    ReloadText,
    Flush,
    Report,
    EndLine,
    Poll,
    Discard,
}

/// The state of the main loop.
#[derive(Debug)]
pub struct MainLoop {
    stage: Stage,
    events: [u8; 3],
    last_action: Option<Action>,
    last_tick: u64,
    interval: u64,
    start_y: i32,
}

/// What a main loop holds.
pub struct LoopModel {
    pub stage: Stage,
    /// The report that this pass has taken off the panel.
    pub events: [u8; 3],
    /// The last action that the game was told of.
    pub last_action: Option<Action>,
    /// Where the counter stood at the last tick, or at the start.
    pub last_tick: u64,
    /// The interval of the game's ticks in microseconds.
    pub interval: u64,
    /// The height of Ferris before the game.
    pub start_y: i32,
}

impl Request {
    /// A reply says what the request asked for.
    pub open spec fn is_answered_by(self, reply: Reply) -> bool {
        match self {
            Request::Collect => reply is Collected,
            Request::Counter => reply is Counter,
            Request::Look => reply is Look,
            Request::Height => reply is Height,
            Request::Score => reply is Score,
            Request::Poll => reply is Poll,
            _ => reply is Done,
        }
    }
}

impl LoopModel {
    /// A tick of the game is due.
    pub open spec fn due(self) -> bool {
        clock::due(self.last_tick, self.interval)
    }

    /// What follows once the game knows what the player did.
    pub open spec fn after_action(self) -> Stage {
        if self.due() {
            Stage::Tick
        } else {
            Stage::Clear
        }
    }

    /// The stage at which the drawing of a screen begins.
    pub open spec fn after_look(screen: Screen) -> Stage {
        match screen {
            Screen::Start => Stage::StartFerris,
            Screen::Normal => Stage::Height,
            Screen::Reload => Stage::ReloadText,
        }
    }

    /// What is wanted now.
    pub open spec fn request(self) -> Request {
        match self.stage {
            Stage::Collect => Request::Collect,
            Stage::Act(action) => Request::Act(action),
            Stage::Tick => Request::Tick,
            Stage::Counter => Request::Counter,
            Stage::Clear => Request::Clear,
            Stage::Look => Request::Look,
            Stage::StartFerris => Request::Draw(Drawing::Ferris { x: 0, y: self.start_y }),
            Stage::StartText => Request::Draw(
                Drawing::Text { label: Label::PressShoot, column: Column::At(25), y: 55 },
            ),
            Stage::Height => Request::Height,
            Stage::NormalFerris(y) => Request::Draw(Drawing::Ferris { x: 0, y }),
            Stage::Score => Request::Score,
            Stage::NormalText(score) => Request::Draw(
                Drawing::Text { label: Label::Score(score), column: Column::RightAligned, y: 0 },
            ),
            Stage::ReloadText => Request::Draw(
                Drawing::Text { label: Label::Reload, column: Column::At(5), y: 5 },
            ),
            Stage::Flush => Request::Flush,
            Stage::Report => Request::Report(self.events),
            Stage::EndLine => Request::EndLine,
            Stage::Poll => Request::Poll,
            Stage::Discard => Request::Discard,
        }
    }

    /// The state to which a reply leads.
    pub open spec fn next(self, reply: Reply) -> LoopModel {
        match self.stage {
            Stage::Collect => LoopModel {
                stage: match reply->Collected_0.action {
                    Some(action) => Stage::Act(action),
                    None => self.after_action(),
                },
                events: reply->Collected_0.events,
                ..self
            },
            Stage::Act(action) => LoopModel {
                stage: self.after_action(),
                last_action: Some(action),
                ..self
            },
            Stage::Tick => LoopModel { stage: Stage::Counter, ..self },
            Stage::Counter => LoopModel {
                stage: Stage::Clear,
                last_tick: reply->Counter_0,
                ..self
            },
            Stage::Clear => LoopModel { stage: Stage::Look, ..self },
            Stage::Look => LoopModel { stage: Self::after_look(reply->Look_0), ..self },
            Stage::StartFerris => LoopModel { stage: Stage::StartText, ..self },
            Stage::StartText => LoopModel { stage: Stage::Flush, ..self },
            Stage::Height => LoopModel { stage: Stage::NormalFerris(reply->Height_0), ..self },
            Stage::NormalFerris(_) => LoopModel { stage: Stage::Score, ..self },
            Stage::Score => LoopModel { stage: Stage::NormalText(reply->Score_0), ..self },
            Stage::NormalText(_) => LoopModel { stage: Stage::Flush, ..self },
            Stage::ReloadText => LoopModel { stage: Stage::Flush, ..self },
            Stage::Flush => LoopModel { stage: Stage::Report, ..self },
            Stage::Report => LoopModel { stage: Stage::EndLine, ..self },
            Stage::EndLine => LoopModel { stage: Stage::Poll, ..self },
            Stage::Poll => LoopModel {
                stage: if reply->Poll_0 {
                    Stage::Discard
                } else {
                    Stage::Collect
                },
                ..self
            },
            Stage::Discard => LoopModel { stage: Stage::Collect, ..self },
        }
    }

    /// How many requests this pass can still make, after the one that is wanted now.
    pub open spec fn requests_left(self) -> nat {
        match self.stage {
            Stage::Collect => 14,
            Stage::Act(_) => 13,
            Stage::Tick => 12,
            Stage::Counter => 11,
            Stage::Clear => 10,
            Stage::Look => 9,
            Stage::Height => 8,
            Stage::NormalFerris(_) => 7,
            Stage::Score => 6,
            Stage::StartFerris => 6,
            Stage::NormalText(_) => 5,
            Stage::StartText => 5,
            Stage::ReloadText => 5,
            Stage::Flush => 4,
            Stage::Report => 3,
            Stage::EndLine => 2,
            Stage::Poll => 1,
            Stage::Discard => 0,
        }
    }
}

impl View for MainLoop {
    type V = LoopModel;

    closed spec fn view(&self) -> LoopModel {
        LoopModel {
            stage: self.stage,
            events: self.events,
            last_action: self.last_action,
            last_tick: self.last_tick,
            interval: self.interval,
            start_y: self.start_y,
        }
    }
}

impl MainLoop {
    /// A loop at the beginning of its first pass. `now` is where the counter stands, `interval`
    /// the interval of the game's ticks in microseconds, and `start_y` the height of Ferris before
    /// the game.
    pub fn new(now: u64, interval: u64, start_y: i32) -> (main_loop: MainLoop)
        ensures
            main_loop@ == (LoopModel {
                stage: Stage::Collect,
                events: [0, 0, 0],
                last_action: None,
                last_tick: now,
                interval,
                start_y,
            }),
    {
        MainLoop {
            stage: Stage::Collect,
            events: [0, 0, 0],
            last_action: None,
            last_tick: now,
            interval,
            start_y,
        }
    }

    /// What is to be done next. The loop never ends.
    pub fn request(&self) -> (request: Request)
        ensures
            request == self@.request(),
    {
        match self.stage {
            Stage::Collect => Request::Collect,
            Stage::Act(action) => Request::Act(action),
            Stage::Tick => Request::Tick,
            Stage::Counter => Request::Counter,
            Stage::Clear => Request::Clear,
            Stage::Look => Request::Look,
            Stage::StartFerris => Request::Draw(Drawing::Ferris { x: 0, y: self.start_y }),
            Stage::StartText => Request::Draw(
                Drawing::Text { label: Label::PressShoot, column: Column::At(25), y: 55 },
            ),
            Stage::Height => Request::Height,
            Stage::NormalFerris(y) => Request::Draw(Drawing::Ferris { x: 0, y }),
            Stage::Score => Request::Score,
            Stage::NormalText(score) => Request::Draw(
                Drawing::Text { label: Label::Score(score), column: Column::RightAligned, y: 0 },
            ),
            Stage::ReloadText => Request::Draw(
                Drawing::Text { label: Label::Reload, column: Column::At(5), y: 5 },
            ),
            Stage::Flush => Request::Flush,
            Stage::Report => Request::Report(self.events),
            Stage::EndLine => Request::EndLine,
            Stage::Poll => Request::Poll,
            Stage::Discard => Request::Discard,
        }
    }

    /// Takes in what came of the request.
    pub fn reply(&mut self, reply: Reply)
        requires
            old(self)@.request().is_answered_by(reply),
        ensures
            final(self)@ == old(self)@.next(reply),
            reply matches Reply::Collected(collected) ==> final(self)@.events == collected.events,
            reply !is Collected ==> final(self)@.events == old(self)@.events,
            reply matches Reply::Counter(now) ==> final(self)@.last_tick == now,
            reply !is Counter ==> final(self)@.last_tick == old(self)@.last_tick,
            old(self)@.request() matches Request::Act(action) ==> final(self)@.last_action == Some(
                action,
            ),
            old(self)@.request() !is Act ==> final(self)@.last_action == old(self)@.last_action,
            final(self)@.interval == old(self)@.interval,
            final(self)@.start_y == old(self)@.start_y,
            reply matches Reply::Height(y) ==> final(self)@.request() == Request::Draw(
                Drawing::Ferris { x: 0, y },
            ),
            reply matches Reply::Score(score) ==> final(self)@.request() == Request::Draw(
                Drawing::Text { label: Label::Score(score), column: Column::RightAligned, y: 0 },
            ),
    {
        self.stage = match (self.stage, reply) {
            (Stage::Collect, Reply::Collected(collected)) => {
                self.events = collected.events;
                match collected.action {
                    Some(action) => Stage::Act(action),
                    None => self.after_action(),
                }
            },
            (Stage::Act(action), _) => {
                self.last_action = Some(action);
                self.after_action()
            },
            (Stage::Tick, _) => Stage::Counter,
            (Stage::Counter, Reply::Counter(now)) => {
                self.last_tick = now;
                Stage::Clear
            },
            (Stage::Clear, _) => Stage::Look,
            (Stage::Look, Reply::Look(Screen::Start)) => Stage::StartFerris,
            (Stage::Look, Reply::Look(Screen::Normal)) => Stage::Height,
            (Stage::Look, Reply::Look(Screen::Reload)) => Stage::ReloadText,
            (Stage::StartFerris, _) => Stage::StartText,
            (Stage::StartText, _) => Stage::Flush,
            (Stage::Height, Reply::Height(y)) => Stage::NormalFerris(y),
            (Stage::NormalFerris(_), _) => Stage::Score,
            (Stage::Score, Reply::Score(score)) => Stage::NormalText(score),
            (Stage::NormalText(_), _) => Stage::Flush,
            (Stage::ReloadText, _) => Stage::Flush,
            (Stage::Flush, _) => Stage::Report,
            (Stage::Report, _) => Stage::EndLine,
            (Stage::EndLine, _) => Stage::Poll,
            (Stage::Poll, Reply::Poll(true)) => Stage::Discard,
            (Stage::Poll, _) => Stage::Collect,
            (Stage::Discard, _) => Stage::Collect,
            (stage, _) => stage,
        };
    }

    /// The last action that the game was told of.
    pub fn last_action(&self) -> (action: Option<Action>)
        ensures
            action == self@.last_action,
    {
        self.last_action
    }

    fn after_action(&self) -> (stage: Stage)
        ensures
            stage == self@.after_action(),
    {
        if clock::tick_due(self.last_tick, self.interval) {
            Stage::Tick
        } else {
            Stage::Clear
        }
    }
}

/// What the panel, the game and the board answer during one pass.
pub struct Pass {
    pub collected: Collected,
    pub counter: u64,
    pub screen: Screen,
    pub y: i32,
    pub score: u32,
    pub polled: bool,
}

impl Pass {
    /// What is answered at a stage.
    pub open spec fn answer(self, stage: Stage) -> Reply {
        match stage {
            Stage::Collect => Reply::Collected(self.collected),
            Stage::Counter => Reply::Counter(self.counter),
            Stage::Look => Reply::Look(self.screen),
            Stage::Height => Reply::Height(self.y),
            Stage::Score => Reply::Score(self.score),
            Stage::Poll => Reply::Poll(self.polled),
            _ => Reply::Done,
        }
    }
}

/// The state of the loop at the end of a pass.
pub open spec fn after_pass(state: LoopModel, pass: Pass) -> LoopModel
    decreases state.requests_left(),
{
    let next = state.next(pass.answer(state.stage));
    if next.stage == Stage::Collect {
        next
    } else {
        after_pass(next, pass)
    }
}

/// The requests that a pass still makes, in order.
pub open spec fn requests_of_pass(state: LoopModel, pass: Pass) -> Seq<Request>
    decreases state.requests_left(),
{
    let next = state.next(pass.answer(state.stage));
    if next.stage == Stage::Collect {
        seq![state.request()]
    } else {
        seq![state.request()] + requests_of_pass(next, pass)
    }
}

/// What is done with an action that was taken off the panel.
pub open spec fn action_requests(action: Option<Action>) -> Seq<Request> {
    match action {
        Some(action) => seq![Request::Act(action)],
        None => seq![],
    }
}

/// What is done for a tick.
pub open spec fn tick_requests(due: bool) -> Seq<Request> {
    if due {
        seq![Request::Tick, Request::Counter]
    } else {
        seq![]
    }
}

/// What is done for the display, when Ferris stands at `start_y` before the game.
pub open spec fn display_requests(pass: Pass, start_y: i32) -> Seq<Request> {
    let shown = display::drawings(pass.screen, start_y, pass.y, pass.score);
    seq![Request::Clear, Request::Look] + match pass.screen {
        Screen::Start => seq![Request::Draw(shown[0]), Request::Draw(shown[1])],
        Screen::Normal => seq![
            Request::Height,
            Request::Draw(shown[0]),
            Request::Score,
            Request::Draw(shown[1]),
        ],
        Screen::Reload => seq![Request::Draw(shown[0])],
    } + seq![Request::Flush]
}

/// What is done over USB.
pub open spec fn usb_requests(events: [u8; 3], polled: bool) -> Seq<Request> {
    let report = seq![Request::Report(events), Request::EndLine, Request::Poll];
    if polled {
        report.push(Request::Discard)
    } else {
        report
    }
}

proof fn lemma_usb(state: LoopModel, pass: Pass)
    requires
        state.stage == Stage::Report,
    ensures
        requests_of_pass(state, pass) == usb_requests(state.events, pass.polled),
{
    reveal_with_fuel(requests_of_pass, 4);
}

proof fn lemma_flush(state: LoopModel, pass: Pass)
    requires
        state.stage == Stage::Flush,
    ensures
        requests_of_pass(state, pass) == seq![Request::Flush] + usb_requests(
            state.events,
            pass.polled,
        ),
{
    lemma_usb(state.next(Reply::Done), pass);
}

proof fn lemma_display(state: LoopModel, pass: Pass)
    requires
        state.stage == Stage::Clear,
    ensures
        requests_of_pass(state, pass) == display_requests(pass, state.start_y) + usb_requests(
            state.events,
            pass.polled,
        ),
{
    let look = state.next(Reply::Done);
    let s1 = look.next(pass.answer(look.stage));
    let s2 = s1.next(pass.answer(s1.stage));
    let s3 = s2.next(pass.answer(s2.stage));
    let s4 = s3.next(pass.answer(s3.stage));
    let flush = LoopModel { stage: Stage::Flush, ..state };
    let rest = requests_of_pass(flush, pass);
    lemma_flush(flush, pass);
    match pass.screen {
        Screen::Start => {
            assert(requests_of_pass(s2, pass) == seq![s2.request()] + rest);
            assert(requests_of_pass(s1, pass) == seq![s1.request(), s2.request()] + rest);
        },
        Screen::Normal => {
            assert(requests_of_pass(s4, pass) == seq![s4.request()] + rest);
            assert(requests_of_pass(s3, pass) == seq![s3.request(), s4.request()] + rest);
            assert(requests_of_pass(s2, pass) == seq![
                s2.request(),
                s3.request(),
                s4.request(),
            ] + rest);
            assert(requests_of_pass(s1, pass) == seq![
                s1.request(),
                s2.request(),
                s3.request(),
                s4.request(),
            ] + rest);
        },
        Screen::Reload => {
            assert(requests_of_pass(s1, pass) == seq![s1.request()] + rest);
        },
    }
    assert(requests_of_pass(look, pass) == seq![Request::Look] + requests_of_pass(s1, pass));
}

proof fn lemma_tick(state: LoopModel, pass: Pass)
    requires
        state.stage == state.after_action(),
    ensures
        requests_of_pass(state, pass) == tick_requests(state.due()) + display_requests(
            pass,
            state.start_y,
        ) + usb_requests(state.events, pass.polled),
{
    if state.due() {
        let counter = state.next(Reply::Done);
        let clear = counter.next(pass.answer(counter.stage));
        lemma_display(clear, pass);
        assert(requests_of_pass(counter, pass) == seq![Request::Counter] + requests_of_pass(
            clear,
            pass,
        ));
    } else {
        lemma_display(state, pass);
    }
}

/// The requests of one pass. The game is told of an action if and only if one was waiting, and
/// ticks if and only if a tick is due. It is asked for height and score on its normal screen only,
/// for each right before it is drawn. The picture is cleared before it is drawn and sent after it.
/// The report that was taken off the panel goes out as one line. What came in is read if and only
/// if there is something to be read.
pub proof fn requests_of_a_pass(state: LoopModel, pass: Pass)
    requires
        state.stage == Stage::Collect,
    ensures
        requests_of_pass(state, pass) == seq![Request::Collect] + action_requests(
            pass.collected.action,
        ) + tick_requests(state.due()) + display_requests(
            pass,
            state.start_y,
        ) + usb_requests(pass.collected.events, pass.polled),
{
    let next = state.next(pass.answer(state.stage));
    if pass.collected.action is Some {
        let then = next.next(Reply::Done);
        lemma_tick(then, pass);
        assert(requests_of_pass(next, pass) == seq![next.request()] + requests_of_pass(then, pass));
    } else {
        lemma_tick(next, pass);
    }
}

proof fn lemma_rest_of_pass(state: LoopModel, pass: Pass)
    requires
        state.requests_left() <= (LoopModel { stage: Stage::Clear, ..state }).requests_left(),
    ensures
        after_pass(state, pass) == (LoopModel { stage: Stage::Collect, ..state }),
    decreases state.requests_left(),
{
    let next = state.next(pass.answer(state.stage));
    if next.stage != Stage::Collect {
        lemma_rest_of_pass(next, pass);
    }
}

proof fn lemma_tick_outcome(state: LoopModel, pass: Pass)
    requires
        state.stage == state.after_action(),
    ensures
        after_pass(state, pass) == (LoopModel {
            stage: Stage::Collect,
            last_tick: if state.due() {
                pass.counter
            } else {
                state.last_tick
            },
            ..state
        }),
{
    if state.due() {
        let counter = state.next(Reply::Done);
        let clear = counter.next(pass.answer(counter.stage));
        lemma_rest_of_pass(clear, pass);
        assert(after_pass(counter, pass) == after_pass(clear, pass));
    } else {
        lemma_rest_of_pass(state, pass);
    }
}

/// What a pass leaves behind: the last action that the game was told of, and where the counter
/// stood at the last tick.
pub proof fn outcome_of_a_pass(state: LoopModel, pass: Pass)
    requires
        state.stage == Stage::Collect,
    ensures
        after_pass(state, pass) == (LoopModel {
            events: pass.collected.events,
            last_action: if pass.collected.action is Some {
                pass.collected.action
            } else {
                state.last_action
            },
            last_tick: if state.due() {
                pass.counter
            } else {
                state.last_tick
            },
            ..state
        }),
{
    let next = state.next(pass.answer(state.stage));
    if pass.collected.action is Some {
        let then = next.next(Reply::Done);
        lemma_tick_outcome(then, pass);
        assert(after_pass(next, pass) == after_pass(then, pass));
    } else {
        lemma_tick_outcome(next, pass);
    }
}

/// The state of the loop after some passes.
pub open spec fn after_passes(state: LoopModel, passes: Seq<Pass>) -> LoopModel
    decreases passes.len(),
{
    if passes.len() == 0 {
        state
    } else {
        after_pass(after_passes(state, passes.drop_last()), passes.last())
    }
}

/// Unless the counter falls behind where it stood at the start, all passes agree on whether a tick
/// is due: the game ticks in each pass or in none. If it ticks, the last tick is in the last pass.
pub proof fn ticks_in_each_pass_or_in_none(state: LoopModel, passes: Seq<Pass>)
    requires
        state.stage == Stage::Collect,
        forall|i: int| 0 <= i < passes.len() ==> state.last_tick <= #[trigger] passes[i].counter,
    ensures
        after_passes(state, passes).stage == Stage::Collect,
        after_passes(state, passes).interval == state.interval,
        after_passes(state, passes).due() == state.due(),
        after_passes(state, passes).last_tick == if state.due() && passes.len() > 0 {
            passes.last().counter
        } else {
            state.last_tick
        },
    decreases passes.len(),
{
    if passes.len() > 0 {
        let earlier = passes.drop_last();
        assert forall|i: int| 0 <= i < earlier.len() implies state.last_tick
            <= #[trigger] earlier[i].counter by {
            assert(earlier[i] == passes[i]);
        }
        ticks_in_each_pass_or_in_none(state, earlier);
        outcome_of_a_pass(after_passes(state, earlier), passes.last());
        assert(state.last_tick <= passes[passes.len() - 1].counter);
    }
}

/// The game is not told of any action.
pub open spec fn tells_nothing(requests: Seq<Request>) -> bool {
    forall|i: int| 0 <= i < requests.len() ==> !(#[trigger] requests[i] is Act)
}

proof fn lemma_told_at_most_once(state: LoopModel, pass: Pass)
    requires
        state.stage == Stage::Collect,
    ensures
        requests_of_pass(state, pass).len() > 1,
        forall|i: int|
            0 <= i < requests_of_pass(state, pass).len() && (
            #[trigger] requests_of_pass(state, pass)[i]) is Act ==> i == 1
                && pass.collected.action is Some,
        pass.collected.action matches Some(action) ==> requests_of_pass(state, pass)[1]
            == Request::Act(action),
{
    requests_of_a_pass(state, pass);
    let rest = tick_requests(state.due()) + display_requests(pass, state.start_y)
        + usb_requests(pass.collected.events, pass.polled);
    assert(tells_nothing(tick_requests(state.due())));
    assert(tells_nothing(display_requests(pass, state.start_y)));
    assert(tells_nothing(usb_requests(pass.collected.events, pass.polled)));
    assert(tells_nothing(rest));
    assert(requests_of_pass(state, pass) =~= seq![Request::Collect] + action_requests(
        pass.collected.action,
    ) + rest);
}

/// The game is told of a waiting action once in the pass that takes it off the panel, right after
/// that, and not again in the next one, if until then the encoder completes no turn and no button
/// is touched.
pub proof fn action_is_told_once(
    panel: PanelModel,
    state: LoopModel,
    first: Pass,
    runs: Seq<Pins>,
    second: Pass,
)
    requires
        panel.wf(),
        state.stage == Stage::Collect,
        first.collected.action == panel.action,
        handler::untouched_buttons(runs),
        rotary::turns(panel.decoder, handler::readings(runs)).len() == 0,
        second.collected.action == handler::panel_after_runs(panel.taken(), runs).action,
    ensures
        panel.action matches Some(action) ==> requests_of_pass(state, first)[1] == Request::Act(
            action,
        ),
        forall|i: int|
            0 <= i < requests_of_pass(state, first).len() && i != 1 ==> !(
            #[trigger] requests_of_pass(state, first)[i] is Act),
        tells_nothing(requests_of_pass(after_pass(state, first), second)),
{
    lemma_told_at_most_once(state, first);
    outcome_of_a_pass(state, first);
    handler::runs_follow_the_encoder(panel.taken(), runs);
    lemma_told_at_most_once(after_pass(state, first), second);
}

/// The first part of a pass, reply by reply. What was taken off the panel is kept: the report for
/// later, and an action until the game has been told of it, at once and exactly as it was. Then the
/// game ticks if and only if the last tick lies past the interval, and the counter is read for the
/// next time right after that.
pub proof fn replies_before_the_picture(state: LoopModel, collected: Collected, now: u64)
    requires
        state.stage == Stage::Collect,
    ensures
        ({
            let taken = state.next(Reply::Collected(collected));
            let told = if collected.action is Some { taken.next(Reply::Done) } else { taken };
            let ticked = told.next(Reply::Done);
            let ready = if state.last_tick > state.interval {
                ticked.next(Reply::Counter(now))
            } else {
                told
            };
            &&& state.request() == Request::Collect
            &&& collected.action matches Some(action) ==> taken.request() == Request::Act(action)
            &&& collected.action is None ==> taken.request() !is Act
            &&& taken.last_action == state.last_action
            &&& told.last_action == if collected.action is Some {
                collected.action
            } else {
                state.last_action
            }
            &&& state.last_tick > state.interval ==> told.request() == Request::Tick
                && ticked.request() == Request::Counter
            &&& ready.request() == Request::Clear
            &&& ready == LoopModel {
                stage: Stage::Clear,
                events: collected.events,
                last_action: told.last_action,
                last_tick: if state.last_tick > state.interval { now } else { state.last_tick },
                interval: state.interval,
                start_y: state.start_y,
            }
        }),
{
}

/// The second part of a pass, reply by reply: the picture. Before the game it is Ferris at the
/// height given at the start and an invitation. During the game it is Ferris at the very height
/// that the game has just named, and then the very score that it has just named. While the
/// revolver is loaded it is a word. All of it is drawn into a cleared picture, and then sent.
pub proof fn replies_about_the_picture(state: LoopModel, y: i32, score: u32)
    requires
        state.stage == Stage::Clear,
    ensures
        ({
            let look = state.next(Reply::Done);
            let sent = LoopModel { stage: Stage::Flush, ..state };
            let ferris = look.next(Reply::Look(Screen::Start));
            let invitation = ferris.next(Reply::Done);
            &&& state.request() == Request::Clear
            &&& look.request() == Request::Look
            &&& ferris.request() == Request::Draw(Drawing::Ferris { x: 0, y: state.start_y })
            &&& invitation.request() == Request::Draw(
                Drawing::Text { label: Label::PressShoot, column: Column::At(25), y: 55 },
            )
            &&& invitation.next(Reply::Done) == sent
            &&& sent.request() == Request::Flush
        }),
        ({
            let look = state.next(Reply::Done);
            let sent = LoopModel { stage: Stage::Flush, ..state };
            let height = look.next(Reply::Look(Screen::Normal));
            let ferris = height.next(Reply::Height(y));
            let points = ferris.next(Reply::Done);
            let text = points.next(Reply::Score(score));
            &&& height.request() == Request::Height
            &&& ferris.request() == Request::Draw(Drawing::Ferris { x: 0, y })
            &&& points.request() == Request::Score
            &&& text.request() == Request::Draw(
                Drawing::Text { label: Label::Score(score), column: Column::RightAligned, y: 0 },
            )
            &&& text.next(Reply::Done) == sent
        }),
        ({
            let look = state.next(Reply::Done);
            let sent = LoopModel { stage: Stage::Flush, ..state };
            let word = look.next(Reply::Look(Screen::Reload));
            &&& word.request() == Request::Draw(
                Drawing::Text { label: Label::Reload, column: Column::At(5), y: 5 },
            )
            &&& word.next(Reply::Done) == sent
        }),
{
}

/// The last part of a pass, reply by reply: the picture is sent, the report goes out as it was
/// taken off the panel, with a newline behind it, and what came in is read if there is something.
/// Then the next pass begins, and all that was kept is still there.
pub proof fn replies_about_the_report(state: LoopModel)
    requires
        state.stage == Stage::Flush,
    ensures
        ({
            let report = state.next(Reply::Done);
            let newline = report.next(Reply::Done);
            let poll = newline.next(Reply::Done);
            let discard = poll.next(Reply::Poll(true));
            let next_pass = LoopModel { stage: Stage::Collect, ..state };
            &&& state.request() == Request::Flush
            &&& report.request() == Request::Report(state.events)
            &&& newline.request() == Request::EndLine
            &&& poll.request() == Request::Poll
            &&& discard.request() == Request::Discard
            &&& discard.next(Reply::Done) == next_pass
            &&& poll.next(Reply::Poll(false)) == next_pass
        }),
{
}

/// Each question takes every answer of its kind and no other, and each order the word that it has
/// been carried out.
pub proof fn replies_fit_requests(
    collected: Collected,
    now: u64,
    screen: Screen,
    y: i32,
    score: u32,
    polled: bool,
    order: Request,
    reply: Reply,
)
    ensures
        Request::Collect.is_answered_by(Reply::Collected(collected)),
        Request::Counter.is_answered_by(Reply::Counter(now)),
        Request::Look.is_answered_by(Reply::Look(screen)),
        Request::Height.is_answered_by(Reply::Height(y)),
        Request::Score.is_answered_by(Reply::Score(score)),
        Request::Poll.is_answered_by(Reply::Poll(polled)),
        order !is Collect && order !is Counter && order !is Look && order !is Height
            && order !is Score && order !is Poll ==> (order.is_answered_by(reply) <==> reply
            == Reply::Done),
        Request::Collect.is_answered_by(reply) ==> reply is Collected,
        Request::Counter.is_answered_by(reply) ==> reply is Counter,
        Request::Look.is_answered_by(reply) ==> reply is Look,
        Request::Height.is_answered_by(reply) ==> reply is Height,
        Request::Score.is_answered_by(reply) ==> reply is Score,
        Request::Poll.is_answered_by(reply) ==> reply is Poll,
{
}

/// What is answered in a pass is what is asked for, and the pass goes on from each answer to the
/// next.
pub proof fn answers_of_a_pass(state: LoopModel, pass: Pass)
    ensures
        state.due() <==> state.last_tick > state.interval,
        pass.answer(Stage::Collect) == Reply::Collected(pass.collected),
        pass.answer(Stage::Counter) == Reply::Counter(pass.counter),
        pass.answer(Stage::Look) == Reply::Look(pass.screen),
        pass.answer(Stage::Height) == Reply::Height(pass.y),
        pass.answer(Stage::Score) == Reply::Score(pass.score),
        pass.answer(Stage::Poll) == Reply::Poll(pass.polled),
        ({
            let next = state.next(pass.answer(state.stage));
            if next.stage == Stage::Collect {
                &&& after_pass(state, pass) == next
                &&& requests_of_pass(state, pass) == seq![state.request()]
            } else {
                &&& after_pass(state, pass) == after_pass(next, pass)
                &&& requests_of_pass(state, pass) == seq![state.request()] + requests_of_pass(
                    next,
                    pass,
                )
            }
        }),
{
}

/// The requests of one pass on the normal screen, written out: for every height and every score
/// that the game names, exactly these are drawn.
pub proof fn pass_on_the_normal_screen(state: LoopModel, pass: Pass)
    requires
        state.stage == Stage::Collect,
        pass.screen == Screen::Normal,
    ensures
        ({
            let told = match pass.collected.action {
                Some(action) => seq![Request::Act(action)],
                None => Seq::<Request>::empty(),
            };
            let ticked = if state.last_tick > state.interval {
                seq![Request::Tick, Request::Counter]
            } else {
                Seq::<Request>::empty()
            };
            let read = if pass.polled {
                seq![Request::Discard]
            } else {
                Seq::<Request>::empty()
            };
            requests_of_pass(state, pass) == seq![Request::Collect] + told + ticked + seq![
                Request::Clear,
                Request::Look,
                Request::Height,
                Request::Draw(Drawing::Ferris { x: 0, y: pass.y }),
                Request::Score,
                Request::Draw(
                    Drawing::Text {
                        label: Label::Score(pass.score),
                        column: Column::RightAligned,
                        y: 0,
                    },
                ),
                Request::Flush,
                Request::Report(pass.collected.events),
                Request::EndLine,
                Request::Poll,
            ] + read
        }),
{
    requests_of_a_pass(state, pass);
    let shown = display_requests(pass, state.start_y);
    let usb = usb_requests(pass.collected.events, pass.polled);
    let read = if pass.polled {
        seq![Request::Discard]
    } else {
        Seq::<Request>::empty()
    };
    assert(shown + usb =~= seq![
        Request::Clear,
        Request::Look,
        Request::Height,
        Request::Draw(Drawing::Ferris { x: 0, y: pass.y }),
        Request::Score,
        Request::Draw(
            Drawing::Text {
                label: Label::Score(pass.score),
                column: Column::RightAligned,
                y: 0,
            },
        ),
        Request::Flush,
        Request::Report(pass.collected.events),
        Request::EndLine,
        Request::Poll,
    ] + read);
    let before = seq![Request::Collect] + action_requests(pass.collected.action) + tick_requests(
        state.due(),
    );
    assert(before + shown + usb =~= before + (shown + usb));
}

} // verus!
