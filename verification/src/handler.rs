//! The interrupt handler of the panel's pins.
//!
//! The handler has to look at the pins and to act on them in turn. It is a machine that says what
//! it wants to be done with the pins next, and is told what came of it:
//!
//! 1. The latches of both edges of each line of the encoder are cleared.
//! 2. Each line of the encoder is read for the report.
//! 3. Each line of the encoder is read again for the decoder.
//! 4. For each button, the falling edge first, then the rising one: the latch of the edge is read,
//!    and cleared if it was set.

use vstd::prelude::*;

use crate::game::{Action, Button};
use crate::panel;
use crate::panel::{Edge, Line, Panel, PanelModel, HIGH};
use crate::rotary;
use crate::rotary::Levels;

verus! {

/// What remembers that there was an edge on a line. The interrupt is pending while one is set.
#[derive(Clone, Copy, Debug, PartialEq, Eq, Structural)]
pub enum Latch {
    Line(Line, Edge),
    Button(Button, Edge),
}

/// What the handler wants to be done with a pin.
#[derive(Clone, Copy, Debug, PartialEq, Eq, Structural)]
pub enum Request {
    /// Read the level of a line of the encoder.
    Level(Line),
    /// Read whether the latch of an edge of a button's line is set.
    Status(Button, Edge),
    /// Clear a latch.
    Clear(Latch),
}

/// What came of a request.
#[derive(Clone, Copy, Debug, PartialEq, Eq, Structural)]
pub enum Reply {
    /// The level of the line, or `None` if it could not be read.
    Level(Option<bool>),
    /// Whether the latch is set.
    Status(bool),
    /// The latch has been cleared.
    Cleared,
}

/// How far the handler has come.
#[derive(Clone, Copy, Debug, PartialEq, Eq, Structural)]
pub enum Stage {
    ClearLine(Line, Edge),
    ShowA,
    ShowB,
    TurnA,
    /// Holds what was read of line A.
    TurnB(Option<bool>),
    Status(Button, Edge),
    Clear(Button, Edge),
    Done,
}

/// One run of the interrupt handler.
#[derive(Debug)]
pub struct Handler {
    stage: Stage,
}

impl Request {
    /// A reply says what the request asked for.
    pub open spec fn is_answered_by(self, reply: Reply) -> bool {
        match self {
            Request::Level(_) => reply is Level,
            Request::Status(_, _) => reply is Status,
            Request::Clear(_) => reply is Cleared,
        }
    }
}

impl Stage {
    /// The stage at which a run begins.
    pub open spec fn start() -> Stage {
        Stage::ClearLine(Line::A, Edge::Low)
    }

    /// The stage after a latch of the encoder has been cleared.
    pub open spec fn after_line(line: Line, edge: Edge) -> Stage {
        match (line, edge) {
            (Line::A, Edge::Low) => Stage::ClearLine(Line::A, Edge::High),
            (Line::A, Edge::High) => Stage::ClearLine(Line::B, Edge::Low),
            (Line::B, Edge::Low) => Stage::ClearLine(Line::B, Edge::High),
            (Line::B, Edge::High) => Stage::ShowA,
        }
    }

    /// The stage after a latch of a button has been dealt with.
    pub open spec fn after_latch(button: Button, edge: Edge) -> Stage {
        match (button, edge) {
            (Button::ReloadToggle, Edge::Low) => Stage::Status(Button::ReloadToggle, Edge::High),
            (Button::ReloadToggle, Edge::High) => Stage::Status(Button::Shoot, Edge::Low),
            (Button::Shoot, Edge::Low) => Stage::Status(Button::Shoot, Edge::High),
            (Button::Shoot, Edge::High) => Stage::Done,
        }
    }

    /// What is wanted at a stage.
    pub open spec fn request(self) -> Option<Request> {
        match self {
            Stage::ClearLine(line, edge) => Some(Request::Clear(Latch::Line(line, edge))),
            Stage::ShowA => Some(Request::Level(Line::A)),
            Stage::ShowB => Some(Request::Level(Line::B)),
            Stage::TurnA => Some(Request::Level(Line::A)),
            Stage::TurnB(_) => Some(Request::Level(Line::B)),
            Stage::Status(button, edge) => Some(Request::Status(button, edge)),
            Stage::Clear(button, edge) => Some(Request::Clear(Latch::Button(button, edge))),
            Stage::Done => None,
        }
    }

    /// The stage to which a reply leads.
    pub open spec fn next(self, reply: Reply) -> Stage {
        match self {
            Stage::ClearLine(line, edge) => Stage::after_line(line, edge),
            Stage::ShowA => Stage::ShowB,
            Stage::ShowB => Stage::TurnA,
            Stage::TurnA => Stage::TurnB(reply->Level_0),
            Stage::TurnB(_) => Stage::Status(Button::ReloadToggle, Edge::Low),
            Stage::Status(button, edge) => if reply->Status_0 {
                Stage::Clear(button, edge)
            } else {
                Stage::after_latch(button, edge)
            },
            Stage::Clear(button, edge) => Stage::after_latch(button, edge),
            Stage::Done => Stage::Done,
        }
    }

    /// What a reply does to the panel.
    pub open spec fn effect(self, panel: PanelModel, reply: Reply) -> PanelModel {
        match self {
            Stage::ShowA => panel.shown(Line::A, reply->Level_0),
            Stage::ShowB => panel.shown(Line::B, reply->Level_0),
            Stage::TurnB(a) => panel.turned(a, reply->Level_0),
            Stage::Status(button, edge) => if reply->Status_0 {
                panel.edged(button, edge)
            } else {
                panel
            },
            _ => panel,
        }
    }

    /// How many requests there can still be.
    pub open spec fn requests_left(self) -> nat {
        match self {
            Stage::ClearLine(Line::A, Edge::Low) => 16,
            Stage::ClearLine(Line::A, Edge::High) => 15,
            Stage::ClearLine(Line::B, Edge::Low) => 14,
            Stage::ClearLine(Line::B, Edge::High) => 13,
            Stage::ShowA => 12,
            Stage::ShowB => 11,
            Stage::TurnA => 10,
            Stage::TurnB(_) => 9,
            Stage::Status(Button::ReloadToggle, Edge::Low) => 8,
            Stage::Clear(Button::ReloadToggle, Edge::Low) => 7,
            Stage::Status(Button::ReloadToggle, Edge::High) => 6,
            Stage::Clear(Button::ReloadToggle, Edge::High) => 5,
            Stage::Status(Button::Shoot, Edge::Low) => 4,
            Stage::Clear(Button::Shoot, Edge::Low) => 3,
            Stage::Status(Button::Shoot, Edge::High) => 2,
            Stage::Clear(Button::Shoot, Edge::High) => 1,
            Stage::Done => 0,
        }
    }
}

impl View for Handler {
    type V = Stage;

    closed spec fn view(&self) -> Stage {
        self.stage
    }
}

impl Handler {
    /// Starts a run.
    pub fn new() -> (handler: Handler)
        ensures
            handler@ == Stage::start(),
            handler@ == Stage::ClearLine(Line::A, Edge::Low),
    {
        Handler { stage: Stage::ClearLine(Line::A, Edge::Low) }
    }

    /// What is to be done with the pins next; `None` when the run is over.
    pub fn request(&self) -> (request: Option<Request>)
        ensures
            request == self@.request(),
    {
        match self.stage {
            Stage::ClearLine(line, edge) => Some(Request::Clear(Latch::Line(line, edge))),
            Stage::ShowA | Stage::TurnA => Some(Request::Level(Line::A)),
            Stage::ShowB | Stage::TurnB(_) => Some(Request::Level(Line::B)),
            Stage::Status(button, edge) => Some(Request::Status(button, edge)),
            Stage::Clear(button, edge) => Some(Request::Clear(Latch::Button(button, edge))),
            Stage::Done => None,
        }
    }

    /// Takes in what came of the request, and writes what follows from it to the panel.
    pub fn reply(&mut self, panel: &mut Panel, reply: Reply)
        requires
            old(self)@.request() is Some,
            old(self)@.request()->0.is_answered_by(reply),
        ensures
            final(self)@ == old(self)@.next(reply),
            final(panel)@ == old(self)@.effect(old(panel)@, reply),
            final(self)@.requests_left() < old(self)@.requests_left(),
            old(panel)@.wf() ==> final(panel)@.wf(),
    {
        self.stage = match (self.stage, reply) {
            (Stage::ClearLine(line, edge), _) => Self::after_line(line, edge),
            (Stage::ShowA, Reply::Level(level)) => {
                panel.show_level(Line::A, level);
                Stage::ShowB
            },
            (Stage::ShowB, Reply::Level(level)) => {
                panel.show_level(Line::B, level);
                Stage::TurnA
            },
            (Stage::TurnA, Reply::Level(a)) => Stage::TurnB(a),
            (Stage::TurnB(a), Reply::Level(b)) => {
                panel.turn(a, b);
                Stage::Status(Button::ReloadToggle, Edge::Low)
            },
            (Stage::Status(button, edge), Reply::Status(true)) => {
                panel.edge(button, edge);
                Stage::Clear(button, edge)
            },
            (Stage::Status(button, edge), _) => Self::after_latch(button, edge),
            (Stage::Clear(button, edge), _) => Self::after_latch(button, edge),
            (stage, _) => stage,
        };
    }

    fn after_line(line: Line, edge: Edge) -> (stage: Stage)
        ensures
            stage == Stage::after_line(line, edge),
    {
        match (line, edge) {
            (Line::A, Edge::Low) => Stage::ClearLine(Line::A, Edge::High),
            (Line::A, Edge::High) => Stage::ClearLine(Line::B, Edge::Low),
            (Line::B, Edge::Low) => Stage::ClearLine(Line::B, Edge::High),
            (Line::B, Edge::High) => Stage::ShowA,
        }
    }

    fn after_latch(button: Button, edge: Edge) -> (stage: Stage)
        ensures
            stage == Stage::after_latch(button, edge),
    {
        match (button, edge) {
            (Button::ReloadToggle, Edge::Low) => Stage::Status(Button::ReloadToggle, Edge::High),
            (Button::ReloadToggle, Edge::High) => Stage::Status(Button::Shoot, Edge::Low),
            (Button::Shoot, Edge::Low) => Stage::Status(Button::Shoot, Edge::High),
            (Button::Shoot, Edge::High) => Stage::Done,
        }
    }
}

/// What the pins answer during one run of the handler. The two readings of a line need not agree.
pub struct Pins {
    pub shown_a: Option<bool>,
    pub shown_b: Option<bool>,
    pub turn_a: Option<bool>,
    pub turn_b: Option<bool>,
    pub reload_low: bool,
    pub reload_high: bool,
    pub shoot_low: bool,
    pub shoot_high: bool,
}

impl Pins {
    /// Whether the latch of an edge is set.
    pub open spec fn latch(self, button: Button, edge: Edge) -> bool {
        match (button, edge) {
            (Button::ReloadToggle, Edge::Low) => self.reload_low,
            (Button::ReloadToggle, Edge::High) => self.reload_high,
            (Button::Shoot, Edge::Low) => self.shoot_low,
            (Button::Shoot, Edge::High) => self.shoot_high,
        }
    }

    /// What the pins answer at a stage.
    pub open spec fn answer(self, stage: Stage) -> Reply {
        match stage {
            Stage::ShowA => Reply::Level(self.shown_a),
            Stage::ShowB => Reply::Level(self.shown_b),
            Stage::TurnA => Reply::Level(self.turn_a),
            Stage::TurnB(_) => Reply::Level(self.turn_b),
            Stage::Status(button, edge) => Reply::Status(self.latch(button, edge)),
            _ => Reply::Cleared,
        }
    }

    /// The turn that the readings complete, if both lines could be read.
    pub open spec fn completed(self, panel: PanelModel) -> Option<Action> {
        match (self.turn_a, self.turn_b) {
            (Some(a), Some(b)) => match panel.decoder.completed(Levels { a, b }) {
                Some(direction) => Some(Action::Rotate(direction)),
                None => None,
            },
            _ => None,
        }
    }

    /// What is asked about a latch: whether it is set and, if so, to clear it.
    pub open spec fn latch_requests(self, button: Button, edge: Edge) -> Seq<Request> {
        if self.latch(button, edge) {
            seq![Request::Status(button, edge), Request::Clear(Latch::Button(button, edge))]
        } else {
            seq![Request::Status(button, edge)]
        }
    }
}

/// The panel at the end of a run that stands at `stage`.
pub open spec fn panel_after(stage: Stage, panel: PanelModel, pins: Pins) -> PanelModel
    decreases stage.requests_left(),
{
    if stage == Stage::Done {
        panel
    } else {
        let reply = pins.answer(stage);
        panel_after(stage.next(reply), stage.effect(panel, reply), pins)
    }
}

/// The requests that a run that stands at `stage` still makes, in order.
pub open spec fn requests_from(stage: Stage, pins: Pins) -> Seq<Request>
    decreases stage.requests_left(),
{
    match stage.request() {
        None => seq![],
        Some(request) => seq![request] + requests_from(stage.next(pins.answer(stage)), pins),
    }
}

/// What one run does to the panel. The report shows the first readings of the encoder's lines and
/// the last edge of the reload button. The decoder takes the second readings in, unless one of
/// them failed. Of all that happened at once only the last stays for the game: a release before a
/// press, the shoot button before the reload button, a button before a turn.
pub proof fn run_of_the_handler(panel: PanelModel, pins: Pins)
    requires
        panel.wf(),
    ensures
        ({
            let end = panel_after(Stage::start(), panel, pins);
            &&& end.events == seq![
                panel::mark(pins.shown_a == Some(true)),
                panel::mark(pins.shown_b == Some(true)),
                if pins.reload_high || pins.reload_low {
                    panel::mark(pins.reload_high)
                } else {
                    panel.events[2]
                },
            ]
            &&& end.decoder == match (pins.turn_a, pins.turn_b) {
                (Some(a), Some(b)) => panel.decoder.after(Levels { a, b }),
                _ => panel.decoder,
            }
            &&& end.action == if pins.shoot_high {
                Some(Action::Release(Button::Shoot))
            } else if pins.shoot_low {
                Some(Action::Press(Button::Shoot))
            } else if pins.reload_high {
                Some(Action::Release(Button::ReloadToggle))
            } else if pins.reload_low {
                Some(Action::Press(Button::ReloadToggle))
            } else if pins.completed(panel) is Some {
                pins.completed(panel)
            } else {
                panel.action
            }
            &&& end.wf()
        }),
{
    reveal_with_fuel(panel_after, 17);
}

proof fn lemma_latch(pins: Pins, button: Button, edge: Edge)
    ensures
        requests_from(Stage::Status(button, edge), pins) == pins.latch_requests(button, edge)
            + requests_from(Stage::after_latch(button, edge), pins),
{
    let rest = requests_from(Stage::after_latch(button, edge), pins);
    if pins.latch(button, edge) {
        assert(requests_from(Stage::Clear(button, edge), pins) == seq![
            Request::Clear(Latch::Button(button, edge)),
        ] + rest);
    }
}

proof fn lemma_levels(pins: Pins)
    ensures
        requests_from(Stage::ShowA, pins) == seq![
            Request::Level(Line::A),
            Request::Level(Line::B),
            Request::Level(Line::A),
            Request::Level(Line::B),
        ] + requests_from(Stage::Status(Button::ReloadToggle, Edge::Low), pins),
{
    let rest = requests_from(Stage::Status(Button::ReloadToggle, Edge::Low), pins);
    assert(requests_from(Stage::TurnB(pins.turn_a), pins) == seq![Request::Level(Line::B)] + rest);
    assert(requests_from(Stage::TurnA, pins) == seq![
        Request::Level(Line::A),
        Request::Level(Line::B),
    ] + rest);
    assert(requests_from(Stage::ShowB, pins) == seq![
        Request::Level(Line::B),
        Request::Level(Line::A),
        Request::Level(Line::B),
    ] + rest);
}

proof fn lemma_lines(pins: Pins)
    ensures
        requests_from(Stage::start(), pins) == seq![
            Request::Clear(Latch::Line(Line::A, Edge::Low)),
            Request::Clear(Latch::Line(Line::A, Edge::High)),
            Request::Clear(Latch::Line(Line::B, Edge::Low)),
            Request::Clear(Latch::Line(Line::B, Edge::High)),
        ] + requests_from(Stage::ShowA, pins),
{
    let rest = requests_from(Stage::ShowA, pins);
    assert(requests_from(Stage::ClearLine(Line::B, Edge::High), pins) == seq![
        Request::Clear(Latch::Line(Line::B, Edge::High)),
    ] + rest);
    assert(requests_from(Stage::ClearLine(Line::B, Edge::Low), pins) == seq![
        Request::Clear(Latch::Line(Line::B, Edge::Low)),
        Request::Clear(Latch::Line(Line::B, Edge::High)),
    ] + rest);
    assert(requests_from(Stage::ClearLine(Line::A, Edge::High), pins) == seq![
        Request::Clear(Latch::Line(Line::A, Edge::High)),
        Request::Clear(Latch::Line(Line::B, Edge::Low)),
        Request::Clear(Latch::Line(Line::B, Edge::High)),
    ] + rest);
}

/// The requests of one run: the latches of the encoder are cleared, each line is read twice, then
/// comes each latch of the buttons in turn. A latch of a button is cleared if and only if it was
/// found set, right after that.
pub proof fn requests_of_the_handler(pins: Pins)
    ensures
        requests_from(Stage::start(), pins) == seq![
            Request::Clear(Latch::Line(Line::A, Edge::Low)),
            Request::Clear(Latch::Line(Line::A, Edge::High)),
            Request::Clear(Latch::Line(Line::B, Edge::Low)),
            Request::Clear(Latch::Line(Line::B, Edge::High)),
        ] + seq![
            Request::Level(Line::A),
            Request::Level(Line::B),
            Request::Level(Line::A),
            Request::Level(Line::B),
        ] + pins.latch_requests(Button::ReloadToggle, Edge::Low) + pins.latch_requests(
            Button::ReloadToggle,
            Edge::High,
        ) + pins.latch_requests(Button::Shoot, Edge::Low) + pins.latch_requests(
            Button::Shoot,
            Edge::High,
        ),
{
    lemma_lines(pins);
    lemma_levels(pins);
    lemma_latch(pins, Button::ReloadToggle, Edge::Low);
    lemma_latch(pins, Button::ReloadToggle, Edge::High);
    lemma_latch(pins, Button::Shoot, Edge::Low);
    lemma_latch(pins, Button::Shoot, Edge::High);
    assert(requests_from(Stage::Done, pins) == Seq::<Request>::empty());
}

/// The latches that are left set of some that were set, once requests have been carried out. An
/// edge that comes meanwhile is not counted.
pub open spec fn left_set(latches: Set<Latch>, requests: Seq<Request>) -> Set<Latch> {
    latches.filter(|latch: Latch| !requests.contains(Request::Clear(latch)))
}

/// A run leaves a latch set if and only if it belongs to a button and was not found set: such an
/// edge has come too late for this run, and keeps the interrupt pending for the next.
pub proof fn latches_after_a_run(latches: Set<Latch>, pins: Pins, latch: Latch)
    ensures
        left_set(latches, requests_from(Stage::start(), pins)).contains(latch) <==> {
            &&& latches.contains(latch)
            &&& latch matches Latch::Button(button, edge) && !pins.latch(button, edge)
        },
{
    broadcast use vstd::seq_lib::lemma_seq_concat_contains_all_elements;

    requests_of_the_handler(pins);
    let clear = Request::Clear(latch);
    let lines = seq![
        Request::Clear(Latch::Line(Line::A, Edge::Low)),
        Request::Clear(Latch::Line(Line::A, Edge::High)),
        Request::Clear(Latch::Line(Line::B, Edge::Low)),
        Request::Clear(Latch::Line(Line::B, Edge::High)),
    ];
    assert(lines.contains(clear) == (latch is Line)) by {
        assert(lines.contains(lines[0]) && lines.contains(lines[1]));
        assert(lines.contains(lines[2]) && lines.contains(lines[3]));
    }
    assert forall|button: Button, edge: Edge| #[trigger]
        pins.latch_requests(button, edge).contains(clear) == (latch == Latch::Button(button, edge)
            && pins.latch(button, edge)) by {
        let requests = pins.latch_requests(button, edge);
        if pins.latch(button, edge) {
            assert(requests.contains(requests[1]));
        }
    }
}

/// If every latch of a button is found as it stood at the start, a run leaves no latch set: the
/// interrupt is dealt with.
pub proof fn a_run_leaves_no_latch_set(latches: Set<Latch>, pins: Pins)
    requires
        forall|button: Button, edge: Edge|
            pins.latch(button, edge) == latches.contains(Latch::Button(button, edge)),
    ensures
        left_set(latches, requests_from(Stage::start(), pins)) == Set::<Latch>::empty(),
{
    assert forall|latch: Latch| !left_set(
        latches,
        requests_from(Stage::start(), pins),
    ).contains(latch) by {
        latches_after_a_run(latches, pins, latch);
    }
}

/// When both readings of a line agree, the report shows the position that the decoder is in.
pub proof fn report_shows_the_position(panel: PanelModel, pins: Pins, levels: Levels)
    requires
        panel.wf(),
        pins.shown_a == Some(levels.a),
        pins.shown_b == Some(levels.b),
        pins.turn_a == Some(levels.a),
        pins.turn_b == Some(levels.b),
    ensures
        ({
            let end = panel_after(Stage::start(), panel, pins);
            end.decoder.rotary == Levels {
                a: end.events[0] == HIGH,
                b: end.events[1] == HIGH,
            }.position()
        }),
{
    run_of_the_handler(panel, pins);
}

/// The panel after some runs of the handler, one after the other.
pub open spec fn panel_after_runs(panel: PanelModel, runs: Seq<Pins>) -> PanelModel
    decreases runs.len(),
{
    if runs.len() == 0 {
        panel
    } else {
        panel_after(Stage::start(), panel_after_runs(panel, runs.drop_last()), runs.last())
    }
}

/// Every state that runs of the handler can reach from a well-formed one is well formed.
pub proof fn runs_keep_wf(panel: PanelModel, runs: Seq<Pins>)
    requires
        panel.wf(),
    ensures
        panel_after_runs(panel, runs).wf(),
    decreases runs.len(),
{
    if runs.len() > 0 {
        runs_keep_wf(panel, runs.drop_last());
        run_of_the_handler(panel_after_runs(panel, runs.drop_last()), runs.last());
    }
}

/// What the decoder gets to see of some runs: the second readings of the lines, in each run in
/// which both could be read.
pub open spec fn readings(runs: Seq<Pins>) -> Seq<Levels>
    decreases runs.len(),
{
    if runs.len() == 0 {
        seq![]
    } else {
        match (runs.last().turn_a, runs.last().turn_b) {
            (Some(a), Some(b)) => readings(runs.drop_last()).push(Levels { a, b }),
            _ => readings(runs.drop_last()),
        }
    }
}

/// No latch of a button was set during some runs.
pub open spec fn untouched_buttons(runs: Seq<Pins>) -> bool {
    forall|i: int, button: Button, edge: Edge|
        0 <= i < runs.len() ==> !#[trigger] runs[i].latch(button, edge)
}

/// The decoder follows the encoder as the runs of the handler read it. As long as no button is
/// touched, the last turn that the readings complete waits for the game, or what waited before if
/// they complete none.
pub proof fn runs_follow_the_encoder(panel: PanelModel, runs: Seq<Pins>)
    requires
        panel.wf(),
    ensures
        panel_after_runs(panel, runs).decoder == rotary::decoder_after(
            panel.decoder,
            readings(runs),
        ),
        untouched_buttons(runs) ==> {
            let completed = rotary::turns(panel.decoder, readings(runs));
            panel_after_runs(panel, runs).action == if completed.len() > 0 {
                Some(Action::Rotate(completed.last()))
            } else {
                panel.action
            }
        },
    decreases runs.len(),
{
    if runs.len() > 0 {
        let earlier = runs.drop_last();
        let pins = runs.last();
        runs_follow_the_encoder(panel, earlier);
        runs_keep_wf(panel, earlier);
        run_of_the_handler(panel_after_runs(panel, earlier), pins);
        if pins.turn_a is Some && pins.turn_b is Some {
            assert(readings(runs).drop_last() =~= readings(earlier));
        }
        if untouched_buttons(runs) {
            assert forall|i: int, button: Button, edge: Edge| 0 <= i < earlier.len() implies
                !#[trigger] earlier[i].latch(button, edge) by {
                assert(!runs[i].latch(button, edge));
            }
            assert(!pins.latch(Button::ReloadToggle, Edge::Low));
            assert(!pins.latch(Button::ReloadToggle, Edge::High));
            assert(!pins.latch(Button::Shoot, Edge::Low));
            assert(!pins.latch(Button::Shoot, Edge::High));
        }
    }
}

/// The first half of a run, reply by reply. Clearing the latches of the encoder changes nothing on
/// the panel. The first reading of a line becomes its mark in the report, and the second readings
/// go to the decoder as those of line A and of line B.
pub proof fn replies_about_the_encoder(
    panel: PanelModel,
    shown_a: Option<bool>,
    shown_b: Option<bool>,
    turn_a: Option<bool>,
    turn_b: Option<bool>,
)
    requires
        panel.events.len() == 3,
    ensures
        ({
            let start = Stage::ClearLine(Line::A, Edge::Low);
            let c1 = start.next(Reply::Cleared);
            let c2 = c1.next(Reply::Cleared);
            let c3 = c2.next(Reply::Cleared);
            let show_a = c3.next(Reply::Cleared);
            &&& Stage::start() == start
            &&& start.request() == Some(Request::Clear(Latch::Line(Line::A, Edge::Low)))
            &&& c1.request() == Some(Request::Clear(Latch::Line(Line::A, Edge::High)))
            &&& c2.request() == Some(Request::Clear(Latch::Line(Line::B, Edge::Low)))
            &&& c3.request() == Some(Request::Clear(Latch::Line(Line::B, Edge::High)))
            &&& start.effect(panel, Reply::Cleared) == panel
            &&& c1.effect(panel, Reply::Cleared) == panel
            &&& c2.effect(panel, Reply::Cleared) == panel
            &&& c3.effect(panel, Reply::Cleared) == panel
            &&& show_a == Stage::ShowA
        }),
        ({
            let show_b = Stage::ShowA.next(Reply::Level(shown_a));
            let read_a = show_b.next(Reply::Level(shown_b));
            let read_b = read_a.next(Reply::Level(turn_a));
            let p1 = Stage::ShowA.effect(panel, Reply::Level(shown_a));
            let p2 = show_b.effect(p1, Reply::Level(shown_b));
            let p3 = read_a.effect(p2, Reply::Level(turn_a));
            let p4 = read_b.effect(p3, Reply::Level(turn_b));
            let mark_a = if shown_a == Some(true) { 0x31u8 } else { 0x30u8 };
            let mark_b = if shown_b == Some(true) { 0x31u8 } else { 0x30u8 };
            &&& Stage::ShowA.request() == Some(Request::Level(Line::A))
            &&& show_b.request() == Some(Request::Level(Line::B))
            &&& read_a.request() == Some(Request::Level(Line::A))
            &&& read_b.request() == Some(Request::Level(Line::B))
            &&& read_b.next(Reply::Level(turn_b)) == Stage::Status(Button::ReloadToggle, Edge::Low)
            &&& p1 == PanelModel {
                events: seq![mark_a, panel.events[1], panel.events[2]],
                ..panel
            }
            &&& p2 == PanelModel { events: seq![mark_a, mark_b, panel.events[2]], ..panel }
            &&& p3 == p2
            &&& p4.events == p2.events
            &&& turn_a is None || turn_b is None ==> p4 == p2
            &&& turn_a is Some && turn_b is Some ==> {
                let levels = Levels { a: turn_a->0, b: turn_b->0 };
                &&& p4.decoder == panel.decoder.after(levels)
                &&& match panel.decoder.completed(levels) {
                    Some(direction) => p4.action == Some(Action::Rotate(direction)),
                    None => p4.action == panel.action,
                }
            }
        }),
{
    let mark_a = if shown_a == Some(true) { 0x31u8 } else { 0x30u8 };
    let mark_b = if shown_b == Some(true) { 0x31u8 } else { 0x30u8 };
    let p1 = panel.shown(Line::A, shown_a);
    assert(p1.events =~= seq![mark_a, panel.events[1], panel.events[2]]);
    assert(p1.shown(Line::B, shown_b).events =~= seq![mark_a, mark_b, panel.events[2]]);
}

/// The second half of a run, reply by reply, the same for each latch of a button. One that is not
/// set is passed over. One that is set counts as a press if the edge was falling and as a release
/// if it was rising, and is cleared next; then the run goes on as if it had not been set.
pub proof fn replies_about_a_latch(panel: PanelModel, button: Button, edge: Edge)
    requires
        panel.events.len() == 3,
    ensures
        ({
            let stage = Stage::Status(button, edge);
            let clear = stage.next(Reply::Status(true));
            let seen = stage.effect(panel, Reply::Status(true));
            &&& stage.request() == Some(Request::Status(button, edge))
            &&& stage.effect(panel, Reply::Status(false)) == panel
            &&& clear.request() == Some(Request::Clear(Latch::Button(button, edge)))
            &&& clear.effect(seen, Reply::Cleared) == seen
            &&& clear.next(Reply::Cleared) == stage.next(Reply::Status(false))
            &&& edge == Edge::Low ==> seen.action == Some(Action::Press(button))
            &&& edge == Edge::High ==> seen.action == Some(Action::Release(button))
            &&& seen.decoder == panel.decoder
            &&& seen.events == seq![
                panel.events[0],
                panel.events[1],
                if button == Button::Shoot {
                    panel.events[2]
                } else if edge == Edge::Low {
                    0x30u8
                } else {
                    0x31u8
                },
            ]
        }),
        Stage::Status(Button::ReloadToggle, Edge::Low).next(Reply::Status(false)) == Stage::Status(
            Button::ReloadToggle,
            Edge::High,
        ),
        Stage::Status(Button::ReloadToggle, Edge::High).next(Reply::Status(false)) == Stage::Status(
            Button::Shoot,
            Edge::Low,
        ),
        Stage::Status(Button::Shoot, Edge::Low).next(Reply::Status(false)) == Stage::Status(
            Button::Shoot,
            Edge::High,
        ),
        Stage::Status(Button::Shoot, Edge::High).next(Reply::Status(false)) == Stage::Done,
        Stage::Done.request() is None,
{
    let seen = panel.edged(button, edge);
    assert(seen.events =~= seq![panel.events[0], panel.events[1], seen.events[2]]);
}

/// Every level answers a question for a level, every status one for a status, and what has been
/// cleared can only be said to be cleared.
pub proof fn replies_fit_requests(
    line: Line,
    latch: Latch,
    button: Button,
    edge: Edge,
    reply: Reply,
)
    ensures
        Request::Level(line).is_answered_by(reply) <==> exists|level: Option<bool>|
            reply == Reply::Level(level),
        Request::Status(button, edge).is_answered_by(reply) <==> exists|set: bool|
            reply == Reply::Status(set),
        Request::Clear(latch).is_answered_by(reply) <==> reply == Reply::Cleared,
{
    match reply {
        Reply::Level(level) => {
            assert(reply == Reply::Level(level));
        },
        Reply::Status(set) => {
            assert(reply == Reply::Status(set));
        },
        Reply::Cleared => {},
    }
}

/// What the pins answer is what is asked for, and a run goes on from each answer to the next.
pub proof fn answers_of_the_pins(pins: Pins, a: Option<bool>, stage: Stage, panel: PanelModel)
    ensures
        pins.answer(Stage::ShowA) == Reply::Level(pins.shown_a),
        pins.answer(Stage::ShowB) == Reply::Level(pins.shown_b),
        pins.answer(Stage::TurnA) == Reply::Level(pins.turn_a),
        pins.answer(Stage::TurnB(a)) == Reply::Level(pins.turn_b),
        pins.answer(Stage::Status(Button::ReloadToggle, Edge::Low)) == Reply::Status(
            pins.reload_low,
        ),
        pins.answer(Stage::Status(Button::ReloadToggle, Edge::High)) == Reply::Status(
            pins.reload_high,
        ),
        pins.answer(Stage::Status(Button::Shoot, Edge::Low)) == Reply::Status(pins.shoot_low),
        pins.answer(Stage::Status(Button::Shoot, Edge::High)) == Reply::Status(pins.shoot_high),
        stage matches Stage::ClearLine(_, _) ==> pins.answer(stage) == Reply::Cleared,
        stage matches Stage::Clear(_, _) ==> pins.answer(stage) == Reply::Cleared,
        panel_after(Stage::Done, panel, pins) == panel,
        requests_from(Stage::Done, pins) == Seq::<Request>::empty(),
        stage != Stage::Done ==> panel_after(stage, panel, pins) == panel_after(
            stage.next(pins.answer(stage)),
            stage.effect(panel, pins.answer(stage)),
            pins,
        ),
        stage.request() matches Some(request) ==> requests_from(stage, pins) == seq![request]
            + requests_from(stage.next(pins.answer(stage)), pins),
{
}

/// The panel after some runs, if the main loop takes what waits after each of them.
pub open spec fn panel_after_rounds(panel: PanelModel, runs: Seq<Pins>) -> PanelModel
    decreases runs.len(),
{
    if runs.len() == 0 {
        panel
    } else {
        panel_after(
            Stage::start(),
            panel_after_rounds(panel, runs.drop_last()),
            runs.last(),
        ).taken()
    }
}

/// The actions that the main loop takes off the panel in that way, in order.
pub open spec fn actions_of_rounds(panel: PanelModel, runs: Seq<Pins>) -> Seq<Action>
    decreases runs.len(),
{
    if runs.len() == 0 {
        seq![]
    } else {
        let waiting = panel_after(
            Stage::start(),
            panel_after_rounds(panel, runs.drop_last()),
            runs.last(),
        ).action;
        match waiting {
            Some(action) => actions_of_rounds(panel, runs.drop_last()).push(action),
            None => actions_of_rounds(panel, runs.drop_last()),
        }
    }
}

/// The main loop does not disturb the decoder, however often it takes what waits: with a pass after
/// each run and no button touched, it gets each turn that the readings complete, and nothing else.
pub proof fn every_turn_is_taken(panel: PanelModel, runs: Seq<Pins>)
    requires
        panel.wf(),
        panel.action is None,
        untouched_buttons(runs),
    ensures
        panel_after_rounds(panel, runs).wf(),
        panel_after_rounds(panel, runs).action is None,
        panel_after_rounds(panel, runs).decoder == rotary::decoder_after(
            panel.decoder,
            readings(runs),
        ),
        actions_of_rounds(panel, runs) == rotary::turns(panel.decoder, readings(runs)).map_values(
            |direction| Action::Rotate(direction),
        ),
    decreases runs.len(),
{
    if runs.len() > 0 {
        let earlier = runs.drop_last();
        let pins = runs.last();
        assert forall|i: int, button: Button, edge: Edge| 0 <= i < earlier.len() implies
            !#[trigger] earlier[i].latch(button, edge) by {
            assert(!runs[i].latch(button, edge));
        }
        assert(!pins.latch(Button::ReloadToggle, Edge::Low));
        assert(!pins.latch(Button::ReloadToggle, Edge::High));
        assert(!pins.latch(Button::Shoot, Edge::Low));
        assert(!pins.latch(Button::Shoot, Edge::High));
        every_turn_is_taken(panel, earlier);
        run_of_the_handler(panel_after_rounds(panel, earlier), pins);
        if pins.turn_a is Some && pins.turn_b is Some {
            assert(readings(runs).drop_last() =~= readings(earlier));
        }
        assert(actions_of_rounds(panel, runs) =~= rotary::turns(
            panel.decoder,
            readings(runs),
        ).map_values(|direction| Action::Rotate(direction)));
    } else {
        assert(actions_of_rounds(panel, runs) =~= rotary::turns(
            panel.decoder,
            readings(runs),
        ).map_values(|direction| Action::Rotate(direction)));
    }
}

/// The main loop gets the same report however often it looks, until the handler runs again, and
/// each report is the one of the last run.
pub proof fn report_lasts_until_the_next_run(panel: PanelModel, pins: Pins)
    requires
        panel.events.len() == 3,
    ensures
        ({
            let end = panel_after(Stage::start(), panel, pins);
            &&& end.taken().events == end.events
            &&& end.taken().taken().events == end.events
            &&& end.events.len() == 3
            &&& end.events[0] == 0x31 <==> pins.shown_a == Some(true)
            &&& end.events[0] == 0x30 <==> pins.shown_a != Some(true)
            &&& end.events[1] == 0x31 <==> pins.shown_b == Some(true)
            &&& end.events[1] == 0x30 <==> pins.shown_b != Some(true)
            &&& pins.reload_high ==> end.events[2] == 0x31
            &&& pins.reload_low && !pins.reload_high ==> end.events[2] == 0x30
            &&& !pins.reload_low && !pins.reload_high ==> end.events[2] == panel.events[2]
            &&& panel_after(Stage::start(), panel.taken(), pins).events == end.events
            &&& panel_after(Stage::start(), panel.taken(), pins).decoder == end.decoder
        }),
{
    reveal_with_fuel(panel_after, 17);
}

} // verus!
