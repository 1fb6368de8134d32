//! The state of the control panel: what the interrupt handler writes and the main loop reads.

use vstd::prelude::*;

use crate::game::{Action, Button};
use crate::rotary::{Decoder, Levels, Rotary};

verus! {

/// The mark of a low line in the report (ASCII `0`).
pub const LOW: u8 = 0x30;

/// The mark of a high line in the report (ASCII `1`).
pub const HIGH: u8 = 0x31;

/// A line of the rotary encoder.
#[derive(Clone, Copy, Debug, PartialEq, Eq, Structural)]
pub enum Line {
    A,
    B,
}

/// An edge of a button's line. The lines are pulled up, so a press is a falling edge.
#[derive(Clone, Copy, Debug, PartialEq, Eq, Structural)]
pub enum Edge {
    Low,
    High,
}

/// What a panel holds.
pub struct PanelModel {
    /// The marks of line A, of line B, and of the reload button.
    pub events: Seq<u8>,
    /// The action that waits for the game.
    pub action: Option<Action>,
    /// The decoder of the rotary encoder.
    pub decoder: Decoder,
}

/// The state of the control panel.
#[derive(Debug)]
pub struct Panel {
    events: [u8; 3],
    action: Option<Action>,
    decoder: Decoder,
}

/// What the main loop takes from the panel.
#[derive(Clone, Copy, Debug, PartialEq, Eq)]
pub struct Collected {
    /// The report: the marks of line A, of line B, and of the reload button.
    pub events: [u8; 3],
    /// The action that waited for the game.
    pub action: Option<Action>,
}

/// The mark of a line in the report.
pub open spec fn mark(high: bool) -> u8 {
    if high {
        HIGH
    } else {
        LOW
    }
}

impl Line {
    /// The place of the line's mark in the report.
    pub open spec fn slot(self) -> int {
        match self {
            Line::A => 0,
            Line::B => 1,
        }
    }
}

impl Edge {
    /// What a player did who caused this edge on a button's line.
    pub open spec fn action(self, button: Button) -> Action {
        match self {
            Edge::Low => Action::Press(button),
            Edge::High => Action::Release(button),
        }
    }
}

impl PanelModel {
    /// Nothing touched yet: every line high, no action waiting, the encoder in its notch.
    pub open spec fn untouched() -> PanelModel {
        PanelModel { events: seq![HIGH, HIGH, HIGH], action: None, decoder: Decoder::rest() }
    }

    /// The report has three marks, and the decoder is well formed.
    pub open spec fn wf(self) -> bool {
        &&& self.events.len() == 3
        &&& forall|i: int|
            0 <= i < 3 ==> #[trigger] self.events[i] == LOW || self.events[i] == HIGH
        &&& self.decoder.wf()
    }

    /// A line of the encoder has been read for the report. One that could not be read counts
    /// as low.
    pub open spec fn shown(self, line: Line, level: Option<bool>) -> PanelModel {
        PanelModel { events: self.events.update(line.slot(), mark(level == Some(true))), ..self }
    }

    /// The lines of the encoder have been read for the decoder. A turn that this completes
    /// replaces the waiting action. If one of them could not be read, nothing happens.
    pub open spec fn turned(self, a: Option<bool>, b: Option<bool>) -> PanelModel {
        match (a, b) {
            (Some(a), Some(b)) => {
                let levels = Levels { a, b };
                PanelModel {
                    action: match self.decoder.completed(levels) {
                        Some(direction) => Some(Action::Rotate(direction)),
                        None => self.action,
                    },
                    decoder: self.decoder.after(levels),
                    ..self
                }
            },
            _ => self,
        }
    }

    /// An edge has been seen on a button's line. It replaces the waiting action. The report
    /// shows the reload button only.
    pub open spec fn edged(self, button: Button, edge: Edge) -> PanelModel {
        PanelModel {
            events: match button {
                Button::ReloadToggle => self.events.update(2, mark(edge == Edge::High)),
                Button::Shoot => self.events,
            },
            action: Some(edge.action(button)),
            ..self
        }
    }

    /// The waiting action has been handed to the game.
    pub open spec fn taken(self) -> PanelModel {
        PanelModel { action: None, ..self }
    }
}

impl View for Panel {
    type V = PanelModel;

    closed spec fn view(&self) -> PanelModel {
        PanelModel { events: self.events@, action: self.action, decoder: self.decoder }
    }
}

impl Panel {
    /// A panel that nobody has touched yet.
    pub fn new() -> (panel: Panel)
        ensures
            panel@ == PanelModel::untouched(),
            panel@.events == seq![0x31u8, 0x31u8, 0x31u8],
            panel@.action is None,
            panel@.decoder.rotary == Rotary::Rotary0,
            panel@.decoder.direction is None,
            panel@.wf(),
    {
        let panel = Panel { events: [HIGH, HIGH, HIGH], action: None, decoder: Decoder::new() };
        assert(panel@.events =~= seq![HIGH, HIGH, HIGH]);
        panel
    }

    /// Puts the level of a line of the encoder into the report; `None` is a line that could not
    /// be read.
    pub fn show_level(&mut self, line: Line, level: Option<bool>)
        ensures
            final(self)@ == old(self)@.shown(line, level),
            final(self)@.events.len() == old(self)@.events.len() == 3,
            line == Line::A ==> final(self)@.events[0] == (if level == Some(true) { 0x31u8 } else {
                0x30u8
            }) && final(self)@.events[1] == old(self)@.events[1],
            line == Line::B ==> final(self)@.events[1] == (if level == Some(true) { 0x31u8 } else {
                0x30u8
            }) && final(self)@.events[0] == old(self)@.events[0],
            final(self)@.events[2] == old(self)@.events[2],
            final(self)@.action == old(self)@.action,
            final(self)@.decoder == old(self)@.decoder,
            old(self)@.wf() ==> final(self)@.wf(),
    {
        let seen: u8 = match level {
            Some(true) => HIGH,
            _ => LOW,
        };
        match line {
            Line::A => self.events[0] = seen,
            Line::B => self.events[1] = seen,
        }
    }

    /// Hands the levels of the encoder's lines to the decoder, and a turn that they complete to
    /// the game; `None` is a line that could not be read.
    pub fn turn(&mut self, a: Option<bool>, b: Option<bool>)
        ensures
            final(self)@ == old(self)@.turned(a, b),
            final(self)@.events == old(self)@.events,
            a is None || b is None ==> final(self)@ == old(self)@,
            a is Some && b is Some ==> {
                let levels = Levels { a: a->0, b: b->0 };
                &&& final(self)@.decoder == old(self)@.decoder.after(levels)
                &&& match old(self)@.decoder.completed(levels) {
                    Some(direction) => final(self)@.action == Some(Action::Rotate(direction)),
                    None => final(self)@.action == old(self)@.action,
                }
            },
            old(self)@.wf() ==> final(self)@.wf(),
    {
        if let (Some(a), Some(b)) = (a, b) {
            if let Some(direction) = self.decoder.turn(Levels { a, b }) {
                self.action = Some(Action::Rotate(direction));
            }
        }
    }

    /// Records an edge of a button's line, and hands the press or the release to the game.
    pub fn edge(&mut self, button: Button, edge: Edge)
        ensures
            final(self)@ == old(self)@.edged(button, edge),
            final(self)@.events.len() == old(self)@.events.len() == 3,
            final(self)@.events[0] == old(self)@.events[0],
            final(self)@.events[1] == old(self)@.events[1],
            button == Button::Shoot ==> final(self)@.events[2] == old(self)@.events[2],
            button == Button::ReloadToggle && edge == Edge::Low ==> final(self)@.events[2] == 0x30,
            button == Button::ReloadToggle && edge == Edge::High ==> final(self)@.events[2] == 0x31,
            edge == Edge::Low ==> final(self)@.action == Some(Action::Press(button)),
            edge == Edge::High ==> final(self)@.action == Some(Action::Release(button)),
            final(self)@.decoder == old(self)@.decoder,
            old(self)@.wf() ==> final(self)@.wf(),
    {
        match (button, edge) {
            (Button::ReloadToggle, Edge::Low) => {
                self.events[2] = LOW;
                self.action = Some(Action::Press(Button::ReloadToggle));
            },
            (Button::ReloadToggle, Edge::High) => {
                self.events[2] = HIGH;
                self.action = Some(Action::Release(Button::ReloadToggle));
            },
            (Button::Shoot, Edge::Low) => {
                self.action = Some(Action::Press(Button::Shoot));
            },
            (Button::Shoot, Edge::High) => {
                self.action = Some(Action::Release(Button::Shoot));
            },
        }
    }

    /// Takes the report and the waiting action.
    pub fn collect(&mut self) -> (collected: Collected)
        ensures
            collected.events@ == old(self)@.events,
            collected.action == old(self)@.action,
            final(self)@ == old(self)@.taken(),
            final(self)@.events == old(self)@.events,
            final(self)@.action is None,
            final(self)@.decoder == old(self)@.decoder,
            old(self)@.wf() ==> final(self)@.wf(),
    {
        let collected = Collected { events: self.events, action: self.action };
        self.action = None;
        collected
    }
}

/// Taking what waits touches neither the report nor the decoder, and leaves nothing to take: a
/// second time in a row gives the same report and no action.
pub proof fn collecting_takes_the_action_only(panel: PanelModel)
    ensures
        panel.taken().events == panel.events,
        panel.taken().decoder == panel.decoder,
        panel.taken().action is None,
        panel.taken().taken() == panel.taken(),
{
}

/// What an untouched panel holds, and what every panel keeps to.
pub proof fn panels(panel: PanelModel)
    ensures
        PanelModel::untouched().events == seq![0x31u8, 0x31u8, 0x31u8],
        PanelModel::untouched().action is None,
        PanelModel::untouched().decoder.rotary == Rotary::Rotary0,
        PanelModel::untouched().decoder.direction is None,
        panel.wf() <==> {
            &&& panel.events.len() == 3
            &&& forall|i: int|
                0 <= i < 3 ==> (#[trigger] panel.events[i] == 0x30 || panel.events[i] == 0x31)
            &&& panel.decoder.rotary == Rotary::Rotary0 ==> panel.decoder.direction is None
        },
{
}

/// Showing a level changes one mark of the report and nothing else. The mark tells whether the
/// line was found high, and what was shown of the line before is gone.
pub proof fn showing_a_level(
    panel: PanelModel,
    line: Line,
    level: Option<bool>,
    other: Option<bool>,
)
    requires
        panel.events.len() == 3,
    ensures
        ({
            let shown = panel.shown(line, level);
            let place: int = if line == Line::A { 0 } else { 1 };
            &&& shown.events.len() == 3
            &&& shown.events[place] == 0x31 <==> level == Some(true)
            &&& shown.events[place] == 0x30 <==> level != Some(true)
            &&& forall|i: int|
                0 <= i < 3 && i != place ==> #[trigger] shown.events[i] == panel.events[i]
            &&& shown.action == panel.action
            &&& shown.decoder == panel.decoder
            &&& panel.shown(line, other).shown(line, level) == shown
        }),
{
    assert(panel.shown(line, other).shown(line, level).events =~= panel.shown(line, level).events);
}

/// The decoder gets the levels if both lines could be read, and nothing happens otherwise. What
/// waits for the game changes only if a turn is completed, and then is that turn.
pub proof fn turning_the_encoder(panel: PanelModel, a: bool, b: bool, unread: Option<bool>)
    ensures
        ({
            let turned = panel.turned(Some(a), Some(b));
            let levels = Levels { a, b };
            &&& turned.events == panel.events
            &&& turned.decoder == panel.decoder.after(levels)
            &&& match panel.decoder.completed(levels) {
                Some(direction) => turned.action == Some(Action::Rotate(direction)),
                None => turned.action == panel.action,
            }
        }),
        panel.turned(None, unread) == panel,
        panel.turned(unread, None) == panel,
{
}

/// A falling edge of a button's line is a press of that button and a rising one its release,
/// whatever waited before. The report shows the last edge of the reload button, and nothing of the
/// shoot button; the encoder has no part in it.
pub proof fn touching_a_button(panel: PanelModel, button: Button)
    requires
        panel.events.len() == 3,
    ensures
        panel.edged(button, Edge::Low).action == Some(Action::Press(button)),
        panel.edged(button, Edge::High).action == Some(Action::Release(button)),
        panel.edged(Button::ReloadToggle, Edge::Low).events == seq![
            panel.events[0],
            panel.events[1],
            0x30u8,
        ],
        panel.edged(Button::ReloadToggle, Edge::High).events == seq![
            panel.events[0],
            panel.events[1],
            0x31u8,
        ],
        panel.edged(Button::Shoot, Edge::Low).events == panel.events,
        panel.edged(Button::Shoot, Edge::High).events == panel.events,
        panel.edged(button, Edge::Low).decoder == panel.decoder,
        panel.edged(button, Edge::High).decoder == panel.decoder,
{
}

} // verus!
