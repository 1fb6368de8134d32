//! What is drawn on the display.

use vstd::prelude::*;

use crate::game::Screen;

verus! {

/// The buffer into which `itoa` writes a number.
#[verifier::external_type_specification]
#[verifier::external_body]
pub struct ExBuffer(itoa::Buffer);

/// A text on the display.
#[derive(Clone, Copy, Debug, PartialEq, Eq, Structural)]
pub enum Label {
    PressShoot,
    Reload,
    Score(u32),
}

/// Where a text begins in its row.
#[derive(Clone, Copy, Debug, PartialEq, Eq, Structural)]
pub enum Column {
    /// At this many pixels from the left.
    At(i32),
    /// So that it ends at the right side of the screen.
    RightAligned,
}

/// One thing to draw.
#[derive(Clone, Copy, Debug, PartialEq, Eq, Structural)]
pub enum Drawing {
    /// Ferris with the revolver, its top left corner at `x` and `y`.
    Ferris { x: i32, y: i32 },
    /// A text, its top at `y`.
    Text { label: Label, column: Column, y: i32 },
}

/// The digit of a number below ten.
pub open spec fn digit(n: nat) -> char {
    ('0' as nat + n) as char
}

/// A number in decimal notation, without leading zeros.
pub open spec fn decimal(n: nat) -> Seq<char>
    decreases n,
{
    if n < 10 {
        seq![digit(n)]
    } else {
        decimal(n / 10).push(digit(n % 10))
    }
}

/// The number that a sequence of digits denotes.
pub open spec fn number(digits: Seq<char>) -> int
    decreases digits.len(),
{
    if digits.len() == 0 {
        0
    } else {
        number(digits.drop_last()) * 10 + (digits.last() as int - '0' as int)
    }
}

/// `itoa::Buffer::format`: the text that it returns is the number in decimal notation.
#[verifier::external_body]
fn format_score<'a>(buffer: &'a mut itoa::Buffer, score: u32) -> (text: &'a str)
    ensures
        text@ == decimal(score as nat),
{
    buffer.format(score)
}

impl Label {
    /// The words of the label.
    pub open spec fn words(self) -> Seq<char> {
        match self {
            Label::PressShoot => "Press shoot to start"@,
            Label::Reload => "Reload"@,
            Label::Score(score) => decimal(score as nat),
        }
    }

    /// The words of a score denote that very score: they are digits without leading zeros, and the
    /// number that they make is the score.
    pub proof fn score_denotes_itself(self)
        ensures
            self matches Label::Score(score) ==> {
                &&& number(self.words()) == score
                &&& self.words().len() > 0
                &&& self.words()[0] == '0' ==> score == 0 && self.words().len() == 1
                &&& forall|i: int|
                    0 <= i < self.words().len() ==> '0' <= #[trigger] self.words()[i] <= '9'
            },
    {
        if let Label::Score(score) = self {
            decimal_denotes_its_number(score as nat);
        }
    }

    /// The text of the label; a number is written into the buffer.
    pub fn text<'a>(self, buffer: &'a mut itoa::Buffer) -> (text: &'a str)
        ensures
            text@ == self.words(),
            self == Label::PressShoot ==> text@ == "Press shoot to start"@,
            self == Label::Reload ==> text@ == "Reload"@,
            self matches Label::Score(score) ==> {
                &&& number(text@) == score
                &&& text@.len() > 0
                &&& text@[0] == '0' ==> score == 0 && text@.len() == 1
                &&& forall|i: int| 0 <= i < text@.len() ==> '0' <= #[trigger] text@[i] <= '9'
            },
    {
        proof {
            self.score_denotes_itself();
        }
        match self {
            Label::PressShoot => "Press shoot to start",
            Label::Reload => "Reload",
            Label::Score(score) => format_score(buffer, score),
        }
    }
}

/// What a screen shows, in the order in which it is drawn: Ferris at height `start_y` and an
/// invitation before the game, Ferris at height `y` and the score during it, and a word while the
/// revolver is loaded.
pub open spec fn drawings(screen: Screen, start_y: i32, y: i32, score: u32) -> Seq<Drawing> {
    match screen {
        Screen::Start => seq![
            Drawing::Ferris { x: 0, y: start_y },
            Drawing::Text { label: Label::PressShoot, column: Column::At(25), y: 55 },
        ],
        Screen::Normal => seq![
            Drawing::Ferris { x: 0, y },
            Drawing::Text { label: Label::Score(score), column: Column::RightAligned, y: 0 },
        ],
        Screen::Reload => seq![
            Drawing::Text { label: Label::Reload, column: Column::At(5), y: 5 },
        ],
    }
}

/// A sequence of digits denotes a number by place value: nothing denotes zero, and one more digit
/// makes ten times the number plus the digit.
pub proof fn digits_have_place_values(digits: Seq<char>, last: char)
    ensures
        number(Seq::<char>::empty()) == 0,
        number(digits.push(last)) == 10 * number(digits) + (last as int - 48),
{
    assert(digits.push(last).drop_last() =~= digits);
}

/// What each screen shows, whatever the heights and the score are.
pub proof fn screens(start_y: i32, y: i32, score: u32)
    ensures
        drawings(Screen::Start, start_y, y, score) == seq![
            Drawing::Ferris { x: 0, y: start_y },
            Drawing::Text { label: Label::PressShoot, column: Column::At(25), y: 55 },
        ],
        drawings(Screen::Normal, start_y, y, score) == seq![
            Drawing::Ferris { x: 0, y },
            Drawing::Text { label: Label::Score(score), column: Column::RightAligned, y: 0 },
        ],
        drawings(Screen::Reload, start_y, y, score) == seq![
            Drawing::Text { label: Label::Reload, column: Column::At(5), y: 5 },
        ],
{
}

/// A number can be read off its decimal notation, which begins with a zero for zero only.
pub proof fn decimal_denotes_its_number(n: nat)
    ensures
        number(decimal(n)) == n,
        decimal(n).len() > 0,
        decimal(n)[0] == '0' <==> n == 0,
        n == 0 ==> decimal(n).len() == 1,
        forall|i: int| 0 <= i < decimal(n).len() ==> '0' <= #[trigger] decimal(n)[i] <= '9',
    decreases n,
{
    if n < 10 {
        reveal_with_fuel(number, 2);
    } else {
        decimal_denotes_its_number(n / 10);
        assert(decimal(n).drop_last() =~= decimal(n / 10));
    }
}

/// Different scores are shown differently.
pub proof fn scores_differ_in_words(first: u32, second: u32)
    requires
        Label::Score(first).words() == Label::Score(second).words(),
    ensures
        first == second,
{
    decimal_denotes_its_number(first as nat);
    decimal_denotes_its_number(second as nat);
}

} // verus!
