//! The quadrature decoder of the rotary encoder.
//!
//! The encoder drives two pull-up lines, A and B. Both are high while it rests in a notch. On the
//! way to the next notch clockwise the lines go through A low, both low, B low; counter-clockwise
//! they go through the same levels in the opposite order.

use vstd::prelude::*;

use crate::game::Direction;

verus! {

/// The levels of the two lines at one moment (`true` is high).
#[derive(Clone, Copy, Debug, PartialEq, Eq, Structural)]
pub struct Levels {
    pub a: bool,
    pub b: bool,
}

/// Where the encoder is between two notches.
#[derive(Clone, Copy, Debug, PartialEq, Eq, Structural)]
pub enum Rotary {
    /// Both lines high: in a notch.
    Rotary0,
    /// A low: on the clockwise side of the notch.
    Rotary1,
    /// Both lines low: halfway.
    Rotary2,
    /// B low: on the counter-clockwise side of the notch.
    Rotary3,
}

/// What the decoder remembers from one reading to the next.
#[derive(Clone, Copy, Debug, PartialEq, Eq, Structural)]
pub struct Decoder {
    /// The position that was last read.
    pub rotary: Rotary,
    /// The way in which the encoder left the notch, while that is known.
    pub direction: Option<Direction>,
}

impl Levels {
    /// The encoder is in a notch.
    pub open spec fn resting(self) -> bool {
        self.a && self.b
    }

    /// The position in which the lines have these levels.
    pub open spec fn position(self) -> Rotary {
        if self.a && self.b {
            Rotary::Rotary0
        } else if self.b {
            Rotary::Rotary1
        } else if self.a {
            Rotary::Rotary3
        } else {
            Rotary::Rotary2
        }
    }

    /// The levels with the two lines swapped.
    pub open spec fn mirrored(self) -> Levels {
        Levels { a: self.b, b: self.a }
    }
}

impl Rotary {
    /// The way in which an encoder turns that comes straight out of its notch to this position.
    /// Halfway is next to no notch, so it tells nothing.
    pub open spec fn departure(self) -> Option<Direction> {
        match self {
            Rotary::Rotary1 => Some(Direction::Clockwise),
            Rotary::Rotary3 => Some(Direction::CounterClock),
            _ => None,
        }
    }

    /// The way in which an encoder turns that goes straight into a notch from this position.
    pub open spec fn arrival(self) -> Option<Direction> {
        match self {
            Rotary::Rotary3 => Some(Direction::Clockwise),
            Rotary::Rotary1 => Some(Direction::CounterClock),
            _ => None,
        }
    }

    /// The position with the two lines swapped.
    pub open spec fn mirrored(self) -> Rotary {
        match self {
            Rotary::Rotary1 => Rotary::Rotary3,
            Rotary::Rotary3 => Rotary::Rotary1,
            other => other,
        }
    }
}

/// The opposite direction.
pub open spec fn opposite(direction: Option<Direction>) -> Option<Direction> {
    match direction {
        Some(Direction::Clockwise) => Some(Direction::CounterClock),
        Some(Direction::CounterClock) => Some(Direction::Clockwise),
        None => None,
    }
}

impl Decoder {
    /// The decoder of an encoder that rests in its notch.
    pub open spec fn rest() -> Decoder {
        Decoder { rotary: Rotary::Rotary0, direction: None }
    }

    /// In a notch there is no direction to remember.
    pub open spec fn wf(self) -> bool {
        self.rotary == Rotary::Rotary0 ==> self.direction is None
    }

    /// What is remembered after a reading. The position follows the levels alone. The direction
    /// is taken when the encoder leaves its notch, kept outside it, and dropped in it.
    pub open spec fn after(self, levels: Levels) -> Decoder {
        Decoder {
            rotary: levels.position(),
            direction: if levels.resting() {
                None
            } else if self.rotary == Rotary::Rotary0 && levels.position().departure() is Some {
                levels.position().departure()
            } else {
                self.direction
            },
        }
    }

    /// The turn that a reading completes: the encoder is in a notch again, and came into it the
    /// way in which it had left the one before.
    pub open spec fn completed(self, levels: Levels) -> Option<Direction> {
        if levels.resting() && self.rotary.arrival() == self.direction {
            self.direction
        } else {
            None
        }
    }

    /// The decoder with the two lines swapped.
    pub open spec fn mirrored(self) -> Decoder {
        Decoder { rotary: self.rotary.mirrored(), direction: opposite(self.direction) }
    }

    /// A decoder that takes the encoder to rest in a notch.
    pub fn new() -> (decoder: Decoder)
        ensures
            decoder == Decoder::rest(),
            decoder.rotary == Rotary::Rotary0,
            decoder.direction is None,
            decoder.wf(),
    {
        Decoder { rotary: Rotary::Rotary0, direction: None }
    }

    /// Takes in one reading of the lines, and returns the turn that it completes, if any.
    pub fn turn(&mut self, levels: Levels) -> (turned: Option<Direction>)
        ensures
            *final(self) == old(self).after(levels),
            turned == old(self).completed(levels),
            final(self).rotary == Rotary::Rotary0 <==> levels.a && levels.b,
            final(self).rotary == Rotary::Rotary1 <==> !levels.a && levels.b,
            final(self).rotary == Rotary::Rotary2 <==> !levels.a && !levels.b,
            final(self).rotary == Rotary::Rotary3 <==> levels.a && !levels.b,
            levels.a && levels.b ==> final(self).direction is None,
            old(self).rotary == Rotary::Rotary0 && !levels.a && levels.b ==> final(self).direction
                == Some(Direction::Clockwise),
            old(self).rotary == Rotary::Rotary0 && levels.a && !levels.b ==> final(self).direction
                == Some(Direction::CounterClock),
            !levels.a && !levels.b ==> final(self).direction == old(self).direction,
            old(self).rotary != Rotary::Rotary0 && !(levels.a && levels.b)
                ==> final(self).direction == old(self).direction,
            turned == Some(Direction::Clockwise) <==> {
                &&& levels.a && levels.b
                &&& old(self).rotary == Rotary::Rotary3
                &&& old(self).direction == Some(Direction::Clockwise)
            },
            turned == Some(Direction::CounterClock) <==> {
                &&& levels.a && levels.b
                &&& old(self).rotary == Rotary::Rotary1
                &&& old(self).direction == Some(Direction::CounterClock)
            },
            old(self).wf() ==> final(self).wf(),
    {
        match (self.rotary, self.direction, levels.a, levels.b) {
            // Clockwise.
            (Rotary::Rotary0, _, false, true) => {
                self.direction = Some(Direction::Clockwise);
                self.rotary = Rotary::Rotary1;
                None
            },
            (Rotary::Rotary3, Some(Direction::Clockwise), true, true) => {
                self.rotary = Rotary::Rotary0;
                self.direction = None;
                Some(Direction::Clockwise)
            },
            // Counter-clockwise.
            (Rotary::Rotary0, _, true, false) => {
                self.direction = Some(Direction::CounterClock);
                self.rotary = Rotary::Rotary3;
                None
            },
            (Rotary::Rotary1, Some(Direction::CounterClock), true, true) => {
                self.rotary = Rotary::Rotary0;
                self.direction = None;
                Some(Direction::CounterClock)
            },
            // Anything else only moves the position, and a notch forgets the direction.
            (_, _, true, true) => {
                self.rotary = Rotary::Rotary0;
                self.direction = None;
                None
            },
            (_, _, false, true) => {
                self.rotary = Rotary::Rotary1;
                None
            },
            (_, _, false, false) => {
                self.rotary = Rotary::Rotary2;
                None
            },
            (_, _, true, false) => {
                self.rotary = Rotary::Rotary3;
                None
            },
        }
    }
}

/// What a decoder remembers after a sequence of readings.
pub open spec fn decoder_after(decoder: Decoder, readings: Seq<Levels>) -> Decoder
    decreases readings.len(),
{
    if readings.len() == 0 {
        decoder
    } else {
        decoder_after(decoder, readings.drop_last()).after(readings.last())
    }
}

/// The turns that a sequence of readings completes, in order.
pub open spec fn turns(decoder: Decoder, readings: Seq<Levels>) -> Seq<Direction>
    decreases readings.len(),
{
    if readings.len() == 0 {
        seq![]
    } else {
        let earlier = turns(decoder, readings.drop_last());
        match decoder_after(decoder, readings.drop_last()).completed(readings.last()) {
            Some(direction) => earlier.push(direction),
            None => earlier,
        }
    }
}

/// Readings are taken in one by one: none leaves the decoder as it is and completes nothing, and
/// one more adds the turn that it completes, if any, to the earlier ones.
pub proof fn one_more_reading(decoder: Decoder, readings: Seq<Levels>, levels: Levels)
    ensures
        decoder_after(decoder, Seq::empty()) == decoder,
        turns(decoder, Seq::empty()) == Seq::<Direction>::empty(),
        decoder_after(decoder, readings.push(levels)) == decoder_after(decoder, readings).after(
            levels,
        ),
        match decoder_after(decoder, readings).completed(levels) {
            Some(direction) => turns(decoder, readings.push(levels)) == turns(
                decoder,
                readings,
            ).push(direction),
            None => turns(decoder, readings.push(levels)) == turns(decoder, readings),
        },
{
    assert(readings.push(levels).drop_last() =~= readings);
}

/// What one reading does, by the levels of the two lines. The position is the one of the levels. A
/// direction is learnt only on the way out of the notch, and forgotten only in it. A turn is
/// completed only in the notch: clockwise if B was low before and A had been the first to go low,
/// counter-clockwise the other way round.
pub proof fn one_reading(decoder: Decoder, a: bool, b: bool)
    ensures
        ({
            let next = decoder.after(Levels { a, b });
            let turned = decoder.completed(Levels { a, b });
            &&& next.rotary == Rotary::Rotary0 <==> a && b
            &&& next.rotary == Rotary::Rotary1 <==> !a && b
            &&& next.rotary == Rotary::Rotary2 <==> !a && !b
            &&& next.rotary == Rotary::Rotary3 <==> a && !b
            &&& next.direction != decoder.direction ==> decoder.rotary == Rotary::Rotary0 || a && b
            &&& a && b ==> next.direction is None
            &&& decoder.rotary == Rotary::Rotary0 && !a && b ==> next.direction == Some(
                Direction::Clockwise,
            )
            &&& decoder.rotary == Rotary::Rotary0 && a && !b ==> next.direction == Some(
                Direction::CounterClock,
            )
            &&& !a && !b ==> next.direction == decoder.direction
            &&& turned is Some ==> a && b && turned == decoder.direction
            &&& a && b && decoder.rotary == Rotary::Rotary3 ==> (turned == Some(
                Direction::Clockwise,
            ) <==> decoder.direction == Some(Direction::Clockwise))
            &&& a && b && decoder.rotary == Rotary::Rotary1 ==> (turned == Some(
                Direction::CounterClock,
            ) <==> decoder.direction == Some(Direction::CounterClock))
            &&& decoder.rotary == Rotary::Rotary0 || decoder.rotary == Rotary::Rotary2
                ==> turned is None
            &&& decoder.rotary == Rotary::Rotary3 ==> turned != Some(Direction::CounterClock)
            &&& decoder.rotary == Rotary::Rotary1 ==> turned != Some(Direction::Clockwise)
        }),
{
}

/// Two sequences of readings in a row: the second goes on where the first has left the decoder.
pub proof fn readings_compose(decoder: Decoder, first: Seq<Levels>, second: Seq<Levels>)
    ensures
        decoder_after(decoder, first + second) == decoder_after(
            decoder_after(decoder, first),
            second,
        ),
        turns(decoder, first + second) == turns(decoder, first) + turns(
            decoder_after(decoder, first),
            second,
        ),
    decreases second.len(),
{
    if second.len() == 0 {
        assert(first + second =~= first);
    } else {
        readings_compose(decoder, first, second.drop_last());
        assert((first + second).drop_last() =~= first + second.drop_last());
    }
}

/// Every state that readings can reach from a well-formed one is well formed.
pub proof fn readings_keep_wf(decoder: Decoder, readings: Seq<Levels>)
    requires
        decoder.wf(),
    ensures
        decoder_after(decoder, readings).wf(),
    decreases readings.len(),
{
    if readings.len() > 0 {
        readings_keep_wf(decoder, readings.drop_last());
    }
}

/// One reading of the notch puts every decoder back to rest, whatever it remembered.
pub proof fn notch_resets(decoder: Decoder, levels: Levels)
    requires
        levels.resting(),
    ensures
        decoder.after(levels) == Decoder::rest(),
{
}

/// Reading the same levels once more changes nothing and completes nothing.
pub proof fn repeated_reading_is_silent(decoder: Decoder, levels: Levels)
    ensures
        decoder.after(levels).after(levels) == decoder.after(levels),
        decoder.after(levels).completed(levels) is None,
{
}

/// Swapping the two lines swaps clockwise and counter-clockwise, and nothing else.
pub proof fn mirrored_lines_mirror_turns(decoder: Decoder, levels: Levels)
    ensures
        decoder.mirrored().after(levels.mirrored()) == decoder.after(levels).mirrored(),
        decoder.mirrored().completed(levels.mirrored()) == opposite(decoder.completed(levels)),
{
}

proof fn lemma_on_the_way(way: Seq<Levels>)
    requires
        way.len() > 0,
        forall|i: int| 0 <= i < way.len() ==> !(#[trigger] way[i]).resting(),
    ensures
        decoder_after(Decoder::rest(), way).rotary == way.last().position(),
        decoder_after(Decoder::rest(), way).direction == way.first().position().departure(),
        turns(Decoder::rest(), way) == Seq::<Direction>::empty(),
    decreases way.len(),
{
    let shorter = way.drop_last();
    if shorter.len() > 0 {
        lemma_on_the_way(shorter);
        assert(shorter.first() == way.first());
        assert(!shorter.last().resting());
    } else {
        reveal_with_fuel(decoder_after, 2);
        reveal_with_fuel(turns, 2);
    }
    assert(!way.last().resting());
}

/// A way from notch to notch counts as one turn if it ends on the side that belongs to the
/// direction in which it began, and as none otherwise. What the lines do between its first and
/// its last reading, bouncing or turning back and forth, makes no difference.
pub proof fn way_between_notches(way: Seq<Levels>, notch: Levels)
    requires
        way.len() > 0,
        forall|i: int| 0 <= i < way.len() ==> !(#[trigger] way[i]).resting(),
        notch.resting(),
    ensures
        decoder_after(Decoder::rest(), way.push(notch)) == Decoder::rest(),
        turns(Decoder::rest(), way.push(notch)) == {
            let began = way.first().position().departure();
            let ended = way.last().position().arrival();
            if began == ended && began is Some {
                seq![began->0]
            } else {
                seq![]
            }
        },
{
    lemma_on_the_way(way);
    assert(way.push(notch).drop_last() =~= way);
}

/// A way from notch to notch, by the levels of the two lines: it is one turn clockwise if A alone
/// is low at its beginning and B alone at its end, one turn counter-clockwise if B alone is low at
/// its beginning and A alone at its end, and no turn otherwise. Afterwards nothing of it is left.
pub proof fn levels_between_notches(way: Seq<Levels>)
    requires
        way.len() > 0,
        forall|i: int| 0 <= i < way.len() ==> !((#[trigger] way[i]).a && way[i].b),
    ensures
        ({
            let still = Decoder { rotary: Rotary::Rotary0, direction: None };
            let readings = way.push(Levels { a: true, b: true });
            let first = way[0];
            let last = way[way.len() - 1];
            &&& decoder_after(still, readings) == still
            &&& turns(still, readings) == if !first.a && first.b && last.a && !last.b {
                seq![Direction::Clockwise]
            } else if first.a && !first.b && !last.a && last.b {
                seq![Direction::CounterClock]
            } else {
                Seq::<Direction>::empty()
            }
        }),
{
    assert forall|i: int| 0 <= i < way.len() implies !(#[trigger] way[i]).resting() by {
        assert(!(way[i].a && way[i].b));
    }
    way_between_notches(way, Levels { a: true, b: true });
}

} // verus!
