use ferris_revolver::game::Direction;
use ferris_revolver::rotary::{Decoder, Levels, Rotary};

const NOTCH: Levels = Levels { a: true, b: true };
const A_LOW: Levels = Levels { a: false, b: true };
const HALFWAY: Levels = Levels { a: false, b: false };
const B_LOW: Levels = Levels { a: true, b: false };

const REST: Decoder = Decoder { rotary: Rotary::Rotary0, direction: None };

fn turns(decoder: &mut Decoder, readings: &[Levels]) -> Vec<Direction> {
    let mut completed = Vec::new();
    for levels in readings {
        if let Some(direction) = decoder.turn(*levels) {
            completed.push(direction);
        }
    }
    completed
}

#[test]
fn a_new_decoder_rests() {
    assert_eq!(Decoder::new(), REST);
}

#[test]
fn one_notch_clockwise() {
    let mut decoder = Decoder::new();
    assert_eq!(decoder.turn(A_LOW), None);
    assert_eq!(
        decoder,
        Decoder { rotary: Rotary::Rotary1, direction: Some(Direction::Clockwise) }
    );
    assert_eq!(decoder.turn(HALFWAY), None);
    assert_eq!(
        decoder,
        Decoder { rotary: Rotary::Rotary2, direction: Some(Direction::Clockwise) }
    );
    assert_eq!(decoder.turn(B_LOW), None);
    assert_eq!(
        decoder,
        Decoder { rotary: Rotary::Rotary3, direction: Some(Direction::Clockwise) }
    );
    assert_eq!(decoder.turn(NOTCH), Some(Direction::Clockwise));
    assert_eq!(decoder, REST);
}

#[test]
fn one_notch_counter_clockwise() {
    let mut decoder = Decoder::new();
    assert_eq!(decoder.turn(B_LOW), None);
    assert_eq!(
        decoder,
        Decoder { rotary: Rotary::Rotary3, direction: Some(Direction::CounterClock) }
    );
    assert_eq!(decoder.turn(HALFWAY), None);
    assert_eq!(decoder.turn(A_LOW), None);
    assert_eq!(
        decoder,
        Decoder { rotary: Rotary::Rotary1, direction: Some(Direction::CounterClock) }
    );
    assert_eq!(decoder.turn(NOTCH), Some(Direction::CounterClock));
    assert_eq!(decoder, REST);
}

#[test]
fn two_notches_count_twice() {
    let mut decoder = Decoder::new();
    let notch = [A_LOW, HALFWAY, B_LOW, NOTCH];
    let mut readings = notch.to_vec();
    readings.extend_from_slice(&notch);
    assert_eq!(
        turns(&mut decoder, &readings),
        vec![Direction::Clockwise, Direction::Clockwise]
    );
}

#[test]
fn turning_back_counts_for_nothing() {
    let mut decoder = Decoder::new();
    assert!(turns(&mut decoder, &[A_LOW, HALFWAY, A_LOW, NOTCH]).is_empty());
    assert_eq!(decoder, REST);
    assert!(turns(&mut decoder, &[B_LOW, NOTCH]).is_empty());
    assert_eq!(decoder, REST);
}

#[test]
fn bouncing_on_the_way_makes_no_difference() {
    let mut decoder = Decoder::new();
    let readings = [A_LOW, HALFWAY, A_LOW, HALFWAY, B_LOW, HALFWAY, B_LOW, B_LOW, NOTCH, NOTCH];
    assert_eq!(turns(&mut decoder, &readings), vec![Direction::Clockwise]);
}

#[test]
fn a_skipped_halfway_makes_no_difference() {
    let mut decoder = Decoder::new();
    assert_eq!(turns(&mut decoder, &[B_LOW, A_LOW, NOTCH]), vec![Direction::CounterClock]);
}

#[test]
fn both_lines_low_at_once_tell_no_direction() {
    let mut decoder = Decoder::new();
    assert_eq!(decoder.turn(HALFWAY), None);
    assert_eq!(decoder, Decoder { rotary: Rotary::Rotary2, direction: None });
    assert!(turns(&mut decoder, &[B_LOW, NOTCH]).is_empty());
    assert_eq!(decoder, REST);
}

#[test]
fn going_on_from_halfway_keeps_the_direction() {
    let mut decoder =
        Decoder { rotary: Rotary::Rotary2, direction: Some(Direction::CounterClock) };
    assert_eq!(decoder.turn(A_LOW), None);
    assert_eq!(decoder.direction, Some(Direction::CounterClock));
    assert_eq!(decoder.turn(NOTCH), Some(Direction::CounterClock));
}

#[test]
fn reading_twice_is_silent() {
    for levels in [NOTCH, A_LOW, HALFWAY, B_LOW] {
        let mut decoder = Decoder::new();
        decoder.turn(A_LOW);
        decoder.turn(levels);
        let once = decoder;
        assert_eq!(decoder.turn(levels), None);
        assert_eq!(decoder, once);
    }
}

#[test]
fn the_notch_resets_every_decoder() {
    for rotary in [Rotary::Rotary0, Rotary::Rotary1, Rotary::Rotary2, Rotary::Rotary3] {
        for direction in [None, Some(Direction::Clockwise), Some(Direction::CounterClock)] {
            let mut decoder = Decoder { rotary, direction };
            decoder.turn(NOTCH);
            assert_eq!(decoder, REST);
        }
    }
}

#[test]
fn swapped_lines_swap_the_directions() {
    let way = [A_LOW, HALFWAY, B_LOW, NOTCH, B_LOW, HALFWAY, A_LOW, NOTCH];
    let swapped: Vec<Levels> = way.iter().map(|l| Levels { a: l.b, b: l.a }).collect();
    assert_eq!(
        turns(&mut Decoder::new(), &way),
        vec![Direction::Clockwise, Direction::CounterClock]
    );
    assert_eq!(
        turns(&mut Decoder::new(), &swapped),
        vec![Direction::CounterClock, Direction::Clockwise]
    );
}
