use ferris_revolver::clock::tick_due;
use ferris_revolver::display::Label;

fn text(label: Label) -> String {
    let mut buffer = itoa::Buffer::new();
    label.text(&mut buffer).to_string()
}

#[test]
fn words() {
    assert_eq!(text(Label::PressShoot), "Press shoot to start");
    assert_eq!(text(Label::Reload), "Reload");
}

#[test]
fn scores() {
    assert_eq!(text(Label::Score(0)), "0");
    assert_eq!(text(Label::Score(9)), "9");
    assert_eq!(text(Label::Score(10)), "10");
    assert_eq!(text(Label::Score(1_000)), "1000");
    assert_eq!(text(Label::Score(1_234_567)), "1234567");
    assert_eq!(text(Label::Score(u32::MAX)), "4294967295");
}

#[test]
fn scores_can_be_read_off() {
    for score in [0, 1, 99, 100, 65_536, 20_000_003, u32::MAX] {
        assert_eq!(text(Label::Score(score)).parse::<u32>(), Ok(score));
    }
}

#[test]
fn a_buffer_can_be_used_again() {
    let mut buffer = itoa::Buffer::new();
    assert_eq!(Label::Score(123).text(&mut buffer), "123");
    assert_eq!(Label::Score(4).text(&mut buffer), "4");
}

#[test]
fn a_tick_is_due_past_the_interval() {
    assert!(!tick_due(0, 0));
    assert!(tick_due(1, 0));
    assert!(!tick_due(99_999, 100_000));
    assert!(!tick_due(100_000, 100_000));
    assert!(tick_due(100_001, 100_000));
    assert!(tick_due(u64::MAX, u64::MAX - 1));
    assert!(!tick_due(u64::MAX, u64::MAX));
}
