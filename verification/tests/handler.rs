use ferris_revolver::game::{Action, Button, Direction};
use ferris_revolver::handler::{Handler, Latch, Reply, Request};
use ferris_revolver::panel::{Edge, Line, Panel};

#[derive(Clone, Copy)]
struct Pins {
    levels: [(Option<bool>, Option<bool>); 2],
    reload: (bool, bool),
    shoot: (bool, bool),
}

const QUIET: Pins = Pins {
    levels: [(Some(true), Some(true)); 2],
    reload: (false, false),
    shoot: (false, false),
};

fn at(a: bool, b: bool) -> Pins {
    Pins { levels: [(Some(a), Some(b)); 2], ..QUIET }
}

/// Runs the handler once, and returns what it has asked for.
fn run(panel: &mut Panel, pins: Pins) -> Vec<Request> {
    let mut handler = Handler::new();
    let mut requests = Vec::new();
    let mut read_a = 0;
    let mut read_b = 0;
    while let Some(request) = handler.request() {
        requests.push(request);
        let reply = match request {
            Request::Level(Line::A) => {
                read_a += 1;
                Reply::Level(pins.levels[read_a - 1].0)
            }
            Request::Level(Line::B) => {
                read_b += 1;
                Reply::Level(pins.levels[read_b - 1].1)
            }
            Request::Status(Button::ReloadToggle, Edge::Low) => Reply::Status(pins.reload.0),
            Request::Status(Button::ReloadToggle, Edge::High) => Reply::Status(pins.reload.1),
            Request::Status(Button::Shoot, Edge::Low) => Reply::Status(pins.shoot.0),
            Request::Status(Button::Shoot, Edge::High) => Reply::Status(pins.shoot.1),
            Request::Clear(_) => Reply::Cleared,
        };
        handler.reply(panel, reply);
    }
    requests
}

#[test]
fn a_new_panel_reports_high_lines() {
    let mut panel = Panel::new();
    let collected = panel.collect();
    assert_eq!(collected.events, *b"111");
    assert_eq!(collected.action, None);
}

#[test]
fn a_quiet_run_reads_everything_and_clears_the_encoder_only() {
    let mut panel = Panel::new();
    assert_eq!(
        run(&mut panel, QUIET),
        vec![
            Request::Clear(Latch::Line(Line::A, Edge::Low)),
            Request::Clear(Latch::Line(Line::A, Edge::High)),
            Request::Clear(Latch::Line(Line::B, Edge::Low)),
            Request::Clear(Latch::Line(Line::B, Edge::High)),
            Request::Level(Line::A),
            Request::Level(Line::B),
            Request::Level(Line::A),
            Request::Level(Line::B),
            Request::Status(Button::ReloadToggle, Edge::Low),
            Request::Status(Button::ReloadToggle, Edge::High),
            Request::Status(Button::Shoot, Edge::Low),
            Request::Status(Button::Shoot, Edge::High),
        ]
    );
    assert_eq!(panel.collect().action, None);
}

#[test]
fn set_latches_are_cleared_at_once() {
    let mut panel = Panel::new();
    let requests = run(&mut panel, Pins { reload: (true, true), shoot: (true, true), ..QUIET });
    assert_eq!(
        requests[8..],
        [
            Request::Status(Button::ReloadToggle, Edge::Low),
            Request::Clear(Latch::Button(Button::ReloadToggle, Edge::Low)),
            Request::Status(Button::ReloadToggle, Edge::High),
            Request::Clear(Latch::Button(Button::ReloadToggle, Edge::High)),
            Request::Status(Button::Shoot, Edge::Low),
            Request::Clear(Latch::Button(Button::Shoot, Edge::Low)),
            Request::Status(Button::Shoot, Edge::High),
            Request::Clear(Latch::Button(Button::Shoot, Edge::High)),
        ]
    );
    assert_eq!(panel.collect().action, Some(Action::Release(Button::Shoot)));
}

#[test]
fn only_the_set_latch_of_a_button_is_cleared() {
    let mut panel = Panel::new();
    let requests = run(&mut panel, Pins { shoot: (true, false), ..QUIET });
    let cleared: Vec<Request> =
        requests.into_iter().filter(|r| matches!(r, Request::Clear(Latch::Button(_, _)))).collect();
    assert_eq!(cleared, vec![Request::Clear(Latch::Button(Button::Shoot, Edge::Low))]);
}

#[test]
fn the_reload_button_is_reported() {
    let mut panel = Panel::new();
    run(&mut panel, Pins { reload: (true, false), ..QUIET });
    let pressed = panel.collect();
    assert_eq!(pressed.events, *b"110");
    assert_eq!(pressed.action, Some(Action::Press(Button::ReloadToggle)));
    run(&mut panel, QUIET);
    assert_eq!(panel.collect().events, *b"110");
    run(&mut panel, Pins { reload: (false, true), ..QUIET });
    let released = panel.collect();
    assert_eq!(released.events, *b"111");
    assert_eq!(released.action, Some(Action::Release(Button::ReloadToggle)));
}

#[test]
fn the_shoot_button_is_not_reported() {
    let mut panel = Panel::new();
    run(&mut panel, Pins { shoot: (true, false), ..QUIET });
    let pressed = panel.collect();
    assert_eq!(pressed.events, *b"111");
    assert_eq!(pressed.action, Some(Action::Press(Button::Shoot)));
    run(&mut panel, Pins { shoot: (false, true), ..QUIET });
    assert_eq!(panel.collect().action, Some(Action::Release(Button::Shoot)));
}

#[test]
fn a_press_and_a_release_at_once_leave_the_release() {
    let mut panel = Panel::new();
    run(&mut panel, Pins { reload: (true, true), ..QUIET });
    let collected = panel.collect();
    assert_eq!(collected.events, *b"111");
    assert_eq!(collected.action, Some(Action::Release(Button::ReloadToggle)));
}

#[test]
fn the_shoot_button_wins_over_the_reload_button() {
    let mut panel = Panel::new();
    run(&mut panel, Pins { reload: (false, true), shoot: (true, false), ..QUIET });
    assert_eq!(panel.collect().action, Some(Action::Press(Button::Shoot)));
}

#[test]
fn a_turn_reaches_the_panel() {
    let mut panel = Panel::new();
    run(&mut panel, at(false, true));
    assert_eq!(panel.collect().events, *b"011");
    run(&mut panel, at(false, false));
    assert_eq!(panel.collect().events, *b"001");
    run(&mut panel, at(true, false));
    let before = panel.collect();
    assert_eq!(before.events, *b"101");
    assert_eq!(before.action, None);
    run(&mut panel, at(true, true));
    let turned = panel.collect();
    assert_eq!(turned.events, *b"111");
    assert_eq!(turned.action, Some(Action::Rotate(Direction::Clockwise)));
}

#[test]
fn a_button_wins_over_a_turn() {
    let mut panel = Panel::new();
    for (a, b) in [(true, false), (false, false), (false, true)] {
        run(&mut panel, at(a, b));
    }
    run(&mut panel, Pins { reload: (true, false), ..QUIET });
    assert_eq!(panel.collect().action, Some(Action::Press(Button::ReloadToggle)));
    run(&mut panel, QUIET);
    assert_eq!(panel.collect().action, None);
}

#[test]
fn a_turn_replaces_a_waiting_action() {
    let mut panel = Panel::new();
    run(&mut panel, Pins { shoot: (true, false), ..QUIET });
    for (a, b) in [(true, false), (false, false), (false, true), (true, true)] {
        run(&mut panel, at(a, b));
    }
    assert_eq!(panel.collect().action, Some(Action::Rotate(Direction::CounterClock)));
}

#[test]
fn a_waiting_action_outlasts_quiet_runs() {
    let mut panel = Panel::new();
    run(&mut panel, Pins { shoot: (true, false), ..QUIET });
    run(&mut panel, QUIET);
    run(&mut panel, at(false, true));
    assert_eq!(panel.collect().action, Some(Action::Press(Button::Shoot)));
    assert_eq!(panel.collect().action, None);
}

#[test]
fn a_line_that_cannot_be_read_is_reported_low() {
    let mut panel = Panel::new();
    run(&mut panel, Pins { levels: [(None, Some(true)), (Some(true), Some(true))], ..QUIET });
    assert_eq!(panel.collect().events, *b"011");
    run(&mut panel, Pins { levels: [(Some(true), None), (Some(true), Some(true))], ..QUIET });
    assert_eq!(panel.collect().events, *b"101");
}

#[test]
fn a_line_that_cannot_be_read_stops_the_decoder() {
    let mut panel = Panel::new();
    for (a, b) in [(false, true), (false, false), (true, false)] {
        run(&mut panel, at(a, b));
    }
    let high = (Some(true), Some(true));
    run(&mut panel, Pins { levels: [high, (None, Some(true))], ..QUIET });
    run(&mut panel, Pins { levels: [high, (Some(true), None)], ..QUIET });
    let unread = panel.collect();
    assert_eq!(unread.events, *b"111");
    assert_eq!(unread.action, None);
    run(&mut panel, QUIET);
    assert_eq!(panel.collect().action, Some(Action::Rotate(Direction::Clockwise)));
}

#[test]
fn report_and_decoder_read_for_themselves() {
    let mut panel = Panel::new();
    for (a, b) in [(false, true), (false, false), (true, false), (true, true)] {
        let first = (Some(false), Some(false));
        run(&mut panel, Pins { levels: [first, (Some(a), Some(b))], ..QUIET });
    }
    let collected = panel.collect();
    assert_eq!(collected.events, *b"001");
    assert_eq!(collected.action, Some(Action::Rotate(Direction::Clockwise)));
}

#[test]
fn the_panel_takes_readings_and_edges_directly() {
    let mut panel = Panel::new();
    panel.show_level(Line::A, Some(false));
    panel.show_level(Line::B, None);
    panel.edge(Button::ReloadToggle, Edge::Low);
    panel.turn(Some(false), Some(true));
    panel.turn(None, Some(true));
    let collected = panel.collect();
    assert_eq!(collected.events, *b"000");
    assert_eq!(collected.action, Some(Action::Press(Button::ReloadToggle)));
}

/// Runs the handler against latches that stand as they are until they are cleared.
fn run_on_latches(panel: &mut Panel, latches: &mut Vec<Latch>) {
    let mut handler = Handler::new();
    while let Some(request) = handler.request() {
        let reply = match request {
            Request::Level(_) => Reply::Level(Some(true)),
            Request::Status(button, edge) => {
                Reply::Status(latches.contains(&Latch::Button(button, edge)))
            }
            Request::Clear(latch) => {
                latches.retain(|set| *set != latch);
                Reply::Cleared
            }
        };
        handler.reply(panel, reply);
    }
}

#[test]
fn no_latch_stays_set() {
    let all = [
        Latch::Line(Line::A, Edge::Low),
        Latch::Line(Line::A, Edge::High),
        Latch::Line(Line::B, Edge::Low),
        Latch::Line(Line::B, Edge::High),
        Latch::Button(Button::ReloadToggle, Edge::Low),
        Latch::Button(Button::ReloadToggle, Edge::High),
        Latch::Button(Button::Shoot, Edge::Low),
        Latch::Button(Button::Shoot, Edge::High),
    ];
    for chosen in 0u32..256 {
        let mut latches: Vec<Latch> =
            (0..8).filter(|i| chosen >> i & 1 == 1).map(|i| all[i]).collect();
        run_on_latches(&mut Panel::new(), &mut latches);
        assert!(latches.is_empty());
    }
}
