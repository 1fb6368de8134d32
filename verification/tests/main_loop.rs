use ferris_revolver::display::{Column, Drawing, Label};
use ferris_revolver::game::{Action, Button, Direction, Screen};
use ferris_revolver::main_loop::{MainLoop, Reply, Request};
use ferris_revolver::panel::{Collected, Edge, Panel};

struct World {
    collected: Collected,
    counter: u64,
    screen: Screen,
    polled: bool,
}

const WORLD: World = World {
    collected: Collected { events: *b"101", action: None },
    counter: 2_000_000,
    screen: Screen::Reload,
    polled: false,
};

/// Runs one pass, and returns what it has asked for.
fn pass(main_loop: &mut MainLoop, world: &World) -> Vec<Request> {
    let mut requests = Vec::new();
    loop {
        let request = main_loop.request();
        requests.push(request);
        main_loop.reply(match request {
            Request::Collect => Reply::Collected(world.collected),
            Request::Counter => Reply::Counter(world.counter),
            Request::Look => Reply::Look(world.screen),
            Request::Height => Reply::Height(17),
            Request::Score => Reply::Score(42),
            Request::Poll => Reply::Poll(world.polled),
            _ => Reply::Done,
        });
        if main_loop.request() == Request::Collect {
            return requests;
        }
    }
}

#[test]
fn a_pass_without_news() {
    let mut main_loop = MainLoop::new(100, 100, 20);
    assert_eq!(
        pass(&mut main_loop, &WORLD),
        vec![
            Request::Collect,
            Request::Clear,
            Request::Look,
            Request::Draw(Drawing::Text { label: Label::Reload, column: Column::At(5), y: 5 }),
            Request::Flush,
            Request::Report(*b"101"),
            Request::EndLine,
            Request::Poll,
        ]
    );
    assert_eq!(main_loop.last_action(), None);
}

#[test]
fn a_pass_with_everything() {
    let action = Action::Press(Button::Shoot);
    let mut main_loop = MainLoop::new(101, 100, 20);
    let requests = pass(
        &mut main_loop,
        &World {
            collected: Collected { events: *b"110", action: Some(action) },
            screen: Screen::Normal,
            polled: true,
            ..WORLD
        },
    );
    assert_eq!(
        requests,
        vec![
            Request::Collect,
            Request::Act(action),
            Request::Tick,
            Request::Counter,
            Request::Clear,
            Request::Look,
            Request::Height,
            Request::Draw(Drawing::Ferris { x: 0, y: 17 }),
            Request::Score,
            Request::Draw(Drawing::Text {
                label: Label::Score(42),
                column: Column::RightAligned,
                y: 0
            }),
            Request::Flush,
            Request::Report(*b"110"),
            Request::EndLine,
            Request::Poll,
            Request::Discard,
        ]
    );
    assert_eq!(main_loop.last_action(), Some(action));
}

#[test]
fn the_start_screen_shows_ferris_at_the_start_height() {
    let mut main_loop = MainLoop::new(0, 100, 20);
    let requests = pass(&mut main_loop, &World { screen: Screen::Start, ..WORLD });
    assert_eq!(
        requests[1..6],
        [
            Request::Clear,
            Request::Look,
            Request::Draw(Drawing::Ferris { x: 0, y: 20 }),
            Request::Draw(Drawing::Text {
                label: Label::PressShoot,
                column: Column::At(25),
                y: 55
            }),
            Request::Flush,
        ]
    );
}

#[test]
fn the_last_action_stays_until_the_next() {
    let first = Action::Rotate(Direction::Clockwise);
    let second = Action::Release(Button::ReloadToggle);
    let mut main_loop = MainLoop::new(0, 100, 20);
    let with = |action| World { collected: Collected { events: *b"111", action }, ..WORLD };
    pass(&mut main_loop, &with(Some(first)));
    pass(&mut main_loop, &with(None));
    assert_eq!(main_loop.last_action(), Some(first));
    pass(&mut main_loop, &with(Some(second)));
    assert_eq!(main_loop.last_action(), Some(second));
}

#[test]
fn the_last_action_is_one_that_the_game_was_told_of() {
    let action = Action::Press(Button::Shoot);
    let mut main_loop = MainLoop::new(0, 100, 20);
    main_loop.reply(Reply::Collected(Collected { events: *b"111", action: Some(action) }));
    assert_eq!(main_loop.request(), Request::Act(action));
    assert_eq!(main_loop.last_action(), None);
    main_loop.reply(Reply::Done);
    assert_eq!(main_loop.request(), Request::Clear);
    assert_eq!(main_loop.last_action(), Some(action));
}

#[test]
fn the_game_ticks_in_every_pass() {
    let mut main_loop = MainLoop::new(101, 100, 20);
    for counter in [101, 102, 102, 5_000] {
        let requests = pass(&mut main_loop, &World { counter, ..WORLD });
        assert_eq!(requests[1..3], [Request::Tick, Request::Counter]);
    }
}

#[test]
fn the_game_ticks_in_no_pass() {
    let mut main_loop = MainLoop::new(100, 100, 20);
    for counter in [101, 102, 5_000] {
        let requests = pass(&mut main_loop, &World { counter, ..WORLD });
        assert!(!requests.contains(&Request::Tick));
        assert!(!requests.contains(&Request::Counter));
    }
}

#[test]
fn a_counter_that_starts_anew_stops_the_ticks() {
    let mut main_loop = MainLoop::new(101, 100, 20);
    assert!(pass(&mut main_loop, &World { counter: 7, ..WORLD }).contains(&Request::Tick));
    assert!(!pass(&mut main_loop, &World { counter: 500, ..WORLD }).contains(&Request::Tick));
}

#[test]
fn an_action_is_told_once() {
    let mut panel = Panel::new();
    let mut main_loop = MainLoop::new(0, 100, 20);
    panel.edge(Button::Shoot, Edge::Low);
    let first = pass(&mut main_loop, &World { collected: panel.collect(), ..WORLD });
    assert_eq!(first[1], Request::Act(Action::Press(Button::Shoot)));
    let second = pass(&mut main_loop, &World { collected: panel.collect(), ..WORLD });
    assert!(!second.iter().any(|request| matches!(request, Request::Act(_))));
}
