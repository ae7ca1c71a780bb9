use process_overview::app::{App, Color, COLOR_KEY, QUIT_KEY};
use process_overview::event::{
    handle_input_event, Event, KeyCode, KeyEvent, KeyEventKind, TerminalEvent,
};

fn press(c: char) -> Event {
    Event::Input(KeyEvent { code: KeyCode::Char(c), kind: KeyEventKind::Press })
}

fn state(app: &App) -> (bool, Color, u16) {
    (app.is_running(), app.color(), app.progress())
}

#[test]
fn starts_running_green_and_empty() {
    let app = App::new();
    assert_eq!(state(&app), (true, Color::Green, 0));
}

#[test]
fn key_bindings_are_q_and_c() {
    assert_eq!(QUIT_KEY, 'q');
    assert_eq!(COLOR_KEY, 'c');
}

#[test]
fn end_to_end_four_events_four_redraws() {
    let mut app = App::new();
    let events = vec![Event::Progress(5000), press('c'), press('x'), press('q')];
    let redraws = app.run(&events);
    assert_eq!(redraws, 4);
    assert_eq!(state(&app), (false, Color::LightYellow, 5000));
}

#[test]
fn last_progress_report_wins() {
    let mut app = App::new();
    let events = vec![Event::Progress(3000), Event::Progress(9000), Event::Progress(4200)];
    assert_eq!(app.run(&events), 3);
    assert_eq!(state(&app), (true, Color::Green, 4200));
}

#[test]
fn progress_report_may_go_down() {
    let mut app = App::new();
    app.handle_event(Event::Progress(8000));
    app.handle_event(Event::Progress(100));
    assert_eq!(app.progress(), 100);
}

#[test]
fn progress_report_is_brought_into_range() {
    let mut app = App::new();
    app.handle_event(Event::Progress(12_000));
    assert_eq!(app.progress(), 10_000);
    app.handle_event(Event::Progress(-5));
    assert_eq!(app.progress(), 0);
    app.handle_event(Event::Progress(10_000));
    assert_eq!(app.progress(), 10_000);
    app.handle_event(Event::Progress(10_001));
    assert_eq!(app.progress(), 10_000);
    app.handle_event(Event::Progress(i32::MIN));
    assert_eq!(app.progress(), 0);
    app.handle_event(Event::Progress(i32::MAX));
    assert_eq!(app.progress(), 10_000);
    assert_eq!(state(&app), (true, Color::Green, 10_000));
}

#[test]
fn color_key_toggles_between_two_colors() {
    let mut app = App::new();
    app.handle_event(press('c'));
    assert_eq!(state(&app), (true, Color::LightYellow, 0));
    app.handle_event(press('c'));
    assert_eq!(state(&app), (true, Color::Green, 0));
    app.handle_event(press('c'));
    assert_eq!(app.color(), Color::LightYellow);
}

#[test]
fn toggle_gives_the_other_color() {
    assert_eq!(Color::Green.toggle(), Color::LightYellow);
    assert_eq!(Color::LightYellow.toggle(), Color::Green);
}

#[test]
fn quit_key_stops_and_stays_stopped() {
    let mut app = App::new();
    app.handle_event(Event::Progress(2500));
    app.handle_event(press('q'));
    assert_eq!(state(&app), (false, Color::Green, 2500));
    app.handle_event(press('q'));
    assert_eq!(state(&app), (false, Color::Green, 2500));
}

#[test]
fn stopped_loop_handles_no_events() {
    let mut app = App::new();
    assert_eq!(app.run(&vec![press('q')]), 1);
    let later = vec![Event::Progress(7000), press('c'), press('q')];
    assert_eq!(app.run(&later), 0);
    assert_eq!(state(&app), (false, Color::Green, 0));
}

#[test]
fn run_stops_right_after_the_quit_key() {
    let mut app = App::new();
    let events = vec![press('c'), press('q'), Event::Progress(9000), press('c')];
    assert_eq!(app.run(&events), 2);
    assert_eq!(state(&app), (false, Color::LightYellow, 0));
}

#[test]
fn run_without_events_draws_nothing() {
    let mut app = App::new();
    assert_eq!(app.run(&Vec::new()), 0);
    assert_eq!(state(&app), (true, Color::Green, 0));
}

#[test]
fn run_to_the_end_of_the_events_keeps_running() {
    let mut app = App::new();
    assert_eq!(app.run(&vec![press('c'), Event::Progress(1)]), 2);
    assert_eq!(state(&app), (true, Color::LightYellow, 1));
}

#[test]
fn other_keys_change_nothing() {
    let mut app = App::new();
    app.handle_event(Event::Progress(4000));
    app.handle_event(press('c'));
    let before = state(&app);
    for c in ['x', 'Q', 'C', ' ', '1', 'é'] {
        app.handle_event(press(c));
        assert_eq!(state(&app), before);
    }
    app.handle_event(Event::Input(KeyEvent { code: KeyCode::Other, kind: KeyEventKind::Press }));
    assert_eq!(state(&app), before);
}

#[test]
fn only_presses_count() {
    let mut app = App::new();
    for kind in [KeyEventKind::Release, KeyEventKind::Repeat] {
        app.handle_key_event(KeyEvent { code: KeyCode::Char('q'), kind });
        app.handle_key_event(KeyEvent { code: KeyCode::Char('c'), kind });
    }
    assert_eq!(state(&app), (true, Color::Green, 0));
}

#[test]
fn handle_key_event_follows_the_bindings() {
    let mut app = App::new();
    app.handle_key_event(KeyEvent { code: KeyCode::Char('c'), kind: KeyEventKind::Press });
    assert_eq!(state(&app), (true, Color::LightYellow, 0));
    app.handle_key_event(KeyEvent { code: KeyCode::Char('q'), kind: KeyEventKind::Press });
    assert_eq!(state(&app), (false, Color::LightYellow, 0));
}

#[test]
fn pressed_tells_key_and_kind() {
    let down = KeyEvent { code: KeyCode::Char('q'), kind: KeyEventKind::Press };
    assert!(down.pressed('q'));
    assert!(!down.pressed('c'));
    let up = KeyEvent { code: KeyCode::Char('q'), kind: KeyEventKind::Release };
    assert!(!up.pressed('q'));
    let other = KeyEvent { code: KeyCode::Other, kind: KeyEventKind::Press };
    assert!(!other.pressed('q'));
}

#[test]
fn key_events_are_forwarded_unchanged() {
    for kind in [KeyEventKind::Press, KeyEventKind::Repeat, KeyEventKind::Release] {
        for code in [KeyCode::Char('q'), KeyCode::Char('z'), KeyCode::Other] {
            let key_event = KeyEvent { code, kind };
            assert_eq!(
                handle_input_event(TerminalEvent::Key(key_event)),
                Some(Event::Input(key_event))
            );
        }
    }
}

#[test]
fn other_terminal_events_are_dropped() {
    assert_eq!(handle_input_event(TerminalEvent::Other), None);
}
