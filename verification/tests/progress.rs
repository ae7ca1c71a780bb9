use process_overview::app::App;
use process_overview::event::Event;
use process_overview::progress::{clamp_progress, ProgressProducer, FULL, STEP, TICK_MILLIS};

#[test]
fn scale_step_and_period() {
    assert_eq!(FULL, 10_000);
    assert_eq!(STEP, 100);
    assert_eq!(TICK_MILLIS, 100);
}

#[test]
fn producer_starts_with_nothing() {
    assert_eq!(ProgressProducer::new().progress(), 0);
}

#[test]
fn first_ticks_report_one_and_two_percent() {
    let mut producer = ProgressProducer::new();
    assert_eq!(producer.tick(), Event::Progress(100));
    assert_eq!(producer.progress(), 100);
    assert_eq!(producer.tick(), Event::Progress(200));
    assert_eq!(producer.progress(), 200);
}

#[test]
fn each_tick_before_full_adds_one_step() {
    let mut producer = ProgressProducer::new();
    for k in 1..=100 {
        assert_eq!(producer.tick(), Event::Progress(k * 100));
    }
}

#[test]
fn hundredth_tick_reaches_full_and_later_ticks_stay() {
    let mut producer = ProgressProducer::new();
    for _ in 0..99 {
        producer.tick();
    }
    assert_eq!(producer.progress(), 9_900);
    assert_eq!(producer.tick(), Event::Progress(10_000));
    for _ in 0..50 {
        assert_eq!(producer.tick(), Event::Progress(10_000));
        assert_eq!(producer.progress(), FULL);
    }
}

#[test]
fn ticks_never_go_down() {
    let mut producer = ProgressProducer::new();
    let mut before = producer.progress();
    for _ in 0..120 {
        producer.tick();
        assert!(producer.progress() >= before);
        before = producer.progress();
    }
}

#[test]
fn clamp_keeps_values_in_range() {
    assert_eq!(clamp_progress(0), 0);
    assert_eq!(clamp_progress(1), 1);
    assert_eq!(clamp_progress(5_000), 5_000);
    assert_eq!(clamp_progress(9_999), 9_999);
    assert_eq!(clamp_progress(10_000), 10_000);
}

#[test]
fn clamp_cuts_values_out_of_range() {
    assert_eq!(clamp_progress(-1), 0);
    assert_eq!(clamp_progress(i32::MIN), 0);
    assert_eq!(clamp_progress(10_001), 10_000);
    assert_eq!(clamp_progress(65_536), 10_000);
    assert_eq!(clamp_progress(i32::MAX), 10_000);
}

#[test]
fn producer_feeds_the_event_loop() {
    let mut producer = ProgressProducer::new();
    let mut app = App::new();
    for _ in 0..37 {
        app.handle_event(producer.tick());
    }
    assert_eq!(app.progress(), 3_700);
    for _ in 0..100 {
        app.handle_event(producer.tick());
    }
    assert_eq!(app.progress(), 10_000);
    assert!(app.is_running());
}
