use button_monitor::level::Level;
use button_monitor::monitor::{Event, Monitor, HOLD_POLL_MS, TICK_MS};
use button_monitor::pin::{InputPin, OutputPin};

fn led_changes(events: &[Event]) -> usize {
    events.iter().filter(|event| matches!(event, Event::Led(_))).count()
}

fn button_changes(events: &[Event]) -> usize {
    events.iter().filter(|event| matches!(event, Event::Button(_))).count()
}

#[test]
fn cadence_is_fifty_and_ten_milliseconds() {
    assert_eq!(TICK_MS, 50);
    assert_eq!(HOLD_POLL_MS, 10);
}

#[test]
fn monitor_starts_from_the_first_reading_with_the_led_off() {
    let monitor = Monitor::new(Some(Level::Low));
    assert_eq!(monitor.last_button(), Level::Low);
    assert_eq!(monitor.led(), Level::Low);
    assert!(!monitor.is_holding());
}

#[test]
fn monitor_without_a_first_reading_assumes_high() {
    let monitor = Monitor::new(None);
    assert_eq!(monitor.last_button(), Level::High);
    assert_eq!(monitor.led(), Level::Low);
    assert!(!monitor.is_holding());
}

#[test]
fn unchanged_reading_does_nothing() {
    let mut monitor = Monitor::new(Some(Level::High));
    let step = monitor.observe(Level::High);
    assert!(step.events.is_empty());
    assert_eq!(step.delay_ms, 50);
    assert_eq!(monitor.last_button(), Level::High);
    assert_eq!(monitor.led(), Level::Low);
    assert!(!monitor.is_holding());
}

#[test]
fn press_logs_button_then_led_and_starts_the_hold() {
    let mut monitor = Monitor::new(Some(Level::High));
    let step = monitor.observe(Level::Low);
    assert_eq!(step.events, vec![Event::Button(Level::Low), Event::Led(Level::High)]);
    assert_eq!(step.delay_ms, 0);
    assert_eq!(monitor.last_button(), Level::Low);
    assert_eq!(monitor.led(), Level::High);
    assert!(monitor.is_holding());
}

#[test]
fn held_button_is_looked_at_every_ten_milliseconds() {
    let mut monitor = Monitor::new(Some(Level::High));
    monitor.observe(Level::Low);
    let step = monitor.observe(Level::Low);
    assert!(step.events.is_empty());
    assert_eq!(step.delay_ms, 10);
    assert!(monitor.is_holding());
    assert_eq!(monitor.led(), Level::High);
}

#[test]
fn release_ends_the_hold_and_is_logged_by_the_next_poll() {
    let mut monitor = Monitor::new(Some(Level::High));
    monitor.observe(Level::Low);
    let end_of_hold = monitor.observe(Level::High);
    assert!(end_of_hold.events.is_empty());
    assert_eq!(end_of_hold.delay_ms, 50);
    assert!(!monitor.is_holding());
    assert_eq!(monitor.last_button(), Level::Low);
    let poll = monitor.observe(Level::High);
    assert_eq!(poll.events, vec![Event::Button(Level::High)]);
    assert_eq!(poll.delay_ms, 50);
    assert_eq!(monitor.last_button(), Level::High);
    assert_eq!(monitor.led(), Level::High);
}

#[test]
fn press_then_hold_then_release() {
    let mut monitor = Monitor::new(Some(Level::High));
    assert_eq!(monitor.led(), Level::Low);

    let press = monitor.observe(Level::Low);
    let lines: Vec<String> = press.events.iter().map(|event| event.message()).collect();
    assert_eq!(lines, vec!["Button state: Low", "LED state changed: High"]);
    assert_eq!(monitor.led(), Level::High);

    for _ in 0..5 {
        let held = monitor.observe(Level::Low);
        assert!(held.events.is_empty());
    }
    let end_of_hold = monitor.observe(Level::High);
    assert!(end_of_hold.events.is_empty());

    let release = monitor.observe(Level::High);
    let lines: Vec<String> = release.events.iter().map(|event| event.message()).collect();
    assert_eq!(lines, vec!["Button state: High"]);
    assert_eq!(monitor.led(), Level::High);
}

#[test]
fn one_sustained_press_toggles_once() {
    let mut monitor = Monitor::new(Some(Level::High));
    let readings = vec![Level::High, Level::Low, Level::Low, Level::Low, Level::High];
    let events = monitor.run(&readings);
    assert_eq!(events, vec![Event::Button(Level::Low), Event::Led(Level::High)]);
    assert_eq!(led_changes(&events), 1);
    let messages: Vec<String> = events.iter().map(|event| event.message()).collect();
    assert_eq!(
        messages.iter().filter(|message| message.starts_with("LED state changed")).count(),
        1
    );
    assert_eq!(monitor.led(), Level::High);
    assert!(!monitor.is_holding());
}

#[test]
fn second_press_switches_the_led_off_again() {
    let mut monitor = Monitor::new(Some(Level::High));
    let readings = vec![
        Level::Low,
        Level::High,
        Level::High,
        Level::Low,
        Level::Low,
        Level::High,
        Level::High,
    ];
    let events = monitor.run(&readings);
    assert_eq!(
        events,
        vec![
            Event::Button(Level::Low),
            Event::Led(Level::High),
            Event::Button(Level::High),
            Event::Button(Level::Low),
            Event::Led(Level::Low),
            Event::Button(Level::High),
        ]
    );
    assert_eq!(monitor.led(), Level::Low);
}

#[test]
fn repeated_polls_add_no_entries() {
    let mut monitor = Monitor::new(Some(Level::Low));
    let events = monitor.run(&vec![Level::High, Level::High, Level::High, Level::High]);
    assert_eq!(events, vec![Event::Button(Level::High)]);
    assert_eq!(button_changes(&events), 1);
    let more = monitor.run(&vec![Level::High, Level::High]);
    assert!(more.is_empty());
}

#[test]
fn empty_run_changes_nothing() {
    let mut monitor = Monitor::new(Some(Level::High));
    let events = monitor.run(&Vec::new());
    assert!(events.is_empty());
    assert_eq!(monitor.last_button(), Level::High);
    assert_eq!(monitor.led(), Level::Low);
}

#[test]
fn transition_to_high_never_touches_the_led() {
    let mut monitor = Monitor::new(Some(Level::Low));
    let step = monitor.observe(Level::High);
    assert_eq!(step.events, vec![Event::Button(Level::High)]);
    assert_eq!(monitor.led(), Level::Low);
    assert!(!monitor.is_holding());
}

#[test]
fn led_entries_equal_press_entries_over_a_long_run() {
    let mut monitor = Monitor::new(None);
    let mut readings = Vec::new();
    for round in 0..7 {
        readings.push(Level::Low);
        for _ in 0..round {
            readings.push(Level::Low);
        }
        readings.push(Level::High);
        readings.push(Level::High);
    }
    let events = monitor.run(&readings);
    let presses = events.iter().filter(|event| **event == Event::Button(Level::Low)).count();
    assert_eq!(presses, 7);
    assert_eq!(led_changes(&events), 7);
    assert_eq!(monitor.led(), Level::High);
    for (i, event) in events.iter().enumerate() {
        if matches!(event, Event::Led(_)) {
            assert_eq!(events[i - 1], Event::Button(Level::Low));
        }
    }
}

#[test]
fn simulated_flip_is_seen_and_drives_the_led() {
    let mut button = InputPin::new();
    let mut led = OutputPin::new();
    let mut monitor = Monitor::new(Some(button.read()));

    let idle = monitor.tick(&button, &mut led);
    assert!(idle.events.is_empty());
    assert_eq!(led.level(), Level::Low);

    button.flip();
    let press = monitor.tick(&button, &mut led);
    assert_eq!(press.events, vec![Event::Button(Level::Low), Event::Led(Level::High)]);
    assert_eq!(led.level(), Level::High);
    assert_eq!(monitor.led(), Level::High);

    let held = monitor.tick(&button, &mut led);
    assert!(held.events.is_empty());
    assert_eq!(held.delay_ms, 10);

    button.flip();
    let end_of_hold = monitor.tick(&button, &mut led);
    assert!(end_of_hold.events.is_empty());
    let release = monitor.tick(&button, &mut led);
    assert_eq!(release.events, vec![Event::Button(Level::High)]);
    assert_eq!(led.level(), Level::High);
}
