use tui_clap::events::{should_stop_after, Config, Disconnected, Events, Key, TermEvent};

#[test]
fn events_are_observed_in_delivery_order() {
    let mut events = Events::from_config(Config::default());
    let e1 = TermEvent::Key(Key::Char('a'));
    let e2 = TermEvent::Resize(80, 24);
    let e3 = TermEvent::Key(Key::Enter);
    events.push_event(e1);
    events.push_event(e2);
    events.push_event(e3);
    assert_eq!(events.pending(), 3);
    assert_eq!(events.next(), Ok(Some(e1)));
    assert_eq!(events.next(), Ok(Some(e2)));
    assert_eq!(events.next(), Ok(Some(e3)));
    assert_eq!(events.next(), Ok(None));
}

#[test]
fn suppressed_exit_key_is_delivered_and_producer_keeps_running() {
    let mut events = Events::from_config(Config::default());
    events.disable_exit_key();
    events.push_event(TermEvent::Key(Key::Char('q')));
    assert!(events.producer_alive());
    assert_eq!(events.next(), Ok(Some(TermEvent::Key(Key::Char('q')))));
    assert_eq!(events.next(), Ok(None));
    events.push_event(TermEvent::Key(Key::Char('x')));
    assert_eq!(events.next(), Ok(Some(TermEvent::Key(Key::Char('x')))));
}

#[test]
fn unsuppressed_exit_key_is_delivered_then_queue_reports_exhaustion() {
    let mut events = Events::from_config(Config::default());
    events.push_event(TermEvent::Key(Key::Char('q')));
    assert!(!events.producer_alive());
    assert_eq!(events.next(), Ok(Some(TermEvent::Key(Key::Char('q')))));
    assert_eq!(events.next(), Err(Disconnected));
    assert_eq!(events.next(), Err(Disconnected));
}

#[test]
fn reenabled_exit_key_stops_the_producer_again() {
    let mut events = Events::from_config(Config::default());
    events.disable_exit_key();
    events.push_event(TermEvent::Key(Key::Char('q')));
    assert!(events.producer_alive());
    events.enable_exit_key();
    events.push_event(TermEvent::Key(Key::Char('q')));
    assert!(!events.producer_alive());
}

#[test]
fn non_exit_keys_never_stop_the_producer() {
    let mut events = Events::from_config(Config::default());
    events.push_event(TermEvent::Key(Key::Char('a')));
    events.push_event(TermEvent::Resize(10, 10));
    events.push_event(TermEvent::Other);
    assert!(events.producer_alive());
}

#[test]
fn default_bridge_uses_q_and_a_quarter_second_tick() {
    let config = Config::default();
    assert_eq!(config.exit_key, Key::Char('q'));
    assert_eq!(config.tick_millis, 250);
    let mut events = Events::default();
    assert!(events.producer_alive());
    assert_eq!(events.next(), Ok(None));
}

#[test]
fn custom_exit_key_is_honoured() {
    let mut events = Events::from_config(Config { exit_key: Key::Esc, tick_millis: 100 });
    events.push_event(TermEvent::Key(Key::Char('q')));
    assert!(events.producer_alive());
    events.push_event(TermEvent::Key(Key::Esc));
    assert!(!events.producer_alive());
}

#[test]
fn stop_decision_matches_the_bridge() {
    assert!(should_stop_after(&TermEvent::Key(Key::Char('q')), Key::Char('q'), false));
    assert!(!should_stop_after(&TermEvent::Key(Key::Char('q')), Key::Char('q'), true));
    assert!(!should_stop_after(&TermEvent::Key(Key::Char('a')), Key::Char('q'), false));
    assert!(!should_stop_after(&TermEvent::Resize(1, 1), Key::Char('q'), false));
}
