use evdev_switch::event::{Event, EV_KEY, EV_REL, EV_SYN, SYN_REPORT};
use evdev_switch::flush::finish_batch;
use evdev_switch::router::RouterState;

const TRIGGER: u16 = 30;

fn key(code: u16, value: i32) -> Event {
    Event::new(EV_KEY, code, value)
}

fn syn() -> Event {
    Event::new(EV_SYN, SYN_REPORT, 0)
}

#[test]
fn press_routes_report_to_switched() {
    let mut state = RouterState::new();
    let out = state.process_report(&vec![key(30, 1), key(2, 1)], TRIGGER);
    assert_eq!(out.switched_write, Some(vec![key(30, 1), key(2, 1), syn()]));
    assert_eq!(out.default_write, None);
    assert!(state.switched);
    assert!(!state.pending_disable);
}

#[test]
fn release_still_routes_to_switched() {
    let mut state = RouterState::new();
    state.process_report(&vec![key(30, 1), key(2, 1)], TRIGGER);
    let out = state.process_report(&vec![key(30, 0), key(2, 0)], TRIGGER);
    assert_eq!(out.switched_write, Some(vec![key(30, 0), key(2, 0), syn()]));
    assert_eq!(out.default_write, None);
    assert!(state.switched);
    assert!(state.pending_disable);
}

#[test]
fn disable_applies_at_next_report() {
    let mut state = RouterState::new();
    state.process_report(&vec![key(30, 1), key(2, 1)], TRIGGER);
    state.process_report(&vec![key(30, 0), key(2, 0)], TRIGGER);
    let out = state.process_report(&vec![key(3, 1), syn()], TRIGGER);
    assert_eq!(out.default_write, Some(vec![key(3, 1), syn()]));
    assert_eq!(out.switched_write, None);
    assert!(!state.switched);
    assert!(!state.pending_disable);
}

#[test]
fn report_without_trigger_goes_to_one_destination() {
    let report = vec![key(2, 1), Event::new(EV_REL, 0, -3), key(2, 0), syn()];
    let mut state = RouterState::new();
    let routed = state.route_report(&report, TRIGGER);
    assert_eq!(routed.default_batch, report);
    assert!(routed.switched_batch.is_empty());

    let mut state = RouterState { switched: true, pending_disable: false };
    let routed = state.route_report(&report, TRIGGER);
    assert_eq!(routed.switched_batch, report);
    assert!(routed.default_batch.is_empty());
    assert_eq!(state, RouterState { switched: true, pending_disable: false });
}

#[test]
fn press_mid_report_switches_that_event_on() {
    let mut state = RouterState::new();
    let report = vec![key(2, 1), key(30, 1), key(3, 1), syn()];
    let routed = state.route_report(&report, TRIGGER);
    assert_eq!(routed.default_batch, vec![key(2, 1)]);
    assert_eq!(routed.switched_batch, vec![key(30, 1), key(3, 1), syn()]);
}

#[test]
fn press_and_release_in_one_report_stay_together() {
    let mut state = RouterState::new();
    let report = vec![key(30, 1), key(30, 0), key(4, 1), syn()];
    let routed = state.route_report(&report, TRIGGER);
    assert!(routed.default_batch.is_empty());
    assert_eq!(routed.switched_batch, report);
    let routed = state.route_report(&vec![key(4, 0), syn()], TRIGGER);
    assert_eq!(routed.default_batch, vec![key(4, 0), syn()]);
    assert!(routed.switched_batch.is_empty());
}

#[test]
fn repeated_press_keeps_switched() {
    let mut state = RouterState::new();
    assert!(state.classify(&key(30, 1), TRIGGER));
    assert!(state.classify(&key(30, 2), TRIGGER));
    assert_eq!(state, RouterState { switched: true, pending_disable: false });
}

#[test]
fn trigger_code_of_another_type_is_no_trigger() {
    let mut state = RouterState::new();
    assert!(!state.classify(&Event::new(EV_REL, 30, 1), TRIGGER));
    assert!(!state.switched);
}

#[test]
fn release_without_press_goes_to_default() {
    let mut state = RouterState::new();
    let routed = state.route_report(&vec![key(30, 0), syn()], TRIGGER);
    assert_eq!(routed.default_batch, vec![key(30, 0), syn()]);
    assert!(state.pending_disable);
    state.begin_report();
    assert_eq!(state, RouterState::new());
}

#[test]
fn flush_appends_one_sync() {
    assert_eq!(finish_batch(vec![key(2, 1)]), Some(vec![key(2, 1), syn()]));
}

#[test]
fn flush_keeps_trailing_sync() {
    assert_eq!(finish_batch(vec![key(2, 1), syn()]), Some(vec![key(2, 1), syn()]));
}

#[test]
fn flush_skips_empty_batch() {
    assert_eq!(finish_batch(Vec::new()), None);
}

#[test]
fn flush_treats_other_syn_codes_as_events() {
    let dropped = Event::new(EV_SYN, 3, 0);
    assert_eq!(finish_batch(vec![dropped]), Some(vec![dropped, syn()]));
}

#[test]
fn event_predicates() {
    assert!(Event::sync().is_sync());
    assert_eq!(Event::sync(), syn());
    assert!(!key(0, 0).is_sync());
    assert!(key(30, 0).is_trigger(30));
    assert!(!key(31, 0).is_trigger(30));
}

#[test]
fn every_event_lands_once() {
    let report = vec![key(2, 1), key(30, 1), key(2, 0), key(30, 0), key(5, 1), syn()];
    let mut state = RouterState::new();
    let routed = state.route_report(&report, TRIGGER);
    assert_eq!(routed.default_batch, vec![key(2, 1)]);
    assert_eq!(
        routed.switched_batch,
        vec![key(30, 1), key(2, 0), key(30, 0), key(5, 1), syn()]
    );
    assert_eq!(routed.default_batch.len() + routed.switched_batch.len(), report.len());
}
