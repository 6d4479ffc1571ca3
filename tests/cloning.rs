use evdev_switch::caps::{clone_plan, AbsAxis, Capabilities, SetupStep};
use evdev_switch::event::{EV_ABS, EV_FF, EV_KEY, EV_LED, EV_MSC, EV_REL, EV_REP, EV_SYN};

fn axis(code: u16) -> AbsAxis {
    AbsAxis { code, minimum: 0, maximum: 4095, fuzz: 4, flat: 8, resolution: 12 }
}

fn caps(event_types: Vec<u16>) -> Capabilities {
    Capabilities {
        props: Vec::new(),
        event_types,
        keys: Vec::new(),
        rel_axes: Vec::new(),
        abs_axes: Vec::new(),
        misc: Vec::new(),
        switches: Vec::new(),
        leds: Vec::new(),
        sounds: Vec::new(),
        ff_features: Vec::new(),
        ff_effects_max: 0,
    }
}

#[test]
fn plan_for_keyboard_keeps_misc_leds_and_repeat() {
    let mut c = caps(vec![EV_SYN, EV_KEY, EV_MSC, EV_LED, EV_REP]);
    c.keys = vec![2, 30];
    c.misc = vec![4];
    c.leds = vec![0, 1, 2];
    let plan = clone_plan(&c);
    assert_eq!(plan.len(), 5);
    assert!(matches!(&plan[0], SetupStep::Props(p) if p.is_empty()));
    assert!(matches!(&plan[1], SetupStep::Keys(k) if *k == vec![2, 30]));
    assert!(matches!(&plan[2], SetupStep::Misc(m) if *m == vec![4]));
    assert!(matches!(&plan[3], SetupStep::Leds(l) if *l == vec![0, 1, 2]));
    assert!(matches!(&plan[4], SetupStep::KeyRepeat));
}

#[test]
fn plan_for_keyboard_and_mouse() {
    let mut c = caps(vec![EV_SYN, EV_KEY, EV_REL]);
    c.props = vec![1];
    c.keys = vec![2, 30, 272];
    c.rel_axes = vec![0, 1, 8];
    let plan = clone_plan(&c);
    assert_eq!(plan.len(), 3);
    assert!(matches!(&plan[0], SetupStep::Props(p) if *p == vec![1]));
    assert!(matches!(&plan[1], SetupStep::Keys(k) if *k == vec![2, 30, 272]));
    assert!(matches!(&plan[2], SetupStep::RelAxes(r) if *r == vec![0, 1, 8]));
}

#[test]
fn plan_for_tablet_keeps_axis_parameters() {
    let mut c = caps(vec![EV_SYN, EV_KEY, EV_ABS]);
    c.props = vec![0, 1];
    c.keys = vec![320, 330];
    c.abs_axes = vec![axis(0), axis(1)];
    let plan = clone_plan(&c);
    assert_eq!(plan.len(), 3);
    assert!(matches!(&plan[1], SetupStep::Keys(k) if *k == vec![320, 330]));
    assert!(matches!(&plan[2], SetupStep::AbsAxes(a) if *a == vec![axis(0), axis(1)]));
}

#[test]
fn plan_for_gamepad_keeps_force_feedback() {
    let mut c = caps(vec![EV_SYN, EV_KEY, EV_FF]);
    c.keys = vec![304];
    c.ff_features = vec![0x50, 0x51];
    c.ff_effects_max = 16;
    let plan = clone_plan(&c);
    assert_eq!(plan.len(), 4);
    assert!(matches!(&plan[2], SetupStep::FfFeatures(f) if *f == vec![0x50, 0x51]));
    assert!(matches!(&plan[3], SetupStep::FfEffectsMax(16)));
}

#[test]
fn plan_enables_only_listed_event_types() {
    let mut c = caps(vec![EV_SYN]);
    c.keys = vec![30];
    let plan = clone_plan(&c);
    assert_eq!(plan.len(), 1);
    assert!(matches!(&plan[0], SetupStep::Props(p) if p.is_empty()));
}
