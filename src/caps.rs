//! Capability descriptors, and the plan that gives a virtual device the
//! capabilities of a source device.
use vstd::prelude::*;

use crate::event::{EV_ABS, EV_FF, EV_KEY, EV_LED, EV_MSC, EV_REL, EV_REP, EV_SND, EV_SW, EV_SYN};

verus! {

/// One absolute axis with its range, noise filter, dead zone and resolution.
#[derive(Clone, Copy, Debug, PartialEq, Eq, Structural)]
pub struct AbsAxis {
    pub code: u16,
    pub minimum: i32,
    pub maximum: i32,
    pub fuzz: i32,
    pub flat: i32,
    pub resolution: i32,
}

/// What a device reports that it supports: its properties, its event types,
/// the codes it supports of each type that has codes, and how many
/// force-feedback effects it can hold at once.
#[derive(Clone, Debug)]
pub struct Capabilities {
    pub props: Vec<u16>,
    pub event_types: Vec<u16>,
    pub keys: Vec<u16>,
    pub rel_axes: Vec<u16>,
    pub abs_axes: Vec<AbsAxis>,
    pub misc: Vec<u16>,
    pub switches: Vec<u16>,
    pub leds: Vec<u16>,
    pub sounds: Vec<u16>,
    pub ff_features: Vec<u16>,
    pub ff_effects_max: u32,
}

/// A capability descriptor as sets: what a device supports, whatever the
/// order in which it was listed.
pub struct CapsModel {
    pub props: Set<u16>,
    pub event_types: Set<u16>,
    pub keys: Set<u16>,
    pub rel_axes: Set<u16>,
    pub abs_axes: Set<AbsAxis>,
    pub misc: Set<u16>,
    pub switches: Set<u16>,
    pub leds: Set<u16>,
    pub sounds: Set<u16>,
    pub ff_features: Set<u16>,
    pub ff_effects_max: u32,
}

impl View for Capabilities {
    type V = CapsModel;

    open spec fn view(&self) -> CapsModel {
        CapsModel {
            props: self.props@.to_set(),
            event_types: self.event_types@.to_set(),
            keys: self.keys@.to_set(),
            rel_axes: self.rel_axes@.to_set(),
            abs_axes: self.abs_axes@.to_set(),
            misc: self.misc@.to_set(),
            switches: self.switches@.to_set(),
            leds: self.leds@.to_set(),
            sounds: self.sounds@.to_set(),
            ff_features: self.ff_features@.to_set(),
            ff_effects_max: self.ff_effects_max,
        }
    }
}

/// One configuration call made on a virtual device before it is created.
/// Each call that takes codes enables its event type, even with no codes.
#[derive(Clone, Debug)]
pub enum SetupStep {
    /// Sets these device properties.
    Props(Vec<u16>),
    /// Enables key events, with these key codes.
    Keys(Vec<u16>),
    /// Enables relative axis events, with these axes.
    RelAxes(Vec<u16>),
    /// Enables absolute axis events, with these axes and their parameters.
    AbsAxes(Vec<AbsAxis>),
    /// Enables miscellaneous events, with these codes.
    Misc(Vec<u16>),
    /// Enables switch events, with these switches.
    Switches(Vec<u16>),
    /// Enables LED events, with these LEDs.
    Leds(Vec<u16>),
    /// Enables sound events, with these sounds.
    Sounds(Vec<u16>),
    /// Enables key autorepeat.
    KeyRepeat,
    /// Enables force-feedback events, with these features.
    FfFeatures(Vec<u16>),
    /// Sets how many force-feedback effects the device holds at once; a
    /// positive number enables force-feedback events.
    FfEffectsMax(u32),
}

/// A virtual device before any setup: it reports synchronization events only.
pub open spec fn blank_model() -> CapsModel {
    CapsModel {
        props: Set::empty(),
        event_types: set![EV_SYN],
        keys: Set::empty(),
        rel_axes: Set::empty(),
        abs_axes: Set::empty(),
        misc: Set::empty(),
        switches: Set::empty(),
        leds: Set::empty(),
        sounds: Set::empty(),
        ff_features: Set::empty(),
        ff_effects_max: 0,
    }
}

/// The capabilities of a device after one more setup step.
pub open spec fn apply_step(m: CapsModel, step: SetupStep) -> CapsModel {
    match step {
        SetupStep::Props(v) => CapsModel { props: m.props + v@.to_set(), ..m },
        SetupStep::Keys(v) => CapsModel {
            event_types: m.event_types.insert(EV_KEY),
            keys: m.keys + v@.to_set(),
            ..m
        },
        SetupStep::RelAxes(v) => CapsModel {
            event_types: m.event_types.insert(EV_REL),
            rel_axes: m.rel_axes + v@.to_set(),
            ..m
        },
        SetupStep::AbsAxes(v) => CapsModel {
            event_types: m.event_types.insert(EV_ABS),
            abs_axes: m.abs_axes + v@.to_set(),
            ..m
        },
        SetupStep::Misc(v) => CapsModel {
            event_types: m.event_types.insert(EV_MSC),
            misc: m.misc + v@.to_set(),
            ..m
        },
        SetupStep::Switches(v) => CapsModel {
            event_types: m.event_types.insert(EV_SW),
            switches: m.switches + v@.to_set(),
            ..m
        },
        SetupStep::Leds(v) => CapsModel {
            event_types: m.event_types.insert(EV_LED),
            leds: m.leds + v@.to_set(),
            ..m
        },
        SetupStep::Sounds(v) => CapsModel {
            event_types: m.event_types.insert(EV_SND),
            sounds: m.sounds + v@.to_set(),
            ..m
        },
        SetupStep::KeyRepeat => CapsModel { event_types: m.event_types.insert(EV_REP), ..m },
        SetupStep::FfFeatures(v) => CapsModel {
            event_types: m.event_types.insert(EV_FF),
            ff_features: m.ff_features + v@.to_set(),
            ..m
        },
        SetupStep::FfEffectsMax(n) => CapsModel {
            event_types: if n > 0 {
                m.event_types.insert(EV_FF)
            } else {
                m.event_types
            },
            ff_effects_max: n,
            ..m
        },
    }
}

/// The capabilities of a device set up by `steps`, in order.
pub open spec fn applied(steps: Seq<SetupStep>) -> CapsModel
    decreases steps.len(),
{
    if steps.len() == 0 {
        blank_model()
    } else {
        apply_step(applied(steps.drop_last()), steps.last())
    }
}

/// The event types that setup calls can enable on a virtual device.
pub open spec fn buildable_types() -> Set<u16> {
    set![EV_SYN, EV_KEY, EV_REL, EV_ABS, EV_MSC, EV_SW, EV_LED, EV_SND, EV_REP, EV_FF]
}

/// The codes in `codes` when `c` lists event type `t`, else none.
pub open spec fn codes_if<A>(c: Capabilities, t: u16, codes: Set<A>) -> Set<A> {
    if c@.event_types.contains(t) {
        codes
    } else {
        Set::empty()
    }
}

/// What the clone of `c` supports: synchronization and each event type of
/// `c` that setup can enable, with the codes of `c` of each such type, and
/// the properties of `c`.
pub open spec fn clone_model(c: Capabilities) -> CapsModel {
    CapsModel {
        props: c@.props,
        event_types: set![EV_SYN] + c@.event_types.intersect(buildable_types()),
        keys: codes_if(c, EV_KEY, c@.keys),
        rel_axes: codes_if(c, EV_REL, c@.rel_axes),
        abs_axes: codes_if(c, EV_ABS, c@.abs_axes),
        misc: codes_if(c, EV_MSC, c@.misc),
        switches: codes_if(c, EV_SW, c@.switches),
        leds: codes_if(c, EV_LED, c@.leds),
        sounds: codes_if(c, EV_SND, c@.sounds),
        ff_features: codes_if(c, EV_FF, c@.ff_features),
        ff_effects_max: if c@.event_types.contains(EV_FF) {
            c.ff_effects_max
        } else {
            0
        },
    }
}

/// A consistent descriptor that a virtual device can replicate whole: it
/// lists synchronization, each of its event types can be enabled by setup,
/// and it has codes, or force-feedback effect slots, only of the event
/// types it lists.
pub open spec fn clonable(c: Capabilities) -> bool {
    let types = c@.event_types;
    &&& types.contains(EV_SYN)
    &&& types.subset_of(buildable_types())
    &&& !types.contains(EV_KEY) ==> c.keys@.len() == 0
    &&& !types.contains(EV_REL) ==> c.rel_axes@.len() == 0
    &&& !types.contains(EV_ABS) ==> c.abs_axes@.len() == 0
    &&& !types.contains(EV_MSC) ==> c.misc@.len() == 0
    &&& !types.contains(EV_SW) ==> c.switches@.len() == 0
    &&& !types.contains(EV_LED) ==> c.leds@.len() == 0
    &&& !types.contains(EV_SND) ==> c.sounds@.len() == 0
    &&& !types.contains(EV_FF) ==> c.ff_features@.len() == 0 && c.ff_effects_max == 0
}

fn has_type(types: &Vec<u16>, t: u16) -> (r: bool)
    ensures
        r == types@.contains(t),
{
    let mut i: usize = 0;
    while i < types.len()
        invariant
            i <= types@.len(),
            forall|j: int| 0 <= j < i ==> types@[j] != t,
        decreases types@.len() - i,
    {
        if types[i] == t {
            return true;
        }
        i = i + 1;
    }
    false
}

fn copy_codes(v: &Vec<u16>) -> (r: Vec<u16>)
    ensures
        r@ == v@,
{
    let r = v.clone();
    assert(r@ =~= v@);
    r
}

fn copy_axes(v: &Vec<AbsAxis>) -> (r: Vec<AbsAxis>)
    ensures
        r@ == v@,
{
    let mut r: Vec<AbsAxis> = Vec::new();
    let mut i: usize = 0;
    while i < v.len()
        invariant
            i <= v@.len(),
            r@ == v@.take(i as int),
        decreases v@.len() - i,
    {
        r.push(v[i]);
        assert(v@.take(i + 1) =~= v@.take(i as int).push(v@[i as int]));
        i = i + 1;
    }
    assert(v@.take(i as int) =~= v@);
    r
}

proof fn lemma_applied_push(steps: Seq<SetupStep>, step: SetupStep)
    ensures
        applied(steps.push(step)) == apply_step(applied(steps), step),
{
    assert(steps.push(step).drop_last() =~= steps);
}

/// The setup steps that give a new virtual device the capabilities of `c`:
/// all of them where `c` is clonable.
#[verifier::rlimit(100)]
pub fn clone_plan(c: &Capabilities) -> (r: Vec<SetupStep>)
    ensures
        applied(r@) == clone_model(*c),
        clonable(*c) ==> applied(r@) == c@,
{
    let mut steps: Vec<SetupStep> = Vec::new();
    steps.push(SetupStep::Props(copy_codes(&c.props)));
    proof {
        lemma_applied_push(Seq::empty(), steps@.last());
        assert(Seq::<SetupStep>::empty().push(steps@.last()) =~= steps@);
    }
    if has_type(&c.event_types, EV_KEY) {
        let ghost before = steps@;
        steps.push(SetupStep::Keys(copy_codes(&c.keys)));
        proof { lemma_applied_push(before, steps@.last()); }
    }
    if has_type(&c.event_types, EV_REL) {
        let ghost before = steps@;
        steps.push(SetupStep::RelAxes(copy_codes(&c.rel_axes)));
        proof { lemma_applied_push(before, steps@.last()); }
    }
    if has_type(&c.event_types, EV_ABS) {
        let ghost before = steps@;
        steps.push(SetupStep::AbsAxes(copy_axes(&c.abs_axes)));
        proof { lemma_applied_push(before, steps@.last()); }
    }
    if has_type(&c.event_types, EV_MSC) {
        let ghost before = steps@;
        steps.push(SetupStep::Misc(copy_codes(&c.misc)));
        proof { lemma_applied_push(before, steps@.last()); }
    }
    if has_type(&c.event_types, EV_SW) {
        let ghost before = steps@;
        steps.push(SetupStep::Switches(copy_codes(&c.switches)));
        proof { lemma_applied_push(before, steps@.last()); }
    }
    if has_type(&c.event_types, EV_LED) {
        let ghost before = steps@;
        steps.push(SetupStep::Leds(copy_codes(&c.leds)));
        proof { lemma_applied_push(before, steps@.last()); }
    }
    if has_type(&c.event_types, EV_SND) {
        let ghost before = steps@;
        steps.push(SetupStep::Sounds(copy_codes(&c.sounds)));
        proof { lemma_applied_push(before, steps@.last()); }
    }
    if has_type(&c.event_types, EV_REP) {
        let ghost before = steps@;
        steps.push(SetupStep::KeyRepeat);
        proof { lemma_applied_push(before, steps@.last()); }
    }
    if has_type(&c.event_types, EV_FF) {
        let ghost before = steps@;
        steps.push(SetupStep::FfFeatures(copy_codes(&c.ff_features)));
        proof { lemma_applied_push(before, steps@.last()); }
        let ghost before = steps@;
        steps.push(SetupStep::FfEffectsMax(c.ff_effects_max));
        proof { lemma_applied_push(before, steps@.last()); }
    }
    proof {
        let m = applied(steps@);
        let e = clone_model(*c);
        assert(m.props =~= e.props);
        assert(m.keys =~= e.keys);
        assert(m.rel_axes =~= e.rel_axes);
        assert(m.abs_axes =~= e.abs_axes);
        assert(m.misc =~= e.misc);
        assert(m.switches =~= e.switches);
        assert(m.leds =~= e.leds);
        assert(m.sounds =~= e.sounds);
        assert(m.ff_features =~= e.ff_features);
        assert(m.event_types =~= e.event_types);
        lemma_clone_round_trip(*c);
    }
    steps
}

/// A device set up by the plan of a clonable descriptor reports exactly
/// that descriptor: the same properties and event types, the same codes of
/// each type, absolute axes with the same parameters, and the same number
/// of force-feedback effect slots.
pub proof fn lemma_clone_round_trip(c: Capabilities)
    ensures
        clonable(c) ==> clone_model(c) == c@,
{
    if clonable(c) {
        let m = clone_model(c);
        let types = c@.event_types;
        if !types.contains(EV_KEY) {
            assert(c.keys@ =~= Seq::<u16>::empty());
        }
        if !types.contains(EV_REL) {
            assert(c.rel_axes@ =~= Seq::<u16>::empty());
        }
        if !types.contains(EV_ABS) {
            assert(c.abs_axes@ =~= Seq::<AbsAxis>::empty());
        }
        if !types.contains(EV_MSC) {
            assert(c.misc@ =~= Seq::<u16>::empty());
        }
        if !types.contains(EV_SW) {
            assert(c.switches@ =~= Seq::<u16>::empty());
        }
        if !types.contains(EV_LED) {
            assert(c.leds@ =~= Seq::<u16>::empty());
        }
        if !types.contains(EV_SND) {
            assert(c.sounds@ =~= Seq::<u16>::empty());
        }
        if !types.contains(EV_FF) {
            assert(c.ff_features@ =~= Seq::<u16>::empty());
        }
        assert(m.keys =~= c@.keys);
        assert(m.rel_axes =~= c@.rel_axes);
        assert(m.abs_axes =~= c@.abs_axes);
        assert(m.misc =~= c@.misc);
        assert(m.switches =~= c@.switches);
        assert(m.leds =~= c@.leds);
        assert(m.sounds =~= c@.sounds);
        assert(m.ff_features =~= c@.ff_features);
        assert(m.event_types =~= types);
    }
}

} // verus!
