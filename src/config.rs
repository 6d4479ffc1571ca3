//! Operator settings of one routing unit.
use vstd::prelude::*;

verus! {

/// What the operator configures: the source device's name, the trigger
/// key's code, the names of the two virtual devices, and two switches.
#[derive(Clone, Debug)]
pub struct Config {
    pub device: String,
    pub trigger: u16,
    pub output_default: String,
    pub output_switched: String,
    pub grab: bool,
    pub debug: bool,
}

} // verus!
