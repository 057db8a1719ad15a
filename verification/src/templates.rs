//! Anatomy templates: bundled measurement defaults for a population group.

use crate::anatomy::ArmMeasurements;
use crate::anatomy::LegMeasurements;
use vstd::prelude::*;

verus! {

/// An immutable bundle of default arm and leg measurement sets.
#[derive(Debug, Clone, Copy, PartialEq, Eq, Structural)]
pub struct AnatomyTemplate {
    pub arm_measurements: ArmMeasurements,
    pub leg_measurements: LegMeasurements,
}

} // verus!
