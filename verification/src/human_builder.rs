//! The fluent builder that assembles a [`Human`](crate::human::Human).
//!
//! The builder accumulates identity, a name choice, sex, vitals, and two
//! measurement sets. Name resolution follows a fixed precedence: an
//! explicit designation wins outright, then a whole structured name, then
//! the individually set parts. Measurement state is last-write-wins
//! between applying a template and overriding a set directly.

use crate::anatomy::ArmMeasurements;
use crate::anatomy::Appendage;
use crate::anatomy::LegMeasurements;
use crate::anatomy::LimbStatus;
use crate::classification::Sex;
use crate::human::Human;
use crate::identity::Identifier;
use crate::naming::Moniker;
use crate::naming::MonikerView;
use crate::naming::NameParts;
use crate::naming::NameView;
use crate::naming::moniker_display;
use crate::templates::AnatomyTemplate;
use crate::units::Centimeters;
use crate::units::Direction;
use crate::vitals::BPM;
use crate::vitals::BloodPressure;
use crate::vitals::Celsius;
use crate::vitals::LiveVitals;
use crate::vitals::VitalStatus;
use vstd::prelude::*;

verus! {

/// The mutable configuration accumulator behind [`Human::builder`].
pub struct HumanBuilder {
    pub id: Identifier,
    pub name_prefix: Option<String>,
    pub name_first: Option<String>,
    pub name_middle: Option<String>,
    pub name_last: Option<String>,
    pub name_suffix: Option<String>,
    pub name_moniker: Option<NameParts>,
    pub name_designation: Option<String>,
    pub sex: Sex,
    pub vitals: VitalStatus,
    pub arm_measurements: ArmMeasurements,
    pub leg_measurements: LegMeasurements,
}

/// The moniker that [`HumanBuilder::build`] resolves from the builder's
/// name state: a designation wins outright, then a whole structured name,
/// then the individually set parts.
pub open spec fn resolved_moniker(b: HumanBuilder) -> MonikerView {
    if b.name_designation is Some {
        MonikerView::Designation(b.name_designation->0@)
    } else if b.name_moniker is Some {
        MonikerView::Name(b.name_moniker->0@)
    } else {
        MonikerView::Name(
            NameView {
                prefix: b.name_prefix.deep_view(),
                first: b.name_first.deep_view(),
                middle: b.name_middle.deep_view(),
                last: b.name_last.deep_view(),
                suffix: b.name_suffix.deep_view(),
            },
        )
    }
}

/// The four appendages every built organism starts with: left and right
/// arm, left and right leg, all intact, all carrying the builder's
/// current measurements.
pub open spec fn built_appendages(arm: ArmMeasurements, leg: LegMeasurements) -> Seq<Appendage> {
    seq![
        Appendage::Arm { side: Direction::Left, measurements: arm, status: LimbStatus::Intact },
        Appendage::Arm { side: Direction::Right, measurements: arm, status: LimbStatus::Intact },
        Appendage::Leg { side: Direction::Left, measurements: leg, status: LimbStatus::Intact },
        Appendage::Leg { side: Direction::Right, measurements: leg, status: LimbStatus::Intact },
    ]
}

/// A builder fresh from [`HumanBuilder::new`]: no name state, unknown
/// sex, default measurements, and default live vitals.
pub open spec fn is_fresh_builder(b: HumanBuilder) -> bool {
    &&& b.name_prefix is None
    &&& b.name_first is None
    &&& b.name_middle is None
    &&& b.name_last is None
    &&& b.name_suffix is None
    &&& b.name_moniker is None
    &&& b.name_designation is None
    &&& b.sex == Sex::Unknown
    &&& b.vitals == VitalStatus::Alive(
        LiveVitals {
            blood_pressure: BloodPressure(0, 0),
            temperature: Celsius(0),
            pulse: BPM(0),
            respiration_rate: 0u32,
        },
    )
    &&& b.arm_measurements == (ArmMeasurements {
        upper_length: Centimeters(38),
        triceps_length: Centimeters(25),
        span: Centimeters(175),
        flexed_bicep: Centimeters(35),
        unflexed_bicep: Centimeters(32),
    })
    &&& b.leg_measurements == (LegMeasurements { inseam: Centimeters(81), quad: Centimeters(58) })
}

/// `b` with both measurement sets overwritten from the template `t`.
pub open spec fn applied_template(b: HumanBuilder, t: AnatomyTemplate) -> HumanBuilder {
    HumanBuilder {
        arm_measurements: t.arm_measurements,
        leg_measurements: t.leg_measurements,
        ..b
    }
}

/// `b` with its arm measurement set replaced by `m`.
pub open spec fn overridden_arms(b: HumanBuilder, m: ArmMeasurements) -> HumanBuilder {
    HumanBuilder { arm_measurements: m, ..b }
}

impl HumanBuilder {
    /// A fresh builder: a new identifier, no name state, unknown sex,
    /// default measurements, and default live vitals.
    pub fn new() -> (r: HumanBuilder)
        ensures
            is_fresh_builder(r),
    {
        HumanBuilder {
            id: Identifier::new(),
            name_prefix: None,
            name_first: None,
            name_middle: None,
            name_last: None,
            name_suffix: None,
            name_moniker: None,
            name_designation: None,
            sex: Sex::Unknown,
            arm_measurements: ArmMeasurements::default(),
            leg_measurements: LegMeasurements::default(),
            vitals: VitalStatus::Alive(LiveVitals::default()),
        }
    }

    /// Sets an explicit designation, which wins over any name parts.
    pub fn designation(self, des: String) -> (r: HumanBuilder)
        ensures
            r == (HumanBuilder { name_designation: Some(des), ..self }),
    {
        HumanBuilder { name_designation: Some(des), ..self }
    }

    /// Sets a whole structured name.
    pub fn name(self, moniker: NameParts) -> (r: HumanBuilder)
        ensures
            r == (HumanBuilder { name_moniker: Some(moniker), ..self }),
    {
        HumanBuilder { name_moniker: Some(moniker), ..self }
    }

    /// Sets the sex.
    pub fn sex(self, sex: Sex) -> (r: HumanBuilder)
        ensures
            r == (HumanBuilder { sex, ..self }),
    {
        HumanBuilder { sex, ..self }
    }

    /// Sets the vital status.
    pub fn vitals(self, vital_status: VitalStatus) -> (r: HumanBuilder)
        ensures
            r == (HumanBuilder { vitals: vital_status, ..self }),
    {
        HumanBuilder { vitals: vital_status, ..self }
    }

    /// Sets the vital status; same contract as [`HumanBuilder::vitals`].
    pub fn with_vitals(self, vitals: VitalStatus) -> (r: HumanBuilder)
        ensures
            r == (HumanBuilder { vitals, ..self }),
    {
        HumanBuilder { vitals, ..self }
    }

    /// Overwrites both measurement sets from a template.
    pub fn using_template(self, template: &AnatomyTemplate) -> (r: HumanBuilder)
        ensures
            r == applied_template(self, *template),
    {
        HumanBuilder {
            arm_measurements: template.arm_measurements,
            leg_measurements: template.leg_measurements,
            ..self
        }
    }

    /// Overrides just the arm measurement set.
    pub fn with_arm_measurements(self, measurements: ArmMeasurements) -> (r: HumanBuilder)
        ensures
            r == overridden_arms(self, measurements),
    {
        HumanBuilder { arm_measurements: measurements, ..self }
    }

    /// Materialises the organism. Always succeeds: the name resolves by
    /// the fixed precedence, and exactly four intact appendages are
    /// created from the current measurement state.
    pub fn build(self) -> (r: Human)
        ensures
            r.id == self.id,
            r.name@ == resolved_moniker(self),
            r.sex == self.sex,
            r.vitals == self.vitals,
            r.appendages@ == built_appendages(self.arm_measurements, self.leg_measurements),
            r.appendages@.len() == 4,
    {
        let name = if let Some(des) = self.name_designation {
            Moniker::Designation(des)
        } else if let Some(mon) = self.name_moniker {
            Moniker::Name(mon)
        } else {
            Moniker::Name(
                NameParts {
                    prefix: self.name_prefix,
                    first: self.name_first,
                    middle: self.name_middle,
                    last: self.name_last,
                    suffix: self.name_suffix,
                },
            )
        };
        let mut appendages: Vec<Appendage> = Vec::new();
        appendages.push(
            Appendage::Arm {
                side: Direction::Left,
                measurements: self.arm_measurements,
                status: LimbStatus::Intact,
            },
        );
        appendages.push(
            Appendage::Arm {
                side: Direction::Right,
                measurements: self.arm_measurements,
                status: LimbStatus::Intact,
            },
        );
        appendages.push(
            Appendage::Leg {
                side: Direction::Left,
                measurements: self.leg_measurements,
                status: LimbStatus::Intact,
            },
        );
        appendages.push(
            Appendage::Leg {
                side: Direction::Right,
                measurements: self.leg_measurements,
                status: LimbStatus::Intact,
            },
        );
        proof {
            assert(appendages@ =~= built_appendages(self.arm_measurements, self.leg_measurements));
        }
        Human { id: self.id, name, sex: self.sex, appendages, vitals: self.vitals }
    }
}

/// An explicit designation wins outright: whatever else the builder's
/// name state holds, the built organism displays the designation
/// verbatim.
pub proof fn lemma_designation_wins(b: HumanBuilder, d: String)
    requires
        b.name_designation == Some(d),
    ensures
        moniker_display(resolved_moniker(b)) == d@,
{
}

/// Measurement state is last-write-wins: applying a template and then
/// overriding the arm set leaves the override in force, and overriding
/// first and then applying a template leaves the template in force.
pub proof fn lemma_measurements_last_write_wins(
    b: HumanBuilder,
    t: AnatomyTemplate,
    m: ArmMeasurements,
)
    ensures
        overridden_arms(applied_template(b, t), m).arm_measurements == m,
        applied_template(overridden_arms(b, m), t).arm_measurements == t.arm_measurements,
{
}

} // verus!
