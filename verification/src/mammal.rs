//! A generic mammal: an animal with class-level characteristics.

use crate::characteristics::Anatomy;
use crate::characteristics::Mobility;
use crate::characteristics::Summarizable;
use crate::identity::Identifier;
use crate::identity::uuid_text_of;
use crate::nomenclature::Nomenclature;
use crate::vitals::BPM;
use crate::vitals::BloodPressure;
use crate::vitals::Celsius;
use crate::vitals::LiveVitals;
use crate::vitals::VitalStatus;
use vstd::prelude::*;
use vstd::string::StrSliceExecFns;
use vstd::string::StringExecFns;

verus! {

/// A generic mammal: warm-blooded, with or without fur.
#[derive(Debug)]
pub struct Mammal {
    pub id: Identifier,
    pub species: String,
    pub vitals: VitalStatus,
    pub has_fur: bool,
}

impl Mammal {
    /// A live mammal of the given species, with fur, default vital
    /// signs, and a fresh identifier.
    pub fn new(species: String) -> (r: Mammal)
        ensures
            r.species@ == species@,
            r.has_fur == true,
            r.vitals == VitalStatus::Alive(
                LiveVitals {
                    blood_pressure: BloodPressure(0, 0),
                    temperature: Celsius(0),
                    pulse: BPM(0),
                    respiration_rate: 0u32,
                },
            ),
    {
        Mammal {
            id: Identifier::new(),
            species,
            vitals: VitalStatus::Alive(LiveVitals::default()),
            has_fur: true,
        }
    }

    /// The same mammal with its vital status replaced.
    pub fn with_vitals(self, vitals: VitalStatus) -> (r: Mammal)
        ensures
            r.id == self.id,
            r.species == self.species,
            r.has_fur == self.has_fur,
            r.vitals == vitals,
    {
        Mammal { vitals, ..self }
    }

    /// The same mammal with its fur flag replaced.
    pub fn with_fur(self, has_fur: bool) -> (r: Mammal)
        ensures
            r.id == self.id,
            r.species == self.species,
            r.vitals == self.vitals,
            r.has_fur == has_fur,
    {
        Mammal { has_fur, ..self }
    }
}

impl Nomenclature for Mammal {
    open spec fn display_name_spec(&self) -> Seq<char> {
        self.species@
    }

    fn display_name(&self) -> (r: String) {
        self.species.clone()
    }
}

/// The fur clause of a mammal's anatomy description.
pub open spec fn fur_label(has_fur: bool) -> Seq<char> {
    if has_fur {
        "with fur"@
    } else {
        "hairless"@
    }
}

impl Anatomy for Mammal {
    open spec fn describe_anatomy_spec(&self) -> Seq<char> {
        "A "@ + self.species@ + " - warm-blooded mammal "@ + fur_label(self.has_fur)
            + " and mammary glands."@
    }

    fn describe_anatomy(&self) -> (r: String) {
        let fur_status = if self.has_fur {
            "with fur"
        } else {
            "hairless"
        };
        let r = "A ".to_owned().concat(self.species.as_str()).concat(
            " - warm-blooded mammal ",
        ).concat(fur_status).concat(" and mammary glands.");
        proof {
            assert(r@ =~= self.describe_anatomy_spec());
        }
        r
    }
}

impl Mobility for Mammal {
    open spec fn describe_locomotion_spec(&self) -> Seq<char> {
        "Mammalian locomotion (walking, running, or swimming)."@
    }

    fn describe_locomotion(&self) -> (r: String) {
        "Mammalian locomotion (walking, running, or swimming).".to_owned()
    }
}

/// The summary of a generic mammal: species, identifier, anatomy, and
/// mobility, each on its own line.
pub open spec fn mammal_summary_text(m: Mammal) -> Seq<char> {
    "--- Generic Mammal: "@ + m.species@ + " ---\nID: "@ + uuid_text_of(m.id@) + "\nAnatomy: "@
        + m.describe_anatomy_spec() + "\nMobility: "@ + m.describe_locomotion_spec()
}

impl Summarizable for Mammal {
    open spec fn summary_spec(&self) -> Seq<char> {
        mammal_summary_text(*self)
    }

    fn summary(&self) -> (r: String) {
        let id_text = self.id.to_text();
        let anatomy = self.describe_anatomy();
        let mobility = self.describe_locomotion();
        let r = "--- Generic Mammal: ".to_owned().concat(self.species.as_str()).concat(
            " ---\nID: ",
        ).concat(id_text.as_str()).concat("\nAnatomy: ").concat(anatomy.as_str()).concat(
            "\nMobility: ",
        ).concat(mobility.as_str());
        proof {
            assert(r@ =~= mammal_summary_text(*self));
        }
        r
    }
}

} // verus!
