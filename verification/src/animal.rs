//! A generic animal: the simplest organism, with identity, species name,
//! and vital status.

use crate::characteristics::Anatomy;
use crate::characteristics::Mobility;
use crate::characteristics::Summarizable;
use crate::identity::Identifier;
use crate::identity::uuid_text_of;
use crate::nomenclature::Nomenclature;
use crate::vitals::BPM;
use crate::vitals::BloodPressure;
use crate::vitals::Celsius;
use crate::vitals::LiveVitals;
use crate::vitals::VitalStatus;
use vstd::prelude::*;
use vstd::string::StrSliceExecFns;
use vstd::string::StringExecFns;

verus! {

/// A generic animal.
#[derive(Debug)]
pub struct Animal {
    pub id: Identifier,
    pub species: String,
    pub vitals: VitalStatus,
}

impl Animal {
    /// A live animal of the given species, with default vital signs and
    /// a fresh identifier.
    pub fn new(species: String) -> (r: Animal)
        ensures
            r.species@ == species@,
            r.vitals == VitalStatus::Alive(
                LiveVitals {
                    blood_pressure: BloodPressure(0, 0),
                    temperature: Celsius(0),
                    pulse: BPM(0),
                    respiration_rate: 0u32,
                },
            ),
    {
        Animal { id: Identifier::new(), species, vitals: VitalStatus::Alive(LiveVitals::default()) }
    }

    /// The same animal with its vital status replaced.
    pub fn with_vitals(self, vitals: VitalStatus) -> (r: Animal)
        ensures
            r.id == self.id,
            r.species == self.species,
            r.vitals == vitals,
    {
        Animal { vitals, ..self }
    }
}

impl Nomenclature for Animal {
    open spec fn display_name_spec(&self) -> Seq<char> {
        self.species@
    }

    fn display_name(&self) -> (r: String) {
        self.species.clone()
    }
}

impl Anatomy for Animal {
    open spec fn describe_anatomy_spec(&self) -> Seq<char> {
        "A "@ + self.species@ + " with standard anatomical structure."@
    }

    fn describe_anatomy(&self) -> (r: String) {
        let r = "A ".to_owned().concat(self.species.as_str()).concat(
            " with standard anatomical structure.",
        );
        proof {
            assert(r@ =~= self.describe_anatomy_spec());
        }
        r
    }
}

impl Mobility for Animal {
    open spec fn describe_locomotion_spec(&self) -> Seq<char> {
        "Moves in species-appropriate manner."@
    }

    fn describe_locomotion(&self) -> (r: String) {
        "Moves in species-appropriate manner.".to_owned()
    }
}

/// The summary of a generic animal: species, identifier, anatomy, and
/// mobility, each on its own line.
pub open spec fn animal_summary_text(a: Animal) -> Seq<char> {
    "--- Generic Animal: "@ + a.species@ + " ---\nID: "@ + uuid_text_of(a.id@) + "\nAnatomy: "@
        + a.describe_anatomy_spec() + "\nMobility: "@ + a.describe_locomotion_spec()
}

impl Summarizable for Animal {
    open spec fn summary_spec(&self) -> Seq<char> {
        animal_summary_text(*self)
    }

    fn summary(&self) -> (r: String) {
        let id_text = self.id.to_text();
        let anatomy = self.describe_anatomy();
        let mobility = self.describe_locomotion();
        let r = "--- Generic Animal: ".to_owned().concat(self.species.as_str()).concat(
            " ---\nID: ",
        ).concat(id_text.as_str()).concat("\nAnatomy: ").concat(anatomy.as_str()).concat(
            "\nMobility: ",
        ).concat(mobility.as_str());
        proof {
            assert(r@ =~= animal_summary_text(*self));
        }
        r
    }
}

} // verus!
