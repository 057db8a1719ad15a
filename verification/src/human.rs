//! A fully modelled human: identity, resolved name, sex, four appendages,
//! and a vital status fixed at construction.

use crate::anatomy::Appendage;
use crate::anatomy::LimbKind;
use crate::anatomy::LimbStatus;
use crate::anatomy::find_limb;
use crate::anatomy::is_limb_target;
use crate::anatomy::lemma_find_limb;
use crate::anatomy::with_status;
use crate::characteristics::Anatomy;
use crate::characteristics::Mobility;
use crate::characteristics::Summarizable;
use crate::classification::Sex;
use crate::human_builder::HumanBuilder;
use crate::human_builder::is_fresh_builder;
use crate::identity::Identifier;
use crate::naming::Moniker;
use crate::naming::moniker_display;
use crate::nomenclature::Nomenclature;
use crate::nomenclature::NomenclatureComponents;
use crate::patterns::AnatomyAnalyzer;
use crate::patterns::BasicSummary;
use crate::patterns::BipedalMobility;
use crate::patterns::DetailedSummary;
use crate::patterns::detailed_summary_text;
use crate::patterns::limb_status_report;
use crate::text::decimal;
use crate::text::has_substring;
use crate::text::i64_to_text;
use crate::text::signed_decimal;
use crate::text::u64_to_text;
use crate::units::Direction;
use crate::vitals::VitalStatus;
use vstd::prelude::*;
use vstd::string::StrSliceExecFns;
use vstd::string::StringExecFns;

verus! {

/// A human organism. The name, sex, and vitals are fixed once built;
/// only the status of an appendage may change afterwards.
pub struct Human {
    pub id: Identifier,
    pub name: Moniker,
    pub sex: Sex,
    pub appendages: Vec<Appendage>,
    pub vitals: VitalStatus,
}

/// The appendage sequence after targeting the first limb matching `side`
/// and `kind`: its status becomes `status`, and nothing changes when no
/// limb matches.
pub open spec fn limbs_after_set(
    s: Seq<Appendage>,
    side: Direction,
    kind: LimbKind,
    status: LimbStatus,
) -> Seq<Appendage> {
    let i = find_limb(s, side, kind);
    if i == s.len() {
        s
    } else {
        s.update(i, with_status(s[i], status))
    }
}

/// The vitals report: the display name, whether the organism is alive or
/// deceased, and the matching detail — formatted vital signs when alive,
/// the verbatim cause of death otherwise.
pub open spec fn vitals_text(h: Human) -> Seq<char> {
    match h.vitals {
        VitalStatus::Alive(v) => moniker_display(h.name@) + " is alive. Vitals: Temp: "@
            + signed_decimal(v.temperature.0 as int) + ", Pulse: "@ + decimal(v.pulse.0 as nat)
            + ", BP: "@ + decimal(v.blood_pressure.0 as nat) + "/"@ + decimal(
            v.blood_pressure.1 as nat,
        ),
        VitalStatus::Deceased(rep) => moniker_display(h.name@) + " is deceased. Cause of death: "@
            + rep.cause_of_death@ + "."@,
    }
}

impl Human {
    /// A fresh builder for a human.
    pub fn builder() -> (r: HumanBuilder)
        ensures
            is_fresh_builder(r),
    {
        HumanBuilder::new()
    }

    /// Mutates the status of the first appendage matching both `kind`
    /// and `side`. When no appendage matches, the call is a silent
    /// no-op. Nothing else about the organism changes.
    pub fn set_limb_status(
        &mut self,
        target_side: Direction,
        target_kind: LimbKind,
        new_status: LimbStatus,
    )
        ensures
            final(self).id == old(self).id,
            final(self).name == old(self).name,
            final(self).sex == old(self).sex,
            final(self).vitals == old(self).vitals,
            final(self).appendages@ == limbs_after_set(
                old(self).appendages@,
                target_side,
                target_kind,
                new_status,
            ),
    {
        let ghost s0 = self.appendages@;
        let ghost ns = new_status;
        let mut i: usize = 0;
        while i < self.appendages.len()
            invariant
                *self == *old(self),
                s0 == self.appendages@,
                ns == new_status,
                i <= s0.len(),
                forall|k: int|
                    0 <= k < i ==> !is_limb_target(s0[k], target_side, target_kind),
            decreases s0.len() - i,
        {
            let is_match = match (&self.appendages[i], target_kind) {
                (Appendage::Arm { side, .. }, LimbKind::Arm) => *side == target_side,
                (Appendage::Leg { side, .. }, LimbKind::Leg) => *side == target_side,
                _ => false,
            };
            if is_match {
                let updated = match &self.appendages[i] {
                    Appendage::Arm { side, measurements, .. } => Appendage::Arm {
                        side: *side,
                        measurements: *measurements,
                        status: new_status,
                    },
                    Appendage::Leg { side, measurements, .. } => Appendage::Leg {
                        side: *side,
                        measurements: *measurements,
                        status: new_status,
                    },
                };
                proof {
                    lemma_find_limb(s0, target_side, target_kind);
                    assert(is_limb_target(s0[i as int], target_side, target_kind));
                    assert(find_limb(s0, target_side, target_kind) == i);
                    assert(updated == with_status(s0[i as int], ns));
                }
                self.appendages[i] = updated;
                return ;
            }
            i = i + 1;
        }
        proof {
            lemma_find_limb(s0, target_side, target_kind);
            assert(find_limb(s0, target_side, target_kind) == s0.len());
        }
    }

    /// Renders the vitals report for this organism.
    pub fn get_vitals(&self) -> (r: String)
        ensures
            r@ == vitals_text(*self),
    {
        let name = self.name.display_name();
        match &self.vitals {
            VitalStatus::Alive(v) => {
                let temp = i64_to_text(v.temperature.0 as i64);
                let pulse = u64_to_text(v.pulse.0 as u64);
                let systolic = u64_to_text(v.blood_pressure.0 as u64);
                let diastolic = u64_to_text(v.blood_pressure.1 as u64);
                let r = name.concat(" is alive. Vitals: Temp: ").concat(temp.as_str()).concat(
                    ", Pulse: ",
                ).concat(pulse.as_str()).concat(", BP: ").concat(systolic.as_str()).concat(
                    "/",
                ).concat(diastolic.as_str());
                proof {
                    assert(r@ =~= vitals_text(*self));
                }
                r
            },
            VitalStatus::Deceased(rep) => {
                let r = name.concat(" is deceased. Cause of death: ").concat(
                    rep.cause_of_death.as_str(),
                ).concat(".");
                proof {
                    assert(r@ =~= vitals_text(*self));
                }
                r
            },
        }
    }
}

impl Nomenclature for Human {
    open spec fn display_name_spec(&self) -> Seq<char> {
        moniker_display(self.name@)
    }

    fn display_name(&self) -> (r: String) {
        self.name.display_name()
    }
}

impl NomenclatureComponents for Human {
    open spec fn prefix_spec(&self) -> Option<Seq<char>> {
        self.name.prefix_spec()
    }

    open spec fn first_spec(&self) -> Option<Seq<char>> {
        self.name.first_spec()
    }

    open spec fn middle_spec(&self) -> Option<Seq<char>> {
        self.name.middle_spec()
    }

    open spec fn last_spec(&self) -> Option<Seq<char>> {
        self.name.last_spec()
    }

    open spec fn suffix_spec(&self) -> Option<Seq<char>> {
        self.name.suffix_spec()
    }

    fn prefix_name(&self) -> (r: Option<String>) {
        self.name.prefix_name()
    }

    fn first_name(&self) -> (r: Option<String>) {
        self.name.first_name()
    }

    fn middle_name(&self) -> (r: Option<String>) {
        self.name.middle_name()
    }

    fn last_name(&self) -> (r: Option<String>) {
        self.name.last_name()
    }

    fn suffix_name(&self) -> (r: Option<String>) {
        self.name.suffix_name()
    }
}

impl AnatomyAnalyzer for Human {
    open spec fn appendages_spec(&self) -> Seq<Appendage> {
        self.appendages@
    }

    fn get_appendages(&self) -> (r: &Vec<Appendage>) {
        &self.appendages
    }
}

impl Anatomy for Human {
    open spec fn describe_anatomy_spec(&self) -> Seq<char> {
        limb_status_report(self.appendages@)
    }

    fn describe_anatomy(&self) -> (r: String) {
        self.describe_limb_status()
    }
}

impl BipedalMobility for Human {

}

impl Mobility for Human {
    open spec fn describe_locomotion_spec(&self) -> Seq<char> {
        "Walks and runs on two legs."@
    }

    fn describe_locomotion(&self) -> (r: String) {
        self.describe_bipedal_movement()
    }
}

impl BasicSummary for Human {
    open spec fn name_spec(&self) -> Seq<char> {
        moniker_display(self.name@)
    }

    open spec fn gender_spec(&self) -> Sex {
        self.sex
    }

    fn get_name(&self) -> (r: String) {
        self.name.display_name()
    }

    fn get_gender(&self) -> (r: &Sex) {
        &self.sex
    }
}

impl DetailedSummary for Human {
    open spec fn appendages_spec(&self) -> Seq<Appendage> {
        self.appendages@
    }

    fn get_appendages(&self) -> (r: &Vec<Appendage>) {
        &self.appendages
    }
}

/// The full human summary: display name, the limb-status report, the
/// locomotion description, and the detailed per-appendage summary.
pub open spec fn human_summary_text(h: Human) -> Seq<char> {
    "--- Human: "@ + moniker_display(h.name@) + " ---\nAnatomy: "@ + limb_status_report(
        h.appendages@,
    ) + "\nMobility: "@ + "Walks and runs on two legs."@ + "\n\n "@ + detailed_summary_text(
        moniker_display(h.name@),
        h.sex,
        h.appendages@,
    )
}

impl Summarizable for Human {
    open spec fn summary_spec(&self) -> Seq<char> {
        human_summary_text(*self)
    }

    fn summary(&self) -> (r: String) {
        let name = self.name.display_name();
        let anatomy = self.describe_anatomy();
        let mobility = self.describe_locomotion();
        let detail = self.generate_summary();
        let r = "--- Human: ".to_owned().concat(name.as_str()).concat(" ---\nAnatomy: ").concat(
            anatomy.as_str(),
        ).concat("\nMobility: ").concat(mobility.as_str()).concat("\n\n ").concat(detail.as_str());
        proof {
            assert(r@ =~= human_summary_text(*self));
        }
        r
    }
}

/// The vitals report names the organism's state: it mentions "is alive"
/// exactly when the organism is alive, "is deceased" exactly when it is
/// deceased, and in the deceased case carries the configured cause of
/// death verbatim.
pub proof fn lemma_vitals_report_names_state(h: Human)
    ensures
        h.vitals is Alive ==> has_substring(vitals_text(h), "is alive"@),
        h.vitals is Deceased ==> has_substring(vitals_text(h), "is deceased"@),
        h.vitals matches VitalStatus::Deceased(rep) ==> has_substring(
            vitals_text(h),
            rep.cause_of_death@,
        ),
{
    let d = moniker_display(h.name@);
    let s = vitals_text(h);
    match h.vitals {
        VitalStatus::Alive(_) => {
            reveal_strlit(" is alive. Vitals: Temp: ");
            reveal_strlit("is alive");
            let w = d.len() as int + 1;
            assert(s.subrange(w, w + "is alive"@.len()) =~= "is alive"@);
            assert(has_substring(s, "is alive"@));
        },
        VitalStatus::Deceased(rep) => {
            reveal_strlit(" is deceased. Cause of death: ");
            reveal_strlit("is deceased");
            let w = d.len() as int + 1;
            assert(s.subrange(w, w + "is deceased"@.len()) =~= "is deceased"@);
            assert(has_substring(s, "is deceased"@));
            let c = rep.cause_of_death@;
            let w2 = d.len() as int + " is deceased. Cause of death: "@.len();
            assert(s.subrange(w2, w2 + c.len()) =~= c);
            assert(has_substring(s, c));
        },
    }
}

} // verus!
