//! Reusable behaviour patterns: limb analysis, movement descriptions, and
//! summary assembly.

use crate::anatomy::Appendage;
use crate::anatomy::LimbStatus;
use crate::anatomy::appendage_description;
use crate::classification::Sex;
use crate::classification::sex_label;
use crate::text::decimal;
use crate::text::u64_to_text;
use vstd::prelude::*;
use vstd::string::StrSliceExecFns;
use vstd::string::StringExecFns;

verus! {

/// The condition of an appendage, whichever kind it is.
pub open spec fn appendage_status(a: Appendage) -> LimbStatus {
    match a {
        Appendage::Arm { status, .. } => status,
        Appendage::Leg { status, .. } => status,
    }
}

/// An arm that is still attached: any status but amputated.
pub open spec fn is_attached_arm(a: Appendage) -> bool {
    a is Arm && !(appendage_status(a) is Amputated)
}

/// An arm that is missing: amputated.
pub open spec fn is_missing_arm(a: Appendage) -> bool {
    a is Arm && appendage_status(a) is Amputated
}

/// A leg that is still attached: any status but amputated.
pub open spec fn is_attached_leg(a: Appendage) -> bool {
    a is Leg && !(appendage_status(a) is Amputated)
}

/// A leg that is missing: amputated.
pub open spec fn is_missing_leg(a: Appendage) -> bool {
    a is Leg && appendage_status(a) is Amputated
}

/// How many appendages of `s` satisfy `p`.
pub open spec fn count_where(s: Seq<Appendage>, p: spec_fn(Appendage) -> bool) -> nat
    decreases s.len(),
{
    if s.len() == 0 {
        0
    } else {
        count_where(s.drop_last(), p) + if p(s.last()) {
            1nat
        } else {
            0nat
        }
    }
}

/// The number of attached arms in `s`.
pub open spec fn attached_arms(s: Seq<Appendage>) -> nat {
    count_where(s, |a: Appendage| is_attached_arm(a))
}

/// The number of missing arms in `s`.
pub open spec fn missing_arms(s: Seq<Appendage>) -> nat {
    count_where(s, |a: Appendage| is_missing_arm(a))
}

/// The number of attached legs in `s`.
pub open spec fn attached_legs(s: Seq<Appendage>) -> nat {
    count_where(s, |a: Appendage| is_attached_leg(a))
}

/// The number of missing legs in `s`.
pub open spec fn missing_legs(s: Seq<Appendage>) -> nat {
    count_where(s, |a: Appendage| is_missing_leg(a))
}

proof fn lemma_count_where_bound(s: Seq<Appendage>, p: spec_fn(Appendage) -> bool)
    ensures
        count_where(s, p) <= s.len(),
    decreases s.len(),
{
    if s.len() > 0 {
        lemma_count_where_bound(s.drop_last(), p);
    }
}

/// Counts attached arms, missing arms, attached legs, and missing legs,
/// in that order. A limb is missing only when its status is amputated.
pub fn count_limbs_in(appendages: &Vec<Appendage>) -> (r: (u32, u32, u32, u32))
    requires
        appendages@.len() <= u32::MAX,
    ensures
        r.0 as nat == attached_arms(appendages@),
        r.1 as nat == missing_arms(appendages@),
        r.2 as nat == attached_legs(appendages@),
        r.3 as nat == missing_legs(appendages@),
{
    let ghost s = appendages@;
    let mut aa: u32 = 0;
    let mut ma: u32 = 0;
    let mut al: u32 = 0;
    let mut ml: u32 = 0;
    let mut i: usize = 0;
    proof {
        assert(s.take(0) =~= Seq::<Appendage>::empty());
    }
    while i < appendages.len()
        invariant
            s == appendages@,
            i <= s.len(),
            s.len() <= u32::MAX,
            aa as nat == attached_arms(s.take(i as int)),
            ma as nat == missing_arms(s.take(i as int)),
            al as nat == attached_legs(s.take(i as int)),
            ml as nat == missing_legs(s.take(i as int)),
        decreases s.len() - i,
    {
        proof {
            assert(s.take(i as int + 1).drop_last() =~= s.take(i as int));
            assert(s.take(i as int + 1).last() == s[i as int]);
            lemma_count_where_bound(s.take(i as int), |a: Appendage| is_attached_arm(a));
            lemma_count_where_bound(s.take(i as int), |a: Appendage| is_missing_arm(a));
            lemma_count_where_bound(s.take(i as int), |a: Appendage| is_attached_leg(a));
            lemma_count_where_bound(s.take(i as int), |a: Appendage| is_missing_leg(a));
        }
        match &appendages[i] {
            Appendage::Arm { status, .. } => {
                match status {
                    LimbStatus::Amputated => {
                        ma = ma + 1;
                    },
                    _ => {
                        aa = aa + 1;
                    },
                }
            },
            Appendage::Leg { status, .. } => {
                match status {
                    LimbStatus::Amputated => {
                        ml = ml + 1;
                    },
                    _ => {
                        al = al + 1;
                    },
                }
            },
        }
        i = i + 1;
    }
    proof {
        assert(s.take(s.len() as int) =~= s);
    }
    (aa, ma, al, ml)
}

fn count_limbs_u64(appendages: &Vec<Appendage>) -> (r: (u64, u64, u64, u64))
    ensures
        r.0 as nat == attached_arms(appendages@),
        r.1 as nat == missing_arms(appendages@),
        r.2 as nat == attached_legs(appendages@),
        r.3 as nat == missing_legs(appendages@),
{
    let ghost s = appendages@;
    let mut aa: u64 = 0;
    let mut ma: u64 = 0;
    let mut al: u64 = 0;
    let mut ml: u64 = 0;
    let mut i: usize = 0;
    proof {
        assert(s.take(0) =~= Seq::<Appendage>::empty());
    }
    while i < appendages.len()
        invariant
            s == appendages@,
            i <= s.len(),
            aa as nat == attached_arms(s.take(i as int)),
            ma as nat == missing_arms(s.take(i as int)),
            al as nat == attached_legs(s.take(i as int)),
            ml as nat == missing_legs(s.take(i as int)),
        decreases s.len() - i,
    {
        proof {
            assert(s.take(i as int + 1).drop_last() =~= s.take(i as int));
            assert(s.take(i as int + 1).last() == s[i as int]);
            lemma_count_where_bound(s.take(i as int), |a: Appendage| is_attached_arm(a));
            lemma_count_where_bound(s.take(i as int), |a: Appendage| is_missing_arm(a));
            lemma_count_where_bound(s.take(i as int), |a: Appendage| is_attached_leg(a));
            lemma_count_where_bound(s.take(i as int), |a: Appendage| is_missing_leg(a));
        }
        match &appendages[i] {
            Appendage::Arm { status, .. } => {
                match status {
                    LimbStatus::Amputated => {
                        ma = ma + 1;
                    },
                    _ => {
                        aa = aa + 1;
                    },
                }
            },
            Appendage::Leg { status, .. } => {
                match status {
                    LimbStatus::Amputated => {
                        ml = ml + 1;
                    },
                    _ => {
                        al = al + 1;
                    },
                }
            },
        }
        i = i + 1;
    }
    proof {
        assert(s.take(s.len() as int) =~= s);
    }
    (aa, ma, al, ml)
}

/// The limb-status report for `s`: the attached counts, and a second
/// sentence naming the missing counts only when at least one limb is
/// missing.
pub open spec fn limb_status_report(s: Seq<Appendage>) -> Seq<char> {
    let head = "A bipedal form with "@ + decimal(attached_arms(s)) + " attached arms and "@
        + decimal(attached_legs(s)) + " attached legs."@;
    if missing_arms(s) > 0 || missing_legs(s) > 0 {
        head + " It is noted that "@ + decimal(missing_arms(s)) + " arms and "@ + decimal(
            missing_legs(s),
        ) + " legs are missing."@
    } else {
        head
    }
}

/// Renders the limb-status report for `appendages`.
pub fn describe_limbs_in(appendages: &Vec<Appendage>) -> (r: String)
    ensures
        r@ == limb_status_report(appendages@),
{
    let (aa, ma, al, ml) = count_limbs_u64(appendages);
    let aa_text = u64_to_text(aa);
    let al_text = u64_to_text(al);
    let head = "A bipedal form with ".to_owned().concat(aa_text.as_str()).concat(
        " attached arms and ",
    ).concat(al_text.as_str()).concat(" attached legs.");
    if ma > 0 || ml > 0 {
        let ma_text = u64_to_text(ma);
        let ml_text = u64_to_text(ml);
        let r = head.concat(" It is noted that ").concat(ma_text.as_str()).concat(
            " arms and ",
        ).concat(ml_text.as_str()).concat(" legs are missing.");
        proof {
            assert(r@ =~= limb_status_report(appendages@));
        }
        r
    } else {
        proof {
            assert(head@ =~= limb_status_report(appendages@));
        }
        head
    }
}

/// Analyses the anatomical structure reachable through
/// [`AnatomyAnalyzer::get_appendages`].
pub trait AnatomyAnalyzer {
    /// The appendage sequence the analysis runs over.
    spec fn appendages_spec(&self) -> Seq<Appendage>;

    /// The appendages themselves.
    fn get_appendages(&self) -> (r: &Vec<Appendage>)
        ensures
            r@ == self.appendages_spec(),
    ;

    /// Counts attached arms, missing arms, attached legs, and missing
    /// legs, in that order.
    fn count_limbs(&self) -> (r: (u32, u32, u32, u32))
        requires
            self.appendages_spec().len() <= u32::MAX,
        ensures
            r.0 as nat == attached_arms(self.appendages_spec()),
            r.1 as nat == missing_arms(self.appendages_spec()),
            r.2 as nat == attached_legs(self.appendages_spec()),
            r.3 as nat == missing_legs(self.appendages_spec()),
    {
        count_limbs_in(self.get_appendages())
    }

    /// Renders the limb-status report.
    fn describe_limb_status(&self) -> (r: String)
        ensures
            r@ == limb_status_report(self.appendages_spec()),
    {
        describe_limbs_in(self.get_appendages())
    }
}

/// Bipedal movement: a default description for organisms that walk on
/// two legs.
pub trait BipedalMobility {
    fn describe_bipedal_movement(&self) -> (r: String)
        ensures
            r@ == "Walks and runs on two legs."@,
    {
        "Walks and runs on two legs.".to_owned()
    }
}

/// Quadrupedal movement: a default description for organisms that walk
/// on four legs.
pub trait QuadrupedalMobility {
    fn describe_quadrupedal_movement(&self) -> (r: String)
        ensures
            r@ == "Walks and runs on four legs."@,
    {
        "Walks and runs on four legs.".to_owned()
    }
}

/// Sessile organisms: a default description for organisms fixed in one
/// place.
pub trait SessileMovement {
    fn describe_sessile_movement(&self) -> (r: String)
        ensures
            r@ == "Sessile (fixed in one place)."@,
    {
        "Sessile (fixed in one place).".to_owned()
    }
}

/// The minimum identity a summary needs: a name and a sex.
pub trait BasicSummary {
    /// The name promised by [`BasicSummary::get_name`].
    spec fn name_spec(&self) -> Seq<char>;

    /// The sex promised by [`BasicSummary::get_gender`].
    spec fn gender_spec(&self) -> Sex;

    fn get_name(&self) -> (r: String)
        ensures
            r@ == self.name_spec(),
    ;

    fn get_gender(&self) -> (r: &Sex)
        ensures
            *r == self.gender_spec(),
    ;
}

/// One description line per appendage, each followed by a newline.
pub open spec fn appendage_lines(s: Seq<Appendage>) -> Seq<char>
    decreases s.len(),
{
    if s.len() == 0 {
        Seq::empty()
    } else {
        appendage_lines(s.drop_last()) + appendage_description(s.last()) + "\n"@
    }
}

/// Renders one description line per appendage.
pub fn appendage_lines_text(appendages: &Vec<Appendage>) -> (r: String)
    ensures
        r@ == appendage_lines(appendages@),
{
    let ghost s = appendages@;
    let mut r = String::new();
    let mut i: usize = 0;
    proof {
        assert(s.take(0) =~= Seq::<Appendage>::empty());
    }
    while i < appendages.len()
        invariant
            s == appendages@,
            i <= s.len(),
            r@ == appendage_lines(s.take(i as int)),
        decreases s.len() - i,
    {
        let line = appendages[i].description();
        r.append(line.as_str());
        r.append("\n");
        proof {
            assert(s.take(i as int + 1).drop_last() =~= s.take(i as int));
            assert(s.take(i as int + 1).last() == s[i as int]);
        }
        i = i + 1;
    }
    proof {
        assert(s.take(s.len() as int) =~= s);
    }
    r
}

/// The full detailed summary: a header naming the organism and its sex,
/// then one line per appendage.
pub open spec fn detailed_summary_text(name: Seq<char>, sex: Sex, apps: Seq<Appendage>) -> Seq<
    char,
> {
    " --- Summary for: "@ + name + " ("@ + sex_label(sex) + ") ---\nAppendages:\n"@
        + appendage_lines(apps)
}

/// A header plus per-appendage detail lines, built on [`BasicSummary`].
pub trait DetailedSummary: BasicSummary {
    /// The appendage sequence the summary lists.
    spec fn appendages_spec(&self) -> Seq<Appendage>;

    /// The appendages themselves.
    fn get_appendages(&self) -> (r: &Vec<Appendage>)
        ensures
            r@ == DetailedSummary::appendages_spec(self),
    ;

    /// Renders the detailed summary.
    fn generate_summary(&self) -> (r: String)
        ensures
            r@ == detailed_summary_text(
                self.name_spec(),
                self.gender_spec(),
                DetailedSummary::appendages_spec(self),
            ),
    {
        let name = self.get_name();
        let gender = self.get_gender();
        let gender_text = gender.label();
        let lines = appendage_lines_text(self.get_appendages());
        let r = " --- Summary for: ".to_owned().concat(name.as_str()).concat(" (").concat(
            gender_text.as_str(),
        ).concat(") ---\nAppendages:\n").concat(lines.as_str());
        proof {
            assert(r@ =~= detailed_summary_text(
                self.name_spec(),
                self.gender_spec(),
                DetailedSummary::appendages_spec(self),
            ));
        }
        r
    }
}

} // verus!
