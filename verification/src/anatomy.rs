//! Appendages: measurements, condition, and per-limb descriptions.

use crate::text::decimal;
use crate::text::u64_to_text;
use crate::units::Centimeters;
use crate::units::Direction;
use vstd::prelude::*;
use vstd::string::StrSliceExecFns;
use vstd::string::StringExecFns;

verus! {

/// Arm measurements, in centimeters.
#[derive(Debug, Clone, Copy, PartialEq, Eq, Structural)]
pub struct ArmMeasurements {
    pub upper_length: Centimeters,
    pub triceps_length: Centimeters,
    pub span: Centimeters,
    pub flexed_bicep: Centimeters,
    pub unflexed_bicep: Centimeters,
}

impl Default for ArmMeasurements {
    /// Average adult arm measurements.
    fn default() -> (r: ArmMeasurements)
        ensures
            r == (ArmMeasurements {
                upper_length: Centimeters(38),
                triceps_length: Centimeters(25),
                span: Centimeters(175),
                flexed_bicep: Centimeters(35),
                unflexed_bicep: Centimeters(32),
            }),
    {
        ArmMeasurements {
            upper_length: Centimeters(38),
            triceps_length: Centimeters(25),
            span: Centimeters(175),
            flexed_bicep: Centimeters(35),
            unflexed_bicep: Centimeters(32),
        }
    }
}

/// Leg measurements, in centimeters.
#[derive(Debug, Clone, Copy, PartialEq, Eq, Structural)]
pub struct LegMeasurements {
    pub inseam: Centimeters,
    pub quad: Centimeters,
}

impl Default for LegMeasurements {
    /// Average adult leg measurements.
    fn default() -> (r: LegMeasurements)
        ensures
            r == (LegMeasurements { inseam: Centimeters(81), quad: Centimeters(58) }),
    {
        LegMeasurements { inseam: Centimeters(81), quad: Centimeters(58) }
    }
}

/// The condition of one appendage. Any status may replace any other; no
/// transition is ruled out.
#[derive(Debug, Clone)]
pub enum LimbStatus {
    Intact,
    Injured(String),
    Amputated,
    Prosthetic,
}

impl Default for LimbStatus {
    /// A limb starts out intact.
    fn default() -> (r: LimbStatus)
        ensures
            r is Intact,
    {
        LimbStatus::Intact
    }
}

/// The text under which a [`Direction`] is rendered.
pub open spec fn direction_label(d: Direction) -> Seq<char> {
    match d {
        Direction::Left => "Left"@,
        Direction::Right => "Right"@,
    }
}

fn direction_str(d: Direction) -> (r: &'static str)
    ensures
        r@ == direction_label(d),
{
    match d {
        Direction::Left => "Left",
        Direction::Right => "Right",
    }
}

/// The text under which a [`LimbStatus`] is rendered.
pub open spec fn limb_status_label(s: LimbStatus) -> Seq<char> {
    match s {
        LimbStatus::Intact => "Intact"@,
        LimbStatus::Injured(reason) => "Injured("@ + reason@ + ")"@,
        LimbStatus::Amputated => "Amputated"@,
        LimbStatus::Prosthetic => "Prosthetic"@,
    }
}

fn limb_status_text(s: &LimbStatus) -> (r: String)
    ensures
        r@ == limb_status_label(*s),
{
    match s {
        LimbStatus::Intact => "Intact".to_owned(),
        LimbStatus::Injured(reason) => "Injured(".to_owned().concat(reason.as_str()).concat(")"),
        LimbStatus::Amputated => "Amputated".to_owned(),
        LimbStatus::Prosthetic => "Prosthetic".to_owned(),
    }
}

/// A limb record: an arm or a leg, with its side, measurements, and
/// current condition.
#[derive(Debug, Clone)]
pub enum Appendage {
    Arm { side: Direction, measurements: ArmMeasurements, status: LimbStatus },
    Leg { side: Direction, measurements: LegMeasurements, status: LimbStatus },
}

/// The one-line description of an appendage: side, kind, condition, and
/// its two headline measurements.
pub open spec fn appendage_description(a: Appendage) -> Seq<char> {
    match a {
        Appendage::Arm { side, measurements, status } => "\t- "@ + direction_label(side) + " Arm ("@
            + limb_status_label(status) + "): Span: "@ + decimal(measurements.span.0 as nat)
            + "cm, Bicep (Flexed): "@ + decimal(measurements.flexed_bicep.0 as nat) + "cm"@,
        Appendage::Leg { side, measurements, status } => "\t- "@ + direction_label(side) + " Leg ("@
            + limb_status_label(status) + "): Inseam: "@ + decimal(measurements.inseam.0 as nat)
            + "cm, Quad: "@ + decimal(measurements.quad.0 as nat) + "cm"@,
    }
}

/// The arm-versus-leg discriminator used when targeting a limb.
#[derive(Debug, Clone, Copy, PartialEq, Eq, Structural)]
pub enum LimbKind {
    Arm,
    Leg,
}

/// `a` is the kind of limb named by `kind`, on side `side`.
pub open spec fn is_limb_target(a: Appendage, side: Direction, kind: LimbKind) -> bool {
    match a {
        Appendage::Arm { side: s, .. } => kind is Arm && s == side,
        Appendage::Leg { side: s, .. } => kind is Leg && s == side,
    }
}

/// `a` with its status replaced by `status`; side and measurements kept.
pub open spec fn with_status(a: Appendage, status: LimbStatus) -> Appendage {
    match a {
        Appendage::Arm { side, measurements, .. } => Appendage::Arm { side, measurements, status },
        Appendage::Leg { side, measurements, .. } => Appendage::Leg { side, measurements, status },
    }
}

/// The index of the first appendage of `s` matching `side` and `kind`,
/// or `s.len()` when none does.
pub open spec fn find_limb(s: Seq<Appendage>, side: Direction, kind: LimbKind) -> int
    decreases s.len(),
{
    if s.len() == 0 {
        0
    } else if is_limb_target(s[0], side, kind) {
        0
    } else {
        1 + find_limb(s.subrange(1, s.len() as int), side, kind)
    }
}

/// `find_limb` returns the least matching index, or the length when no
/// appendage matches.
pub proof fn lemma_find_limb(s: Seq<Appendage>, side: Direction, kind: LimbKind)
    ensures
        0 <= find_limb(s, side, kind) <= s.len(),
        find_limb(s, side, kind) < s.len() ==> is_limb_target(
            s[find_limb(s, side, kind)],
            side,
            kind,
        ),
        forall|k: int|
            0 <= k < find_limb(s, side, kind) ==> !is_limb_target(s[k], side, kind),
    decreases s.len(),
{
    if s.len() > 0 && !is_limb_target(s[0], side, kind) {
        let rest = s.subrange(1, s.len() as int);
        lemma_find_limb(rest, side, kind);
        assert forall|k: int| 0 <= k < find_limb(s, side, kind) implies !is_limb_target(
            s[k],
            side,
            kind,
        ) by {
            if k > 0 {
                assert(rest[k - 1] == s[k]);
            }
        }
    }
}

impl Appendage {
    /// Renders the one-line description of this appendage.
    pub fn description(&self) -> (r: String)
        ensures
            r@ == appendage_description(*self),
    {
        match self {
            Appendage::Arm { side, measurements, status } => {
                let span = u64_to_text(measurements.span.0 as u64);
                let bicep = u64_to_text(measurements.flexed_bicep.0 as u64);
                let status_text = limb_status_text(status);
                let r = "\t- ".to_owned().concat(direction_str(*side)).concat(" Arm (").concat(
                    status_text.as_str(),
                ).concat("): Span: ").concat(span.as_str()).concat("cm, Bicep (Flexed): ").concat(
                    bicep.as_str(),
                ).concat("cm");
                proof {
                    assert(r@ =~= appendage_description(*self));
                }
                r
            },
            Appendage::Leg { side, measurements, status } => {
                let inseam = u64_to_text(measurements.inseam.0 as u64);
                let quad = u64_to_text(measurements.quad.0 as u64);
                let status_text = limb_status_text(status);
                let r = "\t- ".to_owned().concat(direction_str(*side)).concat(" Leg (").concat(
                    status_text.as_str(),
                ).concat("): Inseam: ").concat(inseam.as_str()).concat("cm, Quad: ").concat(
                    quad.as_str(),
                ).concat("cm");
                proof {
                    assert(r@ =~= appendage_description(*self));
                }
                r
            },
        }
    }
}

} // verus!
