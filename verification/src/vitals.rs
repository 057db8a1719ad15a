//! Vital status: live vital signs, or a post-mortem report.

use vstd::prelude::*;

verus! {

/// Systolic over diastolic blood pressure, in mmHg.
#[derive(Debug, Clone, Copy, PartialEq, Eq, Structural)]
pub struct BloodPressure(pub u32, pub u32);

impl Default for BloodPressure {
    fn default() -> (r: BloodPressure)
        ensures
            r == BloodPressure(0, 0),
    {
        BloodPressure(0, 0)
    }
}

/// A temperature in whole degrees Celsius.
#[derive(Debug, Clone, Copy, PartialEq, Eq, Structural)]
pub struct Celsius(pub i32);

impl Default for Celsius {
    fn default() -> (r: Celsius)
        ensures
            r == Celsius(0),
    {
        Celsius(0)
    }
}

/// A rate in beats per minute.
#[derive(Debug, Clone, Copy, PartialEq, Eq, Structural)]
pub struct BPM(pub u32);

impl Default for BPM {
    fn default() -> (r: BPM)
        ensures
            r == BPM(0),
    {
        BPM(0)
    }
}

/// The vital signs of a living organism.
#[derive(Debug, Clone, Copy, PartialEq, Eq, Structural)]
pub struct LiveVitals {
    pub blood_pressure: BloodPressure,
    pub temperature: Celsius,
    pub pulse: BPM,
    pub respiration_rate: u32,
}

impl LiveVitals {
    /// Bundles the four vital signs.
    pub fn new(
        blood_pressure: BloodPressure,
        temperature: Celsius,
        pulse: BPM,
        respiration_rate: u32,
    ) -> (r: LiveVitals)
        ensures
            r == (LiveVitals { blood_pressure, temperature, pulse, respiration_rate }),
    {
        LiveVitals { blood_pressure, temperature, pulse, respiration_rate }
    }
}

impl Default for LiveVitals {
    /// All vital signs zero.
    fn default() -> (r: LiveVitals)
        ensures
            r == (LiveVitals {
                blood_pressure: BloodPressure(0, 0),
                temperature: Celsius(0),
                pulse: BPM(0),
                respiration_rate: 0u32,
            }),
    {
        LiveVitals {
            blood_pressure: BloodPressure(0, 0),
            temperature: Celsius(0),
            pulse: BPM(0),
            respiration_rate: 0,
        }
    }
}

/// What an examination after death recorded.
#[derive(Debug, Clone)]
pub struct PostMortemReport {
    pub cause_of_death: String,
    pub date_of_death: String,
    pub findings: Vec<String>,
}

impl PostMortemReport {
    /// Bundles the cause, date, and ordered findings of a report.
    pub fn new(cause_of_death: String, date_of_death: String, findings: Vec<String>) -> (r:
        PostMortemReport)
        ensures
            r.cause_of_death@ == cause_of_death@,
            r.date_of_death@ == date_of_death@,
            r.findings@ == findings@,
    {
        PostMortemReport { cause_of_death, date_of_death, findings }
    }
}

/// Alive with vital signs, or deceased with a post-mortem report; fixed
/// when the organism is constructed.
#[derive(Debug, Clone)]
pub enum VitalStatus {
    Alive(LiveVitals),
    Deceased(PostMortemReport),
}

} // verus!
