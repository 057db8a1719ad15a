//! Biological classification: sex and species taxonomy.

use vstd::prelude::*;
use vstd::string::StrSliceExecFns;

verus! {

/// The sex of an organism.
#[derive(Debug, Clone, Copy, PartialEq, Eq, Structural)]
pub enum Sex {
    Unknown,
    Male,
    Female,
}

/// The text under which a [`Sex`] value is rendered.
pub open spec fn sex_label(s: Sex) -> Seq<char> {
    match s {
        Sex::Unknown => "Unknown"@,
        Sex::Male => "Male"@,
        Sex::Female => "Female"@,
    }
}

impl Sex {
    /// Renders the sex as text.
    pub fn label(&self) -> (r: String)
        ensures
            r@ == sex_label(*self),
    {
        match self {
            Sex::Unknown => "Unknown".to_owned(),
            Sex::Male => "Male".to_owned(),
            Sex::Female => "Female".to_owned(),
        }
    }
}

/// A taxonomic kingdom.
#[derive(Debug, Clone, Copy, PartialEq, Eq, Structural)]
pub enum Kingdom {
    Animalia,
    Plantae,
    Fungi,
    Protista,
    Archaea,
    Bacteria,
}

/// A species: its kingdom plus common and scientific names.
pub struct Species {
    pub kingdom: Kingdom,
    pub name: &'static str,
    pub scientific_name: &'static str,
}

} // verus!
