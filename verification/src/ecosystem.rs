//! Populations: an environment snapshot, member summaries, and a ledger
//! of ecological interactions.

use crate::characteristics::Summarizable;
use crate::units::Centimeters;
use crate::vitals::Celsius;
use vstd::prelude::*;

verus! {

/// The climate of an environment snapshot.
#[derive(Debug, Clone, Copy, PartialEq, Eq, Structural)]
pub enum Climate {
    Tropical,
    Temperate,
    Arctic,
    Desert,
    Custom { avg_temp: Celsius, rainfall_mm: u32 },
}

/// The terrain of an environment snapshot.
#[derive(Debug, Clone, Copy, PartialEq, Eq, Structural)]
pub enum Terrain {
    Forest,
    Plains,
    Mountains,
    Ocean,
    Urban,
    Wetlands,
}

/// An immutable environment snapshot. Humidity is relative humidity in
/// whole percent.
#[derive(Debug, Clone, Copy, PartialEq, Eq, Structural)]
pub struct Environment {
    pub climate: Climate,
    pub terrain: Terrain,
    pub altitude: Centimeters,
    pub humidity_percent: u32,
}

impl Default for Environment {
    /// Temperate plains at sea level, with moderate humidity.
    fn default() -> (r: Environment)
        ensures
            r == (Environment {
                climate: Climate::Temperate,
                terrain: Terrain::Plains,
                altitude: Centimeters(0),
                humidity_percent: 50u32,
            }),
    {
        Environment {
            climate: Climate::Temperate,
            terrain: Terrain::Plains,
            altitude: Centimeters(0),
            humidity_percent: 50,
        }
    }
}

/// A recorded ecological event. Participant indices refer to positions
/// in a population's member sequence; they are deliberately not
/// validated, so out-of-range indices are stored as given.
#[derive(Debug, Clone)]
pub enum Interaction {
    Predation { predator_id: usize, prey_id: usize },
    Competition { competitor1_id: usize, competitor2_id: usize, resource: String },
    Mutualism { participant1_id: usize, participant2_id: usize, benefit: String },
    Parasitism { parasite_id: usize, host_id: usize },
}

/// A population member: the summary snapshot taken from a summarizable
/// organism at the moment it was added.
pub struct Body {
    pub summary: String,
}

impl Body {
    /// Wraps `entity`, capturing its summary.
    pub fn new<S: Summarizable>(entity: &S) -> (r: Body)
        ensures
            r.summary@ == entity.summary_spec(),
    {
        Body { summary: entity.summary() }
    }
}

/// A population: an environment snapshot, the member sequence, and the
/// interaction ledger. Both sequences grow append-only, preserve
/// insertion order, and never reassign indices.
pub struct Population {
    pub members: Vec<Body>,
    pub environment: Environment,
    pub interactions: Vec<Interaction>,
}

impl Population {
    /// An empty population bound to `environment`.
    pub fn new(environment: Environment) -> (r: Population)
        ensures
            r.members@ == Seq::<Body>::empty(),
            r.environment == environment,
            r.interactions@ == Seq::<Interaction>::empty(),
    {
        Population { members: Vec::new(), environment, interactions: Vec::new() }
    }

    /// Appends a member. Nothing already recorded changes, so after the
    /// call the member count has grown by exactly one.
    pub fn add_member(&mut self, member: Body)
        ensures
            final(self).members@ == old(self).members@.push(member),
            final(self).members@.len() == old(self).members@.len() + 1,
            final(self).environment == old(self).environment,
            final(self).interactions@ == old(self).interactions@,
    {
        self.members.push(member);
    }

    /// Appends an interaction, its embedded indices stored exactly as
    /// given, valid or not. Nothing already recorded changes.
    pub fn add_interaction(&mut self, interaction: Interaction)
        ensures
            final(self).interactions@ == old(self).interactions@.push(interaction),
            final(self).interactions@.len() == old(self).interactions@.len() + 1,
            final(self).environment == old(self).environment,
            final(self).members@ == old(self).members@,
    {
        self.interactions.push(interaction);
    }

    /// The current member count.
    pub fn size(&self) -> (r: usize)
        ensures
            r == self.members@.len(),
    {
        self.members.len()
    }
}

} // verus!
