//! A verified organism data model: identity, nomenclature, anatomy built
//! through templated builders, vital-status lifecycle, and a population-level
//! interaction ledger.

pub mod anatomy;
pub mod animal;
pub mod characteristics;
pub mod classification;
pub mod ecosystem;
pub mod human;
pub mod human_builder;
pub mod identity;
pub mod mammal;
pub mod naming;
pub mod nomenclature;
pub mod patterns;
pub mod templates;
pub mod text;
pub mod units;
pub mod vitals;

pub use animal::Animal;
pub use characteristics::Anatomy;
pub use characteristics::Mobility;
pub use characteristics::Summarizable;
pub use classification::Sex;
pub use human::Human;
pub use human_builder::HumanBuilder;
pub use identity::Identifier;
pub use mammal::Mammal;
pub use naming::Moniker;
pub use naming::NameParts;
pub use nomenclature::Nomenclature;
pub use nomenclature::NomenclatureComponents;
pub use units::Centimeters;
pub use units::Direction;
