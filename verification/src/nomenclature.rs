//! Naming behaviour contracts: a display name, and optional name components.

use vstd::prelude::*;

verus! {

/// Resolves a value to the single display string under which it is known.
pub trait Nomenclature {
    /// The display string promised by [`Nomenclature::display_name`].
    spec fn display_name_spec(&self) -> Seq<char>;

    /// Renders the display name.
    fn display_name(&self) -> (r: String)
        ensures
            r@ == self.display_name_spec(),
    ;
}

/// Exposes the five optional components of a structured personal name.
pub trait NomenclatureComponents {
    /// The component promised by [`NomenclatureComponents::prefix_name`].
    spec fn prefix_spec(&self) -> Option<Seq<char>>;

    /// The component promised by [`NomenclatureComponents::first_name`].
    spec fn first_spec(&self) -> Option<Seq<char>>;

    /// The component promised by [`NomenclatureComponents::middle_name`].
    spec fn middle_spec(&self) -> Option<Seq<char>>;

    /// The component promised by [`NomenclatureComponents::last_name`].
    spec fn last_spec(&self) -> Option<Seq<char>>;

    /// The component promised by [`NomenclatureComponents::suffix_name`].
    spec fn suffix_spec(&self) -> Option<Seq<char>>;

    fn prefix_name(&self) -> (r: Option<String>)
        ensures
            r.deep_view() == self.prefix_spec(),
    ;

    fn first_name(&self) -> (r: Option<String>)
        ensures
            r.deep_view() == self.first_spec(),
    ;

    fn middle_name(&self) -> (r: Option<String>)
        ensures
            r.deep_view() == self.middle_spec(),
    ;

    fn last_name(&self) -> (r: Option<String>)
        ensures
            r.deep_view() == self.last_spec(),
    ;

    fn suffix_name(&self) -> (r: Option<String>)
        ensures
            r.deep_view() == self.suffix_spec(),
    ;
}

} // verus!
