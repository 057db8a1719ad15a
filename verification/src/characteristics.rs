//! Core behaviour contracts: anatomy, locomotion, and summary rendering.

use vstd::prelude::*;

verus! {

/// Describes the physical structure of an organism.
pub trait Anatomy {
    /// The description promised by [`Anatomy::describe_anatomy`].
    spec fn describe_anatomy_spec(&self) -> Seq<char>;

    /// Renders the anatomical description.
    fn describe_anatomy(&self) -> (r: String)
        ensures
            r@ == self.describe_anatomy_spec(),
    ;
}

/// Describes how an organism moves.
pub trait Mobility {
    /// The description promised by [`Mobility::describe_locomotion`].
    spec fn describe_locomotion_spec(&self) -> Seq<char>;

    /// Renders the locomotion description.
    fn describe_locomotion(&self) -> (r: String)
        ensures
            r@ == self.describe_locomotion_spec(),
    ;
}

/// Provides a full textual summary of an organism.
pub trait Summarizable {
    /// The summary promised by [`Summarizable::summary`].
    spec fn summary_spec(&self) -> Seq<char>;

    /// Renders the summary.
    fn summary(&self) -> (r: String)
        ensures
            r@ == self.summary_spec(),
    ;
}

} // verus!
