//! Decisions on requests and what becomes of them.
use crate::interface::texts;
use vstd::prelude::*;
use vstd::std_specs::convert::FromSpecImpl;

verus! {

/// The mass zero, as the bits of an IEEE 754 double.
pub const MASS_ZERO: u64 = 0x0000_0000_0000_0000;

/// The mass one, as the bits of an IEEE 754 double.
pub const MASS_ONE: u64 = 0x3ff0_0000_0000_0000;

/// How much evidence there is for accepting a request, for restricting it, and for neither.
///
/// Each component is a double, held as its bits: decisions are carried from one side of the
/// sandbox to the other, and every bit of them arrives.
#[derive(Clone, Copy, PartialEq, Eq, Structural, Debug)]
pub struct Decision {
    pub accept: u64,
    pub restrict: u64,
    pub unknown: u64,
}

impl Decision {
    /// The decision of a plugin that has said nothing: all is unknown.
    pub open spec fn undecided() -> Decision {
        Decision { accept: MASS_ZERO, restrict: MASS_ZERO, unknown: MASS_ONE }
    }
}

/// A decision as a plugin sees it.
#[derive(Clone, Copy, PartialEq, Eq, Structural, Debug)]
pub struct DecisionInterface {
    pub accept: u64,
    pub restrict: u64,
    pub unknown: u64,
}

/// The decision that a plugin stated.
pub open spec fn stated_decision(decision: DecisionInterface) -> Decision {
    Decision {
        accept: decision.accept,
        restrict: decision.restrict,
        unknown: decision.unknown,
    }
}

/// The decision as a plugin sees it.
pub open spec fn shown_decision(decision: Decision) -> DecisionInterface {
    DecisionInterface {
        accept: decision.accept,
        restrict: decision.restrict,
        unknown: decision.unknown,
    }
}

impl From<DecisionInterface> for Decision {
    fn from(decision: DecisionInterface) -> (taken: Decision) {
        Decision {
            accept: decision.accept,
            restrict: decision.restrict,
            unknown: decision.unknown,
        }
    }
}

impl FromSpecImpl<DecisionInterface> for Decision {
    open spec fn obeys_from_spec() -> bool {
        true
    }

    open spec fn from_spec(decision: DecisionInterface) -> Decision {
        stated_decision(decision)
    }
}

impl From<Decision> for DecisionInterface {
    fn from(decision: Decision) -> (shown: DecisionInterface) {
        DecisionInterface {
            accept: decision.accept,
            restrict: decision.restrict,
            unknown: decision.unknown,
        }
    }
}

impl FromSpecImpl<Decision> for DecisionInterface {
    open spec fn obeys_from_spec() -> bool {
        true
    }

    open spec fn from_spec(decision: Decision) -> DecisionInterface {
        shown_decision(decision)
    }
}

/// What becomes of a request once its decision has been held against the thresholds.
#[derive(Clone, Copy, PartialEq, Eq, Structural, Debug)]
pub enum Outcome {
    Trusted,
    Accepted,
    Suspected,
    Restricted,
}

/// An outcome as a plugin sees it.
#[derive(Clone, Copy, PartialEq, Eq, Structural, Debug)]
pub enum OutcomeInterface {
    Trusted,
    Accepted,
    Suspected,
    Restricted,
}

/// The outcome as a plugin sees it.
pub open spec fn shown_outcome(outcome: Outcome) -> OutcomeInterface {
    match outcome {
        Outcome::Trusted => OutcomeInterface::Trusted,
        Outcome::Accepted => OutcomeInterface::Accepted,
        Outcome::Suspected => OutcomeInterface::Suspected,
        Outcome::Restricted => OutcomeInterface::Restricted,
    }
}

impl From<Outcome> for OutcomeInterface {
    fn from(outcome: Outcome) -> (shown: OutcomeInterface) {
        match outcome {
            Outcome::Trusted => OutcomeInterface::Trusted,
            Outcome::Accepted => OutcomeInterface::Accepted,
            Outcome::Suspected => OutcomeInterface::Suspected,
            Outcome::Restricted => OutcomeInterface::Restricted,
        }
    }
}

impl FromSpecImpl<Outcome> for OutcomeInterface {
    open spec fn obeys_from_spec() -> bool {
        true
    }

    open spec fn from_spec(outcome: Outcome) -> OutcomeInterface {
        shown_outcome(outcome)
    }
}

/// The primary output of a plugin instance's execution. Combines a [`Decision`] and a list of
/// tags together.
///
/// Both the output of individual plugins as well as the combined decision output of a group of
/// plugins may be represented by `DecisionComponents`. The latter is the result of applying
/// Dempster-Shafer combination to each `decision` value in a [`DecisionComponents`] list and then
/// taking the union set of all `tags` lists and forming a new [`DecisionComponents`] with both
/// results.
pub struct DecisionComponents {
    /// A `Decision` made by a plugin or a group of plugins
    pub decision: Decision,
    /// The tags applied by plugins to annotate a [`Decision`]
    pub tags: Vec<String>,
}

/// A decision and the texts of its tags.
pub ghost struct ComponentsView {
    pub decision: Decision,
    pub tags: Seq<Seq<char>>,
}

impl View for DecisionComponents {
    type V = ComponentsView;

    open spec fn view(&self) -> ComponentsView {
        ComponentsView { decision: self.decision, tags: texts(self.tags@) }
    }
}

} // verus!
