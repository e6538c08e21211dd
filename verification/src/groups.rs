//! Taxonomic groups and the interaction matrix: a pure, total function
//! from an ordered pair of groups to an interaction outcome. The table
//! is deliberately asymmetric — `interaction(a, b)` is independent of
//! `interaction(b, a)` — and several same-group pairs are `Eats`.

use vstd::prelude::*;

verus! {

/// What happens when one entity's group acts upon another's.
#[derive(Clone, Copy, PartialEq, Eq, Structural, Debug)]
pub enum Interaction {
    Nothing,
    Eats,
    GetsEaten,
}

/// Taxonomic category of an entity. `Undefined` is the sentinel for an
/// entity that has not been speciated yet; it never takes part in an
/// interaction with an outcome other than `Nothing`.
#[derive(Clone, Copy, PartialEq, Eq, Structural, Debug)]
pub enum Group {
    Undefined,
    Mammal,
    Reptile,
    Marsupial,
    Bird,
    Fish,
    Invertebrate,
}

impl Group {
    /// The interaction matrix as a mathematical function: what group
    /// `a` does to group `b`. Any pair with `Undefined` on either side
    /// yields `Nothing`.
    pub open spec fn spec_interaction(a: Group, b: Group) -> Interaction {
        match a {
            Group::Mammal => match b {
                Group::Bird | Group::Fish | Group::Mammal => Interaction::Eats,
                Group::Reptile => Interaction::GetsEaten,
                _ => Interaction::Nothing,
            },
            Group::Reptile => match b {
                Group::Bird | Group::Fish | Group::Invertebrate => Interaction::Eats,
                Group::Mammal | Group::Marsupial => Interaction::GetsEaten,
                _ => Interaction::Nothing,
            },
            Group::Marsupial => match b {
                Group::Bird | Group::Fish | Group::Invertebrate => Interaction::Eats,
                Group::Reptile => Interaction::GetsEaten,
                _ => Interaction::Nothing,
            },
            Group::Bird => match b {
                Group::Fish | Group::Invertebrate => Interaction::Eats,
                Group::Mammal | Group::Reptile => Interaction::GetsEaten,
                _ => Interaction::Nothing,
            },
            Group::Fish => match b {
                Group::Invertebrate => Interaction::Eats,
                Group::Bird | Group::Mammal | Group::Reptile => Interaction::GetsEaten,
                _ => Interaction::Nothing,
            },
            Group::Invertebrate => match b {
                Group::Invertebrate => Interaction::Eats,
                Group::Bird | Group::Fish | Group::Mammal | Group::Reptile
                | Group::Marsupial => Interaction::GetsEaten,
                _ => Interaction::Nothing,
            },
            _ => Interaction::Nothing,
        }
    }

    /// The display name of a group.
    pub open spec fn spec_label(self) -> Seq<char> {
        match self {
            Group::Undefined => "Undefined"@,
            Group::Mammal => "Mammal"@,
            Group::Reptile => "Reptile"@,
            Group::Marsupial => "Marsupial"@,
            Group::Bird => "Bird"@,
            Group::Fish => "Fish"@,
            Group::Invertebrate => "Invertebrate"@,
        }
    }

    /// The group's display name, as a fresh string.
    pub fn label(&self) -> (r: String)
        ensures
            r@ == self.spec_label(),
    {
        match self {
            Group::Undefined => "Undefined".to_owned(),
            Group::Mammal => "Mammal".to_owned(),
            Group::Reptile => "Reptile".to_owned(),
            Group::Marsupial => "Marsupial".to_owned(),
            Group::Bird => "Bird".to_owned(),
            Group::Fish => "Fish".to_owned(),
            Group::Invertebrate => "Invertebrate".to_owned(),
        }
    }

    /// Looks up the interaction matrix for the ordered pair `(a, b)`.
    pub fn interaction(a: Group, b: Group) -> (r: Interaction)
        ensures
            r == Group::spec_interaction(a, b),
    {
        match a {
            Group::Mammal => match b {
                Group::Bird | Group::Fish | Group::Mammal => Interaction::Eats,
                Group::Reptile => Interaction::GetsEaten,
                _ => Interaction::Nothing,
            },
            Group::Reptile => match b {
                Group::Bird | Group::Fish | Group::Invertebrate => Interaction::Eats,
                Group::Mammal | Group::Marsupial => Interaction::GetsEaten,
                _ => Interaction::Nothing,
            },
            Group::Marsupial => match b {
                Group::Bird | Group::Fish | Group::Invertebrate => Interaction::Eats,
                Group::Reptile => Interaction::GetsEaten,
                _ => Interaction::Nothing,
            },
            Group::Bird => match b {
                Group::Fish | Group::Invertebrate => Interaction::Eats,
                Group::Mammal | Group::Reptile => Interaction::GetsEaten,
                _ => Interaction::Nothing,
            },
            Group::Fish => match b {
                Group::Invertebrate => Interaction::Eats,
                Group::Bird | Group::Mammal | Group::Reptile => Interaction::GetsEaten,
                _ => Interaction::Nothing,
            },
            Group::Invertebrate => match b {
                Group::Invertebrate => Interaction::Eats,
                Group::Bird | Group::Fish | Group::Mammal | Group::Reptile
                | Group::Marsupial => Interaction::GetsEaten,
                _ => Interaction::Nothing,
            },
            _ => Interaction::Nothing,
        }
    }
}

/// The sentinel group never takes part in a defined interaction: with
/// `Undefined` on either side, the outcome is `Nothing` whatever the other
/// group is.
pub proof fn lemma_undefined_yields_nothing(g: Group)
    ensures
        Group::spec_interaction(Group::Undefined, g) == Interaction::Nothing,
        Group::spec_interaction(g, Group::Undefined) == Interaction::Nothing,
{
}

} // verus!
