//! The entity lifecycle and containment engine. An `Animal` ages and
//! dies, may be speciated exactly once while alive, and can consume
//! other animals: consumption kills the prey and moves it into the
//! eater's stomach, from which a later drain recovers it as an
//! independent value again.

use vstd::prelude::*;
use crate::groups::{Group, Interaction};
use rand::Rng;

verus! {

/// The one failure the engine signals: a negative year count handed to
/// `age_up`.
#[derive(Clone, Copy, PartialEq, Eq, Structural, Debug)]
pub enum EngineError {
    InvalidArgument,
}

/// A simulated animal. The stomach contents are wholly-owned animals,
/// themselves carrying whatever they had eaten before being consumed,
/// so the structure is a tree of arbitrary depth.
pub struct Animal {
    pub name: String,
    pub age: i32,
    pub lifespan: i32,
    pub group: Group,
    pub alive: bool,
    pub stomach_contents: Vec<Animal>,
}

/// Relies on rand's `thread_rng` and `Rng::gen_range` on the half-open
/// range `10..100`: the sample lies in the range, so it is at least 10
/// and below 100.
#[verifier::external_body]
fn sample_lifespan() -> (r: i32)
    ensures
        10 <= r < 100,
{
    rand::thread_rng().gen_range(10..100)
}

impl Animal {
    /// The same animal with `alive` forced false — what consumption
    /// leaves of the prey.
    pub open spec fn killed(self) -> Animal {
        Animal { alive: false, ..self }
    }

    /// Well-formedness: the age is non-negative, a live animal has not
    /// outlived its lifespan, and everything in the stomach is dead.
    pub open spec fn wf(self) -> bool {
        &&& 0 <= self.age
        &&& self.alive ==> self.age <= self.lifespan
        &&& forall|i: int|
            0 <= i < self.stomach_contents@.len() ==> !(
            #[trigger] self.stomach_contents@[i]).alive
    }

    /// Brings an animal into the world with the given lifespan:
    /// unnamed, newborn, unspeciated, alive, with an empty stomach.
    pub fn with_lifespan(lifespan: i32) -> (a: Animal)
        requires
            0 <= lifespan,
        ensures
            a.name@ == "Unnamed"@,
            a.age == 0,
            a.lifespan == lifespan,
            a.group == Group::Undefined,
            a.alive,
            a.stomach_contents@ == Seq::<Animal>::empty(),
            a.wf(),
    {
        let a = Animal {
            name: "Unnamed".to_owned(),
            age: 0,
            lifespan,
            group: Group::Undefined,
            alive: true,
            stomach_contents: Vec::new(),
        };
        proof {
            assert(a.stomach_contents@ =~= Seq::<Animal>::empty());
        }
        a
    }

    /// Brings an animal into the world with a lifespan drawn at random
    /// from `10..100`; everything else as in `with_lifespan`.
    pub fn new() -> (a: Animal)
        ensures
            a.name@ == "Unnamed"@,
            a.age == 0,
            10 <= a.lifespan < 100,
            a.group == Group::Undefined,
            a.alive,
            a.stomach_contents@ == Seq::<Animal>::empty(),
            a.wf(),
    {
        Animal::with_lifespan(sample_lifespan())
    }

    /// The animal's group, by value.
    pub fn get_group(&self) -> (g: Group)
        ensures
            g == self.group,
    {
        self.group
    }

    /// A copy of the animal's name.
    pub fn get_name(&self) -> (n: String)
        ensures
            n == self.name,
    {
        self.name.clone()
    }

    /// Unconditionally ends the animal's life; idempotent, and the only
    /// field it touches is `alive`.
    pub fn kill(&mut self)
        ensures
            *final(self) == (old(self).killed()),
            old(self).wf() ==> final(self).wf(),
    {
        self.alive = false;
    }

    /// Ages the animal by `years`. A negative count is rejected as
    /// `InvalidArgument` and changes nothing. Otherwise the age grows
    /// by exactly `years`, and the animal is alive afterwards iff it
    /// was alive before and the new age has not passed the lifespan —
    /// reaching the lifespan exactly is survivable. Aging a dead animal
    /// stays legal; it simply stays dead.
    pub fn age_up(&mut self, years: i32) -> (r: Result<(), EngineError>)
        requires
            0 <= years ==> old(self).age + years <= i32::MAX,
        ensures
            years < 0 ==> r == Err::<(), EngineError>(EngineError::InvalidArgument)
                && *final(self) == *old(self),
            0 <= years ==> {
                &&& r == Ok::<(), EngineError>(())
                &&& final(self).age == old(self).age + years
                &&& final(self).alive == (old(self).alive
                    && old(self).age + years <= old(self).lifespan)
                &&& final(self).name == old(self).name
                &&& final(self).lifespan == old(self).lifespan
                &&& final(self).group == old(self).group
                &&& final(self).stomach_contents == old(self).stomach_contents
            },
            old(self).wf() && 0 <= years ==> final(self).wf(),
    {
        if years < 0 {
            return Err(EngineError::InvalidArgument);
        }
        self.age = self.age + years;
        if self.age > self.lifespan {
            self.kill();
        }
        Ok(())
    }

    /// One-time speciation: effective only while the animal is alive
    /// and still `Undefined`; any other call changes nothing. In
    /// particular, a dead animal's group can never change again.
    pub fn speciate(&mut self, group: Group)
        ensures
            old(self).group == Group::Undefined && old(self).alive ==> *final(self)
                == (Animal { group: group, ..*old(self) }),
            !(old(self).group == Group::Undefined && old(self).alive) ==> *final(self)
                == *old(self),
            !old(self).alive ==> final(self).group == old(self).group,
            old(self).wf() ==> final(self).wf(),
    {
        if self.group == Group::Undefined && self.alive {
            self.group = group;
        }
    }

    /// Consumption: kills the prey (it may already be dead) and takes
    /// ownership of it, appending it to the stomach contents in place.
    /// Nothing else about the eater changes. Unconditional: neither the
    /// eater's own liveness nor the prey's is checked.
    pub fn consume(&mut self, prey: Animal)
        ensures
            final(self).stomach_contents@ == old(self).stomach_contents@.push(prey.killed()),
            final(self).name == old(self).name,
            final(self).age == old(self).age,
            final(self).lifespan == old(self).lifespan,
            final(self).group == old(self).group,
            final(self).alive == old(self).alive,
            old(self).wf() ==> final(self).wf(),
    {
        let mut prey = prey;
        prey.kill();
        self.stomach_contents.push(prey);
    }

    /// One animal acting upon another, as the interaction matrix
    /// directs: on `Eats` the other animal is consumed and nothing is
    /// returned; on any other outcome the other animal is handed back
    /// untouched, and this animal is untouched too. The reciprocal
    /// direction is never applied here — `GetsEaten` does not make the
    /// other animal eat this one; that is the caller's move to make.
    pub fn interact(&mut self, other: Animal) -> (r: Option<Animal>)
        ensures
            Group::spec_interaction(old(self).group, other.group) == Interaction::Eats ==> {
                &&& r is None
                &&& final(self).stomach_contents@ == old(self).stomach_contents@.push(
                    other.killed())
                &&& final(self).name == old(self).name
                &&& final(self).age == old(self).age
                &&& final(self).lifespan == old(self).lifespan
                &&& final(self).group == old(self).group
                &&& final(self).alive == old(self).alive
            },
            Group::spec_interaction(old(self).group, other.group) != Interaction::Eats ==> {
                &&& r == Some(other)
                &&& *final(self) == *old(self)
            },
            old(self).wf() ==> final(self).wf(),
    {
        let outcome = Group::interaction(self.get_group(), other.get_group());
        if outcome == Interaction::Eats {
            self.consume(other);
            None
        } else {
            Some(other)
        }
    }

    /// Empties the stomach, returning exactly what was in it, in the
    /// order it was consumed; the animal is otherwise untouched. Only
    /// the direct children come out — whatever they had eaten stays
    /// nested inside them.
    pub fn pump_stomach(&mut self) -> (r: Vec<Animal>)
        ensures
            r@ == old(self).stomach_contents@,
            final(self).stomach_contents@ == Seq::<Animal>::empty(),
            final(self).name == old(self).name,
            final(self).age == old(self).age,
            final(self).lifespan == old(self).lifespan,
            final(self).group == old(self).group,
            final(self).alive == old(self).alive,
            old(self).wf() ==> final(self).wf(),
    {
        let mut contents: Vec<Animal> = Vec::new();
        core::mem::swap(&mut contents, &mut self.stomach_contents);
        proof {
            assert(self.stomach_contents@ =~= Seq::<Animal>::empty());
        }
        contents
    }

    /// Unconditional rename; no validation, and no other change.
    pub fn give_name(&mut self, name: String)
        ensures
            *final(self) == (Animal { name: name, ..*old(self) }),
            old(self).wf() ==> final(self).wf(),
    {
        self.name = name;
    }
}

/// Draining is exhaustive: the first `pump_stomach` leaves the store
/// empty, and a drain of an animal whose store is empty returns exactly
/// that empty sequence — so two drains in a row yield nothing the
/// second time.
pub proof fn lemma_pump_stomach_twice(between: Animal, second: Seq<Animal>)
    requires
        between.stomach_contents@ == Seq::<Animal>::empty(),
        second == between.stomach_contents@,
    ensures
        second == Seq::<Animal>::empty(),
{
}

} // verus!
