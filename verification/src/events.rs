//! The events that the contract publishes for observers off the chain.

use ink_env::AccountId;
use vstd::prelude::*;

use crate::types::{ClassId, RandomSeed};

verus! {

/// The stored seed was replaced by `new`.
#[derive(Clone, Copy, Debug, PartialEq, Eq)]
pub struct RandomUpdated {
    /// The seed now stored. Indexed.
    pub new: RandomSeed,
}

/// A class was created through the contract.
#[derive(Clone, Copy, Debug, PartialEq, Eq)]
pub struct CreateClassFromContract {
    /// The owner of the new class. Indexed.
    pub owner: AccountId,
    /// The identifier of the new class.
    pub class_id: ClassId,
}

/// An event of the contract.
#[derive(Clone, Copy, Debug, PartialEq, Eq)]
pub enum Event {
    RandomUpdated(RandomUpdated),
    CreateClassFromContract(CreateClassFromContract),
}

/// The field of an event that observers can filter by.
#[derive(Clone, Copy, Debug, PartialEq, Eq)]
pub enum Topic {
    Seed(RandomSeed),
    Account(AccountId),
}

impl Event {
    /// The indexed field of this event.
    pub open spec fn spec_topic(&self) -> Topic {
        match *self {
            Event::RandomUpdated(e) => Topic::Seed(e.new),
            Event::CreateClassFromContract(e) => Topic::Account(e.owner),
        }
    }

    /// The indexed field of this event.
    #[verifier::when_used_as_spec(spec_topic)]
    pub fn topic(&self) -> (t: Topic)
        ensures
            t == self.spec_topic(),
    {
        match self {
            Event::RandomUpdated(e) => Topic::Seed(e.new),
            Event::CreateClassFromContract(e) => Topic::Account(e.owner),
        }
    }
}

} // verus!
