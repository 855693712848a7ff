//! Things that lie about to be collected.

use vstd::prelude::*;

verus! {

/// Something that the player collects by touching it.
#[derive(Debug, PartialEq, Eq)]
pub enum Pickup {
    Coin(u8),
    Health(u8),
    Key { amount: u8, resource_name: String },
}

impl Pickup {
    /// The name of the counter that the pickup adds to.
    pub open spec fn spec_resource_name(&self) -> Seq<char> {
        match self {
            Pickup::Coin(_) => "Coins"@,
            Pickup::Health(_) => "Health"@,
            Pickup::Key { amount: _, resource_name } => resource_name@,
        }
    }

    /// How much the pickup adds to its counter.
    pub open spec fn spec_amount(&self) -> u8 {
        match self {
            Pickup::Coin(amount) => *amount,
            Pickup::Health(amount) => *amount,
            Pickup::Key { amount, resource_name: _ } => *amount,
        }
    }

    pub fn get_resource_name(&self) -> (name: String)
        ensures
            name@ == self.spec_resource_name(),
    {
        match self {
            Pickup::Coin(_) => "Coins".to_owned(),
            Pickup::Health(_) => "Health".to_owned(),
            Pickup::Key { amount: _, resource_name } => resource_name.clone(),
        }
    }

    pub fn get_amount(&self) -> (amount: u8)
        ensures
            amount == self.spec_amount(),
    {
        match self {
            Pickup::Coin(amount) => *amount,
            Pickup::Health(amount) => *amount,
            Pickup::Key { amount, resource_name: _ } => *amount,
        }
    }
}

} // verus!
