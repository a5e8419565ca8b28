use vstd::prelude::*;

verus! {

/// An amount of one denomination, counted in that denomination's base unit.
#[derive(Debug, PartialEq)]
pub struct Coin {
    pub denom: String,
    pub amount: u128,
}

impl Clone for Coin {
    fn clone(&self) -> (r: Coin)
        ensures
            r == *self,
    {
        Coin { denom: self.denom.clone(), amount: self.amount }
    }
}

/// A rational part of a balance, `numerator / denominator`.
///
/// A well-formed fraction never exceeds one, so taking that part of an
/// amount never enlarges it.
#[derive(Debug, PartialEq, Clone, Copy)]
pub struct Fraction {
    pub numerator: u128,
    pub denominator: u128,
}

impl Fraction {
    pub open spec fn wf(self) -> bool {
        0 < self.denominator && self.numerator <= self.denominator
    }
}

/// The stored identity of the program: its name and the version tag of the
/// layout its records currently use.
#[derive(Debug, PartialEq)]
pub struct ContractInfo {
    pub contract: String,
    pub version: String,
}

/// The current-shape singleton state record.
#[derive(Debug, PartialEq)]
pub struct State {
    /// Number of accepted donations since creation or the last reset.
    pub counter: u64,
    /// The funds threshold; amount `0` disables the check.
    pub minimal_donation: Coin,
    /// The only identity allowed to reset or withdraw.
    pub owner: String,
    /// Countdown of accepted donations until the next forward to the parent;
    /// `None` when no parent relationship exists.
    pub donating_parent: Option<u64>,
}

impl Clone for State {
    fn clone(&self) -> (r: State)
        ensures
            r == *self,
    {
        State {
            counter: self.counter,
            minimal_donation: self.minimal_donation.clone(),
            owner: self.owner.clone(),
            donating_parent: self.donating_parent,
        }
    }
}

/// The record describing the parent relationship; present at most once.
#[derive(Debug, PartialEq)]
pub struct ParentDonation {
    /// Address of the upstream beneficiary program.
    pub address: String,
    /// The value the countdown is reset to after each forward event.
    pub donating_parent_period: u64,
    /// The part of the current balance forwarded per event.
    pub part: Fraction,
}

/// What the store holds under the state key: nothing, a record in the
/// historical combined shape without a parent concept, or a record in the
/// current shape.
#[derive(Debug, PartialEq)]
pub enum StateRecord {
    Missing,
    Legacy { counter: u64, minimal_donation: Coin, owner: String },
    Current(State),
}

/// A typed model of the keyed store scoped to this program instance.
///
/// Each field stands for the record stored under one key; `None` (or
/// `StateRecord::Missing`) means the key is absent.  The three `*_item`
/// fields are the independent records of the oldest historical layout and
/// are only read by the migration engine.
pub struct Store {
    pub contract_info: Option<ContractInfo>,
    pub state: StateRecord,
    pub parent_donation: Option<ParentDonation>,
    pub counter_item: Option<u64>,
    pub minimal_donation_item: Option<Coin>,
    pub owner_item: Option<String>,
}

impl Store {
    /// The invariant the donation ledger relies on: whenever the current
    /// state holds a countdown, the countdown is positive, the parent
    /// record exists, its period is positive and its part is a
    /// well-formed fraction.
    pub open spec fn wf(self) -> bool {
        self.state matches StateRecord::Current(st) ==> match st.donating_parent {
            Option::None => true,
            Option::Some(n) => {
                &&& 1 <= n
                &&& self.parent_donation matches Option::Some(pd)
                &&& 1 <= pd.donating_parent_period
                &&& pd.part.wf()
            },
        }
    }
}

} // verus!
