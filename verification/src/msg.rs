use vstd::prelude::*;

use crate::state::{Coin, Fraction};

verus! {

/// The parent relationship requested at instantiation.
pub struct Parent {
    /// Address of the upstream beneficiary program.
    pub addr: String,
    /// Number of accepted donations between forward events.
    pub donating_period: u64,
    /// The part of the balance forwarded at each event.
    pub part: Fraction,
}

/// The payload that creates the program's state.
pub struct InstantiateMsg {
    pub counter: u64,
    pub minimal_donation: Coin,
    pub parent: Option<Parent>,
}

#[derive(Debug, PartialEq, Eq, Structural, Clone, Copy)]
pub enum QueryMsg {
    Value {},
    ValueIncremented { value: u64 },
}

pub enum ExecMsg {
    Donate {},
    /// The `counter` field is accepted for compatibility but ignored: a
    /// reset always sets the stored counter to zero.
    Reset { counter: u64 },
    Withdraw {},
}

#[derive(Debug, PartialEq, Eq, Structural, Clone, Copy)]
pub struct ValueResponse {
    pub value: u64,
}

/// Which transition produced an execution response.
#[derive(Debug, PartialEq, Eq, Structural, Clone, Copy)]
pub enum Action {
    Donate,
    Reset,
    Withdraw,
}

/// An outbound instruction for the environment to carry out after the
/// call's state change is committed.
#[derive(Debug, PartialEq)]
pub enum OutMsg {
    /// Send the listed funds to the given address.
    Transfer { to_address: String, funds: Vec<Coin> },
    /// Invoke the donate transition of the program at the given address,
    /// attaching the listed funds.
    InvokeParentDonate { contract_addr: String, funds: Vec<Coin> },
}

/// The acknowledgement of an execution call: the action taken, the caller,
/// the resulting counter for a donation, the parent donated to if a
/// forward was triggered, and the outbound instructions.
#[derive(Debug, PartialEq)]
pub struct ExecResponse {
    pub action: Action,
    pub sender: String,
    pub counter: Option<u64>,
    pub donated_to_parent: Option<String>,
    pub messages: Vec<OutMsg>,
}

} // verus!
