//! The persistent-state engine of a small ledger program: a counter that
//! grows when an incoming donation meets a funds threshold, a periodic
//! forward of a part of the balance to a parent program, and a migration
//! engine that brings any known historical record layout up to the
//! current one.
//!
//! The surrounding envelope decodes requests, validates addresses, reads
//! the program's balances and persists the typed store; everything here
//! is a pure, verified transformation of that store.

pub mod contract;
pub mod error;
pub mod forward;
pub mod msg;
pub mod state;

use vstd::prelude::*;

use crate::contract::{
    donate_post, donate_ready, instantiate_post, migrate_post, reset_post, withdraw_post,
};
use crate::error::{ContractError, StoreError};
use crate::msg::{ExecMsg, ExecResponse, InstantiateMsg, QueryMsg, ValueResponse};
use crate::state::{Coin, StateRecord, Store};

verus! {

/// Entry point for instantiation: delegates to the contract logic.
pub fn instantiate(store: &mut Store, sender: String, msg: InstantiateMsg)
    ensures
        instantiate_post(*old(store), *final(store), sender, msg),
        (match msg.parent {
            Option::Some(p) => 1 <= p.donating_period && p.part.wf(),
            Option::None => true,
        }) ==> final(store).wf(),
{
    contract::instantiate(store, sender, msg)
}

/// Entry point for migration: driven entirely by the stored version tag.
pub fn migrate(store: &mut Store) -> (r: Result<(), ContractError>)
    ensures
        migrate_post(*old(store), *final(store), r),
        old(store).wf() ==> final(store).wf(),
{
    contract::migrate(store)
}

/// Entry point for execution: dispatches on the decoded message.  The
/// balance is the program's own current holdings, read by the envelope;
/// the funds are the coins the caller attached.
pub fn execute(
    store: &mut Store,
    balance: &Vec<Coin>,
    sender: String,
    funds: &Vec<Coin>,
    msg: ExecMsg,
) -> (r: Result<ExecResponse, ContractError>)
    requires
        (msg matches ExecMsg::Donate { .. }) ==> donate_ready(*old(store)),
    ensures
        (msg matches ExecMsg::Donate { .. }) ==> donate_post(
            *old(store),
            *final(store),
            balance@,
            sender,
            funds@,
            r,
        ),
        (msg matches ExecMsg::Reset { .. }) ==> reset_post(*old(store), *final(store), sender, r),
        (msg matches ExecMsg::Withdraw { .. }) ==> withdraw_post(*old(store), balance@, sender, r)
            && *final(store) == *old(store),
        old(store).wf() ==> final(store).wf(),
{
    match msg {
        ExecMsg::Donate {} => contract::donate(store, balance, sender, funds),
        ExecMsg::Reset { counter: _ } => contract::reset(store, sender),
        ExecMsg::Withdraw {} => contract::withdraw(store, balance, sender),
    }
}

/// Entry point for queries.  The incremented query is a stateless
/// arithmetic echo; the value query reads the counter.
pub fn query(store: &Store, msg: QueryMsg) -> (r: Result<ValueResponse, StoreError>)
    requires
        (msg matches QueryMsg::ValueIncremented { value } ==> value < u64::MAX),
    ensures
        (msg matches QueryMsg::Value { .. }) ==> match store.state {
            StateRecord::Current(st) => r == Ok::<ValueResponse, StoreError>(
                (ValueResponse { value: st.counter }),
            ),
            _ => r == Err::<ValueResponse, StoreError>(StoreError::NotFound),
        },
        (msg matches QueryMsg::ValueIncremented { value } ==> r == Ok::<ValueResponse, StoreError>(
            (ValueResponse { value: (value + 1) as u64 }),
        )),
{
    match msg {
        QueryMsg::Value {} => contract::value(store),
        QueryMsg::ValueIncremented { value } => Ok(ValueResponse { value: value + 1 }),
    }
}

} // verus!
