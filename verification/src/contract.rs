use vstd::prelude::*;

use crate::error::{ContractError, StoreError};
use crate::forward::{compute_forward, forwarded_funds};
use crate::msg::{Action, ExecResponse, InstantiateMsg, OutMsg, ValueResponse};
use crate::state::{Coin, ContractInfo, ParentDonation, State, StateRecord, Store};

verus! {

/// The identity every store this program owns must carry.
pub open spec fn spec_contract_name() -> Seq<char> {
    "counting-contract"@
}

/// The version tag of the current layout.
pub open spec fn spec_contract_version() -> Seq<char> {
    "0.3.0"@
}

/// The version tag of the oldest layout: three independent records.
pub open spec fn spec_version_0_1() -> Seq<char> {
    "0.1.4"@
}

/// The version tag of the combined layout without a parent concept.
pub open spec fn spec_version_0_2() -> Seq<char> {
    "0.2.0"@
}

/// Whether a donation carrying the given funds is accepted: the threshold
/// is disabled, or some attached coin matches the threshold denomination
/// with at least the threshold amount.
pub open spec fn donate_accepts(st: State, funds: Seq<Coin>) -> bool {
    ||| st.minimal_donation.amount == 0
    ||| exists|i: int|
        0 <= i < funds.len() && #[trigger] funds[i].denom@ == st.minimal_donation.denom@
            && funds[i].amount >= st.minimal_donation.amount
}

/// Whether an accepted donation brings the countdown to zero and so
/// triggers a forward to the parent.
pub open spec fn donate_triggers_forward(st: State, funds: Seq<Coin>) -> bool {
    donate_accepts(st, funds) && st.donating_parent == Some(1u64)
}

/// The state after one donation call: unchanged when the donation is not
/// accepted; otherwise the counter grows by one and the countdown, if any,
/// is decremented, a result of zero being replaced at once by the stored
/// period so that zero is never persisted.
pub open spec fn donate_next_state(st: State, funds: Seq<Coin>, period: u64) -> State {
    if donate_accepts(st, funds) {
        State {
            counter: (st.counter + 1) as u64,
            donating_parent: match st.donating_parent {
                Option::None => Option::None,
                Option::Some(n) => if n == 1 {
                    Option::Some(period)
                } else {
                    Option::Some((n - 1) as u64)
                },
            },
            ..st
        }
    } else {
        st
    }
}

/// The countdown reset value the parent record holds; zero stands in when
/// no record exists (a case the callers rule out before using it).
pub open spec fn stored_period(pd: Option<ParentDonation>) -> u64 {
    match pd {
        Option::Some(p) => p.donating_parent_period,
        Option::None => 0,
    }
}

/// Law: a donation never lowers the counter, and never touches the
/// threshold or the owner; only an explicit reset can bring the counter
/// down.
pub proof fn lemma_donate_preserves(st: State, funds: Seq<Coin>, period: u64)
    requires
        st.counter < u64::MAX,
    ensures
        donate_next_state(st, funds, period).counter >= st.counter,
        donate_next_state(st, funds, period).minimal_donation == st.minimal_donation,
        donate_next_state(st, funds, period).owner == st.owner,
{
}

/// Law: with a countdown period of three and a fresh countdown of three,
/// three consecutive accepted donations trigger exactly one forward
/// event, on the third, and leave the countdown at three again, never at
/// zero.
pub proof fn lemma_forwarding_cadence(
    st: State,
    f1: Seq<Coin>,
    f2: Seq<Coin>,
    f3: Seq<Coin>,
    period: u64,
)
    requires
        st.donating_parent == Some(3u64),
        period == 3,
        st.counter + 3 <= u64::MAX,
        donate_accepts(st, f1),
        donate_accepts(donate_next_state(st, f1, period), f2),
        donate_accepts(donate_next_state(donate_next_state(st, f1, period), f2, period), f3),
    ensures
        !donate_triggers_forward(st, f1),
        !donate_triggers_forward(donate_next_state(st, f1, period), f2),
        donate_triggers_forward(
            donate_next_state(donate_next_state(st, f1, period), f2, period),
            f3,
        ),
        donate_next_state(
            donate_next_state(donate_next_state(st, f1, period), f2, period),
            f3,
            period,
        ).donating_parent == Some(3u64),
        donate_next_state(
            donate_next_state(donate_next_state(st, f1, period), f2, period),
            f3,
            period,
        ).counter == st.counter + 3,
{
}

/// What a donation call must be able to rely on so that it cannot panic:
/// the counter has room to grow, a stored countdown was never persisted as
/// zero, and a stored part is a well-formed fraction.
pub open spec fn donate_ready(s: Store) -> bool {
    s.state matches StateRecord::Current(st) ==> {
        &&& st.counter < u64::MAX
        &&& (st.donating_parent matches Some(n) ==> 1 <= n)
        &&& (s.parent_donation matches Some(pd) ==> pd.part.wf())
    }
}

/// Everything a reset call promises, relating the store before (`s0`) and
/// after (`s1`) to the result.
pub open spec fn reset_post(
    s0: Store,
    s1: Store,
    sender: String,
    r: Result<ExecResponse, ContractError>,
) -> bool {
    match s0.state {
        StateRecord::Current(st) => if st.owner@ == sender@ {
            &&& r matches Ok(resp)
            &&& s1 == (Store { state: StateRecord::Current(State { counter: 0, ..st }), ..s0 })
            &&& resp.action == Action::Reset
            &&& resp.sender == sender
            &&& resp.counter matches None
            &&& resp.donated_to_parent matches None
            &&& resp.messages@.len() == 0
        } else {
            &&& r matches Err(ContractError::Unauthorized { owner }) && owner == st.owner
            &&& s1 == s0
        },
        _ => r == Err::<ExecResponse, ContractError>(ContractError::Storage(StoreError::NotFound))
            && s1 == s0,
    }
}

/// Everything a withdraw call promises: it never changes the store, and on
/// success it sweeps the whole balance to the owner.
pub open spec fn withdraw_post(
    s: Store,
    balance: Seq<Coin>,
    sender: String,
    r: Result<ExecResponse, ContractError>,
) -> bool {
    match s.state {
        StateRecord::Current(st) => if st.owner@ == sender@ {
            &&& r matches Ok(resp)
            &&& resp.action == Action::Withdraw
            &&& resp.sender == sender
            &&& resp.counter matches None
            &&& resp.donated_to_parent matches None
            &&& resp.messages@.len() == 1
            &&& resp.messages@[0] matches OutMsg::Transfer { to_address, funds }
                && to_address == st.owner && funds@ == balance
        } else {
            r matches Err(ContractError::Unauthorized { owner }) && owner == st.owner
        },
        _ => r == Err::<ExecResponse, ContractError>(ContractError::Storage(StoreError::NotFound)),
    }
}

/// Everything a donation call promises, relating the store before (`s0`)
/// and after (`s1`) to the result.
pub open spec fn donate_post(
    s0: Store,
    s1: Store,
    balance: Seq<Coin>,
    sender: String,
    funds: Seq<Coin>,
    r: Result<ExecResponse, ContractError>,
) -> bool {
    match s0.state {
        StateRecord::Current(st) => {
            if donate_triggers_forward(st, funds) && (s0.parent_donation matches None) {
                // The countdown reached zero but the parent record is
                // absent: the load fails and nothing is persisted.
                r == Err::<ExecResponse, ContractError>(ContractError::Storage(
                    StoreError::NotFound,
                )) && s1 == s0
            } else {
                let st1 = donate_next_state(st, funds, stored_period(s0.parent_donation));
                &&& r matches Ok(resp)
                &&& s1 == (Store { state: StateRecord::Current(st1), ..s0 })
                &&& resp.action == Action::Donate
                &&& resp.sender == sender
                &&& resp.counter == Some(st1.counter)
                &&& if donate_triggers_forward(st, funds) {
                    &&& s0.parent_donation matches Some(pd)
                    &&& resp.donated_to_parent == Some(pd.address)
                    &&& resp.messages@.len() == 1
                    &&& resp.messages@[0] matches OutMsg::InvokeParentDonate {
                        contract_addr,
                        funds: sent,
                    } && contract_addr == pd.address && sent@ == forwarded_funds(balance, pd.part)
                } else {
                    &&& resp.donated_to_parent matches None
                    &&& resp.messages@.len() == 0
                }
            }
        },
        _ => r == Err::<ExecResponse, ContractError>(ContractError::Storage(StoreError::NotFound))
            && s1 == s0,
    }
}

/// Counts a donation when the attached funds meet the threshold; on every
/// period-th accepted donation it also emits an instruction invoking the
/// parent's donate with the configured part of the current balance.  Funds
/// below the threshold are ignored without error and without a state
/// change.
pub fn donate(store: &mut Store, balance: &Vec<Coin>, sender: String, funds: &Vec<Coin>) -> (r:
    Result<ExecResponse, ContractError>)
    requires
        donate_ready(*old(store)),
    ensures
        donate_post(*old(store), *final(store), balance@, sender, funds@, r),
        old(store).wf() ==> final(store).wf(),
{
    let st = match &store.state {
        StateRecord::Current(s) => s.clone(),
        _ => {
            return Err(ContractError::Storage(StoreError::NotFound));
        },
    };
    let mut accepted = st.minimal_donation.amount == 0;
    let mut i: usize = 0;
    while i < funds.len()
        invariant
            i <= funds.len(),
            store.state == StateRecord::Current(st),
            accepted <==> donate_accepts(st, funds@.subrange(0, i as int)),
        decreases funds.len() - i,
    {
        if funds[i].denom == st.minimal_donation.denom
            && funds[i].amount >= st.minimal_donation.amount {
            accepted = true;
        }
        i += 1;
        proof {
            let pre = funds@.subrange(0, i - 1);
            let cur = funds@.subrange(0, i as int);
            assert(pre =~= cur.drop_last());
            assert(cur.last() == funds@[i - 1]);
            assert(donate_accepts(st, pre) ==> donate_accepts(st, cur)) by {
                if exists|j: int|
                    0 <= j < pre.len() && #[trigger] pre[j].denom@ == st.minimal_donation.denom@
                        && pre[j].amount >= st.minimal_donation.amount {
                    let j = choose|j: int|
                        0 <= j < pre.len() && #[trigger] pre[j].denom@
                            == st.minimal_donation.denom@
                            && pre[j].amount >= st.minimal_donation.amount;
                    assert(cur[j] == pre[j]);
                }
            }
        }
    }
    proof {
        assert(funds@.subrange(0, funds@.len() as int) =~= funds@);
    }
    if !accepted {
        return Ok(ExecResponse {
            action: Action::Donate,
            sender,
            counter: Some(st.counter),
            donated_to_parent: None,
            messages: Vec::new(),
        });
    }
    let new_counter = st.counter + 1;
    let mut messages: Vec<OutMsg> = Vec::new();
    let mut donated_to: Option<String> = None;
    let new_parent: Option<u64>;
    match st.donating_parent {
        None => {
            new_parent = None;
        },
        Some(n) => {
            if n == 1 {
                match &store.parent_donation {
                    None => {
                        return Err(ContractError::Storage(StoreError::NotFound));
                    },
                    Some(pd) => {
                        new_parent = Some(pd.donating_parent_period);
                        let sent = compute_forward(balance, pd.part);
                        donated_to = Some(pd.address.clone());
                        messages.push(OutMsg::InvokeParentDonate {
                            contract_addr: pd.address.clone(),
                            funds: sent,
                        });
                    },
                }
            } else {
                new_parent = Some(n - 1);
            }
        },
    }
    store.state = StateRecord::Current(
        State {
            counter: new_counter,
            minimal_donation: st.minimal_donation,
            owner: st.owner,
            donating_parent: new_parent,
        },
    );
    Ok(ExecResponse {
        action: Action::Donate,
        sender,
        counter: Some(new_counter),
        donated_to_parent: donated_to,
        messages,
    })
}

/// Returns the stored counter; touches nothing.
pub fn value(store: &Store) -> (r: Result<ValueResponse, StoreError>)
    ensures
        match store.state {
            StateRecord::Current(st) => r == Ok::<ValueResponse, StoreError>(
                (ValueResponse { value: st.counter }),
            ),
            _ => r == Err::<ValueResponse, StoreError>(StoreError::NotFound),
        },
{
    match &store.state {
        StateRecord::Current(st) => Ok(ValueResponse { value: st.counter }),
        _ => Err(StoreError::NotFound),
    }
}

/// Sets the counter back to zero, for the owner alone; every other field
/// keeps its value.  A caller-supplied counter, if the envelope decoded
/// one, plays no role.
pub fn reset(store: &mut Store, sender: String) -> (r: Result<ExecResponse, ContractError>)
    ensures
        reset_post(*old(store), *final(store), sender, r),
        old(store).wf() ==> final(store).wf(),
{
    let st = match &store.state {
        StateRecord::Current(s) => s.clone(),
        _ => {
            return Err(ContractError::Storage(StoreError::NotFound));
        },
    };
    if !(st.owner == sender) {
        return Err(ContractError::Unauthorized { owner: st.owner });
    }
    store.state = StateRecord::Current(
        State {
            counter: 0,
            minimal_donation: st.minimal_donation,
            owner: st.owner,
            donating_parent: st.donating_parent,
        },
    );
    Ok(ExecResponse {
        action: Action::Reset,
        sender,
        counter: None,
        donated_to_parent: None,
        messages: Vec::new(),
    })
}

/// Emits one transfer of the program's whole balance to the owner, for the
/// owner alone; the store is not touched at all.
pub fn withdraw(store: &Store, balance: &Vec<Coin>, sender: String) -> (r: Result<
    ExecResponse,
    ContractError,
>)
    ensures
        withdraw_post(*store, balance@, sender, r),
{
    let st = match &store.state {
        StateRecord::Current(s) => s.clone(),
        _ => {
            return Err(ContractError::Storage(StoreError::NotFound));
        },
    };
    if !(st.owner == sender) {
        return Err(ContractError::Unauthorized { owner: st.owner });
    }
    let funds = balance.clone();
    proof {
        assert(funds@ =~= balance@);
    }
    let mut messages: Vec<OutMsg> = Vec::new();
    messages.push(OutMsg::Transfer { to_address: st.owner, funds });
    Ok(ExecResponse {
        action: Action::Withdraw,
        sender,
        counter: None,
        donated_to_parent: None,
        messages,
    })
}

/// Everything instantiation promises, relating the store before (`s0`)
/// and after (`s1`) to the caller and the payload.
pub open spec fn instantiate_post(s0: Store, s1: Store, sender: String, msg: InstantiateMsg) -> bool {
    &&& s1.state == StateRecord::Current(
        (State {
            counter: msg.counter,
            minimal_donation: msg.minimal_donation,
            owner: sender,
            donating_parent: match msg.parent {
                Option::Some(p) => Option::Some(p.donating_period),
                Option::None => Option::None,
            },
        }),
    )
    &&& s1.contract_info matches Some(ci) && ci.contract@ == spec_contract_name() && ci.version@
        == spec_contract_version()
    &&& match msg.parent {
        Option::Some(p) => s1.parent_donation == Some(
            (ParentDonation {
                address: p.addr,
                donating_parent_period: p.donating_period,
                part: p.part,
            }),
        ),
        Option::None => s1.parent_donation == s0.parent_donation,
    }
    &&& s1.counter_item == s0.counter_item
    &&& s1.minimal_donation_item == s0.minimal_donation_item
    &&& s1.owner_item == s0.owner_item
}

/// Creates the program's state: the caller becomes the owner, and a
/// requested parent relationship creates the parent record and starts the
/// countdown at its period.  No parent requested means no countdown and no
/// parent record written.
pub fn instantiate(store: &mut Store, sender: String, msg: InstantiateMsg)
    ensures
        instantiate_post(*old(store), *final(store), sender, msg),
        (match msg.parent {
            Option::Some(p) => 1 <= p.donating_period && p.part.wf(),
            Option::None => true,
        }) ==> final(store).wf(),
{
    store.contract_info = Some(
        ContractInfo {
            contract: String::from_str("counting-contract"),
            version: String::from_str("0.3.0"),
        },
    );
    match msg.parent {
        None => {
            store.state = StateRecord::Current(
                State {
                    counter: msg.counter,
                    minimal_donation: msg.minimal_donation,
                    owner: sender,
                    donating_parent: None,
                },
            );
        },
        Some(p) => {
            store.state = StateRecord::Current(
                State {
                    counter: msg.counter,
                    minimal_donation: msg.minimal_donation,
                    owner: sender,
                    donating_parent: Some(p.donating_period),
                },
            );
            store.parent_donation = Some(
                ParentDonation {
                    address: p.addr,
                    donating_parent_period: p.donating_period,
                    part: p.part,
                },
            );
        },
    }
}

/// What upgrading from the oldest layout promises: the three independent
/// records are combined into a current-shape state with no parent
/// relationship invented, and nothing else moves.
pub open spec fn migrate_0_1_post(s0: Store, s1: Store, r: Result<(), StoreError>) -> bool {
    match (s0.counter_item, s0.minimal_donation_item, s0.owner_item) {
        (Some(c), Some(md), Some(ow)) => {
            &&& r == Ok::<(), StoreError>(())
            &&& s1 == (Store {
                state: StateRecord::Current(
                    State {
                        counter: c,
                        minimal_donation: md,
                        owner: ow,
                        donating_parent: None,
                    },
                ),
                ..s0
            })
        },
        _ => r == Err::<(), StoreError>(StoreError::NotFound) && s1 == s0,
    }
}

/// Upgrades from the oldest layout: loads the three independent records
/// and saves them as one current-shape state with no parent.  The version
/// tag is the caller's to update.
pub fn migrate_0_1(store: &mut Store) -> (r: Result<(), StoreError>)
    ensures
        migrate_0_1_post(*old(store), *final(store), r),
{
    let c = match &store.counter_item {
        Some(c) => *c,
        None => {
            return Err(StoreError::NotFound);
        },
    };
    let md = match &store.minimal_donation_item {
        Some(m) => m.clone(),
        None => {
            return Err(StoreError::NotFound);
        },
    };
    let ow = match &store.owner_item {
        Some(o) => o.clone(),
        None => {
            return Err(StoreError::NotFound);
        },
    };
    store.state = StateRecord::Current(
        State { counter: c, minimal_donation: md, owner: ow, donating_parent: None },
    );
    Ok(())
}

/// What upgrading from the combined layout promises: the three fields are
/// carried over unchanged into the current shape, with no parent
/// relationship invented, and nothing else moves.
pub open spec fn migrate_0_2_post(s0: Store, s1: Store, r: Result<(), StoreError>) -> bool {
    match s0.state {
        StateRecord::Legacy { counter, minimal_donation, owner } => {
            &&& r == Ok::<(), StoreError>(())
            &&& s1 == (Store {
                state: StateRecord::Current(
                    State { counter, minimal_donation, owner, donating_parent: None },
                ),
                ..s0
            })
        },
        _ => r == Err::<(), StoreError>(StoreError::NotFound) && s1 == s0,
    }
}

/// Upgrades from the combined layout: reads the record under the state key
/// in its old shape and saves it back in the current shape.  The version
/// tag is the caller's to update.
pub fn migrate_0_2(store: &mut Store) -> (r: Result<(), StoreError>)
    ensures
        migrate_0_2_post(*old(store), *final(store), r),
{
    let (c, md, ow) = match &store.state {
        StateRecord::Legacy { counter, minimal_donation, owner } => (
            *counter,
            minimal_donation.clone(),
            owner.clone(),
        ),
        _ => {
            return Err(StoreError::NotFound);
        },
    };
    store.state = StateRecord::Current(
        State { counter: c, minimal_donation: md, owner: ow, donating_parent: None },
    );
    Ok(())
}

/// Everything a migration call promises.  The checks come in order: a
/// missing identity record fails, a foreign name fails before anything is
/// touched, a historical tag runs its upgrade and bumps the version tag,
/// the current tag is a no-op success that leaves every record as it was,
/// and an unknown tag fails carrying the tag.
pub open spec fn migrate_post(s0: Store, s1: Store, r: Result<(), ContractError>) -> bool {
    match s0.contract_info {
        Option::None => r == Err::<(), ContractError>(ContractError::Storage(StoreError::NotFound))
            && s1 == s0,
        Option::Some(ci) => if ci.contract@ != spec_contract_name() {
            &&& r matches Err(ContractError::InvalidName(n)) && n == ci.contract
            &&& s1 == s0
        } else if ci.version@ == spec_contract_version() {
            r == Ok::<(), ContractError>(()) && s1 == s0
        } else if ci.version@ == spec_version_0_1() {
            match (s0.counter_item, s0.minimal_donation_item, s0.owner_item) {
                (Some(c), Some(md), Some(ow)) => {
                    &&& r == Ok::<(), ContractError>(())
                    &&& s1.state == StateRecord::Current(
                        (State {
                            counter: c,
                            minimal_donation: md,
                            owner: ow,
                            donating_parent: None,
                        }),
                    )
                    &&& s1.contract_info matches Some(ci1) && ci1.contract@
                        == spec_contract_name() && ci1.version@ == spec_contract_version()
                    &&& s1.parent_donation == s0.parent_donation
                    &&& s1.counter_item == s0.counter_item
                    &&& s1.minimal_donation_item == s0.minimal_donation_item
                    &&& s1.owner_item == s0.owner_item
                },
                _ => r == Err::<(), ContractError>(ContractError::Storage(StoreError::NotFound))
                    && s1 == s0,
            }
        } else if ci.version@ == spec_version_0_2() {
            match s0.state {
                StateRecord::Legacy { counter, minimal_donation, owner } => {
                    &&& r == Ok::<(), ContractError>(())
                    &&& s1.state == StateRecord::Current(
                        (State { counter, minimal_donation, owner, donating_parent: None }),
                    )
                    &&& s1.contract_info matches Some(ci1) && ci1.contract@
                        == spec_contract_name() && ci1.version@ == spec_contract_version()
                    &&& s1.parent_donation == s0.parent_donation
                    &&& s1.counter_item == s0.counter_item
                    &&& s1.minimal_donation_item == s0.minimal_donation_item
                    &&& s1.owner_item == s0.owner_item
                },
                _ => r == Err::<(), ContractError>(ContractError::Storage(StoreError::NotFound))
                    && s1 == s0,
            }
        } else {
            &&& r matches Err(ContractError::UnsupportedVersion(v)) && v == ci.version
            &&& s1 == s0
        },
    }
}

/// Brings the store to the current layout, whatever known layout it is on.
/// Running it on an up-to-date store changes nothing and succeeds; an
/// unrecognized version tag or a foreign stored identity fails with the
/// offending value and no partial write.
pub fn migrate(store: &mut Store) -> (r: Result<(), ContractError>)
    ensures
        migrate_post(*old(store), *final(store), r),
        old(store).wf() ==> final(store).wf(),
{
    proof {
        reveal_strlit("counting-contract");
        reveal_strlit("0.3.0");
        reveal_strlit("0.1.4");
        reveal_strlit("0.2.0");
    }
    let (name, version) = match &store.contract_info {
        Some(ci) => (ci.contract.clone(), ci.version.clone()),
        None => {
            return Err(ContractError::Storage(StoreError::NotFound));
        },
    };
    if !(name == String::from_str("counting-contract")) {
        return Err(ContractError::InvalidName(name));
    }
    if version == String::from_str("0.3.0") {
        return Ok(());
    }
    if version == String::from_str("0.1.4") {
        match migrate_0_1(store) {
            Ok(()) => {},
            Err(e) => {
                return Err(ContractError::Storage(e));
            },
        }
    } else if version == String::from_str("0.2.0") {
        match migrate_0_2(store) {
            Ok(()) => {},
            Err(e) => {
                return Err(ContractError::Storage(e));
            },
        }
    } else {
        return Err(ContractError::UnsupportedVersion(version));
    }
    store.contract_info = Some(
        ContractInfo {
            contract: String::from_str("counting-contract"),
            version: String::from_str("0.3.0"),
        },
    );
    Ok(())
}

} // verus!
