use vstd::prelude::*;
use vstd::string::StringExecFns;

use crate::contract::{spec_do_transfer, spec_fee_attrs};
use crate::error::ContractError;
use crate::fmt::{dec_str, u128_to_string};
use crate::response::{OutMsg, OutMsgV, Response};
use crate::state::{
    allow_of, get_allowance, remove_allowance_entry, set_allowance_entry, sum_bal,
    AllowanceInfo, BlockInfo, Env, Expiration, TokenState,
};

verus! {

/// The allowance an absent entry stands for: zero, never expiring.
pub open spec fn default_allowance() -> AllowanceInfo {
    AllowanceInfo { allowance: 0, expires: Expiration::Never }
}

/// The allowance after an increase: the amount added, the expiration
/// overwritten when a new one is supplied (a new expiration already in the
/// past is rejected, as is an amount that no longer fits).
pub open spec fn spec_increase(
    cur: Option<AllowanceInfo>,
    amount: u128,
    expires: Option<Expiration>,
    b: BlockInfo,
) -> Result<AllowanceInfo, ContractError> {
    let base = match cur {
        Option::Some(a) => a,
        Option::None => default_allowance(),
    };
    let exp = match expires {
        Option::Some(e) => e,
        Option::None => base.expires,
    };
    if match expires {
        Option::Some(e) => e.spec_is_expired(b),
        Option::None => false,
    } {
        Result::Err(ContractError::InvalidExpiration {})
    } else if base.allowance + amount > u128::MAX {
        Result::Err(ContractError::InvalidAmount {})
    } else {
        Result::Ok(AllowanceInfo { allowance: (base.allowance + amount) as u128, expires: exp })
    }
}

/// The allowance after a decrease: subtracting more than is there fails (no
/// clamping); a result of zero with no expiration supplied deletes the entry
/// (`Ok(None)`).
pub open spec fn spec_decrease(
    cur: Option<AllowanceInfo>,
    amount: u128,
    expires: Option<Expiration>,
    b: BlockInfo,
) -> Result<Option<AllowanceInfo>, ContractError> {
    match cur {
        Option::None => Result::Err(ContractError::NoAllowance {}),
        Option::Some(a) => if a.allowance < amount {
            Result::Err(ContractError::InvalidAmount {})
        } else {
            let rem = (a.allowance - amount) as u128;
            match expires {
                Option::Some(e) => if e.spec_is_expired(b) {
                    Result::Err(ContractError::InvalidExpiration {})
                } else {
                    Result::Ok(Option::Some(AllowanceInfo { allowance: rem, expires: e }))
                },
                Option::None => if rem == 0 {
                    Result::Ok(Option::None)
                } else {
                    Result::Ok(
                        Option::Some(AllowanceInfo { allowance: rem, expires: a.expires }),
                    )
                },
            }
        },
    }
}

/// The allowance after a delegated spend: the entry must exist, must not be
/// expired as of the logical clock, and must cover the amount.
pub open spec fn spec_deduct(
    cur: Option<AllowanceInfo>,
    amount: u128,
    b: BlockInfo,
) -> Result<AllowanceInfo, ContractError> {
    match cur {
        Option::None => Result::Err(ContractError::NoAllowance {}),
        Option::Some(a) => if a.expires.spec_is_expired(b) {
            Result::Err(ContractError::Expired {})
        } else if a.allowance < amount {
            Result::Err(ContractError::InvalidAmount {})
        } else {
            Result::Ok(
                AllowanceInfo { allowance: (a.allowance - amount) as u128, expires: a.expires },
            )
        },
    }
}

/// Writes one allowance into both indexes together.
fn write_allowance_pair(
    state: &mut TokenState,
    owner: &String,
    spender: &String,
    info: AllowanceInfo,
)
    requires
        old(state).wf(),
    ensures
        final(state).wf(),
        allow_of(final(state).allowances@, owner@, spender@) == Option::Some(info),
        forall|x: Seq<char>, y: Seq<char>|
            !(x == owner@ && y == spender@) ==> allow_of(final(state).allowances@, x, y)
                == allow_of(old(state).allowances@, x, y),
        final(state).balances == old(state).balances,
        final(state).token_info == old(state).token_info,
        final(state).extended_info == old(state).extended_info,
        final(state).config == old(state).config,
        final(state).fee_config == old(state).fee_config,
        final(state).marketing_info == old(state).marketing_info,
        final(state).logo == old(state).logo,
{
    set_allowance_entry(&mut state.allowances, owner, spender, info);
    set_allowance_entry(&mut state.spender_allowances, spender, owner, info);
    proof {
        assert forall|o: Seq<char>, sp: Seq<char>| #[trigger] allow_of(
            state.allowances@,
            o,
            sp,
        ) == allow_of(state.spender_allowances@, sp, o) by {
            if o == owner@ && sp == spender@ {
            } else {
                assert(allow_of(old(state).allowances@, o, sp) == allow_of(
                    old(state).spender_allowances@,
                    sp,
                    o,
                ));
            }
        }
    }
}

/// Removes one allowance from both indexes together.
fn remove_allowance_pair(state: &mut TokenState, owner: &String, spender: &String)
    requires
        old(state).wf(),
    ensures
        final(state).wf(),
        allow_of(final(state).allowances@, owner@, spender@) is None,
        forall|x: Seq<char>, y: Seq<char>|
            !(x == owner@ && y == spender@) ==> allow_of(final(state).allowances@, x, y)
                == allow_of(old(state).allowances@, x, y),
        final(state).balances == old(state).balances,
        final(state).token_info == old(state).token_info,
        final(state).extended_info == old(state).extended_info,
        final(state).config == old(state).config,
        final(state).fee_config == old(state).fee_config,
        final(state).marketing_info == old(state).marketing_info,
        final(state).logo == old(state).logo,
{
    remove_allowance_entry(&mut state.allowances, owner, spender);
    remove_allowance_entry(&mut state.spender_allowances, spender, owner);
    proof {
        assert forall|o: Seq<char>, sp: Seq<char>| #[trigger] allow_of(
            state.allowances@,
            o,
            sp,
        ) == allow_of(state.spender_allowances@, sp, o) by {
            if o == owner@ && sp == spender@ {
            } else {
                assert(allow_of(old(state).allowances@, o, sp) == allow_of(
                    old(state).spender_allowances@,
                    sp,
                    o,
                ));
            }
        }
    }
}

/// The fixed-order attributes of an allowance adjustment.
pub open spec fn allowance_attrs(
    action: Seq<char>,
    owner: Seq<char>,
    spender: Seq<char>,
    amount: u128,
) -> Seq<(Seq<char>, Seq<char>)> {
    seq![
        ("action"@, action),
        ("owner"@, owner),
        ("spender"@, spender),
        ("amount"@, dec_str(amount as int)),
    ]
}

/// What an allowance mutation leaves untouched: everything but the two
/// allowance indexes.
pub open spec fn allowance_frame(pre: TokenState, post: TokenState) -> bool {
    &&& post.balances == pre.balances
    &&& post.token_info == pre.token_info
    &&& post.extended_info == pre.extended_info
    &&& post.config == pre.config
    &&& post.fee_config == pre.fee_config
    &&& post.marketing_info == pre.marketing_info
    &&& post.logo == pre.logo
}

/// Everything an allowance increase guarantees: no allowance toward
/// oneself; the amount added (a zero-based entry created when absent) and a
/// supplied expiration overwriting the stored one; every other allowance and
/// the rest of the state untouched.
pub open spec fn increase_allowance_post(
    pre: TokenState,
    post: TokenState,
    r: Result<Response, ContractError>,
    b: BlockInfo,
    sender: String,
    spender: String,
    amount: u128,
    expires: Option<Expiration>,
) -> bool {
    if sender@ == spender@ {
        (r matches Err(e) && e == (ContractError::CannotSetOwnAccount {  })) && post == pre
    } else {
        match spec_increase(allow_of(pre.allowances@, sender@, spender@), amount, expires, b) {
            Result::Ok(info) => {
                &&& r is Ok
                &&& allow_of(post.allowances@, sender@, spender@) == Option::Some(info)
                &&& forall|x: Seq<char>, y: Seq<char>|
                    !(x == sender@ && y == spender@) ==> allow_of(post.allowances@, x, y)
                        == allow_of(pre.allowances@, x, y)
                &&& allowance_frame(pre, post)
                &&& (r matches Ok(resp) && resp.attrs() =~= allowance_attrs(
                    "increase_allowance"@,
                    sender@,
                    spender@,
                    amount,
                ) && resp.msgs() =~= Seq::<OutMsgV>::empty())
            },
            Result::Err(e) => (r matches Err(e2) && e2 == e) && post == pre,
        }
    }
}

/// Adds `amount` to the caller's allowance toward `spender` (creating a
/// zero-based entry when absent) and overwrites the expiration with a newly
/// supplied one.
pub fn execute_increase_allowance(
    state: &mut TokenState,
    env: &Env,
    sender: &String,
    spender: String,
    amount: u128,
    expires: Option<Expiration>,
) -> (r: Result<Response, ContractError>)
    requires
        old(state).wf(),
    ensures
        final(state).wf(),
        increase_allowance_post(
            *old(state),
            *final(state),
            r,
            env.block,
            *sender,
            spender,
            amount,
            expires,
        ),
{
    if sender.eq(&spender) {
        return Err(ContractError::CannotSetOwnAccount {});
    }
    let cur = get_allowance(&state.allowances, sender, &spender);
    let base = match cur {
        Some(a) => a,
        None => crate::state::AllowanceInfo { allowance: 0, expires: Expiration::Never },
    };
    let exp = match &expires {
        Some(e) => {
            if e.is_expired(&env.block) {
                return Err(ContractError::InvalidExpiration {});
            }
            *e
        },
        None => base.expires,
    };
    let new_amount = match base.allowance.checked_add(amount) {
        Some(v) => v,
        None => {
            return Err(ContractError::InvalidAmount {});
        },
    };
    let info = AllowanceInfo { allowance: new_amount, expires: exp };
    write_allowance_pair(state, sender, &spender, info);
    let mut response = Response::new();
    response.add_attribute("action", String::from_str("increase_allowance"));
    response.add_attribute("owner", sender.clone());
    response.add_attribute("spender", spender);
    response.add_attribute("amount", u128_to_string(amount));
    Ok(response)
}

/// Everything an allowance decrease guarantees: no clamping (more than is
/// there fails); a result of zero with no new expiration removes the entry
/// from both indexes; every other allowance and the rest of the state
/// untouched.
pub open spec fn decrease_allowance_post(
    pre: TokenState,
    post: TokenState,
    r: Result<Response, ContractError>,
    b: BlockInfo,
    sender: String,
    spender: String,
    amount: u128,
    expires: Option<Expiration>,
) -> bool {
    if sender@ == spender@ {
        (r matches Err(e) && e == (ContractError::CannotSetOwnAccount {  })) && post == pre
    } else {
        match spec_decrease(allow_of(pre.allowances@, sender@, spender@), amount, expires, b) {
            Result::Ok(new_entry) => {
                &&& r is Ok
                &&& allow_of(post.allowances@, sender@, spender@) == new_entry
                &&& forall|x: Seq<char>, y: Seq<char>|
                    !(x == sender@ && y == spender@) ==> allow_of(post.allowances@, x, y)
                        == allow_of(pre.allowances@, x, y)
                &&& allowance_frame(pre, post)
                &&& (r matches Ok(resp) && resp.attrs() =~= allowance_attrs(
                    "decrease_allowance"@,
                    sender@,
                    spender@,
                    amount,
                ) && resp.msgs() =~= Seq::<OutMsgV>::empty())
            },
            Result::Err(e) => (r matches Err(e2) && e2 == e) && post == pre,
        }
    }
}

/// Subtracts `amount` from the caller's allowance toward `spender`.  There is
/// no clamping: more than is there fails.  A result of zero with no new
/// expiration removes the entry from both indexes.
pub fn execute_decrease_allowance(
    state: &mut TokenState,
    env: &Env,
    sender: &String,
    spender: String,
    amount: u128,
    expires: Option<Expiration>,
) -> (r: Result<Response, ContractError>)
    requires
        old(state).wf(),
    ensures
        final(state).wf(),
        decrease_allowance_post(
            *old(state),
            *final(state),
            r,
            env.block,
            *sender,
            spender,
            amount,
            expires,
        ),
{
    if sender.eq(&spender) {
        return Err(ContractError::CannotSetOwnAccount {});
    }
    let cur = match get_allowance(&state.allowances, sender, &spender) {
        Some(a) => a,
        None => {
            return Err(ContractError::NoAllowance {});
        },
    };
    if cur.allowance < amount {
        return Err(ContractError::InvalidAmount {});
    }
    let rem = cur.allowance - amount;
    match &expires {
        Some(e) => {
            if e.is_expired(&env.block) {
                return Err(ContractError::InvalidExpiration {});
            }
            write_allowance_pair(
                state,
                sender,
                &spender,
                AllowanceInfo { allowance: rem, expires: *e },
            );
        },
        None => {
            if rem == 0 {
                remove_allowance_pair(state, sender, &spender);
            } else {
                write_allowance_pair(
                    state,
                    sender,
                    &spender,
                    AllowanceInfo { allowance: rem, expires: cur.expires },
                );
            }
        },
    }
    let mut response = Response::new();
    response.add_attribute("action", String::from_str("decrease_allowance"));
    response.add_attribute("owner", sender.clone());
    response.add_attribute("spender", spender);
    response.add_attribute("amount", u128_to_string(amount));
    Ok(response)
}

/// Increasing and then decreasing an allowance by the same amount, with no
/// intervening spend, restores the original value, and the original
/// expiration exactly when it is re-supplied on the decrease.  When the
/// decrease omits the expiration, the amount is still restored, but the
/// expiration stays whatever the increase set (documented divergence).
pub proof fn law_allowance_round_trip(
    cur: AllowanceInfo,
    amount: u128,
    e1: Expiration,
    b: BlockInfo,
)
    requires
        cur.allowance + amount <= u128::MAX,
        !e1.spec_is_expired(b),
        !cur.expires.spec_is_expired(b),
    ensures
        spec_increase(Option::Some(cur), amount, Option::Some(e1), b) matches Result::Ok(mid)
            && spec_decrease(Option::Some(mid), amount, Option::Some(cur.expires), b)
            == Result::<Option<AllowanceInfo>, ContractError>::Ok(Option::Some(cur)),
        cur.allowance > 0 ==> (spec_increase(Option::Some(cur), amount, Option::Some(e1), b)
            matches Result::Ok(mid) && spec_decrease(Option::Some(mid), amount, Option::None, b)
            matches Result::Ok(Option::Some(fin)) && fin.allowance == cur.allowance),
{
}

/// Increasing an absent allowance and then decreasing it by the same amount,
/// with no expiration supplied either time, removes the entry again: absence
/// is restored exactly.
pub proof fn law_allowance_round_trip_absent(amount: u128, b: BlockInfo)
    ensures
        spec_increase(Option::None, amount, Option::None, b) matches Result::Ok(mid)
            && spec_decrease(Option::Some(mid), amount, Option::None, b) == Result::<
            Option<AllowanceInfo>,
            ContractError,
        >::Ok(Option::None),
{
}


/// What a delegated spend leaves untouched: everything but balances, the
/// supply record and the two allowance indexes.
pub open spec fn delegated_frame(pre: TokenState, post: TokenState) -> bool {
    &&& post.extended_info == pre.extended_info
    &&& post.config == pre.config
    &&& post.fee_config == pre.fee_config
    &&& post.marketing_info == pre.marketing_info
    &&& post.logo == pre.logo
}

/// Everything a delegated transfer guarantees: the allowance checked
/// (existence, expiry, remainder) and decremented in both indexes, then the
/// same ledger and fee path as an owner-initiated transfer, reporting the
/// caller as `by`.  Any failure leaves everything untouched.
pub open spec fn transfer_from_post(
    pre: TokenState,
    post: TokenState,
    r: Result<Response, ContractError>,
    b: BlockInfo,
    sender: String,
    owner: String,
    recipient: String,
    amount: u128,
) -> bool {
    match spec_deduct(allow_of(pre.allowances@, owner@, sender@), amount, b) {
        Result::Err(e) => (r matches Err(e2) && e2 == e) && post == pre,
        Result::Ok(ninfo) => match crate::contract::spec_do_transfer(
            pre.balances@,
            pre.fee_config,
            owner,
            recipient,
            amount,
        ) {
            Result::Err(e) => (r matches Err(e2) && e2 == e) && post == pre,
            Result::Ok(t) => {
                &&& r is Ok
                &&& post.balances@ == t.0
                &&& post.token_info == pre.token_info
                &&& delegated_frame(pre, post)
                &&& sum_bal(post.balances@) == sum_bal(pre.balances@) - t.2
                &&& (pre.supply_consistent() && t.2 == 0 ==> post.supply_consistent())
                &&& allow_of(post.allowances@, owner@, sender@) == Option::Some(ninfo)
                &&& forall|x: Seq<char>, y: Seq<char>|
                    !(x == owner@ && y == sender@) ==> allow_of(post.allowances@, x, y)
                        == allow_of(pre.allowances@, x, y)
                &&& (r matches Ok(resp) && resp.attrs() =~= seq![
                    ("action"@, "transfer_from"@),
                    ("from"@, owner@),
                    ("to"@, recipient@),
                    ("by"@, sender@),
                    ("amount"@, dec_str(t.1 as int)),
                ] + spec_fee_attrs(t.2, pre.fee_config) && resp.msgs() =~= t.3)
            },
        },
    }
}

/// Spends `amount` of `owner`'s balance on the strength of the caller's
/// allowance: the allowance is checked (existence, expiry, remainder) and
/// decremented, then the move follows the same ledger and fee path as an
/// owner-initiated transfer.  Any failure leaves allowance and ledger
/// untouched.
pub fn execute_transfer_from(
    state: &mut TokenState,
    env: &Env,
    sender: &String,
    owner: String,
    recipient: String,
    amount: u128,
) -> (r: Result<Response, ContractError>)
    requires
        old(state).wf(),
    ensures
        final(state).wf(),
        transfer_from_post(
            *old(state),
            *final(state),
            r,
            env.block,
            *sender,
            owner,
            recipient,
            amount,
        ),
{
    let ninfo = match get_allowance(&state.allowances, &owner, sender) {
        None => {
            return Err(ContractError::NoAllowance {});
        },
        Some(a) => {
            if a.expires.is_expired(&env.block) {
                return Err(ContractError::Expired {});
            }
            if a.allowance < amount {
                return Err(ContractError::InvalidAmount {});
            }
            AllowanceInfo { allowance: a.allowance - amount, expires: a.expires }
        },
    };
    let fee_result = crate::contract::do_transfer(state, &owner, &recipient, amount)?;
    write_allowance_pair(state, &owner, sender, ninfo);
    let crate::fee::FeeCalculationResult { transfer_amount, fee_amount, fee_msgs } = fee_result;
    let mut response = Response::new();
    response.add_attribute("action", String::from_str("transfer_from"));
    response.add_attribute("from", owner);
    response.add_attribute("to", recipient);
    response.add_attribute("by", sender.clone());
    response.add_attribute("amount", u128_to_string(transfer_amount));
    response.add_messages(fee_msgs);
    let carried = crate::fee::FeeCalculationResult {
        transfer_amount,
        fee_amount,
        fee_msgs: Vec::new(),
    };
    let response = crate::contract::add_fee_attributes(
        response,
        &carried,
        match &state.fee_config {
            Some(c) => Some(c),
            None => None,
        },
    );
    Ok(response)
}

/// Everything a delegated burn guarantees: the allowance checked and
/// decremented, the owner debited and the supply lowered in step, the
/// supply invariant preserved.
pub open spec fn burn_from_post(
    pre: TokenState,
    post: TokenState,
    r: Result<Response, ContractError>,
    b: BlockInfo,
    sender: String,
    owner: String,
    amount: u128,
) -> bool {
    match spec_deduct(allow_of(pre.allowances@, owner@, sender@), amount, b) {
        Result::Err(e) => (r matches Err(e2) && e2 == e) && post == pre,
        Result::Ok(ninfo) => match crate::contract::spec_burn(
            pre.balances@,
            pre.token_info.total_supply,
            owner,
            amount,
        ) {
            Result::Err(e) => (r matches Err(e2) && e2 == e) && post == pre,
            Result::Ok(t) => {
                &&& r is Ok
                &&& post.balances@ == t.0
                &&& post.token_info.total_supply == t.1
                &&& post.token_info.name == pre.token_info.name
                &&& post.token_info.symbol == pre.token_info.symbol
                &&& post.token_info.decimals == pre.token_info.decimals
                &&& post.token_info.mint == pre.token_info.mint
                &&& delegated_frame(pre, post)
                &&& sum_bal(post.balances@) == sum_bal(pre.balances@) - amount
                &&& (pre.supply_consistent() ==> post.supply_consistent())
                &&& allow_of(post.allowances@, owner@, sender@) == Option::Some(ninfo)
                &&& forall|x: Seq<char>, y: Seq<char>|
                    !(x == owner@ && y == sender@) ==> allow_of(post.allowances@, x, y)
                        == allow_of(pre.allowances@, x, y)
                &&& (r matches Ok(resp) && resp.attrs() =~= seq![
                    ("action"@, "burn_from"@),
                    ("from"@, owner@),
                    ("by"@, sender@),
                    ("amount"@, dec_str(amount as int)),
                ] && resp.msgs() =~= Seq::<OutMsgV>::empty())
            },
        },
    }
}

/// Burns `amount` of `owner`'s balance on the strength of the caller's
/// allowance, lowering the total supply.
pub fn execute_burn_from(
    state: &mut TokenState,
    env: &Env,
    sender: &String,
    owner: String,
    amount: u128,
) -> (r: Result<Response, ContractError>)
    requires
        old(state).wf(),
    ensures
        final(state).wf(),
        burn_from_post(*old(state), *final(state), r, env.block, *sender, owner, amount),
{
    let ninfo = match get_allowance(&state.allowances, &owner, sender) {
        None => {
            return Err(ContractError::NoAllowance {});
        },
        Some(a) => {
            if a.expires.is_expired(&env.block) {
                return Err(ContractError::Expired {});
            }
            if a.allowance < amount {
                return Err(ContractError::InvalidAmount {});
            }
            AllowanceInfo { allowance: a.allowance - amount, expires: a.expires }
        },
    };
    let owner_balance = crate::state::get_balance(&state.balances, &owner);
    if owner_balance < amount {
        return Err(ContractError::InsufficientFunds {});
    }
    if state.token_info.total_supply < amount {
        return Err(ContractError::InvalidAmount {});
    }
    crate::state::set_balance(&mut state.balances, &owner, owner_balance - amount);
    state.token_info.total_supply = state.token_info.total_supply - amount;
    write_allowance_pair(state, &owner, sender, ninfo);
    let mut response = Response::new();
    response.add_attribute("action", String::from_str("burn_from"));
    response.add_attribute("from", owner);
    response.add_attribute("by", sender.clone());
    response.add_attribute("amount", u128_to_string(amount));
    Ok(response)
}

/// Everything a delegated send guarantees: a delegated transfer toward a
/// contract, with the receive notification ahead of the fee movements.
pub open spec fn send_from_post(
    pre: TokenState,
    post: TokenState,
    r: Result<Response, ContractError>,
    b: BlockInfo,
    sender: String,
    owner: String,
    contract: String,
    amount: u128,
    payload: Seq<u8>,
) -> bool {
    match spec_deduct(allow_of(pre.allowances@, owner@, sender@), amount, b) {
        Result::Err(e) => (r matches Err(e2) && e2 == e) && post == pre,
        Result::Ok(ninfo) => match crate::contract::spec_do_transfer(
            pre.balances@,
            pre.fee_config,
            owner,
            contract,
            amount,
        ) {
            Result::Err(e) => (r matches Err(e2) && e2 == e) && post == pre,
            Result::Ok(t) => {
                &&& r is Ok
                &&& post.balances@ == t.0
                &&& post.token_info == pre.token_info
                &&& delegated_frame(pre, post)
                &&& sum_bal(post.balances@) == sum_bal(pre.balances@) - t.2
                &&& (pre.supply_consistent() && t.2 == 0 ==> post.supply_consistent())
                &&& allow_of(post.allowances@, owner@, sender@) == Option::Some(ninfo)
                &&& forall|x: Seq<char>, y: Seq<char>|
                    !(x == owner@ && y == sender@) ==> allow_of(post.allowances@, x, y)
                        == allow_of(pre.allowances@, x, y)
                &&& (r matches Ok(resp) && resp.attrs() =~= seq![
                    ("action"@, "send_from"@),
                    ("from"@, owner@),
                    ("to"@, contract@),
                    ("by"@, sender@),
                    ("amount"@, dec_str(t.1 as int)),
                ] + spec_fee_attrs(t.2, pre.fee_config) && resp.msgs() =~= seq![
                    OutMsgV::Cw20Receive {
                        contract: contract@,
                        sender: sender@,
                        amount: t.1,
                        msg: payload,
                    },
                ] + t.3)
            },
        },
    }
}

/// Sends `amount` of `owner`'s balance to a contract on the strength of the
/// caller's allowance, notifying the recipient contract ahead of the fee
/// movements.
pub fn execute_send_from(
    state: &mut TokenState,
    env: &Env,
    sender: &String,
    owner: String,
    contract: String,
    amount: u128,
    msg: Vec<u8>,
) -> (r: Result<Response, ContractError>)
    requires
        old(state).wf(),
    ensures
        final(state).wf(),
        send_from_post(
            *old(state),
            *final(state),
            r,
            env.block,
            *sender,
            owner,
            contract,
            amount,
            msg@,
        ),
{
    let ninfo = match get_allowance(&state.allowances, &owner, sender) {
        None => {
            return Err(ContractError::NoAllowance {});
        },
        Some(a) => {
            if a.expires.is_expired(&env.block) {
                return Err(ContractError::Expired {});
            }
            if a.allowance < amount {
                return Err(ContractError::InvalidAmount {});
            }
            AllowanceInfo { allowance: a.allowance - amount, expires: a.expires }
        },
    };
    let fee_result = crate::contract::do_transfer(state, &owner, &contract, amount)?;
    write_allowance_pair(state, &owner, sender, ninfo);
    let crate::fee::FeeCalculationResult { transfer_amount, fee_amount, fee_msgs } = fee_result;
    let mut response = Response::new();
    response.add_attribute("action", String::from_str("send_from"));
    response.add_attribute("from", owner);
    response.add_attribute("to", contract.clone());
    response.add_attribute("by", sender.clone());
    response.add_attribute("amount", u128_to_string(transfer_amount));
    response.add_message(
        OutMsg::Cw20Receive { contract, sender: sender.clone(), amount: transfer_amount, msg },
    );
    response.add_messages(fee_msgs);
    let carried = crate::fee::FeeCalculationResult {
        transfer_amount,
        fee_amount,
        fee_msgs: Vec::new(),
    };
    let response = crate::contract::add_fee_attributes(
        response,
        &carried,
        match &state.fee_config {
            Some(c) => Some(c),
            None => None,
        },
    );
    Ok(response)
}

/// The caller's remaining allowance from `owner`; zero and never-expiring
/// when no entry exists.
pub fn query_allowance(state: &TokenState, owner: String, spender: String) -> (r:
    crate::msg::AllowanceResponse)
    requires
        state.wf(),
    ensures
        match allow_of(state.allowances@, owner@, spender@) {
            Option::Some(a) => r.allowance == a.allowance && r.expires == a.expires,
            Option::None => r.allowance == 0 && r.expires == (Expiration::Never),
        },
{
    match get_allowance(&state.allowances, &owner, &spender) {
        Some(a) => crate::msg::AllowanceResponse { allowance: a.allowance, expires: a.expires },
        None => crate::msg::AllowanceResponse { allowance: 0, expires: Expiration::Never },
    }
}

} // verus!
