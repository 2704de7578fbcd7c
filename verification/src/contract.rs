use vstd::prelude::*;
use vstd::string::StringExecFns;

use crate::error::ContractError;
use crate::fee::{calculate_fee, shares_sum, spec_calc_fee, FeeCalculationResult};
use crate::arith::FRACTIONAL;
use crate::fmt::{append_rate, dec_str, rate_str, u128_to_string};
use crate::response::{msg_views, OutMsg, OutMsgV, Response};
use crate::state::{
    bal_distinct, bal_of, get_balance, set_balance, spec_set_bal, sum_bal, BalanceEntry,
    EmbeddedLogo, FeeCollectorInfo, FeeConfig, FeeTokenType, FeeType, Logo, LogoInfo,
    MarketingInfo, TokenState,
};

verus! {

// ---------------------------------------------------------------------------
// The shared ledger-delta path of every value-moving operation.
// ---------------------------------------------------------------------------

/// The balances after moving `amount` from `owner`: the owner debited the
/// full amount, the recipient credited the amount net of the fee — or the
/// error that stops the whole move.  Collectors are paid only by the emitted
/// value movements, never by direct ledger writes, so that a failure in
/// message delivery cannot double-credit the ledger.  Also carries the
/// transfer amount, the fee, and the fee messages of the result.
pub open spec fn spec_do_transfer(
    bals: Seq<BalanceEntry>,
    cfg: Option<FeeConfig>,
    owner: String,
    recipient: String,
    amount: u128,
) -> Result<(Seq<BalanceEntry>, u128, u128, Seq<OutMsgV>), ContractError> {
    if bal_of(bals, owner@) < amount {
        Result::Err(ContractError::InsufficientFunds {})
    } else {
        match spec_calc_fee(cfg, amount) {
            Result::Err(e) => Result::Err(e),
            Result::Ok(t) => {
                let b1 = spec_set_bal(bals, owner, (bal_of(bals, owner@) - amount) as u128);
                if bal_of(b1, recipient@) + t.0 > u128::MAX {
                    Result::Err(ContractError::InvalidAmount {})
                } else {
                    let b2 = spec_set_bal(
                        b1,
                        recipient,
                        (bal_of(b1, recipient@) + t.0) as u128,
                    );
                    Result::Ok((b2, t.0, t.1, t.2))
                }
            },
        }
    }
}

/// Conservation across one transfer: the sum of all balances drops by
/// exactly the fee (the supply record itself is untouched), and with
/// collector percentages summing to one or less the emitted shares never
/// exceed that fee — the rounding residual is assigned to nobody.
pub proof fn law_transfer_conservation(
    bals: Seq<BalanceEntry>,
    cfg: Option<FeeConfig>,
    owner: String,
    recipient: String,
    amount: u128,
)
    requires
        bal_distinct(bals),
        spec_do_transfer(bals, cfg, owner, recipient, amount) is Ok,
    ensures
        ({
            let t = spec_do_transfer(bals, cfg, owner, recipient, amount).unwrap();
            &&& sum_bal(t.0) == sum_bal(bals) - t.2
            &&& (cfg matches Option::Some(c) && crate::fee::sum_pct(c.collectors@) <= FRACTIONAL)
                ==> 0 <= shares_sum(cfg.unwrap().collectors@, t.2) <= t.2
        }),
{
    let t = spec_do_transfer(bals, cfg, owner, recipient, amount).unwrap();
    crate::state::lemma_set_bal(bals, owner, (bal_of(bals, owner@) - amount) as u128);
    let b1 = spec_set_bal(bals, owner, (bal_of(bals, owner@) - amount) as u128);
    let credited = (bal_of(b1, recipient@) + t.1) as u128;
    crate::state::lemma_set_bal(b1, recipient, credited);
    assert(t.1 + t.2 == amount);
    if cfg matches Option::Some(c) && crate::fee::sum_pct(c.collectors@) <= FRACTIONAL {
        crate::fee::lemma_shares_sum_le_fee(cfg.unwrap().collectors@, t.2);
    }
}

/// Everything but the balance ledger is untouched.
pub open spec fn ledger_frame(pre: TokenState, post: TokenState) -> bool {
    &&& post.token_info == pre.token_info
    &&& post.extended_info == pre.extended_info
    &&& post.config == pre.config
    &&& post.fee_config == pre.fee_config
    &&& post.allowances == pre.allowances
    &&& post.spender_allowances == pre.spender_allowances
    &&& post.marketing_info == pre.marketing_info
    &&& post.logo == pre.logo
}

/// Everything but the balances and the supply record is untouched.
pub open spec fn supply_frame(pre: TokenState, post: TokenState) -> bool {
    &&& post.token_info.name == pre.token_info.name
    &&& post.token_info.symbol == pre.token_info.symbol
    &&& post.token_info.decimals == pre.token_info.decimals
    &&& post.token_info.mint == pre.token_info.mint
    &&& post.extended_info == pre.extended_info
    &&& post.config == pre.config
    &&& post.fee_config == pre.fee_config
    &&& post.allowances == pre.allowances
    &&& post.spender_allowances == pre.spender_allowances
    &&& post.marketing_info == pre.marketing_info
    &&& post.logo == pre.logo
}

/// Debits `owner` the full `amount`, credits `recipient` the amount net of
/// the fee, and reports the fee split with its outbound value movements.
/// Any failure leaves the ledger untouched.
pub(crate) fn do_transfer(state: &mut TokenState, owner: &String, recipient: &String, amount: u128) -> (r:
    Result<FeeCalculationResult, ContractError>)
    requires
        old(state).wf(),
    ensures
        final(state).wf(),
        ledger_frame(*old(state), *final(state)),
        match r {
            Ok(res) => {
                &&& spec_do_transfer(old(state).balances@, old(state).fee_config, *owner, *recipient, amount)
                    matches Ok(t)
                &&& final(state).balances@ == t.0
                &&& res.transfer_amount == t.1
                &&& res.fee_amount == t.2
                &&& msg_views(res.fee_msgs@) =~= t.3
                &&& sum_bal(final(state).balances@) == sum_bal(old(state).balances@)
                    - res.fee_amount
            },
            Err(e) => {
                &&& spec_do_transfer(old(state).balances@, old(state).fee_config, *owner, *recipient, amount)
                    matches Err(e2)
                &&& e == e2
                &&& *final(state) == *old(state)
            },
        },
{
    let sender_balance = get_balance(&state.balances, owner);
    if sender_balance < amount {
        return Err(ContractError::InsufficientFunds {});
    }
    let fee_result = calculate_fee(amount, &state.fee_config)?;
    let mut scratch = crate::fee::clone_balances(&state.balances);
    set_balance(&mut scratch, owner, sender_balance - amount);
    let rcpt_balance = get_balance(&scratch, recipient);
    let credited = match rcpt_balance.checked_add(fee_result.transfer_amount) {
        Some(v) => v,
        None => {
            return Err(ContractError::InvalidAmount {});
        },
    };
    set_balance(&mut scratch, recipient, credited);
    state.balances = scratch;
    Ok(fee_result)
}

// ---------------------------------------------------------------------------
// Fee observability attributes.
// ---------------------------------------------------------------------------

/// `address:rate` for each collector, joined with commas.
pub open spec fn collectors_str(cols: Seq<FeeCollectorInfo>) -> Seq<char>
    decreases cols.len(),
{
    if cols.len() == 0 {
        Seq::empty()
    } else {
        let item = cols.last().address@ + seq![':'] + rate_str(cols.last().percentage);
        if cols.len() == 1 {
            item
        } else {
            collectors_str(cols.drop_last()) + seq![','] + item
        }
    }
}

/// The attributes the fee engine adds to a result: nothing for a free
/// transfer, otherwise the fee amount, the fee asset and the collector list.
pub open spec fn spec_fee_attrs(fee_amount: u128, cfg: Option<FeeConfig>) -> Seq<
    (Seq<char>, Seq<char>),
> {
    if fee_amount == 0 {
        Seq::empty()
    } else {
        seq![("fee_amount"@, dec_str(fee_amount as int))] + match cfg {
            Option::None => Seq::empty(),
            Option::Some(c) => (match c.token_type {
                FeeTokenType::Native { denom } => seq![
                    ("fee_token_type"@, "native"@),
                    ("fee_token_denom"@, denom@),
                ],
                FeeTokenType::Cw20 { contract_addr } => seq![
                    ("fee_token_type"@, "cw20"@),
                    ("fee_token_address"@, contract_addr@),
                ],
            }) + if c.collectors@.len() == 0 {
                Seq::empty()
            } else {
                seq![("fee_collectors"@, collectors_str(c.collectors@))]
            },
        }
    }
}

/// Renders the collector list as `address:rate`, comma-separated.
fn collectors_to_string(cols: &Vec<FeeCollectorInfo>) -> (s: String)
    ensures
        s@ =~= collectors_str(cols@),
{
    let mut s = String::new();
    let n = cols.len();
    let mut i: usize = 0;
    proof {
        reveal_strlit(":");
        reveal_strlit(",");
    }
    while i < n
        invariant
            i <= n,
            n == cols@.len(),
            s@ =~= collectors_str(cols@.take(i as int)),
        decreases n - i,
    {
        if i > 0 {
            s.append(",");
        }
        s.append(cols[i].address.as_str());
        s.append(":");
        append_rate(&mut s, cols[i].percentage);
        proof {
            assert(cols@.take(i + 1).drop_last() =~= cols@.take(i as int));
            assert(cols@.take(i + 1).last() == cols@[i as int]);
            assert(collectors_str(cols@.take(i + 1)) =~= (if i == 0 {
                cols@[i as int].address@ + seq![':'] + rate_str(cols@[i as int].percentage)
            } else {
                collectors_str(cols@.take(i as int)) + seq![','] + cols@[i as int].address@
                    + seq![':'] + rate_str(cols@[i as int].percentage)
            }));
        }
        i += 1;
    }
    proof {
        assert(cols@.take(n as int) =~= cols@);
    }
    s
}

/// Appends the fee attributes of `fee_result` to `response`, exactly as
/// `spec_fee_attrs` lists them.
pub fn add_fee_attributes(
    response: Response,
    fee_result: &FeeCalculationResult,
    fee_config: Option<&FeeConfig>,
) -> (r: Response)
    ensures
        r.attrs() =~= response.attrs() + spec_fee_attrs(
            fee_result.fee_amount,
            match fee_config {
                Option::Some(c) => Option::Some(*c),
                Option::None => Option::None,
            },
        ),
        r.msgs() =~= response.msgs(),
{
    let mut response = response;
    if fee_result.fee_amount == 0 {
        return response;
    }
    response.add_attribute("fee_amount", u128_to_string(fee_result.fee_amount));
    if let Some(config) = fee_config {
        match &config.token_type {
            FeeTokenType::Native { denom } => {
                response.add_attribute("fee_token_type", String::from_str("native"));
                response.add_attribute("fee_token_denom", denom.clone());
            },
            FeeTokenType::Cw20 { contract_addr } => {
                response.add_attribute("fee_token_type", String::from_str("cw20"));
                response.add_attribute("fee_token_address", contract_addr.clone());
            },
        }
        if config.collectors.len() > 0 {
            response.add_attribute("fee_collectors", collectors_to_string(&config.collectors));
        }
    }
    response
}


// ---------------------------------------------------------------------------
// Transfer, send, burn, mint.
// ---------------------------------------------------------------------------

/// The fixed-order attributes of a successful transfer.
pub open spec fn transfer_attrs(
    action: Seq<char>,
    from: Seq<char>,
    to: Seq<char>,
    transfer_amount: u128,
) -> Seq<(Seq<char>, Seq<char>)> {
    seq![
        ("action"@, action),
        ("from"@, from),
        ("to"@, to),
        ("amount"@, dec_str(transfer_amount as int)),
    ]
}

/// Everything a successful or failed transfer guarantees: the exact ledger
/// delta, the fixed-order attributes, the outbound fee movements, and the
/// supply invariant when no fee leaves the ledger.
pub open spec fn transfer_post(
    pre: TokenState,
    post: TokenState,
    r: Result<Response, ContractError>,
    sender: String,
    recipient: String,
    amount: u128,
) -> bool {
    match r {
        Ok(resp) => {
            &&& spec_do_transfer(pre.balances@, pre.fee_config, sender, recipient, amount)
                matches Ok(t)
            &&& post.balances@ == t.0
            &&& ledger_frame(pre, post)
            &&& sum_bal(post.balances@) == sum_bal(pre.balances@) - t.2
            &&& (pre.supply_consistent() && t.2 == 0 ==> post.supply_consistent())
            &&& resp.attrs() =~= transfer_attrs("transfer"@, sender@, recipient@, t.1)
                + spec_fee_attrs(t.2, pre.fee_config)
            &&& resp.msgs() =~= t.3
        },
        Err(e) => {
            &&& spec_do_transfer(pre.balances@, pre.fee_config, sender, recipient, amount)
                matches Err(e2)
            &&& e == e2
            &&& post == pre
        },
    }
}

/// Moves `amount` from the caller to `recipient`: the recipient is credited
/// the amount net of the fee; each collector's share leaves as an emitted
/// value movement, never as a direct ledger write.
pub fn execute_transfer(
    state: &mut TokenState,
    sender: &String,
    recipient: String,
    amount: u128,
) -> (r: Result<Response, ContractError>)
    requires
        old(state).wf(),
    ensures
        final(state).wf(),
        transfer_post(*old(state), *final(state), r, *sender, recipient, amount),
{
    let fee_result = do_transfer(state, sender, &recipient, amount)?;
    let FeeCalculationResult { transfer_amount, fee_amount, fee_msgs } = fee_result;
    let mut response = Response::new();
    response.add_attribute("action", String::from_str("transfer"));
    response.add_attribute("from", sender.clone());
    response.add_attribute("to", recipient);
    response.add_attribute("amount", u128_to_string(transfer_amount));
    response.add_messages(fee_msgs);
    let carried = FeeCalculationResult { transfer_amount, fee_amount, fee_msgs: Vec::new() };
    let response = add_fee_attributes(
        response,
        &carried,
        match &state.fee_config {
            Some(c) => Some(c),
            None => None,
        },
    );
    Ok(response)
}

/// Everything a send guarantees: a transfer toward a contract, with the
/// receive notification ahead of the fee movements.
pub open spec fn send_post(
    pre: TokenState,
    post: TokenState,
    r: Result<Response, ContractError>,
    sender: String,
    contract: String,
    amount: u128,
    payload: Seq<u8>,
) -> bool {
    match r {
        Ok(resp) => {
            &&& spec_do_transfer(pre.balances@, pre.fee_config, sender, contract, amount)
                matches Ok(t)
            &&& post.balances@ == t.0
            &&& ledger_frame(pre, post)
            &&& sum_bal(post.balances@) == sum_bal(pre.balances@) - t.2
            &&& (pre.supply_consistent() && t.2 == 0 ==> post.supply_consistent())
            &&& resp.attrs() =~= transfer_attrs("send"@, sender@, contract@, t.1)
                + spec_fee_attrs(t.2, pre.fee_config)
            &&& resp.msgs() =~= seq![
                OutMsgV::Cw20Receive {
                    contract: contract@,
                    sender: sender@,
                    amount: t.1,
                    msg: payload,
                },
            ] + t.3
        },
        Err(e) => {
            &&& spec_do_transfer(pre.balances@, pre.fee_config, sender, contract, amount)
                matches Err(e2)
            &&& e == e2
            &&& post == pre
        },
    }
}

/// Like a transfer toward a contract: additionally notifies the recipient
/// contract of the credited amount and the opaque payload, ahead of the fee
/// movements.
pub fn execute_send(
    state: &mut TokenState,
    sender: &String,
    contract: String,
    amount: u128,
    msg: Vec<u8>,
) -> (r: Result<Response, ContractError>)
    requires
        old(state).wf(),
    ensures
        final(state).wf(),
        send_post(*old(state), *final(state), r, *sender, contract, amount, msg@),
{
    let fee_result = do_transfer(state, sender, &contract, amount)?;
    let FeeCalculationResult { transfer_amount, fee_amount, fee_msgs } = fee_result;
    let mut response = Response::new();
    response.add_attribute("action", String::from_str("send"));
    response.add_attribute("from", sender.clone());
    response.add_attribute("to", contract.clone());
    response.add_attribute("amount", u128_to_string(transfer_amount));
    response.add_message(
        OutMsg::Cw20Receive { contract, sender: sender.clone(), amount: transfer_amount, msg },
    );
    response.add_messages(fee_msgs);
    let carried = FeeCalculationResult { transfer_amount, fee_amount, fee_msgs: Vec::new() };
    let response = add_fee_attributes(
        response,
        &carried,
        match &state.fee_config {
            Some(c) => Some(c),
            None => None,
        },
    );
    Ok(response)
}

/// The outcome of burning `amount` from `owner`: the debited ledger and the
/// reduced supply, or the error.
pub open spec fn spec_burn(
    bals: Seq<BalanceEntry>,
    supply: u128,
    owner: String,
    amount: u128,
) -> Result<(Seq<BalanceEntry>, u128), ContractError> {
    if bal_of(bals, owner@) < amount {
        Result::Err(ContractError::InsufficientFunds {})
    } else if supply < amount {
        Result::Err(ContractError::InvalidAmount {})
    } else {
        Result::Ok(
            (
                spec_set_bal(bals, owner, (bal_of(bals, owner@) - amount) as u128),
                (supply - amount) as u128,
            ),
        )
    }
}

/// Everything a burn guarantees: caller debited, supply lowered in step,
/// the supply invariant preserved, nothing else touched.
pub open spec fn burn_post(
    pre: TokenState,
    post: TokenState,
    r: Result<Response, ContractError>,
    sender: String,
    amount: u128,
) -> bool {
    match r {
        Ok(resp) => {
            &&& spec_burn(pre.balances@, pre.token_info.total_supply, sender, amount)
                matches Ok(t)
            &&& post.balances@ == t.0
            &&& post.token_info.total_supply == t.1
            &&& supply_frame(pre, post)
            &&& sum_bal(post.balances@) == sum_bal(pre.balances@) - amount
            &&& (pre.supply_consistent() ==> post.supply_consistent())
            &&& resp.attrs() =~= seq![
                ("action"@, "burn"@),
                ("from"@, sender@),
                ("amount"@, dec_str(amount as int)),
            ]
            &&& resp.msgs() =~= Seq::<OutMsgV>::empty()
        },
        Err(e) => {
            &&& spec_burn(pre.balances@, pre.token_info.total_supply, sender, amount)
                matches Err(e2)
            &&& e == e2
            &&& post == pre
        },
    }
}

/// Burns `amount` from the caller's own balance, lowering the total supply
/// by the same amount.
pub fn execute_burn(state: &mut TokenState, sender: &String, amount: u128) -> (r: Result<
    Response,
    ContractError,
>)
    requires
        old(state).wf(),
    ensures
        final(state).wf(),
        burn_post(*old(state), *final(state), r, *sender, amount),
{
    let sender_balance = get_balance(&state.balances, sender);
    if sender_balance < amount {
        return Err(ContractError::InsufficientFunds {});
    }
    if state.token_info.total_supply < amount {
        return Err(ContractError::InvalidAmount {});
    }
    set_balance(&mut state.balances, sender, sender_balance - amount);
    state.token_info.total_supply = state.token_info.total_supply - amount;
    let mut response = Response::new();
    response.add_attribute("action", String::from_str("burn"));
    response.add_attribute("from", sender.clone());
    response.add_attribute("amount", u128_to_string(amount));
    Ok(response)
}

/// The outcome of minting `amount` to `recipient` on behalf of `sender`.
pub open spec fn spec_mint(
    info: crate::state::TokenInfo,
    bals: Seq<BalanceEntry>,
    sender: Seq<char>,
    recipient: String,
    amount: u128,
) -> Result<(Seq<BalanceEntry>, u128), ContractError> {
    match info.mint {
        Option::None => Result::Err(ContractError::Unauthorized {}),
        Option::Some(m) => if m.minter@ != sender {
            Result::Err(ContractError::Unauthorized {})
        } else if info.total_supply + amount > u128::MAX {
            Result::Err(ContractError::InvalidAmount {})
        } else if match m.cap {
            Option::Some(limit) => info.total_supply + amount > limit,
            Option::None => false,
        } {
            Result::Err(ContractError::CannotExceedCap {})
        } else if bal_of(bals, recipient@) + amount > u128::MAX {
            Result::Err(ContractError::InvalidAmount {})
        } else {
            Result::Ok(
                (
                    spec_set_bal(bals, recipient, (bal_of(bals, recipient@) + amount) as u128),
                    (info.total_supply + amount) as u128,
                ),
            )
        },
    }
}

/// Everything a mint guarantees: only the configured minter may mint, never
/// past the cap; recipient credited and supply raised in step; the supply
/// invariant preserved; nothing else touched.
pub open spec fn mint_post(
    pre: TokenState,
    post: TokenState,
    r: Result<Response, ContractError>,
    sender: String,
    recipient: String,
    amount: u128,
) -> bool {
    match r {
        Ok(resp) => {
            &&& spec_mint(pre.token_info, pre.balances@, sender@, recipient, amount)
                matches Ok(t)
            &&& post.balances@ == t.0
            &&& post.token_info.total_supply == t.1
            &&& supply_frame(pre, post)
            &&& sum_bal(post.balances@) == sum_bal(pre.balances@) + amount
            &&& (pre.supply_consistent() ==> post.supply_consistent())
            &&& resp.attrs() =~= seq![
                ("action"@, "mint"@),
                ("to"@, recipient@),
                ("amount"@, dec_str(amount as int)),
            ]
            &&& resp.msgs() =~= Seq::<OutMsgV>::empty()
        },
        Err(e) => {
            &&& spec_mint(pre.token_info, pre.balances@, sender@, recipient, amount)
                matches Err(e2)
            &&& e == e2
            &&& post == pre
        },
    }
}

/// Mints `amount` to `recipient`.  Only the configured minter may mint, and
/// never past the configured cap.
pub fn execute_mint(
    state: &mut TokenState,
    sender: &String,
    recipient: String,
    amount: u128,
) -> (r: Result<Response, ContractError>)
    requires
        old(state).wf(),
    ensures
        final(state).wf(),
        mint_post(*old(state), *final(state), r, *sender, recipient, amount),
{
    let minter_cap = match &state.token_info.mint {
        None => {
            return Err(ContractError::Unauthorized {});
        },
        Some(m) => {
            if !m.minter.eq(sender) {
                return Err(ContractError::Unauthorized {});
            }
            m.cap
        },
    };
    let new_supply = match state.token_info.total_supply.checked_add(amount) {
        Some(v) => v,
        None => {
            return Err(ContractError::InvalidAmount {});
        },
    };
    if let Some(limit) = minter_cap {
        if new_supply > limit {
            return Err(ContractError::CannotExceedCap {});
        }
    }
    let rcpt_balance = get_balance(&state.balances, &recipient);
    let credited = match rcpt_balance.checked_add(amount) {
        Some(v) => v,
        None => {
            return Err(ContractError::InvalidAmount {});
        },
    };
    state.token_info.total_supply = new_supply;
    set_balance(&mut state.balances, &recipient, credited);
    let mut response = Response::new();
    response.add_attribute("action", String::from_str("mint"));
    response.add_attribute("to", recipient);
    response.add_attribute("amount", u128_to_string(amount));
    Ok(response)
}

/// Everything a minter update guarantees: only the current minter may act,
/// the cap survives the handover, and nothing but the minter record changes.
pub open spec fn update_minter_post(
    pre: TokenState,
    post: TokenState,
    r: Result<Response, ContractError>,
    sender: String,
    new_minter: Option<String>,
) -> bool {
    match pre.token_info.mint {
        Option::None => (r matches Err(e) && e == (ContractError::Unauthorized {  })) && post
            == pre,
        Option::Some(m) => if m.minter@ != sender@ {
            (r matches Err(e) && e == (ContractError::Unauthorized {  })) && post == pre
        } else {
            &&& post.balances == pre.balances
            &&& post.token_info.total_supply == pre.token_info.total_supply
            &&& post.token_info.name == pre.token_info.name
            &&& post.token_info.symbol == pre.token_info.symbol
            &&& post.token_info.decimals == pre.token_info.decimals
            &&& post.extended_info == pre.extended_info
            &&& post.config == pre.config
            &&& post.fee_config == pre.fee_config
            &&& post.allowances == pre.allowances
            &&& post.spender_allowances == pre.spender_allowances
            &&& post.marketing_info == pre.marketing_info
            &&& post.logo == pre.logo
            &&& match new_minter {
                Option::Some(nm) => post.token_info.mint matches Option::Some(d) && d.minter
                    == nm && d.cap == m.cap,
                Option::None => post.token_info.mint is None,
            }
            &&& (r matches Ok(resp) && resp.attrs() =~= seq![
                ("action"@, "update_minter"@),
                ("new_minter"@, match new_minter {
                    Option::Some(nm) => nm@,
                    Option::None => "None"@,
                }),
            ] && resp.msgs() =~= Seq::<OutMsgV>::empty())
        },
    }
}

/// Replaces (or clears) the minter, preserving the existing cap.  Only the
/// current minter may do so.
pub fn execute_update_minter(
    state: &mut TokenState,
    sender: &String,
    new_minter: Option<String>,
) -> (r: Result<Response, ContractError>)
    requires
        old(state).wf(),
    ensures
        final(state).wf(),
        update_minter_post(*old(state), *final(state), r, *sender, new_minter),
{
    let cap = match &state.token_info.mint {
        None => {
            return Err(ContractError::Unauthorized {});
        },
        Some(m) => {
            if !m.minter.eq(sender) {
                return Err(ContractError::Unauthorized {});
            }
            m.cap
        },
    };
    let mut response = Response::new();
    response.add_attribute("action", String::from_str("update_minter"));
    match new_minter {
        Some(nm) => {
            response.add_attribute("new_minter", nm.clone());
            state.token_info.mint = Some(crate::state::MinterData { minter: nm, cap });
        },
        None => {
            response.add_attribute("new_minter", String::from_str("None"));
            state.token_info.mint = None;
        },
    }
    Ok(response)
}

// ---------------------------------------------------------------------------
// Logo verification and marketing metadata.
// ---------------------------------------------------------------------------

/// The byte limit on an embedded logo.
pub const LOGO_SIZE_CAP: usize = 5 * 1024;

/// The index right after the first `>` byte, or the whole length when none
/// occurs: the end of the XML preamble candidate.
pub open spec fn preamble_end(data: Seq<u8>) -> int
    decreases data.len(),
{
    if data.len() == 0 {
        0
    } else if data[0] == 62 {
        1
    } else {
        1 + preamble_end(data.drop_first())
    }
}

/// A well-formed XML preamble: the first `>`-terminated chunk begins with
/// `<?xml ` and ends with `?>`, and the data is not empty.
pub open spec fn xml_preamble_ok(data: Seq<u8>) -> bool {
    let p = data.take(preamble_end(data));
    &&& data.len() > 0
    &&& p.len() >= 6
    &&& p[0] == 60 && p[1] == 63 && p[2] == 120 && p[3] == 109 && p[4] == 108 && p[5] == 32
    &&& p[p.len() - 2] == 63 && p[p.len() - 1] == 62
}

proof fn lemma_preamble_end(data: Seq<u8>, i: int)
    requires
        0 <= i <= data.len(),
        forall|j: int| 0 <= j < i ==> data[j] != 62,
        i < data.len() ==> data[i] == 62,
    ensures
        preamble_end(data) == if i < data.len() {
            i + 1
        } else {
            data.len() as int
        },
    decreases i,
{
    if data.len() > 0 && data[0] != 62 {
        lemma_preamble_end(data.drop_first(), i - 1);
    }
}

/// Checks that `data` opens with a well-formed XML preamble: the first
/// `>`-terminated chunk must begin with `<?xml ` and end with `?>`.
pub fn verify_xml_preamble(data: &[u8]) -> (r: Result<(), ContractError>)
    ensures
        r is Ok <==> xml_preamble_ok(data@),
        r matches Err(e) ==> e == (ContractError::InvalidXmlPreamble {  }),
{
    let n = data.len();
    if n == 0 {
        return Err(ContractError::InvalidXmlPreamble {});
    }
    let mut i: usize = 0;
    while i < n && data[i] != 62
        invariant
            i <= n,
            n == data@.len(),
            forall|j: int| 0 <= j < i ==> data@[j] != 62,
        decreases n - i,
    {
        i += 1;
    }
    proof {
        lemma_preamble_end(data@, i as int);
    }
    let end = if i < n {
        i + 1
    } else {
        n
    };
    if end < 6 {
        return Err(ContractError::InvalidXmlPreamble {});
    }
    let ok = data[0] == 60 && data[1] == 63 && data[2] == 120 && data[3] == 109 && data[4] == 108
        && data[5] == 32 && data[end - 2] == 63 && data[end - 1] == 62;
    if ok {
        Ok(())
    } else {
        Err(ContractError::InvalidXmlPreamble {})
    }
}

/// An SVG logo must carry a valid XML preamble and fit the size cap.
pub fn verify_xml_logo(logo: &[u8]) -> (r: Result<(), ContractError>)
    ensures
        r is Ok <==> (xml_preamble_ok(logo@) && logo@.len() <= LOGO_SIZE_CAP),
        !xml_preamble_ok(logo@) ==> (r matches Err(e) && e == (
        ContractError::InvalidXmlPreamble {  })),
        xml_preamble_ok(logo@) && logo@.len() > LOGO_SIZE_CAP ==> (r matches Err(e) && e == (
        ContractError::LogoTooBig {  })),
{
    verify_xml_preamble(logo)?;
    if logo.len() > LOGO_SIZE_CAP {
        Err(ContractError::LogoTooBig {})
    } else {
        Ok(())
    }
}

/// The fixed eight-byte PNG signature opens the file.
pub open spec fn png_header_ok(data: Seq<u8>) -> bool {
    &&& data.len() >= 8
    &&& data[0] == 0x89 && data[1] == 0x50 && data[2] == 0x4e && data[3] == 0x47
    &&& data[4] == 0x0d && data[5] == 0x0a && data[6] == 0x1a && data[7] == 0x0a
}

/// A PNG logo must fit the size cap and open with the PNG signature.
pub fn verify_png_logo(logo: &[u8]) -> (r: Result<(), ContractError>)
    ensures
        r is Ok <==> (logo@.len() <= LOGO_SIZE_CAP && png_header_ok(logo@)),
        logo@.len() > LOGO_SIZE_CAP ==> (r matches Err(e) && e == (
        ContractError::LogoTooBig {  })),
        logo@.len() <= LOGO_SIZE_CAP && !png_header_ok(logo@) ==> (r matches Err(e) && e == (
        ContractError::InvalidPngHeader {  })),
{
    if logo.len() > LOGO_SIZE_CAP {
        return Err(ContractError::LogoTooBig {});
    }
    if logo.len() < 8 {
        return Err(ContractError::InvalidPngHeader {});
    }
    let ok = logo[0] == 0x89 && logo[1] == 0x50 && logo[2] == 0x4e && logo[3] == 0x47 && logo[4]
        == 0x0d && logo[5] == 0x0a && logo[6] == 0x1a && logo[7] == 0x0a;
    if ok {
        Ok(())
    } else {
        Err(ContractError::InvalidPngHeader {})
    }
}

/// Whether the marketing record names `sender` as its marketing address.
pub open spec fn marketing_auth(mi: MarketingInfo, sender: Seq<char>) -> bool {
    match mi.marketing {
        Option::Some(c) => c@ == sender,
        Option::None => false,
    }
}

/// What queries reveal of a stored logo.
pub open spec fn logo_info_of(logo: Logo) -> LogoInfo {
    match logo {
        Logo::Url(u) => LogoInfo::Url(u),
        Logo::Embedded(_) => LogoInfo::Embedded,
    }
}

/// The exact reason a logo is rejected, if any: URLs pass as-is, an SVG
/// needs its preamble and the size cap, a PNG its signature and the cap.
pub open spec fn logo_err(logo: Logo) -> Option<ContractError> {
    match logo {
        Logo::Url(_) => Option::None,
        Logo::Embedded(EmbeddedLogo::Svg(data)) => if !xml_preamble_ok(data@) {
            Option::Some(ContractError::InvalidXmlPreamble {})
        } else if data@.len() > LOGO_SIZE_CAP {
            Option::Some(ContractError::LogoTooBig {})
        } else {
            Option::None
        },
        Logo::Embedded(EmbeddedLogo::Png(data)) => if data@.len() > LOGO_SIZE_CAP {
            Option::Some(ContractError::LogoTooBig {})
        } else if !png_header_ok(data@) {
            Option::Some(ContractError::InvalidPngHeader {})
        } else {
            Option::None
        },
    }
}

/// Whether a logo passes verification.
pub open spec fn logo_ok(logo: Logo) -> bool {
    logo_err(logo) is None
}

/// Verifies an uploaded logo: URLs pass as-is, embedded images are checked
/// byte-wise against their format and the size cap.
pub fn verify_logo(logo: &Logo) -> (r: Result<(), ContractError>)
    ensures
        match logo_err(*logo) {
            Option::None => r is Ok,
            Option::Some(e) => r matches Err(e2) && e2 == e,
        },
{
    match logo {
        Logo::Embedded(EmbeddedLogo::Svg(data)) => verify_xml_logo(data.as_slice()),
        Logo::Embedded(EmbeddedLogo::Png(data)) => verify_png_logo(data.as_slice()),
        Logo::Url(_) => Ok(()),
    }
}


// ---------------------------------------------------------------------------
// Marketing metadata updates.
// ---------------------------------------------------------------------------

/// What `str::trim` leaves of a string: the characters with leading and
/// trailing whitespace removed.  The result depends on the characters alone.
pub uninterp spec fn trim_of(s: Seq<char>) -> Seq<char>;

/// Relies on `str::trim` for removing leading and trailing whitespace
/// (`trim_of`).
#[verifier::external_body]
fn trimmed<'a>(s: &'a str) -> (r: &'a str)
    ensures
        r@ == trim_of(s@),
{
    s.trim()
}

/// A string that is nothing but whitespace.
pub open spec fn blank(s: Seq<char>) -> bool {
    trim_of(s).len() == 0
}

/// A metadata field after an update request: an all-whitespace value clears
/// the field, a real value replaces it, absence keeps it.
pub open spec fn upd_field(cur: Option<String>, new: Option<String>) -> Option<String> {
    match new {
        Option::Some(v) => if blank(v@) {
            Option::None
        } else {
            Option::Some(v)
        },
        Option::None => cur,
    }
}

/// Whether a field update request clears, replaces or keeps the field.
fn apply_field(cur: &mut Option<String>, new: Option<String>)
    ensures
        *final(cur) == upd_field(*old(cur), new),
{
    match new {
        Some(v) => {
            if trimmed(v.as_str()).is_empty() {
                *cur = None;
            } else {
                *cur = Some(v);
            }
        },
        None => {},
    }
}

/// Everything a marketing update guarantees: only the marketing address may
/// act; whitespace-only values clear fields, real values replace them; a
/// record left empty is removed; nothing else changes.
pub open spec fn update_marketing_post(
    pre: TokenState,
    post: TokenState,
    r: Result<Response, ContractError>,
    sender: String,
    project: Option<String>,
    description: Option<String>,
    marketing: Option<String>,
) -> bool {
    match pre.marketing_info {
        Option::None => (r matches Err(e) && e == (ContractError::Unauthorized {  })) && post
            == pre,
        Option::Some(mi) => if !marketing_auth(mi, sender@) {
            (r matches Err(e) && e == (ContractError::Unauthorized {  })) && post == pre
        } else {
            let np = upd_field(mi.project, project);
            let nd = upd_field(mi.description, description);
            let nm = upd_field(mi.marketing, marketing);
            &&& r is Ok
            &&& post.balances == pre.balances
            &&& post.token_info == pre.token_info
            &&& post.extended_info == pre.extended_info
            &&& post.config == pre.config
            &&& post.fee_config == pre.fee_config
            &&& post.allowances == pre.allowances
            &&& post.spender_allowances == pre.spender_allowances
            &&& post.logo == pre.logo
            &&& (if np is None && nd is None && nm is None && mi.logo is None {
                post.marketing_info is None
            } else {
                post.marketing_info matches Option::Some(fin) && fin.project == np
                    && fin.description == nd && fin.marketing == nm && fin.logo == mi.logo
            })
            &&& (r matches Ok(resp) && resp.attrs() =~= seq![("action"@, "update_marketing"@)]
                && resp.msgs() =~= Seq::<OutMsgV>::empty())
        },
    }
}

/// Updates project, description and marketing address of the stored
/// marketing record.  Only the current marketing address may do so; a record
/// left with no field at all is removed.
pub fn execute_update_marketing(
    state: &mut TokenState,
    sender: &String,
    project: Option<String>,
    description: Option<String>,
    marketing: Option<String>,
) -> (r: Result<Response, ContractError>)
    requires
        old(state).wf(),
    ensures
        final(state).wf(),
        update_marketing_post(
            *old(state),
            *final(state),
            r,
            *sender,
            project,
            description,
            marketing,
        ),
{
    let mut info = match &state.marketing_info {
        None => {
            return Err(ContractError::Unauthorized {});
        },
        Some(mi) => {
            match &mi.marketing {
                None => {
                    return Err(ContractError::Unauthorized {});
                },
                Some(cur) => {
                    if !cur.eq(sender) {
                        return Err(ContractError::Unauthorized {});
                    }
                },
            }
            MarketingInfo {
                project: mi.project.clone(),
                description: mi.description.clone(),
                marketing: mi.marketing.clone(),
                logo: match &mi.logo {
                    Some(LogoInfo::Url(u)) => Some(LogoInfo::Url(u.clone())),
                    Some(LogoInfo::Embedded) => Some(LogoInfo::Embedded),
                    None => None,
                },
            }
        },
    };
    apply_field(&mut info.project, project);
    apply_field(&mut info.description, description);
    apply_field(&mut info.marketing, marketing);
    let empty = info.project.is_none() && info.description.is_none() && info.marketing.is_none()
        && info.logo.is_none();
    if empty {
        state.marketing_info = None;
    } else {
        state.marketing_info = Some(info);
    }
    let mut response = Response::new();
    response.add_attribute("action", String::from_str("update_marketing"));
    Ok(response)
}

/// Everything a logo upload guarantees: the logo must verify, only the
/// marketing address may upload, the stored logo and its kind in the
/// marketing record are replaced, and nothing else changes.
pub open spec fn upload_logo_post(
    pre: TokenState,
    post: TokenState,
    r: Result<Response, ContractError>,
    sender: String,
    logo: Logo,
) -> bool {
    match pre.marketing_info {
        Option::None => (r matches Err(e) && e == (ContractError::Unauthorized {  })) && post
            == pre,
        Option::Some(mi) => match logo_err(logo) {
            Option::Some(le) => (r matches Err(e) && e == le) && post == pre,
            Option::None => if !marketing_auth(mi, sender@) {
                (r matches Err(e) && e == (ContractError::Unauthorized {  })) && post == pre
            } else {
                &&& r is Ok
                &&& post.balances == pre.balances
                &&& post.token_info == pre.token_info
                &&& post.extended_info == pre.extended_info
                &&& post.config == pre.config
                &&& post.fee_config == pre.fee_config
                &&& post.allowances == pre.allowances
                &&& post.spender_allowances == pre.spender_allowances
                &&& post.logo == Option::Some(logo)
                &&& post.marketing_info matches Option::Some(fin) && fin.project == mi.project
                    && fin.description == mi.description && fin.marketing == mi.marketing
                    && fin.logo == Option::Some(logo_info_of(logo))
                &&& (r matches Ok(resp) && resp.attrs() =~= seq![("action"@, "upload_logo"@)]
                    && resp.msgs() =~= Seq::<OutMsgV>::empty())
            },
        },
    }
}

/// Stores a verified logo and records its kind in the marketing record.
/// Only the current marketing address may upload.
pub fn execute_upload_logo(state: &mut TokenState, sender: &String, logo: Logo) -> (r: Result<
    Response,
    ContractError,
>)
    requires
        old(state).wf(),
    ensures
        final(state).wf(),
        upload_logo_post(*old(state), *final(state), r, *sender, logo),
{
    let info = match &state.marketing_info {
        None => {
            return Err(ContractError::Unauthorized {});
        },
        Some(mi) => MarketingInfo {
            project: mi.project.clone(),
            description: mi.description.clone(),
            marketing: mi.marketing.clone(),
            logo: match &mi.logo {
                Some(LogoInfo::Url(u)) => Some(LogoInfo::Url(u.clone())),
                Some(LogoInfo::Embedded) => Some(LogoInfo::Embedded),
                None => None,
            },
        },
    };
    verify_logo(&logo)?;
    match &info.marketing {
        None => {
            return Err(ContractError::Unauthorized {});
        },
        Some(cur) => {
            if !cur.eq(sender) {
                return Err(ContractError::Unauthorized {});
            }
        },
    }
    let logo_info = match &logo {
        Logo::Url(u) => LogoInfo::Url(u.clone()),
        Logo::Embedded(_) => LogoInfo::Embedded,
    };
    state.logo = Some(logo);
    state.marketing_info = Some(
        MarketingInfo {
            project: info.project,
            description: info.description,
            marketing: info.marketing,
            logo: Some(logo_info),
        },
    );
    let mut response = Response::new();
    response.add_attribute("action", String::from_str("upload_logo"));
    Ok(response)
}

// ---------------------------------------------------------------------------
// Authorization-gated configuration.
// ---------------------------------------------------------------------------

/// Everything granting the upgrade-admin role guarantees: the admin or the
/// current upgrade admin may act, only while upgrades are allowed; the root
/// admin record itself is never displaced; nothing but the upgrade-admin
/// field of the configuration changes.
pub open spec fn set_upgrade_admin_post(
    pre: TokenState,
    post: TokenState,
    r: Result<Response, ContractError>,
    sender: String,
    address: String,
) -> bool {
    if !config_auth(pre, sender@) {
        (r matches Err(e) && e == (ContractError::Unauthorized {  })) && post == pre
    } else if !pre.config.is_upgrade_allowed {
        (r matches Err(e) && e == (ContractError::ConfigUpdateNotAllowed {  })) && post == pre
    } else {
        &&& post.config.upgrade_admin matches Option::Some(ua) && ua@ == address@
        &&& post.config.is_upgrade_allowed == pre.config.is_upgrade_allowed
        &&& post.config.marketing == pre.config.marketing
        &&& post.config.minter == pre.config.minter
        &&& post.config.transfer_fee == pre.config.transfer_fee
        &&& post.config.fee_collector == pre.config.fee_collector
        &&& post.config.max_supply == pre.config.max_supply
        &&& post.extended_info == pre.extended_info
        &&& post.balances == pre.balances
        &&& post.token_info == pre.token_info
        &&& post.fee_config == pre.fee_config
        &&& post.allowances == pre.allowances
        &&& post.spender_allowances == pre.spender_allowances
        &&& post.marketing_info == pre.marketing_info
        &&& post.logo == pre.logo
        &&& (r matches Ok(resp) && resp.attrs() =~= seq![
            ("method"@, "set_upgrade_admin"@),
            ("upgrade_admin"@, address@),
        ] && resp.msgs() =~= Seq::<OutMsgV>::empty())
    }
}

/// Grants the upgrade-admin role.  The admin (or the current upgrade admin)
/// may do so, and only while upgrades are allowed.
pub fn execute_set_upgrade_admin(state: &mut TokenState, sender: &String, address: String) -> (r:
    Result<Response, ContractError>)
    requires
        old(state).wf(),
    ensures
        final(state).wf(),
        set_upgrade_admin_post(*old(state), *final(state), r, *sender, address),
{
    if !sender.eq(&state.extended_info.admin) {
        match &state.config.upgrade_admin {
            Some(ua) => {
                if !sender.eq(ua) {
                    return Err(ContractError::Unauthorized {});
                }
            },
            None => {
                return Err(ContractError::Unauthorized {});
            },
        }
    }
    if !state.config.is_upgrade_allowed {
        return Err(ContractError::ConfigUpdateNotAllowed {});
    }
    state.config.upgrade_admin = Some(address.clone());
    let mut response = Response::new();
    response.add_attribute("method", String::from_str("set_upgrade_admin"));
    response.add_attribute("upgrade_admin", address);
    Ok(response)
}

/// Everything designating the fee granter guarantees: the admin or the
/// upgrade admin may act, only while upgrades are allowed, never naming the
/// admin itself; nothing but the fee-granter field changes — in particular
/// the configuration record (and its kill-switch) is untouched.
pub open spec fn set_fee_granter_post(
    pre: TokenState,
    post: TokenState,
    r: Result<Response, ContractError>,
    sender: String,
    address: Option<String>,
) -> bool {
    if !config_auth(pre, sender@) {
        (r matches Err(e) && e == (ContractError::Unauthorized {  })) && post == pre
    } else if !pre.config.is_upgrade_allowed {
        (r matches Err(e) && e == (ContractError::ConfigUpdateNotAllowed {  })) && post == pre
    } else {
        match address {
            Option::Some(addr) => if addr@ == pre.extended_info.admin@ {
                (r matches Err(e) && e == (ContractError::CannotSetOwnAccount {  })) && post
                    == pre
            } else {
                &&& post.extended_info.fee_granter matches Option::Some(g) && g@ == addr@
                &&& set_fee_granter_frame(pre, post)
                &&& (r matches Ok(resp) && resp.attrs() =~= seq![
                    ("method"@, "set_fee_granter"@),
                    ("fee_granter"@, addr@),
                    ("admin"@, pre.extended_info.admin@),
                ] && resp.msgs() =~= Seq::<OutMsgV>::empty())
            },
            Option::None => {
                &&& post.extended_info.fee_granter is None
                &&& set_fee_granter_frame(pre, post)
                &&& (r matches Ok(resp) && resp.attrs() =~= seq![
                    ("method"@, "set_fee_granter"@),
                    ("fee_granter"@, "None"@),
                    ("admin"@, pre.extended_info.admin@),
                ] && resp.msgs() =~= Seq::<OutMsgV>::empty())
            },
        }
    }
}

/// What a successful fee-granter change leaves untouched: everything except
/// the fee-granter field itself.
pub open spec fn set_fee_granter_frame(pre: TokenState, post: TokenState) -> bool {
    &&& post.extended_info.admin == pre.extended_info.admin
    &&& post.extended_info.base == pre.extended_info.base
    &&& post.extended_info.created_on_platform == pre.extended_info.created_on_platform
    &&& post.config == pre.config
    &&& post.balances == pre.balances
    &&& post.token_info == pre.token_info
    &&& post.fee_config == pre.fee_config
    &&& post.allowances == pre.allowances
    &&& post.spender_allowances == pre.spender_allowances
    &&& post.marketing_info == pre.marketing_info
    &&& post.logo == pre.logo
}

/// Designates (or clears) the fee granter.  The admin or the upgrade admin
/// may do so, only while upgrades are allowed, and never pointing at the
/// admin itself.
pub fn execute_set_fee_granter(state: &mut TokenState, sender: &String, address: Option<String>)
    -> (r: Result<Response, ContractError>)
    requires
        old(state).wf(),
    ensures
        final(state).wf(),
        set_fee_granter_post(*old(state), *final(state), r, *sender, address),
{
    if !sender.eq(&state.extended_info.admin) {
        match &state.config.upgrade_admin {
            Some(ua) => {
                if !sender.eq(ua) {
                    return Err(ContractError::Unauthorized {});
                }
            },
            None => {
                return Err(ContractError::Unauthorized {});
            },
        }
    }
    if !state.config.is_upgrade_allowed {
        return Err(ContractError::ConfigUpdateNotAllowed {});
    }
    let granter_attr: String;
    match address {
        Some(addr) => {
            if addr.eq(&state.extended_info.admin) {
                return Err(ContractError::CannotSetOwnAccount {});
            }
            granter_attr = addr.clone();
            state.extended_info.fee_granter = Some(addr);
        },
        None => {
            granter_attr = String::from_str("None");
            state.extended_info.fee_granter = None;
        },
    }
    let mut response = Response::new();
    response.add_attribute("method", String::from_str("set_fee_granter"));
    response.add_attribute("fee_granter", granter_attr);
    response.add_attribute("admin", state.extended_info.admin.clone());
    Ok(response)
}

// ---------------------------------------------------------------------------
// Fee configuration and the generic configuration record.
// ---------------------------------------------------------------------------

/// Whether `sender` may rewrite fee or general configuration: the root admin
/// always, the upgrade admin when one is set.
pub open spec fn config_auth(st: TokenState, sender: Seq<char>) -> bool {
    sender == st.extended_info.admin@ || match st.config.upgrade_admin {
        Option::Some(ua) => sender == ua@,
        Option::None => false,
    }
}

/// One collector request parses and lies in `(0, 1]`.
pub open spec fn col_ok(c: crate::msg::FeeCollectorInput) -> bool {
    match crate::arith::parsed_decimal(c.percentage@) {
        Option::Some(v) => 0 < v <= FRACTIONAL,
        Option::None => false,
    }
}

/// The first collector request that does not parse or is out of range, or
/// `-1` when all pass.
pub open spec fn first_bad(cols: Seq<crate::msg::FeeCollectorInput>) -> int
    decreases cols.len(),
{
    if cols.len() == 0 {
        -1
    } else if !col_ok(cols[0]) {
        0
    } else {
        let r = first_bad(cols.drop_first());
        if r == -1 {
            -1
        } else {
            r + 1
        }
    }
}

/// The parsed collectors, element for element.
pub open spec fn parsed_cols(cols: Seq<crate::msg::FeeCollectorInput>) -> Seq<FeeCollectorInfo> {
    Seq::new(
        cols.len(),
        |i: int|
            FeeCollectorInfo {
                address: cols[i].address,
                percentage: crate::arith::parsed_decimal(cols[i].percentage@).unwrap(),
            },
    )
}

/// If the first `i` requests pass and the `i`-th fails, the `i`-th is the
/// first bad one; if all pass, none is.
proof fn lemma_first_bad(cols: Seq<crate::msg::FeeCollectorInput>, i: int)
    requires
        0 <= i <= cols.len(),
        forall|j: int| 0 <= j < i ==> col_ok(#[trigger] cols[j]),
        i < cols.len() ==> !col_ok(cols[i]),
    ensures
        first_bad(cols) == if i < cols.len() {
            i
        } else {
            -1
        },
    decreases i,
{
    if cols.len() > 0 && col_ok(cols[0]) {
        lemma_first_bad(cols.drop_first(), i - 1);
    }
}

/// Everything rewriting the fee configuration guarantees: the admin or the
/// upgrade admin may act, only while upgrades are allowed; collectors are
/// parsed and range-checked in order, the whole configuration validated, and
/// only then stored; nothing else changes.
pub open spec fn set_fee_config_post(
    pre: TokenState,
    post: TokenState,
    r: Result<Response, ContractError>,
    sender: String,
    fee_type: FeeType,
    token_type: FeeTokenType,
    collectors: Seq<crate::msg::FeeCollectorInput>,
    is_active: bool,
) -> bool {
    if !config_auth(pre, sender@) {
        (r matches Err(e) && e == (ContractError::Unauthorized {  })) && post == pre
    } else if !pre.config.is_upgrade_allowed {
        (r matches Err(e) && e == (ContractError::ConfigUpdateNotAllowed {  })) && post == pre
    } else if first_bad(collectors) != -1 {
        (r matches Err(e) && e matches ContractError::InvalidFeePercentage { msg } && msg@ == (
        if crate::arith::parsed_decimal(collectors[first_bad(collectors)].percentage@) is None {
            "Invalid decimal format"@
        } else {
            "Percentage must be between 0 and 100"@
        })) && post == pre
    } else {
        match crate::fee::fee_config_error_parts(parsed_cols(collectors), fee_type, is_active) {
            Option::Some(e) => (r matches Err(e2) && e2 == e) && post == pre,
            Option::None => {
                &&& post.fee_config matches Option::Some(c) && c.collectors@ == parsed_cols(
                    collectors,
                ) && c.fee_type == fee_type && c.token_type == token_type && c.is_active
                    == is_active
                &&& post.balances == pre.balances
                &&& post.token_info == pre.token_info
                &&& post.allowances == pre.allowances
                &&& post.spender_allowances == pre.spender_allowances
                &&& post.extended_info == pre.extended_info
                &&& post.config == pre.config
                &&& post.marketing_info == pre.marketing_info
                &&& post.logo == pre.logo
                &&& (r matches Ok(resp) && resp.attrs() =~= seq![
                    ("action"@, "set_fee_config"@),
                    ("fee_active"@, bool_str(is_active)),
                ] && resp.msgs() =~= Seq::<OutMsgV>::empty())
            },
        }
    }
}

/// Rewrites the fee configuration: collectors are parsed and range-checked
/// one by one, the whole configuration is validated, and only then stored.
/// The admin or the upgrade admin may do so, while upgrades are allowed.
pub fn execute_set_fee_config(
    state: &mut TokenState,
    sender: &String,
    fee_type: FeeType,
    token_type: FeeTokenType,
    collectors: Vec<crate::msg::FeeCollectorInput>,
    is_active: bool,
) -> (r: Result<Response, ContractError>)
    requires
        old(state).wf(),
    ensures
        final(state).wf(),
        set_fee_config_post(
            *old(state),
            *final(state),
            r,
            *sender,
            fee_type,
            token_type,
            collectors@,
            is_active,
        ),
{
    if !sender.eq(&state.extended_info.admin) {
        match &state.config.upgrade_admin {
            Some(ua) => {
                if !sender.eq(ua) {
                    return Err(ContractError::Unauthorized {});
                }
            },
            None => {
                return Err(ContractError::Unauthorized {});
            },
        }
    }
    if !state.config.is_upgrade_allowed {
        return Err(ContractError::ConfigUpdateNotAllowed {});
    }
    let mut fee_collectors: Vec<FeeCollectorInfo> = Vec::new();
    let n = collectors.len();
    let mut i: usize = 0;
    while i < n
        invariant
            i <= n,
            n == collectors@.len(),
            forall|j: int| 0 <= j < i ==> col_ok(#[trigger] collectors@[j]),
            fee_collectors@ =~= parsed_cols(collectors@.take(i as int)),
        decreases n - i,
    {
        let c = &collectors[i];
        let percentage = match crate::arith::parse_decimal(c.percentage.as_str()) {
            Some(v) => v,
            None => {
                proof {
                    lemma_first_bad(collectors@, i as int);
                }
                return Err(
                    ContractError::InvalidFeePercentage {
                        msg: String::from_str("Invalid decimal format"),
                    },
                );
            },
        };
        if percentage == 0 || percentage > FRACTIONAL {
            proof {
                lemma_first_bad(collectors@, i as int);
            }
            return Err(
                ContractError::InvalidFeePercentage {
                    msg: String::from_str("Percentage must be between 0 and 100"),
                },
            );
        }
        fee_collectors.push(FeeCollectorInfo { address: c.address.clone(), percentage });
        proof {
            assert(parsed_cols(collectors@.take(i + 1)) =~= parsed_cols(
                collectors@.take(i as int),
            ).push(
                FeeCollectorInfo {
                    address: collectors@[i as int].address,
                    percentage: crate::arith::parsed_decimal(
                        collectors@[i as int].percentage@,
                    ).unwrap(),
                },
            ));
        }
        i += 1;
    }
    proof {
        lemma_first_bad(collectors@, n as int);
        assert(collectors@.take(n as int) =~= collectors@);
        crate::fee::lemma_sum_pct_bounded(fee_collectors@);
        assert(fee_collectors@.len() * FRACTIONAL <= u128::MAX) by (nonlinear_arith)
            requires
                fee_collectors@.len() <= 0xffff_ffff_ffff_ffffu64,
        ;
    }
    let fee_config = FeeConfig { fee_type, token_type, collectors: fee_collectors, is_active };
    match crate::fee::validate_fee_config(&fee_config) {
        Ok(_) => {},
        Err(e) => {
            return Err(e);
        },
    }
    state.fee_config = Some(fee_config);
    let mut response = Response::new();
    response.add_attribute("action", String::from_str("set_fee_config"));
    response.add_attribute("fee_active", bool_to_string(is_active));
    Ok(response)
}

/// `"true"` or `"false"`.
pub open spec fn bool_str(b: bool) -> Seq<char> {
    if b {
        "true"@
    } else {
        "false"@
    }
}

/// Renders a boolean the way the host displays one.
fn bool_to_string(b: bool) -> (s: String)
    ensures
        s@ == bool_str(b),
{
    if b {
        String::from_str("true")
    } else {
        String::from_str("false")
    }
}


/// The marketing record a configuration update writes.
pub open spec fn config_marketing(m: crate::msg::InstantiateMarketingInfo) -> MarketingInfo {
    MarketingInfo {
        project: m.project,
        description: m.description,
        marketing: m.marketing,
        logo: Option::None,
    }
}

/// Everything a configuration replacement guarantees: the admin or the
/// upgrade admin may act, only while upgrades are allowed; a newly imposed
/// maximum must cover the current supply and a transfer fee must name a
/// collector; the minter is mirrored into the token info and the marketing
/// record rewritten; the ledger itself is untouched.
pub open spec fn update_config_post(
    pre: TokenState,
    post: TokenState,
    r: Result<Response, ContractError>,
    sender: String,
    new_config: Option<crate::msg::ConfigInfo>,
) -> bool {
    if !config_auth(pre, sender@) {
        (r matches Err(e) && e == (ContractError::Unauthorized {  })) && post == pre
    } else {
        match new_config {
            Option::None => (r matches Err(e) && e matches ContractError::InvalidConfig { msg }
                && msg@ == "New config cannot be empty"@) && post == pre,
            Option::Some(nc) => if !pre.config.is_upgrade_allowed {
                (r matches Err(e) && e == (ContractError::ConfigUpdateNotAllowed {  })) && post
                    == pre
            } else if match nc.max_supply {
                Option::Some(ms) => pre.token_info.total_supply > ms,
                Option::None => false,
            } {
                (r matches Err(e) && e == (ContractError::InvalidAmount {  })) && post == pre
            } else if nc.transfer_fee is Some && nc.fee_collector is None {
                (r matches Err(e) && e matches ContractError::InvalidConfig { msg } && msg@
                    == "Fee collector must be set when transfer fee is enabled"@) && post == pre
            } else {
                &&& post.config == nc
                &&& post.token_info.mint == (match nc.minter {
                    Option::Some(mr) => Option::Some(
                        crate::state::MinterData { minter: mr.minter, cap: mr.cap },
                    ),
                    Option::None => Option::None::<crate::state::MinterData>,
                })
                &&& post.token_info.total_supply == pre.token_info.total_supply
                &&& post.token_info.name == pre.token_info.name
                &&& post.token_info.symbol == pre.token_info.symbol
                &&& post.token_info.decimals == pre.token_info.decimals
                &&& post.balances == pre.balances
                &&& post.allowances == pre.allowances
                &&& post.spender_allowances == pre.spender_allowances
                &&& post.extended_info == pre.extended_info
                &&& post.fee_config == pre.fee_config
                &&& post.logo == pre.logo
                &&& post.marketing_info == (match nc.marketing {
                    Option::Some(m) => Option::Some(config_marketing(m)),
                    Option::None => pre.marketing_info,
                })
                &&& (r matches Ok(resp) && resp.attrs() =~= seq![
                    ("method"@, "update_config"@),
                    ("success"@, "true"@),
                    ("is_upgrade_allowed"@, bool_str(nc.is_upgrade_allowed)),
                    ("has_minter"@, bool_str(nc.minter is Some)),
                    ("has_transfer_fee"@, bool_str(nc.transfer_fee is Some)),
                    ("has_max_supply"@, bool_str(nc.max_supply is Some)),
                ] && resp.msgs() =~= Seq::<OutMsgV>::empty())
            },
        }
    }
}

/// Replaces the whole configuration record: minter mirrored into the token
/// info, the supply checked against a newly imposed maximum, the fee fields
/// checked for consistency, the marketing record rewritten.  The admin or
/// the upgrade admin may do so, and only while upgrades are allowed.
pub fn execute_update_config(
    state: &mut TokenState,
    sender: &String,
    new_config: Box<Option<crate::msg::ConfigInfo>>,
) -> (r: Result<Response, ContractError>)
    requires
        old(state).wf(),
    ensures
        final(state).wf(),
        update_config_post(*old(state), *final(state), r, *sender, *new_config),
{
    if !sender.eq(&state.extended_info.admin) {
        match &state.config.upgrade_admin {
            Some(ua) => {
                if !sender.eq(ua) {
                    return Err(ContractError::Unauthorized {});
                }
            },
            None => {
                return Err(ContractError::Unauthorized {});
            },
        }
    }
    let nc = match *new_config {
        Some(nc) => nc,
        None => {
            return Err(
                ContractError::InvalidConfig {
                    msg: String::from_str("New config cannot be empty"),
                },
            );
        },
    };
    if !state.config.is_upgrade_allowed {
        return Err(ContractError::ConfigUpdateNotAllowed {});
    }
    if let Some(ms) = nc.max_supply {
        if state.token_info.total_supply > ms {
            return Err(ContractError::InvalidAmount {});
        }
    }
    if nc.transfer_fee.is_some() && nc.fee_collector.is_none() {
        return Err(
            ContractError::InvalidConfig {
                msg: String::from_str("Fee collector must be set when transfer fee is enabled"),
            },
        );
    }
    let mut response = Response::new();
    response.add_attribute("method", String::from_str("update_config"));
    response.add_attribute("success", String::from_str("true"));
    response.add_attribute("is_upgrade_allowed", bool_to_string(nc.is_upgrade_allowed));
    response.add_attribute("has_minter", bool_to_string(nc.minter.is_some()));
    response.add_attribute("has_transfer_fee", bool_to_string(nc.transfer_fee.is_some()));
    response.add_attribute("has_max_supply", bool_to_string(nc.max_supply.is_some()));
    state.token_info.mint = match &nc.minter {
        Some(mr) => Some(
            crate::state::MinterData { minter: mr.minter.clone(), cap: mr.cap },
        ),
        None => None,
    };
    if let Some(m) = &nc.marketing {
        state.marketing_info = Some(
            MarketingInfo {
                project: m.project.clone(),
                description: m.description.clone(),
                marketing: m.marketing.clone(),
                logo: None,
            },
        );
    }
    state.config = nc;
    Ok(response)
}


// ---------------------------------------------------------------------------
// Queries.
// ---------------------------------------------------------------------------

/// The balance of `address`; zero when the address holds no entry.
pub fn query_balance(state: &TokenState, address: String) -> (r: crate::msg::BalanceResponse)
    requires
        state.wf(),
    ensures
        r.balance == bal_of(state.balances@, address@),
{
    crate::msg::BalanceResponse { balance: get_balance(&state.balances, &address) }
}

/// Name, symbol, decimals and total supply.
pub fn query_token_info(state: &TokenState) -> (r: crate::msg::TokenInfoResponse)
    ensures
        r.name == state.token_info.name,
        r.symbol == state.token_info.symbol,
        r.decimals == state.token_info.decimals,
        r.total_supply == state.token_info.total_supply,
{
    crate::msg::TokenInfoResponse {
        name: state.token_info.name.clone(),
        symbol: state.token_info.symbol.clone(),
        decimals: state.token_info.decimals,
        total_supply: state.token_info.total_supply,
    }
}

/// The configured minter, if any.
pub fn query_minter(state: &TokenState) -> (r: Option<crate::msg::MinterResponse>)
    ensures
        match state.token_info.mint {
            Option::Some(m) => r matches Some(mr) && mr.minter == m.minter && mr.cap == m.cap,
            Option::None => r is None,
        },
{
    match &state.token_info.mint {
        Some(m) => Some(crate::msg::MinterResponse { minter: m.minter.clone(), cap: m.cap }),
        None => None,
    }
}

/// The marketing record; an empty one when none is stored.
pub fn query_marketing_info(state: &TokenState) -> (r: crate::msg::MarketingInfoResponse)
    ensures
        match state.marketing_info {
            Option::Some(mi) => r.project == mi.project && r.description == mi.description
                && r.marketing == mi.marketing && r.logo == mi.logo,
            Option::None => r.project is None && r.description is None && r.marketing is None
                && r.logo is None,
        },
{
    match &state.marketing_info {
        Some(mi) => crate::msg::MarketingInfoResponse {
            project: mi.project.clone(),
            description: mi.description.clone(),
            marketing: mi.marketing.clone(),
            logo: match &mi.logo {
                Some(LogoInfo::Url(u)) => Some(LogoInfo::Url(u.clone())),
                Some(LogoInfo::Embedded) => Some(LogoInfo::Embedded),
                None => None,
            },
        },
        None => crate::msg::MarketingInfoResponse {
            project: None,
            description: None,
            marketing: None,
            logo: None,
        },
    }
}

/// A fresh byte vector equal to `v`.
fn clone_bytes(v: &Vec<u8>) -> (r: Vec<u8>)
    ensures
        r@ =~= v@,
{
    let mut r: Vec<u8> = Vec::new();
    let n = v.len();
    let mut i: usize = 0;
    while i < n
        invariant
            i <= n,
            n == v@.len(),
            r@ =~= v@.take(i as int),
        decreases n - i,
    {
        r.push(v[i]);
        proof {
            assert(v@.take(i + 1) =~= v@.take(i as int).push(v@[i as int]));
        }
        i += 1;
    }
    proof {
        assert(v@.take(n as int) =~= v@);
    }
    r
}

/// The embedded logo data and its media type.  A stored URL, like an absent
/// logo, yields nothing to download.
pub fn query_download_logo(state: &TokenState) -> (r: Result<
    crate::msg::DownloadLogoResponse,
    ContractError,
>)
    ensures
        match state.logo {
            Option::Some(Logo::Embedded(EmbeddedLogo::Svg(data))) => r matches Ok(d)
                && d.mime_type@ == "image/svg+xml"@ && d.data@ == data@,
            Option::Some(Logo::Embedded(EmbeddedLogo::Png(data))) => r matches Ok(d)
                && d.mime_type@ == "image/png"@ && d.data@ == data@,
            _ => r matches Err(e) && e matches ContractError::Generic { msg } && msg@
                == "logo not found"@,
        },
{
    match &state.logo {
        Some(Logo::Embedded(EmbeddedLogo::Svg(data))) => Ok(
            crate::msg::DownloadLogoResponse {
                mime_type: String::from_str("image/svg+xml"),
                data: clone_bytes(data),
            },
        ),
        Some(Logo::Embedded(EmbeddedLogo::Png(data))) => Ok(
            crate::msg::DownloadLogoResponse {
                mime_type: String::from_str("image/png"),
                data: clone_bytes(data),
            },
        ),
        _ => Err(ContractError::Generic { msg: String::from_str("logo not found") }),
    }
}

/// The configured fee granter, if any.
pub fn query_fee_granter(state: &TokenState) -> (r: crate::msg::FeeGranterResponse)
    ensures
        match state.extended_info.fee_granter {
            Option::Some(g) => r.fee_granter matches Some(g2) && g2 == g,
            Option::None => r.fee_granter is None,
        },
{
    crate::msg::FeeGranterResponse {
        fee_granter: match &state.extended_info.fee_granter {
            Some(g) => Some(g.clone()),
            None => None,
        },
    }
}

/// The aggregate supply.
pub fn query_total_supply(state: &TokenState) -> (r: crate::msg::TotalSupplyResponse)
    ensures
        r.total_supply == state.token_info.total_supply,
{
    crate::msg::TotalSupplyResponse { total_supply: state.token_info.total_supply }
}

/// The stored fee configuration, percentages rendered as decimal strings; an
/// inactive zero-percentage placeholder when none is stored.
pub fn query_fee_config(state: &TokenState) -> (r: crate::msg::FeeConfigResponse)
    ensures
        match state.fee_config {
            Option::Some(c) => {
                &&& r.fee_type == c.fee_type
                &&& r.token_type == c.token_type
                &&& r.is_active == c.is_active
                &&& r.collectors@.len() == c.collectors@.len()
                &&& forall|i: int|
                    0 <= i < c.collectors@.len() ==> (#[trigger] r.collectors@[i]).address
                        == c.collectors@[i].address && r.collectors@[i].percentage@ == rate_str(
                        c.collectors@[i].percentage,
                    )
            },
            Option::None => {
                &&& r.fee_type == (FeeType::Percentage(0))
                &&& r.token_type matches FeeTokenType::Native { denom } && denom@ == Seq::<
                    char,
                >::empty()
                &&& r.collectors@.len() == 0
                &&& r.is_active == false
            },
        },
{
    match &state.fee_config {
        Some(c) => {
            let mut collectors: Vec<crate::msg::FeeCollectorResponse> = Vec::new();
            let n = c.collectors.len();
            let mut i: usize = 0;
            while i < n
                invariant
                    i <= n,
                    n == c.collectors@.len(),
                    collectors@.len() == i,
                    forall|j: int|
                        0 <= j < i ==> (#[trigger] collectors@[j]).address
                            == c.collectors@[j].address && collectors@[j].percentage@ == rate_str(
                            c.collectors@[j].percentage,
                        ),
                decreases n - i,
            {
                collectors.push(
                    crate::msg::FeeCollectorResponse {
                        address: c.collectors[i].address.clone(),
                        percentage: crate::fmt::rate_to_string(c.collectors[i].percentage),
                    },
                );
                i += 1;
            }
            crate::msg::FeeConfigResponse {
                fee_type: match &c.fee_type {
                    FeeType::Percentage(p) => FeeType::Percentage(*p),
                    FeeType::Fixed(f) => FeeType::Fixed(*f),
                },
                token_type: match &c.token_type {
                    FeeTokenType::Native { denom } => FeeTokenType::Native {
                        denom: denom.clone(),
                    },
                    FeeTokenType::Cw20 { contract_addr } => FeeTokenType::Cw20 {
                        contract_addr: contract_addr.clone(),
                    },
                },
                collectors,
                is_active: c.is_active,
            }
        },
        None => crate::msg::FeeConfigResponse {
            fee_type: FeeType::Percentage(0),
            token_type: FeeTokenType::Native { denom: String::new() },
            collectors: Vec::new(),
            is_active: false,
        },
    }
}


// ---------------------------------------------------------------------------
// Instantiation.
// ---------------------------------------------------------------------------

/// The ledger and the supply the initial balances build, entry by entry in
/// order: a repeated address is rejected, as is a supply beyond 128 bits.
pub open spec fn spec_init(entries: Seq<crate::msg::InitialBalance>) -> Result<
    (Seq<BalanceEntry>, u128),
    ContractError,
>
    decreases entries.len(),
{
    if entries.len() == 0 {
        Result::Ok((Seq::empty(), 0u128))
    } else {
        match spec_init(entries.drop_last()) {
            Result::Err(e) => Result::Err(e),
            Result::Ok(p) => {
                let e = entries.last();
                if crate::state::bal_has(p.0, e.address@) {
                    Result::Err(ContractError::DuplicateInitialBalanceAddresses {})
                } else if p.1 + e.amount > u128::MAX {
                    Result::Err(ContractError::InvalidAmount {})
                } else {
                    Result::Ok(
                        (spec_set_bal(p.0, e.address, e.amount), (p.1 + e.amount) as u128),
                    )
                }
            },
        }
    }
}

/// A successfully built initial ledger has distinct addresses and sums to
/// exactly the recorded supply: the supply invariant holds at creation.
pub proof fn lemma_spec_init(entries: Seq<crate::msg::InitialBalance>)
    requires
        spec_init(entries) is Ok,
    ensures
        bal_distinct(spec_init(entries).unwrap().0),
        sum_bal(spec_init(entries).unwrap().0) == spec_init(entries).unwrap().1,
    decreases entries.len(),
{
    if entries.len() > 0 {
        lemma_spec_init(entries.drop_last());
        let p = spec_init(entries.drop_last()).unwrap();
        crate::state::lemma_set_bal(p.0, entries.last().address, entries.last().amount);
    }
}

/// Once a prefix of the initial balances fails, the whole request fails the
/// same way.
proof fn lemma_spec_init_err_extend(entries: Seq<crate::msg::InitialBalance>, k: int)
    requires
        0 <= k <= entries.len(),
        spec_init(entries.take(k)) is Err,
    ensures
        spec_init(entries) == spec_init(entries.take(k)),
    decreases entries.len() - k,
{
    if k < entries.len() {
        assert(entries.take(k + 1).drop_last() =~= entries.take(k));
        lemma_spec_init_err_extend(entries, k + 1);
    } else {
        assert(entries.take(k) =~= entries);
    }
}

/// The marketing record an instantiation stores.
pub open spec fn init_marketing(m: crate::msg::InstantiateMarketingInfo) -> MarketingInfo {
    MarketingInfo {
        project: m.project,
        description: m.description,
        marketing: m.marketing,
        logo: match m.logo {
            Option::Some(l) => Option::Some(logo_info_of(l)),
            Option::None => Option::None,
        },
    }
}

/// The logo error of the marketing request, if any.
pub open spec fn init_marketing_err(m: Option<crate::msg::InstantiateMarketingInfo>) -> Option<
    ContractError,
> {
    match m {
        Option::Some(mi) => match mi.logo {
            Option::Some(l) => logo_err(l),
            Option::None => Option::None,
        },
        Option::None => Option::None,
    }
}

/// The message of the exact validation error of an instantiation request,
/// if any.
pub open spec fn validate_err_msg(msg: crate::msg::InstantiateMsg) -> Option<Seq<char>> {
    if !crate::msg::valid_name(msg.name@) {
        Option::Some("Name is not in the expected format (3-50 UTF-8 bytes)"@)
    } else if !crate::msg::valid_symbol(msg.symbol@) {
        Option::Some("Ticker symbol is not in expected format [a-zA-Z\\-]{3,12}"@)
    } else if msg.decimals > 18 {
        Option::Some("Decimals must not exceed 18"@)
    } else {
        Option::None
    }
}

/// Creates the whole ledger state: the request is validated, the initial
/// balances written (a repeated address rejected), the supply checked
/// against the cap, the minter and marketing recorded.  The admin is the
/// first initial-balance holder, or the instantiating caller when there is
/// none.  On success the supply invariant holds outright.
pub fn instantiate(msg: crate::msg::InstantiateMsg, sender: &String) -> (r: Result<
    (TokenState, Response),
    ContractError,
>)
    ensures
        r is Ok <==> ({
            &&& crate::msg::valid_name(msg.name@) && crate::msg::valid_symbol(msg.symbol@)
                && msg.decimals <= 18
            &&& spec_init(msg.initial_balances@) matches Ok(t)
            &&& (match msg.spec_cap() {
                Option::Some(limit) => t.1 <= limit,
                Option::None => true,
            })
            &&& init_marketing_err(msg.marketing) is None
        }),
        r matches Ok(p) ==> ({
            let st = p.0;
            let resp = p.1;
            let admin = if msg.initial_balances@.len() > 0 {
                msg.initial_balances@[0].address
            } else {
                *sender
            };
            &&& st.wf()
            &&& st.supply_consistent()
            &&& spec_init(msg.initial_balances@) matches Ok(t) && st.balances@ == t.0
                && st.token_info.total_supply == t.1
            &&& st.token_info.name == msg.name
            &&& st.token_info.symbol == msg.symbol
            &&& st.token_info.decimals == msg.decimals
            &&& st.token_info.mint == (match msg.mint {
                Option::Some(m) => Option::Some(
                    crate::state::MinterData { minter: m.minter, cap: m.cap },
                ),
                Option::None => Option::None::<crate::state::MinterData>,
            })
            &&& st.allowances@.len() == 0
            &&& st.spender_allowances@.len() == 0
            &&& st.fee_config is None
            &&& st.config.is_upgrade_allowed && st.config.upgrade_admin is None
            &&& st.extended_info.admin == admin
            &&& st.extended_info.fee_granter is None
            &&& st.extended_info.created_on_platform == msg.created_on_platform
            &&& st.marketing_info == (match msg.marketing {
                Option::Some(m) => Option::Some(init_marketing(m)),
                Option::None => Option::None::<MarketingInfo>,
            })
            &&& (match msg.marketing {
                Option::Some(m) => match m.logo {
                    Option::Some(l) => st.logo == Option::Some(l),
                    Option::None => st.logo is None,
                },
                Option::None => st.logo is None,
            })
            &&& resp.attrs() =~= seq![
                ("method"@, "instantiate"@),
                ("admin"@, admin@),
                ("total_supply"@, dec_str(st.token_info.total_supply as int)),
                ("token_symbol"@, msg.symbol@),
            ]
            &&& resp.msgs() =~= Seq::<OutMsgV>::empty()
        }),
        r matches Err(e) ==> match validate_err_msg(msg) {
            Option::Some(vm) => e matches ContractError::Generic { msg: m } && m@ == vm,
            Option::None => match spec_init(msg.initial_balances@) {
                Result::Err(ie) => e == ie,
                Result::Ok(t) => if match msg.spec_cap() {
                    Option::Some(limit) => t.1 > limit,
                    Option::None => false,
                } {
                    e matches ContractError::Generic { msg: m } && m@
                        == "Initial supply greater than cap"@
                } else {
                    init_marketing_err(msg.marketing) matches Option::Some(le) && e == le
                },
            },
        },
{
    msg.validate()?;
    let mut balances: Vec<BalanceEntry> = Vec::new();
    let mut total_supply: u128 = 0;
    let n = msg.initial_balances.len();
    let mut i: usize = 0;
    while i < n
        invariant
            i <= n,
            n == msg.initial_balances@.len(),
            bal_distinct(balances@),
            spec_init(msg.initial_balances@.take(i as int)) == Result::<
                (Seq<BalanceEntry>, u128),
                ContractError,
            >::Ok((balances@, total_supply)),
        decreases n - i,
    {
        let entry = &msg.initial_balances[i];
        proof {
            assert(msg.initial_balances@.take(i + 1).drop_last() =~= msg.initial_balances@.take(
                i as int,
            ));
            assert(msg.initial_balances@.take(i + 1).last() == msg.initial_balances@[i as int]);
        }
        match crate::state::find_balance(&balances, &entry.address) {
            Some(_) => {
                proof {
                    lemma_spec_init_err_extend(msg.initial_balances@, i + 1);
                }
                return Err(ContractError::DuplicateInitialBalanceAddresses {});
            },
            None => {},
        }
        total_supply = match total_supply.checked_add(entry.amount) {
            Some(v) => v,
            None => {
                proof {
                    lemma_spec_init_err_extend(msg.initial_balances@, i + 1);
                }
                return Err(ContractError::InvalidAmount {});
            },
        };
        set_balance(&mut balances, &entry.address, entry.amount);
        i += 1;
    }
    proof {
        assert(msg.initial_balances@.take(n as int) =~= msg.initial_balances@);
        lemma_spec_init(msg.initial_balances@);
    }
    if let Some(limit) = msg.get_cap() {
        if total_supply > limit {
            return Err(
                ContractError::Generic {
                    msg: String::from_str("Initial supply greater than cap"),
                },
            );
        }
    }
    let mint = match msg.mint {
        Some(m) => Some(crate::state::MinterData { minter: m.minter, cap: m.cap }),
        None => None,
    };
    let token_info = crate::state::TokenInfo {
        name: msg.name,
        symbol: msg.symbol.clone(),
        decimals: msg.decimals,
        total_supply,
        mint,
    };
    let mut marketing_info: Option<MarketingInfo> = None;
    let mut stored_logo: Option<Logo> = None;
    if let Some(m) = msg.marketing {
        let logo_info = match m.logo {
            Some(l) => {
                verify_logo(&l)?;
                let li = match &l {
                    Logo::Url(u) => LogoInfo::Url(u.clone()),
                    Logo::Embedded(_) => LogoInfo::Embedded,
                };
                stored_logo = Some(l);
                Some(li)
            },
            None => None,
        };
        marketing_info = Some(
            MarketingInfo {
                project: m.project,
                description: m.description,
                marketing: m.marketing,
                logo: logo_info,
            },
        );
    }
    let admin = if msg.initial_balances.len() > 0 {
        msg.initial_balances[0].address.clone()
    } else {
        sender.clone()
    };
    let config = crate::msg::ConfigInfo {
        is_upgrade_allowed: true,
        upgrade_admin: None,
        marketing: None,
        minter: None,
        transfer_fee: None,
        fee_collector: None,
        max_supply: None,
    };
    let base = crate::state::TokenInfo {
        name: token_info.name.clone(),
        symbol: token_info.symbol.clone(),
        decimals: token_info.decimals,
        total_supply: token_info.total_supply,
        mint: match &token_info.mint {
            Some(m) => Some(
                crate::state::MinterData { minter: m.minter.clone(), cap: m.cap },
            ),
            None => None,
        },
    };
    let extended_info = crate::state::ExtendedTokenInfo {
        base,
        admin: admin.clone(),
        fee_granter: None,
        created_on_platform: msg.created_on_platform,
    };
    let state = TokenState {
        token_info,
        extended_info,
        config,
        fee_config: None,
        balances,
        allowances: Vec::new(),
        spender_allowances: Vec::new(),
        marketing_info,
        logo: stored_logo,
    };
    proof {
        assert(crate::state::allow_distinct(state.allowances@));
        assert(crate::state::allow_distinct(state.spender_allowances@));
        assert(crate::state::mirror_consistent(
            state.allowances@,
            state.spender_allowances@,
        )) by {
            assert forall|o: Seq<char>, sp: Seq<char>| #[trigger] crate::state::allow_of(
                state.allowances@,
                o,
                sp,
            ) == crate::state::allow_of(state.spender_allowances@, sp, o) by {
                assert(!crate::state::allow_has(state.allowances@, o, sp));
                assert(!crate::state::allow_has(state.spender_allowances@, sp, o));
            }
        }
    }
    let mut response = Response::new();
    response.add_attribute("method", String::from_str("instantiate"));
    response.add_attribute("admin", admin);
    response.add_attribute("total_supply", u128_to_string(total_supply));
    response.add_attribute("token_symbol", msg.symbol);
    Ok((state, response))
}

// ---------------------------------------------------------------------------
// The versioned upgrade hook.
// ---------------------------------------------------------------------------

/// A release version, for the one comparison the upgrade hook makes.
pub struct Version {
    pub major: u64,
    pub minor: u64,
    pub patch: u64,
}

/// Lexicographic order on (major, minor, patch).
pub open spec fn version_lt(a: Version, b: Version) -> bool {
    a.major < b.major || (a.major == b.major && (a.minor < b.minor || (a.minor == b.minor
        && a.patch < b.patch)))
}

impl Version {
    /// Whether `self` precedes `other`.
    pub fn lt(&self, other: &Version) -> (r: bool)
        ensures
            r == version_lt(*self, *other),
    {
        self.major < other.major || (self.major == other.major && (self.minor < other.minor || (
        self.minor == other.minor && self.patch < other.patch)))
    }
}

/// The (spender, owner)-keyed index rebuilt from the owner-keyed one.
fn rebuild_spender_index(src: &Vec<crate::state::AllowanceEntry>) -> (r: Vec<
    crate::state::AllowanceEntry,
>)
    requires
        crate::state::allow_distinct(src@),
    ensures
        crate::state::allow_distinct(r@),
        forall|o: Seq<char>, sp: Seq<char>| #[trigger] crate::state::allow_of(r@, sp, o)
            == crate::state::allow_of(src@, o, sp),
{
    let mut out: Vec<crate::state::AllowanceEntry> = Vec::new();
    let n = src.len();
    let mut i: usize = 0;
    while i < n
        invariant
            i <= n,
            n == src@.len(),
            crate::state::allow_distinct(out@),
            forall|o: Seq<char>, sp: Seq<char>| #[trigger] crate::state::allow_of(out@, sp, o)
                == crate::state::allow_of(src@.take(i as int), o, sp),
        decreases n - i,
    {
        let e = &src[i];
        proof {
            assert(src@.take(i + 1).drop_last() =~= src@.take(i as int));
            assert(src@.take(i + 1).last() == src@[i as int]);
            assert(!crate::state::allow_has(src@.take(i as int), src@[i as int].owner@, src@[i as int].spender@));
            crate::state::lemma_set_allow(
                src@.take(i as int),
                src@[i as int].owner,
                src@[i as int].spender,
                src@[i as int].info,
            );
            assert(src@.take(i + 1) =~= crate::state::spec_set_allow(
                src@.take(i as int),
                src@[i as int].owner,
                src@[i as int].spender,
                src@[i as int].info,
            ));
        }
        crate::state::set_allowance_entry(&mut out, &e.spender, &e.owner, e.info);
        i += 1;
    }
    proof {
        assert(src@.take(n as int) =~= src@);
    }
    out
}

/// The version before which the spender-keyed allowance index did not
/// exist and must be rebuilt on upgrade.
pub open spec fn reindex_threshold() -> Version {
    Version { major: 0, minor: 14, patch: 0 }
}

/// The one-time upgrade hook: a state written before the spender-keyed
/// allowance index existed — so with that index possibly stale or missing —
/// has it rebuilt by scanning the owner-keyed allowances and writing the
/// mirrored copies.  From the threshold version on, both indexes are left
/// exactly as they are.
pub fn migrate(state: &mut TokenState, original_version: &Version) -> (r: Response)
    requires
        old(state).wf_unmirrored(),
    ensures
        final(state).wf_unmirrored(),
        final(state).allowances == old(state).allowances,
        final(state).balances == old(state).balances,
        final(state).token_info == old(state).token_info,
        final(state).extended_info == old(state).extended_info,
        final(state).config == old(state).config,
        final(state).fee_config == old(state).fee_config,
        final(state).marketing_info == old(state).marketing_info,
        final(state).logo == old(state).logo,
        version_lt(*original_version, reindex_threshold()) ==> (forall|o: Seq<char>, sp: Seq<char>|
            #[trigger] crate::state::allow_of(final(state).spender_allowances@, sp, o)
                == crate::state::allow_of(old(state).allowances@, o, sp)) && final(state).wf(),
        !version_lt(*original_version, reindex_threshold()) ==> final(state).spender_allowances
            == old(state).spender_allowances,
        r.attrs() =~= Seq::<(Seq<char>, Seq<char>)>::empty(),
        r.msgs() =~= Seq::<OutMsgV>::empty(),
{
    let threshold = Version { major: 0, minor: 14, patch: 0 };
    if original_version.lt(&threshold) {
        state.spender_allowances = rebuild_spender_index(&state.allowances);
        proof {
            assert forall|o: Seq<char>, sp: Seq<char>| #[trigger] crate::state::allow_of(
                state.allowances@,
                o,
                sp,
            ) == crate::state::allow_of(state.spender_allowances@, sp, o) by {}
        }
    }
    Response::new()
}

// ---------------------------------------------------------------------------
// The message dispatchers.
// ---------------------------------------------------------------------------

/// Routes one mutation request to its handler, and guarantees for each
/// request kind exactly what its handler guarantees: the full success
/// effect, the exact error otherwise, and an untouched state on every
/// failure.
pub fn execute(
    state: &mut TokenState,
    env: &crate::state::Env,
    sender: &String,
    msg: crate::msg::ExecuteMsg,
) -> (r: Result<Response, ContractError>)
    requires
        old(state).wf(),
    ensures
        final(state).wf(),
        match msg {
            crate::msg::ExecuteMsg::Transfer { recipient, amount } => transfer_post(
                *old(state),
                *final(state),
                r,
                *sender,
                recipient,
                amount,
            ),
            crate::msg::ExecuteMsg::Burn { amount } => burn_post(
                *old(state),
                *final(state),
                r,
                *sender,
                amount,
            ),
            crate::msg::ExecuteMsg::Send { contract, amount, msg } => send_post(
                *old(state),
                *final(state),
                r,
                *sender,
                contract,
                amount,
                msg@,
            ),
            crate::msg::ExecuteMsg::Mint { recipient, amount } => mint_post(
                *old(state),
                *final(state),
                r,
                *sender,
                recipient,
                amount,
            ),
            crate::msg::ExecuteMsg::IncreaseAllowance { spender, amount, expires } =>
                crate::allowances::increase_allowance_post(
                *old(state),
                *final(state),
                r,
                env.block,
                *sender,
                spender,
                amount,
                expires,
            ),
            crate::msg::ExecuteMsg::DecreaseAllowance { spender, amount, expires } =>
                crate::allowances::decrease_allowance_post(
                *old(state),
                *final(state),
                r,
                env.block,
                *sender,
                spender,
                amount,
                expires,
            ),
            crate::msg::ExecuteMsg::TransferFrom { owner, recipient, amount } =>
                crate::allowances::transfer_from_post(
                *old(state),
                *final(state),
                r,
                env.block,
                *sender,
                owner,
                recipient,
                amount,
            ),
            crate::msg::ExecuteMsg::SendFrom { owner, contract, amount, msg } =>
                crate::allowances::send_from_post(
                *old(state),
                *final(state),
                r,
                env.block,
                *sender,
                owner,
                contract,
                amount,
                msg@,
            ),
            crate::msg::ExecuteMsg::BurnFrom { owner, amount } =>
                crate::allowances::burn_from_post(
                *old(state),
                *final(state),
                r,
                env.block,
                *sender,
                owner,
                amount,
            ),
            crate::msg::ExecuteMsg::UpdateMinter { new_minter } => update_minter_post(
                *old(state),
                *final(state),
                r,
                *sender,
                new_minter,
            ),
            crate::msg::ExecuteMsg::UpdateMarketing { project, description, marketing } =>
                update_marketing_post(
                *old(state),
                *final(state),
                r,
                *sender,
                project,
                description,
                marketing,
            ),
            crate::msg::ExecuteMsg::UploadLogo(logo) => upload_logo_post(
                *old(state),
                *final(state),
                r,
                *sender,
                logo,
            ),
            crate::msg::ExecuteMsg::SetFeeGranter { address } => set_fee_granter_post(
                *old(state),
                *final(state),
                r,
                *sender,
                address,
            ),
            crate::msg::ExecuteMsg::SetUpgradeAdmin { address } => set_upgrade_admin_post(
                *old(state),
                *final(state),
                r,
                *sender,
                address,
            ),
            crate::msg::ExecuteMsg::UpdateConfig { new_config } => update_config_post(
                *old(state),
                *final(state),
                r,
                *sender,
                *new_config,
            ),
            crate::msg::ExecuteMsg::SetFeeConfig { fee_type, token_type, collectors, is_active }
                => set_fee_config_post(
                *old(state),
                *final(state),
                r,
                *sender,
                fee_type,
                token_type,
                collectors@,
                is_active,
            ),
        },
{
    match msg {
        crate::msg::ExecuteMsg::Transfer { recipient, amount } => execute_transfer(
            state,
            sender,
            recipient,
            amount,
        ),
        crate::msg::ExecuteMsg::Burn { amount } => execute_burn(state, sender, amount),
        crate::msg::ExecuteMsg::Send { contract, amount, msg } => execute_send(
            state,
            sender,
            contract,
            amount,
            msg,
        ),
        crate::msg::ExecuteMsg::Mint { recipient, amount } => execute_mint(
            state,
            sender,
            recipient,
            amount,
        ),
        crate::msg::ExecuteMsg::IncreaseAllowance { spender, amount, expires } =>
            crate::allowances::execute_increase_allowance(
            state,
            env,
            sender,
            spender,
            amount,
            expires,
        ),
        crate::msg::ExecuteMsg::DecreaseAllowance { spender, amount, expires } =>
            crate::allowances::execute_decrease_allowance(
            state,
            env,
            sender,
            spender,
            amount,
            expires,
        ),
        crate::msg::ExecuteMsg::TransferFrom { owner, recipient, amount } =>
            crate::allowances::execute_transfer_from(
            state,
            env,
            sender,
            owner,
            recipient,
            amount,
        ),
        crate::msg::ExecuteMsg::BurnFrom { owner, amount } =>
            crate::allowances::execute_burn_from(state, env, sender, owner, amount),
        crate::msg::ExecuteMsg::SendFrom { owner, contract, amount, msg } =>
            crate::allowances::execute_send_from(
            state,
            env,
            sender,
            owner,
            contract,
            amount,
            msg,
        ),
        crate::msg::ExecuteMsg::UpdateMarketing { project, description, marketing } =>
            execute_update_marketing(state, sender, project, description, marketing),
        crate::msg::ExecuteMsg::UploadLogo(logo) => execute_upload_logo(state, sender, logo),
        crate::msg::ExecuteMsg::UpdateMinter { new_minter } => execute_update_minter(
            state,
            sender,
            new_minter,
        ),
        crate::msg::ExecuteMsg::SetFeeGranter { address } => execute_set_fee_granter(
            state,
            sender,
            address,
        ),
        crate::msg::ExecuteMsg::SetUpgradeAdmin { address } => execute_set_upgrade_admin(
            state,
            sender,
            address,
        ),
        crate::msg::ExecuteMsg::UpdateConfig { new_config } => execute_update_config(
            state,
            sender,
            new_config,
        ),
        crate::msg::ExecuteMsg::SetFeeConfig { fee_type, token_type, collectors, is_active } =>
            execute_set_fee_config(
            state,
            sender,
            fee_type,
            token_type,
            collectors,
            is_active,
        ),
    }
}

/// Routes one query to its handler and wraps the typed answer.
pub fn query(state: &TokenState, msg: crate::msg::QueryMsg) -> (r: Result<
    crate::msg::QueryAnswer,
    ContractError,
>)
    requires
        state.wf(),
    ensures
        match msg {
            crate::msg::QueryMsg::Balance { address } => r matches Ok(
                crate::msg::QueryAnswer::Balance(b),
            ) && b.balance == bal_of(state.balances@, address@),
            crate::msg::QueryMsg::TokenInfo {  } => r matches Ok(
                crate::msg::QueryAnswer::TokenInfo(t),
            ) && t.name == state.token_info.name && t.symbol == state.token_info.symbol
                && t.decimals == state.token_info.decimals && t.total_supply
                == state.token_info.total_supply,
            crate::msg::QueryMsg::Minter {  } => r matches Ok(crate::msg::QueryAnswer::Minter(m))
                && (match state.token_info.mint {
                Option::Some(d) => m matches Some(mr) && mr.minter == d.minter && mr.cap == d.cap,
                Option::None => m is None,
            }),
            crate::msg::QueryMsg::TotalSupply {  } => r matches Ok(
                crate::msg::QueryAnswer::TotalSupply(t),
            ) && t.total_supply == state.token_info.total_supply,
            crate::msg::QueryMsg::FeeGranter {  } => r matches Ok(
                crate::msg::QueryAnswer::FeeGranter(g),
            ) && (match state.extended_info.fee_granter {
                Option::Some(fg) => g.fee_granter matches Some(s) && s == fg,
                Option::None => g.fee_granter is None,
            }),
            crate::msg::QueryMsg::Allowance { owner, spender } => r matches Ok(
                crate::msg::QueryAnswer::Allowance(a),
            ) && (match crate::state::allow_of(state.allowances@, owner@, spender@) {
                Option::Some(ai) => a.allowance == ai.allowance && a.expires == ai.expires,
                Option::None => a.allowance == 0 && a.expires == (
                crate::state::Expiration::Never),
            }),
            crate::msg::QueryMsg::MarketingInfo {  } => r matches Ok(
                crate::msg::QueryAnswer::MarketingInfo(m),
            ) && (match state.marketing_info {
                Option::Some(mi) => m.project == mi.project && m.description == mi.description
                    && m.marketing == mi.marketing && m.logo == mi.logo,
                Option::None => m.project is None && m.description is None && m.marketing is None
                    && m.logo is None,
            }),
            crate::msg::QueryMsg::DownloadLogo {  } => (match state.logo {
                Option::Some(Logo::Embedded(_)) => r matches Ok(
                    crate::msg::QueryAnswer::DownloadLogo(_),
                ),
                _ => r is Err,
            }),
            crate::msg::QueryMsg::AllAllowances { owner, start_after, limit } => r matches Ok(
                crate::msg::QueryAnswer::AllAllowances(a),
            ) && a.allowances@.len() == crate::enumerable::owner_page(
                state.allowances@,
                owner@,
                start_after,
                crate::enumerable::page_limit(limit),
            ).len(),
            crate::msg::QueryMsg::AllSpenderAllowances { spender, start_after, limit } => r
                matches Ok(crate::msg::QueryAnswer::AllSpenderAllowances(a)) && a.allowances@.len()
                == crate::enumerable::spender_page(
                state.spender_allowances@,
                spender@,
                start_after,
                crate::enumerable::page_limit(limit),
            ).len(),
            crate::msg::QueryMsg::AllAccounts { start_after, limit } => r matches Ok(
                crate::msg::QueryAnswer::AllAccounts(a),
            ) && a.accounts@ == crate::enumerable::accounts_page(
                state.balances@,
                start_after,
                crate::enumerable::page_limit(limit),
            ),
            crate::msg::QueryMsg::FeeConfig {  } => r matches Ok(
                crate::msg::QueryAnswer::FeeConfig(c),
            ) && (match state.fee_config {
                Option::Some(cfg) => c.fee_type == cfg.fee_type && c.token_type == cfg.token_type
                    && c.is_active == cfg.is_active && c.collectors@.len()
                    == cfg.collectors@.len(),
                Option::None => c.is_active == false && c.collectors@.len() == 0,
            }),
        },
{
    match msg {
        crate::msg::QueryMsg::Balance { address } => Ok(
            crate::msg::QueryAnswer::Balance(query_balance(state, address)),
        ),
        crate::msg::QueryMsg::TokenInfo {} => Ok(
            crate::msg::QueryAnswer::TokenInfo(query_token_info(state)),
        ),
        crate::msg::QueryMsg::Minter {} => Ok(
            crate::msg::QueryAnswer::Minter(query_minter(state)),
        ),
        crate::msg::QueryMsg::Allowance { owner, spender } => Ok(
            crate::msg::QueryAnswer::Allowance(
                crate::allowances::query_allowance(state, owner, spender),
            ),
        ),
        crate::msg::QueryMsg::AllAllowances { owner, start_after, limit } => Ok(
            crate::msg::QueryAnswer::AllAllowances(
                crate::enumerable::query_owner_allowances(state, owner, start_after, limit),
            ),
        ),
        crate::msg::QueryMsg::AllSpenderAllowances { spender, start_after, limit } => Ok(
            crate::msg::QueryAnswer::AllSpenderAllowances(
                crate::enumerable::query_spender_allowances(state, spender, start_after, limit),
            ),
        ),
        crate::msg::QueryMsg::AllAccounts { start_after, limit } => Ok(
            crate::msg::QueryAnswer::AllAccounts(
                crate::enumerable::query_all_accounts(state, start_after, limit),
            ),
        ),
        crate::msg::QueryMsg::MarketingInfo {} => Ok(
            crate::msg::QueryAnswer::MarketingInfo(query_marketing_info(state)),
        ),
        crate::msg::QueryMsg::DownloadLogo {} => {
            match query_download_logo(state) {
                Ok(d) => Ok(crate::msg::QueryAnswer::DownloadLogo(d)),
                Err(e) => Err(e),
            }
        },
        crate::msg::QueryMsg::TotalSupply {} => Ok(
            crate::msg::QueryAnswer::TotalSupply(query_total_supply(state)),
        ),
        crate::msg::QueryMsg::FeeGranter {} => Ok(
            crate::msg::QueryAnswer::FeeGranter(query_fee_granter(state)),
        ),
        crate::msg::QueryMsg::FeeConfig {} => Ok(
            crate::msg::QueryAnswer::FeeConfig(query_fee_config(state)),
        ),
    }
}

} // verus!
