use vstd::prelude::*;

use crate::arith::{checked_mul_ratio, FRACTIONAL, FRACTIONAL_EPSILON};
use crate::error::ContractError;
use crate::response::{msg_views, OutMsg, OutMsgV};
use crate::state::{
    bal_distinct, bal_of, set_balance, spec_set_bal, sum_bal, BalanceEntry, FeeCollectorInfo,
    FeeConfig, FeeTokenType, FeeType,
};

verus! {

/// The split of a transfer amount decided by the fee engine.
pub struct FeeCalculationResult {
    /// What the recipient is credited: the amount less the fee.
    pub transfer_amount: u128,
    /// The total fee skimmed off the amount.
    pub fee_amount: u128,
    /// One value movement per collector with a non-zero share.
    pub fee_msgs: Vec<OutMsg>,
}

// ---------------------------------------------------------------------------
// Fee amount and distribution, mathematically.
// ---------------------------------------------------------------------------

/// The fee owed on `amount` under `cfg`: zero without an active config,
/// otherwise the floored percentage or the flat value.
pub open spec fn spec_fee_amount(cfg: Option<FeeConfig>, amount: u128) -> int {
    match cfg {
        Option::None => 0,
        Option::Some(c) => if !c.is_active {
            0
        } else {
            match c.fee_type {
                FeeType::Percentage(p) => amount * p / FRACTIONAL as int,
                FeeType::Fixed(f) => f as int,
            }
        },
    }
}

/// One collector's share of `fee`: `floor(fee * pct / FRACTIONAL)`.
pub open spec fn share_of(fee: u128, pct: u128) -> int {
    fee * pct / FRACTIONAL as int
}

/// Every collector's share of `fee` fits in 128 bits.
pub open spec fn dist_ok(cols: Seq<FeeCollectorInfo>, fee: u128) -> bool {
    forall|i: int| 0 <= i < cols.len() ==> share_of(fee, #[trigger] cols[i].percentage) <= u128::MAX
}

/// The value movement that hands `share` to collector `c` in the configured
/// fee asset.
pub open spec fn fee_msg_of(tt: FeeTokenType, c: FeeCollectorInfo, share: u128) -> OutMsgV {
    match tt {
        FeeTokenType::Native { denom } => OutMsgV::BankSend {
            to_address: c.address@,
            denom: denom@,
            amount: share,
        },
        FeeTokenType::Cw20 { contract_addr } => OutMsgV::Cw20Transfer {
            contract_addr: contract_addr@,
            recipient: c.address@,
            amount: share,
        },
    }
}

/// The fee distribution: one message per collector in order, zero-value
/// shares omitted.  The rounding residual `fee - Σ shares` is assigned to
/// nobody.
pub open spec fn spec_fee_msgs(tt: FeeTokenType, cols: Seq<FeeCollectorInfo>, fee: u128) -> Seq<
    OutMsgV,
>
    decreases cols.len(),
{
    if cols.len() == 0 {
        Seq::empty()
    } else {
        let pre = spec_fee_msgs(tt, cols.drop_last(), fee);
        let sh = share_of(fee, cols.last().percentage);
        if sh == 0 {
            pre
        } else {
            pre.push(fee_msg_of(tt, cols.last(), sh as u128))
        }
    }
}

/// The sum of all collector shares of `fee` (zero-value shares included).
pub open spec fn shares_sum(cols: Seq<FeeCollectorInfo>, fee: u128) -> int
    decreases cols.len(),
{
    if cols.len() == 0 {
        0
    } else {
        shares_sum(cols.drop_last(), fee) + share_of(fee, cols.last().percentage)
    }
}

/// The sum of the collector percentages.
pub open spec fn sum_pct(cols: Seq<FeeCollectorInfo>) -> int
    decreases cols.len(),
{
    if cols.len() == 0 {
        0
    } else {
        sum_pct(cols.drop_last()) + cols.last().percentage
    }
}

/// The reason a fee configuration with these components is rejected at
/// write time, if any.
pub open spec fn fee_config_error_parts(
    cols: Seq<FeeCollectorInfo>,
    ft: FeeType,
    active: bool,
) -> Option<ContractError> {
    if cols.len() > 0 && !(FRACTIONAL - FRACTIONAL_EPSILON <= sum_pct(cols) <= FRACTIONAL
        + FRACTIONAL_EPSILON) {
        Option::Some(ContractError::InvalidFeeDistribution {})
    } else if cols.len() == 0 && active {
        Option::Some(ContractError::InvalidFeeDistribution {})
    } else if match ft {
        FeeType::Fixed(f) => f == 0,
        FeeType::Percentage(_) => false,
    } {
        Option::Some(ContractError::InvalidAmount {})
    } else {
        Option::None
    }
}

/// The reason a fee configuration is rejected at write time, if any.
pub open spec fn fee_config_error(cfg: FeeConfig) -> Option<ContractError> {
    fee_config_error_parts(cfg.collectors@, cfg.fee_type, cfg.is_active)
}

/// A percentage sum over collectors that each stay within one never
/// overflows 128 bits.
pub proof fn lemma_sum_pct_bounded(cols: Seq<FeeCollectorInfo>)
    requires
        forall|i: int| 0 <= i < cols.len() ==> #[trigger] cols[i].percentage <= FRACTIONAL,
    ensures
        0 <= sum_pct(cols) <= cols.len() * FRACTIONAL,
    decreases cols.len(),
{
    if cols.len() > 0 {
        lemma_sum_pct_bounded(cols.drop_last());
        assert((cols.len() - 1) * FRACTIONAL + FRACTIONAL == cols.len() * FRACTIONAL)
            by (nonlinear_arith);
    }
}

/// A configuration the validator accepts.
pub open spec fn valid_fee_config(cfg: FeeConfig) -> bool {
    fee_config_error(cfg) is None
}

/// The outcome of the whole fee computation on `amount`: the transfer amount,
/// the fee amount and the distribution, or the error.
pub open spec fn spec_calc_fee(cfg: Option<FeeConfig>, amount: u128) -> Result<
    (u128, u128, Seq<OutMsgV>),
    ContractError,
> {
    let no_fee = Result::<_, ContractError>::Ok((amount, 0u128, Seq::<OutMsgV>::empty()));
    match cfg {
        Option::None => no_fee,
        Option::Some(c) => if !c.is_active {
            no_fee
        } else {
            let fee = spec_fee_amount(cfg, amount);
            if match c.fee_type {
                FeeType::Fixed(f) => f > amount,
                FeeType::Percentage(_) => false,
            } {
                Result::Err(ContractError::InsufficientFunds {})
            } else if fee > u128::MAX {
                Result::Err(ContractError::InvalidAmount {})
            } else if fee == 0 {
                no_fee
            } else if fee > amount {
                Result::Err(ContractError::InvalidAmount {})
            } else if !dist_ok(c.collectors@, fee as u128) {
                Result::Err(ContractError::InvalidAmount {})
            } else {
                Result::Ok(
                    (
                        (amount - fee) as u128,
                        fee as u128,
                        spec_fee_msgs(c.token_type, c.collectors@, fee as u128),
                    ),
                )
            }
        },
    }
}

// ---------------------------------------------------------------------------
// Executable fee engine.
// ---------------------------------------------------------------------------

/// Builds the fee distribution messages for `total_fee` under `fee_config`.
pub fn create_fee_distribution_msgs(fee_config: &FeeConfig, total_fee: u128) -> (r: Result<
    Vec<OutMsg>,
    ContractError,
>)
    ensures
        match r {
            Ok(msgs) => dist_ok(fee_config.collectors@, total_fee) && msg_views(msgs@)
                =~= spec_fee_msgs(fee_config.token_type, fee_config.collectors@, total_fee),
            Err(e) => !dist_ok(fee_config.collectors@, total_fee) && e == (
            ContractError::InvalidAmount {  }),
        },
{
    let mut msgs: Vec<OutMsg> = Vec::new();
    let n = fee_config.collectors.len();
    let mut i: usize = 0;
    while i < n
        invariant
            i <= n,
            n == fee_config.collectors@.len(),
            forall|j: int|
                0 <= j < i ==> share_of(total_fee, #[trigger] fee_config.collectors@[j].percentage)
                    <= u128::MAX,
            msg_views(msgs@) =~= spec_fee_msgs(
                fee_config.token_type,
                fee_config.collectors@.take(i as int),
                total_fee,
            ),
        decreases n - i,
    {
        let c = &fee_config.collectors[i];
        let share = match checked_mul_ratio(total_fee, c.percentage, FRACTIONAL) {
            Some(v) => v,
            None => {
                return Err(ContractError::InvalidAmount {});
            },
        };
        if share > 0 {
            let m = match &fee_config.token_type {
                FeeTokenType::Native { denom } => OutMsg::BankSend {
                    to_address: c.address.clone(),
                    denom: denom.clone(),
                    amount: share,
                },
                FeeTokenType::Cw20 { contract_addr } => OutMsg::Cw20Transfer {
                    contract_addr: contract_addr.clone(),
                    recipient: c.address.clone(),
                    amount: share,
                },
            };
            msgs.push(m);
        }
        proof {
            assert(fee_config.collectors@.take(i + 1).drop_last() =~= fee_config.collectors@.take(
                i as int,
            ));
            assert(fee_config.collectors@.take(i + 1).last() == fee_config.collectors@[i as int]);
        }
        i += 1;
    }
    proof {
        assert(fee_config.collectors@.take(n as int) =~= fee_config.collectors@);
    }
    Ok(msgs)
}

/// Splits `amount` into the transfer amount, the fee and its distribution
/// under the current fee configuration.
pub fn calculate_fee(amount: u128, fee_config: &Option<FeeConfig>) -> (r: Result<
    FeeCalculationResult,
    ContractError,
>)
    ensures
        match r {
            Ok(res) => {
                &&& spec_calc_fee(*fee_config, amount) matches Ok(t)
                &&& res.transfer_amount == t.0
                &&& res.fee_amount == t.1
                &&& msg_views(res.fee_msgs@) =~= t.2
            },
            Err(e) => spec_calc_fee(*fee_config, amount) matches Err(e2) && e == e2,
        },
{
    let cfg = match fee_config {
        Some(c) => c,
        None => {
            return Ok(
                FeeCalculationResult {
                    transfer_amount: amount,
                    fee_amount: 0,
                    fee_msgs: Vec::new(),
                },
            );
        },
    };
    if !cfg.is_active {
        return Ok(
            FeeCalculationResult { transfer_amount: amount, fee_amount: 0, fee_msgs: Vec::new() },
        );
    }
    let fee_amount = match &cfg.fee_type {
        FeeType::Percentage(p) => {
            match checked_mul_ratio(amount, *p, FRACTIONAL) {
                Some(v) => v,
                None => {
                    return Err(ContractError::InvalidAmount {});
                },
            }
        },
        FeeType::Fixed(f) => {
            if *f > amount {
                return Err(ContractError::InsufficientFunds {});
            }
            *f
        },
    };
    if fee_amount == 0 {
        return Ok(
            FeeCalculationResult { transfer_amount: amount, fee_amount: 0, fee_msgs: Vec::new() },
        );
    }
    if fee_amount > amount {
        return Err(ContractError::InvalidAmount {});
    }
    let transfer_amount = amount - fee_amount;
    let fee_msgs = create_fee_distribution_msgs(cfg, fee_amount)?;
    Ok(FeeCalculationResult { transfer_amount, fee_amount, fee_msgs })
}

/// Whether `cfg` may be persisted: collectors must sum to one within the
/// tolerance, an active config needs at least one collector, and a flat fee
/// must be positive.  Runs before every write of the configuration.
pub fn validate_fee_config(fee_config: &FeeConfig) -> (r: Result<(), ContractError>)
    requires
        sum_pct(fee_config.collectors@) <= u128::MAX,
    ensures
        match fee_config_error(*fee_config) {
            Option::None => r is Ok,
            Option::Some(e) => r matches Err(e2) && e2 == e,
        },
{
    let n = fee_config.collectors.len();
    if n > 0 {
        let mut total: u128 = 0;
        let mut i: usize = 0;
        while i < n
            invariant
                i <= n,
                n == fee_config.collectors@.len(),
                total == sum_pct(fee_config.collectors@.take(i as int)),
                sum_pct(fee_config.collectors@) <= u128::MAX,
            decreases n - i,
        {
            proof {
                assert(fee_config.collectors@.take(i + 1).drop_last() =~= fee_config.collectors@
                    .take(i as int));
                lemma_sum_pct_prefix_le(fee_config.collectors@, i + 1);
            }
            total = total + fee_config.collectors[i].percentage;
            i += 1;
        }
        proof {
            assert(fee_config.collectors@.take(n as int) =~= fee_config.collectors@);
        }
        if total > FRACTIONAL + FRACTIONAL_EPSILON || total < FRACTIONAL - FRACTIONAL_EPSILON {
            return Err(ContractError::InvalidFeeDistribution {});
        }
    } else if fee_config.is_active {
        return Err(ContractError::InvalidFeeDistribution {});
    }
    match &fee_config.fee_type {
        FeeType::Fixed(f) => {
            if *f == 0 {
                return Err(ContractError::InvalidAmount {});
            }
        },
        FeeType::Percentage(_) => {},
    }
    Ok(())
}

/// Every prefix sum of percentages is bounded by the whole sum.
pub(crate) proof fn lemma_sum_pct_prefix_le(cols: Seq<FeeCollectorInfo>, i: int)
    requires
        0 <= i <= cols.len(),
    ensures
        sum_pct(cols.take(i)) <= sum_pct(cols),
    decreases cols.len() - i,
{
    if i < cols.len() {
        lemma_sum_pct_prefix_le(cols, i + 1);
        assert(cols.take(i + 1).drop_last() =~= cols.take(i));
    } else {
        assert(cols.take(i) =~= cols);
    }
}

// ---------------------------------------------------------------------------
// Applying the distribution to the ledger itself.
// ---------------------------------------------------------------------------

/// The ledger after crediting every collector its share of `fee`, or `None`
/// when a share or a credited balance would not fit in 128 bits.
pub open spec fn spec_apply_dist(
    b: Seq<BalanceEntry>,
    cols: Seq<FeeCollectorInfo>,
    fee: u128,
) -> Option<Seq<BalanceEntry>>
    decreases cols.len(),
{
    if cols.len() == 0 {
        Option::Some(b)
    } else {
        match spec_apply_dist(b, cols.drop_last(), fee) {
            Option::None => Option::None,
            Option::Some(bb) => {
                let c = cols.last();
                let sh = share_of(fee, c.percentage);
                if sh > u128::MAX {
                    Option::None
                } else if sh == 0 {
                    Option::Some(bb)
                } else if bal_of(bb, c.address@) + sh > u128::MAX {
                    Option::None
                } else {
                    Option::Some(
                        spec_set_bal(bb, c.address, (bal_of(bb, c.address@) + sh) as u128),
                    )
                }
            },
        }
    }
}

/// Applying a distribution moves the sum of balances up by exactly the sum of
/// the shares, and keeps addresses distinct.
pub proof fn lemma_apply_dist_sum(b: Seq<BalanceEntry>, cols: Seq<FeeCollectorInfo>, fee: u128)
    requires
        bal_distinct(b),
        spec_apply_dist(b, cols, fee) is Some,
    ensures
        bal_distinct(spec_apply_dist(b, cols, fee).unwrap()),
        sum_bal(spec_apply_dist(b, cols, fee).unwrap()) == sum_bal(b) + shares_sum(cols, fee),
    decreases cols.len(),
{
    if cols.len() > 0 {
        lemma_apply_dist_sum(b, cols.drop_last(), fee);
        let bb = spec_apply_dist(b, cols.drop_last(), fee).unwrap();
        let c = cols.last();
        let sh = share_of(fee, c.percentage);
        if sh != 0 {
            crate::state::lemma_set_bal(bb, c.address, (bal_of(bb, c.address@) + sh) as u128);
        }
    }
}

/// Credits each collector its share of `fee_amount` directly in the ledger.
/// Either the whole distribution applies, or the ledger is left untouched.
/// The transfer path itself never calls this: there collectors are paid only
/// by the emitted value movements.  This standalone helper exists for hosts
/// that settle the fee against this very ledger in the same transaction.
pub fn apply_fee_transfers(
    balances: &mut Vec<BalanceEntry>,
    fee_config: &Option<FeeConfig>,
    fee_amount: u128,
) -> (r: Result<(), ContractError>)
    requires
        bal_distinct(old(balances)@),
    ensures
        bal_distinct(final(balances)@),
        fee_amount == 0 ==> r is Ok && final(balances)@ == old(balances)@,
        match *fee_config {
            Option::None => r is Ok && final(balances)@ == old(balances)@,
            Option::Some(c) => fee_amount != 0 ==> match spec_apply_dist(
                old(balances)@,
                c.collectors@,
                fee_amount,
            ) {
                Option::Some(b2) => r is Ok && final(balances)@ == b2,
                Option::None => (r matches Err(e) && e == (ContractError::InvalidAmount {  }))
                    && final(balances)@ == old(balances)@,
            },
        },
{
    if fee_amount == 0 {
        return Ok(());
    }
    let cfg = match fee_config {
        Some(c) => c,
        None => {
            return Ok(());
        },
    };
    let mut scratch = clone_balances(balances);
    let n = cfg.collectors.len();
    let mut i: usize = 0;
    while i < n
        invariant
            i <= n,
            n == cfg.collectors@.len(),
            bal_distinct(scratch@),
            spec_apply_dist(balances@, cfg.collectors@.take(i as int), fee_amount)
                == Option::Some(scratch@),
        decreases n - i,
    {
        let c = &cfg.collectors[i];
        proof {
            assert(cfg.collectors@.take(i + 1).drop_last() =~= cfg.collectors@.take(i as int));
            assert(cfg.collectors@.take(i + 1).last() == cfg.collectors@[i as int]);
        }
        let share = match checked_mul_ratio(fee_amount, c.percentage, FRACTIONAL) {
            Some(v) => v,
            None => {
                proof {
                    lemma_apply_dist_none_extend(balances@, cfg.collectors@, fee_amount, i + 1);
                }
                return Err(ContractError::InvalidAmount {});
            },
        };
        if share > 0 {
            let cur = crate::state::get_balance(&scratch, &c.address);
            let credited = match cur.checked_add(share) {
                Some(v) => v,
                None => {
                    proof {
                        lemma_apply_dist_none_extend(balances@, cfg.collectors@, fee_amount, i + 1);
                    }
                    return Err(ContractError::InvalidAmount {});
                },
            };
            set_balance(&mut scratch, &c.address, credited);
        }
        i += 1;
    }
    proof {
        assert(cfg.collectors@.take(n as int) =~= cfg.collectors@);
    }
    *balances = scratch;
    Ok(())
}

/// Once a prefix of the distribution fails, the whole distribution fails.
proof fn lemma_apply_dist_none_extend(
    b: Seq<BalanceEntry>,
    cols: Seq<FeeCollectorInfo>,
    fee: u128,
    k: int,
)
    requires
        0 <= k <= cols.len(),
        spec_apply_dist(b, cols.take(k), fee) is None,
    ensures
        spec_apply_dist(b, cols, fee) is None,
    decreases cols.len() - k,
{
    if k < cols.len() {
        assert(cols.take(k + 1).drop_last() =~= cols.take(k));
        lemma_apply_dist_none_extend(b, cols, fee, k + 1);
    } else {
        assert(cols.take(k) =~= cols);
    }
}

/// A fresh ledger equal to `v`, entry for entry.
pub fn clone_balances(v: &Vec<BalanceEntry>) -> (r: Vec<BalanceEntry>)
    ensures
        r@ =~= v@,
{
    let mut r: Vec<BalanceEntry> = Vec::new();
    let n = v.len();
    let mut i: usize = 0;
    while i < n
        invariant
            i <= n,
            n == v@.len(),
            r@ =~= v@.take(i as int),
        decreases n - i,
    {
        let e = &v[i];
        r.push(BalanceEntry { address: e.address.clone(), amount: e.amount });
        proof {
            assert(v@.take(i + 1).drop_last() =~= v@.take(i as int));
        }
        i += 1;
    }
    proof {
        assert(v@.take(n as int) =~= v@);
    }
    r
}


// ---------------------------------------------------------------------------
// Laws of the fee distribution.
// ---------------------------------------------------------------------------

/// Sums of floored quotients stay below the floored quotient of the sum.
proof fn lemma_div_sum_le(a: int, b: int, d: int)
    requires
        a >= 0,
        b >= 0,
        d > 0,
    ensures
        a / d + b / d <= (a + b) / d,
{
    broadcast use vstd::arithmetic::div_mod::group_div_basics;

    vstd::arithmetic::div_mod::lemma_fundamental_div_mod(a, d);
    vstd::arithmetic::div_mod::lemma_fundamental_div_mod(b, d);
    assert(a % d >= 0 && b % d >= 0) by (nonlinear_arith)
        requires
            d > 0 && a >= 0 && b >= 0 && a == d * (a / d) + a % d && b == d * (b / d) + b % d
                && a % d < d && b % d < d,
    ;
    assert(d * (a / d + b / d) <= a + b) by (nonlinear_arith)
        requires
            a == d * (a / d) + a % d && b == d * (b / d) + b % d && a % d >= 0 && b % d >= 0,
    ;
    vstd::arithmetic::div_mod::lemma_div_multiples_vanish(a / d + b / d, d);
    vstd::arithmetic::div_mod::lemma_div_is_ordered(d * (a / d + b / d), a + b, d);
}

/// The collector percentages are never negative in sum.
proof fn lemma_sum_pct_nonneg(cols: Seq<FeeCollectorInfo>)
    ensures
        sum_pct(cols) >= 0,
    decreases cols.len(),
{
    if cols.len() > 0 {
        lemma_sum_pct_nonneg(cols.drop_last());
    }
}

/// The shares of a fee sum to at most the fee's proportional part, so when
/// the percentages sum to one or less, the collectors together never receive
/// more than the fee: the rounding residual is non-negative and simply goes
/// to nobody.
pub proof fn lemma_shares_sum_le_fee(cols: Seq<FeeCollectorInfo>, fee: u128)
    requires
        sum_pct(cols) <= FRACTIONAL,
    ensures
        0 <= shares_sum(cols, fee) <= fee,
{
    lemma_shares_sum_le_part(cols, fee);
    lemma_sum_pct_nonneg(cols);
    assert(fee * sum_pct(cols) <= fee * FRACTIONAL) by (nonlinear_arith)
        requires
            0 <= sum_pct(cols) <= FRACTIONAL,
    ;
    vstd::arithmetic::div_mod::lemma_div_is_ordered(
        fee * sum_pct(cols),
        fee * FRACTIONAL,
        FRACTIONAL as int,
    );
    vstd::arithmetic::div_mod::lemma_div_multiples_vanish(fee as int, FRACTIONAL as int);
    assert(fee * FRACTIONAL == (FRACTIONAL as int) * (fee as int)) by (nonlinear_arith);
}

/// The sum of the shares is bounded by the proportional part of the fee.
proof fn lemma_shares_sum_le_part(cols: Seq<FeeCollectorInfo>, fee: u128)
    ensures
        0 <= shares_sum(cols, fee) <= fee * sum_pct(cols) / (FRACTIONAL as int),
    decreases cols.len(),
{
    if cols.len() == 0 {
    } else {
        lemma_shares_sum_le_part(cols.drop_last(), fee);
        lemma_sum_pct_nonneg(cols.drop_last());
        let a = fee * sum_pct(cols.drop_last());
        let b = fee * cols.last().percentage;
        assert(a >= 0 && b >= 0) by (nonlinear_arith)
            requires
                a == fee * sum_pct(cols.drop_last()) && b == fee * cols.last().percentage
                    && sum_pct(cols.drop_last()) >= 0 && fee >= 0 && cols.last().percentage
                    >= 0,
        ;
        assert(share_of(fee, cols.last().percentage) >= 0) by {
            vstd::arithmetic::div_mod::lemma_div_pos_is_pos(b, FRACTIONAL as int);
        }
        lemma_div_sum_le(a, b, FRACTIONAL as int);
        assert(a + b == fee * sum_pct(cols)) by (nonlinear_arith)
            requires
                a == fee * sum_pct(cols.drop_last()) && b == fee * cols.last().percentage
                    && sum_pct(cols) == sum_pct(cols.drop_last()) + cols.last().percentage,
        ;
    }
}

/// An active fee configuration held by a well-formed state always carries at
/// least one collector, and its percentages sum to one within the tolerance:
/// the validator enforces the band at write time, so every stored
/// configuration obeys it.
pub proof fn law_active_fee_distribution(st: crate::state::TokenState)
    requires
        st.wf(),
        st.fee_config matches Option::Some(c) && c.is_active,
    ensures
        st.fee_config.unwrap().collectors@.len() > 0,
        FRACTIONAL - FRACTIONAL_EPSILON <= sum_pct(st.fee_config.unwrap().collectors@)
            <= FRACTIONAL + FRACTIONAL_EPSILON,
{
}

} // verus!
