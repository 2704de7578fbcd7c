use vstd::prelude::*;

verus! {

/// Terminal outcome of a failed call.  No partial mutation is ever observable:
/// every handler validates before it writes.
#[derive(Debug)]
pub enum ContractError {
    /// A failure reported by the host environment, carried as text.
    Generic { msg: String },
    /// The caller lacks the role the operation requires.
    Unauthorized {},
    /// A delegate or granter may not be the account itself.
    CannotSetOwnAccount {},
    /// A zero amount where a positive one is required.
    InvalidZeroAmount {},
    /// An amount that underflows, overflows or breaks a configured bound.
    InvalidAmount {},
    /// The allowance is past its expiration.
    Expired {},
    /// No allowance exists for this (owner, spender) pair.
    NoAllowance {},
    /// Minting would push the total supply past the configured cap.
    CannotExceedCap {},
    /// Embedded logo data exceeds the size limit.
    LogoTooBig {},
    /// An SVG logo does not begin with a well-formed XML preamble.
    InvalidXmlPreamble {},
    /// A PNG logo does not begin with the PNG magic header.
    InvalidPngHeader {},
    /// An expiration that is already in the past.
    InvalidExpiration {},
    /// Two initial balances name the same address.
    DuplicateInitialBalanceAddresses {},
    /// A structurally inconsistent configuration.
    InvalidConfig { msg: String },
    /// The configuration kill-switch is off.
    ConfigUpdateNotAllowed {},
    /// The request names a feature this ledger does not offer.
    NotImplemented {},
    /// A collector percentage that does not parse or is out of range.
    InvalidFeePercentage { msg: String },
    /// A balance or fixed-fee shortfall.
    InsufficientFunds {},
    /// A payload that is not valid JSON.
    InvalidJson {},
    /// Collector percentages do not sum to one.
    InvalidFeeDistribution {},
}

} // verus!
