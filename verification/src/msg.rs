use vstd::prelude::*;
use vstd::utf8::encode_utf8;

use crate::error::ContractError;
use crate::state::{Expiration, FeeTokenType, FeeType, Logo, LogoInfo};

verus! {

/// Marketing metadata supplied at instantiation.
#[derive(Debug)]
pub struct InstantiateMarketingInfo {
    pub project: Option<String>,
    pub description: Option<String>,
    pub marketing: Option<String>,
    pub logo: Option<Logo>,
    pub logo_url_state: Option<String>,
}

/// A free-form memo attached by game clients; carried, never interpreted.
#[derive(Debug)]
pub struct MemoInfo {
    action: String,
    player: String,
    cost: String,
}

/// One initial account of the ledger.
#[derive(Debug)]
pub struct InitialBalance {
    pub address: String,
    pub amount: u128,
}

/// The configured minter, in message form.
#[derive(Debug)]
pub struct MinterResponse {
    pub minter: String,
    pub cap: Option<u128>,
}

/// The instantiation request.
#[derive(Debug)]
pub struct InstantiateMsg {
    pub name: String,
    pub symbol: String,
    pub decimals: u8,
    pub initial_balances: Vec<InitialBalance>,
    pub mint: Option<MinterResponse>,
    pub marketing: Option<InstantiateMarketingInfo>,
    pub created_on_platform: Option<String>,
}

/// A token name is 3 to 50 bytes of UTF-8.
pub open spec fn valid_name(s: Seq<char>) -> bool {
    3 <= encode_utf8(s).len() <= 50
}

/// A ticker symbol is 3 to 12 bytes, each an ASCII letter or `-`.
pub open spec fn valid_symbol(s: Seq<char>) -> bool {
    let bytes = encode_utf8(s);
    &&& 3 <= bytes.len() <= 12
    &&& forall|i: int|
        0 <= i < bytes.len() ==> (#[trigger] bytes[i] == 45 || (65 <= bytes[i] <= 90) || (97
            <= bytes[i] <= 122))
}

impl InstantiateMsg {
    /// The supply cap, if a minter with a cap is requested.
    pub fn get_cap(&self) -> (r: Option<u128>)
        ensures
            r == self.spec_cap(),
    {
        match &self.mint {
            Some(m) => m.cap,
            None => None,
        }
    }

    pub open spec fn spec_cap(&self) -> Option<u128> {
        match self.mint {
            Some(m) => m.cap,
            None => None,
        }
    }

    fn has_valid_name(&self) -> (r: bool)
        ensures
            r == valid_name(self.name@),
    {
        let bytes = self.name.as_str().as_bytes();
        let n = bytes.len();
        3 <= n && n <= 50
    }

    fn has_valid_symbol(&self) -> (r: bool)
        ensures
            r == valid_symbol(self.symbol@),
    {
        let bytes = self.symbol.as_str().as_bytes();
        let n = bytes.len();
        if n < 3 || n > 12 {
            return false;
        }
        let mut i: usize = 0;
        while i < n
            invariant
                i <= n,
                n == bytes@.len(),
                forall|j: int|
                    0 <= j < i ==> (#[trigger] bytes@[j] == 45 || (65 <= bytes@[j] <= 90) || (97
                        <= bytes@[j] <= 122)),
            decreases n - i,
        {
            let b = bytes[i];
            if b != 45 && (b < 65 || b > 90) && (b < 97 || b > 122) {
                return false;
            }
            i += 1;
        }
        true
    }

    /// Rejects a name outside 3–50 bytes, a symbol outside `[A-Za-z-]{3,12}`,
    /// or more than eighteen decimals.
    pub fn validate(&self) -> (r: Result<(), ContractError>)
        ensures
            r is Ok <==> (valid_name(self.name@) && valid_symbol(self.symbol@) && self.decimals
                <= 18),
            !valid_name(self.name@) ==> (r matches Err(e) && e matches ContractError::Generic {
                msg,
            } && msg@ == "Name is not in the expected format (3-50 UTF-8 bytes)"@),
            valid_name(self.name@) && !valid_symbol(self.symbol@) ==> (r matches Err(e)
                && e matches ContractError::Generic { msg } && msg@
                == "Ticker symbol is not in expected format [a-zA-Z\\-]{3,12}"@),
            valid_name(self.name@) && valid_symbol(self.symbol@) && self.decimals > 18 ==> (
            r matches Err(e) && e matches ContractError::Generic { msg } && msg@
                == "Decimals must not exceed 18"@),
    {
        if !self.has_valid_name() {
            return Err(
                ContractError::Generic {
                    msg: String::from_str("Name is not in the expected format (3-50 UTF-8 bytes)"),
                },
            );
        }
        if !self.has_valid_symbol() {
            return Err(
                ContractError::Generic {
                    msg: String::from_str(
                        "Ticker symbol is not in expected format [a-zA-Z\\-]{3,12}",
                    ),
                },
            );
        }
        if self.decimals > 18 {
            return Err(
                ContractError::Generic { msg: String::from_str("Decimals must not exceed 18") },
            );
        }
        Ok(())
    }
}

/// One collector of the fee-configuration request: the percentage arrives as
/// a decimal string such as `"0.6"`.
#[derive(Debug)]
pub struct FeeCollectorInput {
    pub address: String,
    pub percentage: String,
}

/// One collector as queries report it.
#[derive(Debug)]
pub struct FeeCollectorResponse {
    pub address: String,
    pub percentage: String,
}

/// The fee configuration as queries report it.
#[derive(Debug)]
pub struct FeeConfigResponse {
    pub fee_type: FeeType,
    pub token_type: FeeTokenType,
    pub collectors: Vec<FeeCollectorResponse>,
    pub is_active: bool,
}

/// Every mutation the ledger accepts.
#[derive(Debug)]
pub enum ExecuteMsg {
    Transfer { recipient: String, amount: u128 },
    Burn { amount: u128 },
    Send { contract: String, amount: u128, msg: Vec<u8> },
    IncreaseAllowance { spender: String, amount: u128, expires: Option<Expiration> },
    DecreaseAllowance { spender: String, amount: u128, expires: Option<Expiration> },
    TransferFrom { owner: String, recipient: String, amount: u128 },
    SendFrom { owner: String, contract: String, amount: u128, msg: Vec<u8> },
    BurnFrom { owner: String, amount: u128 },
    Mint { recipient: String, amount: u128 },
    UpdateMinter { new_minter: Option<String> },
    UpdateMarketing {
        project: Option<String>,
        description: Option<String>,
        marketing: Option<String>,
    },
    UploadLogo(Logo),
    SetFeeGranter { address: Option<String> },
    SetUpgradeAdmin { address: String },
    UpdateConfig { new_config: Box<Option<ConfigInfo>> },
    SetFeeConfig {
        fee_type: FeeType,
        token_type: FeeTokenType,
        collectors: Vec<FeeCollectorInput>,
        is_active: bool,
    },
}

/// Every question the ledger answers.
#[derive(Debug)]
pub enum QueryMsg {
    TokenInfo {},
    Balance { address: String },
    Allowance { owner: String, spender: String },
    AllAllowances { owner: String, start_after: Option<String>, limit: Option<u32> },
    AllAccounts { start_after: Option<String>, limit: Option<u32> },
    AllSpenderAllowances { spender: String, start_after: Option<String>, limit: Option<u32> },
    MarketingInfo {},
    DownloadLogo {},
    FeeGranter {},
    Minter {},
    TotalSupply {},
    FeeConfig {},
}

/// The mutable configuration record: the upgrade kill-switch, the optional
/// upgrade admin, and mirrored minter/fee/cap fields.
#[derive(Debug)]
pub struct ConfigInfo {
    pub is_upgrade_allowed: bool,
    pub upgrade_admin: Option<String>,
    pub marketing: Option<InstantiateMarketingInfo>,
    pub minter: Option<MinterResponse>,
    pub transfer_fee: Option<u128>,
    pub fee_collector: Option<String>,
    pub max_supply: Option<u128>,
}

#[derive(Debug)]
pub struct TotalSupplyResponse {
    pub total_supply: u128,
}

#[derive(Debug)]
pub struct FeeGranterResponse {
    pub fee_granter: Option<String>,
}

/// The (empty) migration request.
#[derive(Debug)]
pub struct MigrateMsg {}

// ---------------------------------------------------------------------------
// Query answers.
// ---------------------------------------------------------------------------

#[derive(Debug)]
pub struct BalanceResponse {
    pub balance: u128,
}

#[derive(Debug)]
pub struct TokenInfoResponse {
    pub name: String,
    pub symbol: String,
    pub decimals: u8,
    pub total_supply: u128,
}

#[derive(Debug)]
pub struct AllowanceResponse {
    pub allowance: u128,
    pub expires: Expiration,
}

/// One allowance of an owner, for owner-side enumeration.
#[derive(Debug)]
pub struct OwnerAllowanceItem {
    pub spender: String,
    pub allowance: u128,
    pub expires: Expiration,
}

/// One allowance granted to a spender, for spender-side enumeration.
#[derive(Debug)]
pub struct SpenderAllowanceItem {
    pub owner: String,
    pub allowance: u128,
    pub expires: Expiration,
}

#[derive(Debug)]
pub struct AllAllowancesResponse {
    pub allowances: Vec<OwnerAllowanceItem>,
}

#[derive(Debug)]
pub struct AllSpenderAllowancesResponse {
    pub allowances: Vec<SpenderAllowanceItem>,
}

#[derive(Debug)]
pub struct AllAccountsResponse {
    pub accounts: Vec<String>,
}

#[derive(Debug)]
pub struct DownloadLogoResponse {
    pub mime_type: String,
    pub data: Vec<u8>,
}

#[derive(Debug)]
pub struct MarketingInfoResponse {
    pub project: Option<String>,
    pub description: Option<String>,
    pub marketing: Option<String>,
    pub logo: Option<LogoInfo>,
}

/// The typed answer to one query; the host serializes it.
#[derive(Debug)]
pub enum QueryAnswer {
    Balance(BalanceResponse),
    TokenInfo(TokenInfoResponse),
    Minter(Option<MinterResponse>),
    Allowance(AllowanceResponse),
    AllAllowances(AllAllowancesResponse),
    AllSpenderAllowances(AllSpenderAllowancesResponse),
    AllAccounts(AllAccountsResponse),
    MarketingInfo(MarketingInfoResponse),
    DownloadLogo(DownloadLogoResponse),
    TotalSupply(TotalSupplyResponse),
    FeeGranter(FeeGranterResponse),
    FeeConfig(FeeConfigResponse),
}

} // verus!
