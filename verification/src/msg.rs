//! Request and response types, and the small enums they carry.

use vstd::prelude::*;

use crate::error::ContractError;

verus! {

/// Outcome marker carried in every response.
#[derive(Clone, Copy, Debug, PartialEq, Eq, Structural)]
pub enum ResponseStatus {
    Success,
    Failure,
}

/// Operational status of the program: state-mutating user actions are
/// rejected while `Stopped`.
#[derive(Clone, Copy, Debug, PartialEq, Eq, Structural)]
pub enum ContractStatus {
    Active,
    Stopped,
}

impl ContractStatus {
    /// The byte this status is stored as.
    pub open spec fn as_byte(self) -> u8 {
        match self {
            ContractStatus::Active => 0,
            ContractStatus::Stopped => 1,
        }
    }

    /// Encode the status for storage.
    pub fn to_byte(&self) -> (r: u8)
        ensures
            r == self.as_byte(),
    {
        match self {
            ContractStatus::Active => 0,
            ContractStatus::Stopped => 1,
        }
    }

    /// Decode a stored status byte; an unknown byte is a configuration
    /// error, not a panic.
    pub fn parse(status: u8) -> (r: Result<ContractStatus, ContractError>)
        ensures
            r == (if status == 0 {
                Ok::<ContractStatus, ContractError>(ContractStatus::Active)
            } else if status == 1 {
                Ok::<ContractStatus, ContractError>(ContractStatus::Stopped)
            } else {
                Err::<ContractStatus, ContractError>(ContractError::InvalidStatus)
            }),
    {
        if status == 0 {
            Ok(ContractStatus::Active)
        } else if status == 1 {
            Ok(ContractStatus::Stopped)
        } else {
            Err(ContractError::InvalidStatus)
        }
    }
}

/// A validator identity and its integer share of every delegation split;
/// the shares of a configured set sum to 100.
#[derive(Debug)]
pub struct ValidatorWithWeight {
    pub address: String,
    pub weight: u128,
}

impl Clone for ValidatorWithWeight {
    fn clone(&self) -> (r: ValidatorWithWeight)
        ensures
            r == *self,
    {
        ValidatorWithWeight { address: self.address.clone(), weight: self.weight }
    }
}

/// Identities of the two external contracts used for price discovery.
#[derive(Debug)]
pub struct OraiswapContract {
    pub orai_swap_router_contract: String,
    pub usdt_contract: String,
}

impl Clone for OraiswapContract {
    fn clone(&self) -> (r: OraiswapContract)
        ensures
            r == *self,
    {
        OraiswapContract {
            orai_swap_router_contract: self.orai_swap_router_contract.clone(),
            usdt_contract: self.usdt_contract.clone(),
        }
    }
}

/// The initialization request.
pub struct InstantiateMsg {
    pub admin: Option<String>,
    pub validators: Vec<ValidatorWithWeight>,
    pub deposits: Vec<u128>,
    pub oraiswap_contract: OraiswapContract,
}

/// The state-mutating requests.
pub enum ExecuteMsg {
    ChangeAdmin { admin: String },
    ChangeStatus { status: ContractStatus },
    Deposit {},
    Withdraw {},
    Claim { recipient: Option<String>, start: Option<u32>, limit: Option<u32> },
    WithdrawRewards { recipient: Option<String> },
    Redelegate { validator_address: String, recipient: Option<String> },
}

/// The read-only requests.
pub enum QueryMsg {
    Config {},
    UserInfo { address: String },
    Withdrawals { address: String, start: Option<u32>, limit: Option<u32> },
}

/// Data returned by a successful state-mutating request.
pub enum ExecuteResponse {
    ChangeAdmin { status: ResponseStatus },
    ChangeStatus { status: ResponseStatus },
    Deposit { usd_deposit: u128, orai_deposit: u128, tier: u8, status: ResponseStatus },
    Withdraw { status: ResponseStatus },
    Claim { amount: u128, status: ResponseStatus },
    WithdrawRewards { amount: u128, status: ResponseStatus },
    Redelegate { amount: u128, status: ResponseStatus },
}

/// One pending-withdrawal entry as a query reports it.
#[derive(Clone, Copy, Debug, PartialEq, Eq, Structural)]
pub struct SerializedWithdrawals {
    pub amount: u128,
    pub claim_time: u64,
    pub timestamp: u64,
}

/// Data returned by a query.
pub enum QueryResponse {
    Config {
        admin: String,
        validators: Vec<ValidatorWithWeight>,
        status: ContractStatus,
        usd_deposits: Vec<u128>,
        min_tier: u8,
        oraiswap_contract: OraiswapContract,
    },
    UserInfo { tier: u8, timestamp: u64, usd_deposit: u128, orai_deposit: u128 },
    Withdrawals { amount: u32, withdrawals: Vec<SerializedWithdrawals> },
}

} // verus!
