//! What each entrypoint takes and what the views return.

use vstd::prelude::*;
use crate::address::{AccountAddress, ContractAddress};

verus! {

/// Parameter of `update_contract_state`.
#[derive(Debug)]
pub struct UpdateContractStateParam {
    pub staking_contract_addr: ContractAddress,
    pub user_contract_addr: ContractAddress,
}

/// Parameter of `init`.
pub type InitParam = UpdateContractStateParam;

/// Parameter of `transfer_admin`.
#[derive(Debug)]
pub struct TransferAdminParam {
    pub admin: AccountAddress,
}

/// Parameter of `curate_project`.
#[derive(Debug)]
pub struct CurateProjectParam {
    pub project_id: String,
    pub project_uri: String,
    pub owners: Vec<AccountAddress>,
}

/// Parameter of `apply_curate_project`.
pub type ApplyCurateProjectParam = CurateProjectParam;

/// Parameter of `curate_project_admin`.
#[derive(Debug)]
pub struct CurateProjectAdminParam {
    pub curator: AccountAddress,
    pub project_id: String,
    pub project_uri: String,
    pub owners: Vec<AccountAddress>,
}

/// Parameter of `validate_project`.
#[derive(Debug)]
pub struct ValidateProjectParam {
    pub project_id: String,
    pub owners: Vec<AccountAddress>,
    pub token_addr: Option<ContractAddress>,
}

/// Parameter of `validate_project_admin`.
#[derive(Debug)]
pub struct ValidateProjectAdminParam {
    pub validator: AccountAddress,
    pub project_id: String,
    pub owners: Vec<AccountAddress>,
    pub token_addr: Option<ContractAddress>,
}

/// Parameter of `add_pub_key`.
#[derive(Debug)]
pub struct AddPubKeyParam {
    pub project_id: String,
    pub pub_key: String,
}

/// Parameter of `update_owners`.
#[derive(Debug)]
pub struct UpdateOwnersParam {
    pub project_id: String,
    pub owners: Vec<AccountAddress>,
}

/// Parameter of `add_seed_sale`.
#[derive(Debug)]
pub struct AddSeedSaleParam {
    pub project_id: String,
    pub seed_nft_addr: ContractAddress,
}

/// Parameter of `add_token_addr`.
#[derive(Debug)]
pub struct AddTokenAddrParam {
    pub project_id: String,
    pub token_addr: ContractAddress,
}

/// Parameter of `add_sale`.
#[derive(Debug)]
pub struct AddSaleParam {
    pub project_id: String,
    pub sale_addr: ContractAddress,
}

/// Parameter of `start_sale`.
#[derive(Debug)]
pub struct StartSaleParam {
    pub project_id: String,
}

/// Parameter of `close_sale`.
#[derive(Debug)]
pub struct CloseSaleParam {
    pub project_id: String,
}

/// Parameter of `view_project`.
#[derive(Debug)]
pub struct ViewProjectParam {
    pub project_id: String,
}

/// What `view_admin` returns.
#[derive(Clone, Copy, Debug, PartialEq, Eq)]
pub struct ViewAdminRes {
    pub admin: AccountAddress,
    pub staking_contract_addr: ContractAddress,
    pub user_contract_addr: ContractAddress,
}

} // verus!
