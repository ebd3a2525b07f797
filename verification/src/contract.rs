//! The entrypoints of the contract.
//!
//! Each entrypoint is one call: it takes the state, who calls, and the
//! call's parameter. It checks the caller and the guards of the lifecycle
//! before it writes, so a call that is rejected leaves the state as it was.
//!
//! Curation and validation rest on the user registry. An entrypoint that
//! needs the registry's word takes the reply to `view_user` as an argument,
//! and one that wants its work recorded there returns the call to perform.
//! The driver asks for the reply first (`lookup_sender`, `lookup_by_admin`),
//! and settles the call afterwards (`TransactionContext`).

use vstd::prelude::*;
use crate::address::{AccountAddress, Address};
use crate::error::{all_or_nothing, yields, Error};
use crate::params::{
    AddPubKeyParam,
    AddSaleParam,
    AddSeedSaleParam,
    AddTokenAddrParam,
    ApplyCurateProjectParam,
    CloseSaleParam,
    CurateProjectAdminParam,
    CurateProjectParam,
    InitParam,
    StartSaleParam,
    TransferAdminParam,
    UpdateContractStateParam,
    UpdateOwnersParam,
    ValidateProjectAdminParam,
    ValidateProjectParam,
    ViewAdminRes,
    ViewProjectParam,
};
use crate::project::{ProjectState, Update};
use crate::registry::{sender_account, RegistryCall, RegistryCallView, Role, ViewReply};
use crate::state::{State, StateView};
use crate::store::{listing, ProjectStore};

verus! {

/// All or nothing, for a call that asks the registry to record it: where
/// every guard lets it through, the state is the one that `ruling` holds
/// and the call `ask` is returned; where a guard refuses it, the error that
/// `ruling` holds is returned and the state is as it was.
pub open spec fn all_or_nothing_asking(
    before: StateView,
    ruling: Result<StateView, Error>,
    ask: RegistryCallView,
    after: StateView,
    res: Result<RegistryCall, Error>,
) -> bool {
    match ruling {
        Ok(next) => {
            &&& after == next
            &&& res matches Ok(call) && call@ == ask
        },
        Err(e) => {
            &&& after == before
            &&& res matches Err(err) && err == e
        },
    }
}

/// Sets the contract up: `origin` becomes the admin, and no project exists.
pub fn contract_init(origin: AccountAddress, params: InitParam) -> (state: State)
    ensures
        state@ == StateView::init(origin, params.staking_contract_addr, params.user_contract_addr),
{
    State {
        admin: origin,
        staking_contract_addr: params.staking_contract_addr,
        user_contract_addr: params.user_contract_addr,
        project: ProjectStore::new(),
    }
}

/// Names the staking contract and the user registry anew. Admin only.
pub fn contract_update_contract_state(
    state: &mut State,
    invoker: AccountAddress,
    params: UpdateContractStateParam,
) -> (res: Result<(), Error>)
    ensures
        all_or_nothing(
            old(state)@,
            old(state)@.update_contract_state(
                invoker,
                params.staking_contract_addr,
                params.user_contract_addr,
            ),
            final(state)@,
            res,
        ),
{
    if !state.is_admin(&invoker) {
        return Err(Error::InvalidCaller);
    }
    state.staking_contract_addr = params.staking_contract_addr;
    state.user_contract_addr = params.user_contract_addr;
    Ok(())
}

/// Hands the administration over to another account. Admin only.
pub fn contract_transfer_admin(
    state: &mut State,
    invoker: AccountAddress,
    params: TransferAdminParam,
) -> (res: Result<(), Error>)
    ensures
        all_or_nothing(
            old(state)@,
            old(state)@.transfer_admin(invoker, params.admin),
            final(state)@,
            res,
        ),
{
    if !state.is_admin(&invoker) {
        return Err(Error::InvalidCaller);
    }
    state.admin = params.admin;
    Ok(())
}

/// Proposes a project on the admin's own authority. Fails with
/// `ProjectHasBeenInitializedAlready` if the identifier is taken.
pub fn contract_apply_curate_project(
    state: &mut State,
    invoker: AccountAddress,
    params: ApplyCurateProjectParam,
) -> (res: Result<(), Error>)
    ensures
        all_or_nothing(
            old(state)@,
            old(state)@.apply_curate_project(
                invoker,
                params.project_id@,
                params.project_uri@,
                params.owners@,
            ),
            final(state)@,
            res,
        ),
{
    if !state.is_admin(&invoker) {
        return Err(Error::InvalidCaller);
    }
    if state.project.contains(&params.project_id) {
        return Err(Error::ProjectHasBeenInitializedAlready);
    }
    state.project.insert(
        params.project_id,
        ProjectState::candidate(params.project_uri, params.owners),
    );
    Ok(())
}

/// The registry lookup that precedes `contract_curate_project` and
/// `contract_validate_project`: the sender must be an account, and the
/// registry is asked about that account.
pub fn lookup_sender(state: &State, sender: Address) -> (res: Result<RegistryCall, Error>)
    ensures
        yields(res, state@.lookup_sender(sender)),
{
    match sender_account(sender) {
        Ok(account) => Ok(
            RegistryCall::ViewUser { registry: state.user_contract_addr, addr: account },
        ),
        Err(e) => Err(e),
    }
}

/// The registry lookup that precedes `contract_curate_project_admin` and
/// `contract_validate_project_admin`: the invoker must be the admin, and
/// the registry is asked about `subject`.
pub fn lookup_by_admin(state: &State, invoker: AccountAddress, subject: AccountAddress) -> (res:
    Result<RegistryCall, Error>)
    ensures
        yields(res, state@.lookup_by_admin(invoker, subject)),
{
    if !state.is_admin(&invoker) {
        return Err(Error::InvalidCaller);
    }
    Ok(RegistryCall::ViewUser { registry: state.user_contract_addr, addr: subject })
}

/// Proposes a project on behalf of the sender, whom the registry must
/// report as a curator in `reply`. An existing project of that identifier
/// is left as it is. On success the registry is to record the curation:
/// the call to perform is returned.
pub fn contract_curate_project(
    state: &mut State,
    sender: Address,
    params: CurateProjectParam,
    reply: &ViewReply,
) -> (res: Result<RegistryCall, Error>)
    ensures
        all_or_nothing_asking(
            old(state)@,
            old(state)@.curate_project(
                sender,
                params.project_id@,
                params.project_uri@,
                params.owners@,
                *reply,
            ),
            (RegistryCallView::Curate {
                registry: old(state)@.user_contract_addr,
                addr: sender->Account_0,
                project_id: params.project_id@,
            }),
            final(state)@,
            res,
        ),
{
    let account = match sender_account(sender) {
        Ok(account) => account,
        Err(e) => {
            return Err(e);
        },
    };
    match reply.grants(Role::Curator) {
        Ok(_) => {},
        Err(e) => {
            return Err(e);
        },
    }
    let project_id = params.project_id.clone();
    state.project.insert_if_absent(
        params.project_id,
        ProjectState::candidate(params.project_uri, params.owners),
    );
    Ok(RegistryCall::Curate { registry: state.user_contract_addr, addr: account, project_id })
}

/// Proposes a project on behalf of the curator that the admin names, whom
/// the registry must report as a curator in `reply`. An existing project
/// of that identifier is left as it is.
pub fn contract_curate_project_admin(
    state: &mut State,
    invoker: AccountAddress,
    params: CurateProjectAdminParam,
    reply: &ViewReply,
) -> (res: Result<(), Error>)
    ensures
        all_or_nothing(
            old(state)@,
            old(state)@.curate_project_admin(
                invoker,
                params.project_id@,
                params.project_uri@,
                params.owners@,
                *reply,
            ),
            final(state)@,
            res,
        ),
{
    if !state.is_admin(&invoker) {
        return Err(Error::InvalidCaller);
    }
    match reply.grants(Role::Curator) {
        Ok(_) => {},
        Err(e) => {
            return Err(e);
        },
    }
    state.project.insert_if_absent(
        params.project_id,
        ProjectState::candidate(params.project_uri, params.owners),
    );
    Ok(())
}

/// Applies a guarded update to a project of the state.
fn update_project(state: &mut State, id: &String, update: Update) -> (res: Result<(), Error>)
    ensures
        all_or_nothing(
            old(state)@,
            old(state)@.update_project(id@, update@),
            final(state)@,
            res,
        ),
{
    state.project.update_in_place(id, update)
}

/// Applies a guarded update that only the admin may ask for.
fn admin_update(state: &mut State, invoker: AccountAddress, id: &String, update: Update) -> (res:
    Result<(), Error>)
    ensures
        all_or_nothing(
            old(state)@,
            old(state)@.admin_update(invoker, id@, update@),
            final(state)@,
            res,
        ),
{
    if !state.is_admin(&invoker) {
        return Err(Error::InvalidCaller);
    }
    update_project(state, id, update)
}

/// Whitelists a candidate on behalf of the sender, whom the registry must
/// report as a validator in `reply`. On success the registry is to record
/// the validation: the call to perform is returned.
pub fn contract_validate_project(
    state: &mut State,
    sender: Address,
    params: ValidateProjectParam,
    reply: &ViewReply,
) -> (res: Result<RegistryCall, Error>)
    ensures
        all_or_nothing_asking(
            old(state)@,
            old(state)@.validate_project(sender, params.project_id@, *reply),
            (RegistryCallView::Validate {
                registry: old(state)@.user_contract_addr,
                addr: sender->Account_0,
                project_id: params.project_id@,
            }),
            final(state)@,
            res,
        ),
{
    let account = match sender_account(sender) {
        Ok(account) => account,
        Err(e) => {
            return Err(e);
        },
    };
    match reply.grants(Role::Validator) {
        Ok(_) => {},
        Err(e) => {
            return Err(e);
        },
    }
    match update_project(state, &params.project_id, Update::Validate) {
        Ok(_) => {},
        Err(e) => {
            return Err(e);
        },
    }
    Ok(
        RegistryCall::Validate {
            registry: state.user_contract_addr,
            addr: account,
            project_id: params.project_id,
        },
    )
}

/// Whitelists a candidate on behalf of the validator that the admin names,
/// whom the registry must report as a validator in `reply`.
pub fn contract_validate_project_admin(
    state: &mut State,
    invoker: AccountAddress,
    params: ValidateProjectAdminParam,
    reply: &ViewReply,
) -> (res: Result<(), Error>)
    ensures
        all_or_nothing(
            old(state)@,
            old(state)@.validate_project_admin(invoker, params.project_id@, *reply),
            final(state)@,
            res,
        ),
{
    if !state.is_admin(&invoker) {
        return Err(Error::InvalidCaller);
    }
    match reply.grants(Role::Validator) {
        Ok(_) => {},
        Err(e) => {
            return Err(e);
        },
    }
    update_project(state, &params.project_id, Update::Validate)
}

/// Sets the token contract of a project. The invoker must be one of its
/// owners, and the project a candidate without a seed sale or a
/// whitelisted project with one.
pub fn contract_add_token_addr(
    state: &mut State,
    invoker: AccountAddress,
    params: AddTokenAddrParam,
) -> (res: Result<(), Error>)
    ensures
        all_or_nothing(
            old(state)@,
            old(state)@.add_token_addr(invoker, params.project_id@, params.token_addr),
            final(state)@,
            res,
        ),
        res is Ok <==> old(state)@.may_set_token_addr(invoker, params.project_id@),
{
    update_project(
        state,
        &params.project_id,
        Update::AddTokenAddr { caller: invoker, token_addr: params.token_addr },
    )
}

/// Sets the public key of a project that has left `Candidate`. Admin only.
pub fn contract_add_pub_key(state: &mut State, invoker: AccountAddress, params: AddPubKeyParam) -> (res:
    Result<(), Error>)
    ensures
        all_or_nothing(
            old(state)@,
            old(state)@.add_pub_key(invoker, params.project_id@, params.pub_key@),
            final(state)@,
            res,
        ),
{
    admin_update(
        state,
        invoker,
        &params.project_id,
        Update::AddPubKey { pub_key: params.pub_key },
    )
}

/// Replaces the owners of a project that has left `Candidate`. Admin only.
pub fn contract_update_owners(
    state: &mut State,
    invoker: AccountAddress,
    params: UpdateOwnersParam,
) -> (res: Result<(), Error>)
    ensures
        all_or_nothing(
            old(state)@,
            old(state)@.update_owners(invoker, params.project_id@, params.owners@),
            final(state)@,
            res,
        ),
{
    admin_update(
        state,
        invoker,
        &params.project_id,
        Update::UpdateOwners { owners: params.owners },
    )
}

/// Sets the seed-sale NFT contract of a whitelisted project. Admin only.
pub fn contract_add_seed_sale(
    state: &mut State,
    invoker: AccountAddress,
    params: AddSeedSaleParam,
) -> (res: Result<(), Error>)
    ensures
        all_or_nothing(
            old(state)@,
            old(state)@.add_seed_sale(invoker, params.project_id@, params.seed_nft_addr),
            final(state)@,
            res,
        ),
{
    admin_update(
        state,
        invoker,
        &params.project_id,
        Update::AddSeedSale { seed_nft_addr: params.seed_nft_addr },
    )
}

/// Sets the sale contract of a whitelisted project. Fails with
/// `ShouldNotBeTON` if the project has a seed-sale NFT contract. Admin only.
pub fn contract_add_sale(state: &mut State, invoker: AccountAddress, params: AddSaleParam) -> (res:
    Result<(), Error>)
    ensures
        all_or_nothing(
            old(state)@,
            old(state)@.add_sale(invoker, params.project_id@, params.sale_addr),
            final(state)@,
            res,
        ),
{
    admin_update(
        state,
        invoker,
        &params.project_id,
        Update::AddSale { sale_addr: params.sale_addr },
    )
}

/// Starts the sale of a whitelisted project. Admin only.
pub fn contract_start_sale(state: &mut State, invoker: AccountAddress, params: StartSaleParam) -> (res:
    Result<(), Error>)
    ensures
        all_or_nothing(
            old(state)@,
            old(state)@.start_sale(invoker, params.project_id@),
            final(state)@,
            res,
        ),
{
    admin_update(state, invoker, &params.project_id, Update::StartSale)
}

/// Closes the running sale of a project. Admin only.
pub fn contract_close_sale(state: &mut State, invoker: AccountAddress, params: CloseSaleParam) -> (res:
    Result<(), Error>)
    ensures
        all_or_nothing(
            old(state)@,
            old(state)@.close_sale(invoker, params.project_id@),
            final(state)@,
            res,
        ),
{
    admin_update(state, invoker, &params.project_id, Update::CloseSale)
}

/// Shows the admin and the contracts that the state names, to the admin
/// only.
pub fn contract_view_admin(state: &State, sender: Address) -> (res: Result<ViewAdminRes, Error>)
    ensures
        res == state@.view_admin(sender),
{
    if !sender.matches_account(&state.admin) {
        return Err(Error::InvalidCaller);
    }
    Ok(
        ViewAdminRes {
            admin: state.admin,
            staking_contract_addr: state.staking_contract_addr,
            user_contract_addr: state.user_contract_addr,
        },
    )
}

/// Shows the record of a project, to anyone.
pub fn contract_view_project(state: &State, params: &ViewProjectParam) -> (res: Result<
    ProjectState,
    Error,
>)
    ensures
        yields(res, state@.view_project(params.project_id@)),
{
    match state.project.get(&params.project_id) {
        Some(record) => Ok(record.clone()),
        None => Err(Error::ProjectNotFound),
    }
}

/// Shows every project with its identifier, to anyone.
pub fn contract_view_projects(state: &State) -> (res: Result<Vec<(String, ProjectState)>, Error>)
    ensures
        res matches Ok(all) && listing(all@) == state@.project,
{
    Ok(state.project.iterate())
}

/// Shows the identifier of every project, to anyone.
pub fn contract_view_project_ids(state: &State) -> (res: Result<Vec<String>, Error>)
    ensures
        res matches Ok(ids) && ids.deep_view() == state@.project.ids(),
{
    Ok(state.project.ids())
}

} // verus!
