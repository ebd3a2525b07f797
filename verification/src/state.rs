//! The state of the contract, and what every operation makes of it.

use vstd::prelude::*;
use vstd::std_specs::cmp::PartialEqSpecImpl;
use crate::address::{AccountAddress, Address, ContractAddress};
use crate::error::Error;
use crate::params::ViewAdminRes;
use crate::project::{ProjectStateView, UpdateView};
use crate::registry::{spec_sender_account, RegistryCallView, Role, ViewReply};
use crate::store::{ProjectStore, ProjectsView};

verus! {

/// The state of the contract.
#[derive(Debug)]
pub struct State {
    /// The account with full administrative authority.
    pub admin: AccountAddress,
    /// The staking contract.
    pub staking_contract_addr: ContractAddress,
    /// The user registry, which knows the curators and validators.
    pub user_contract_addr: ContractAddress,
    /// Every project under its identifier.
    pub project: ProjectStore,
}

/// The state of the contract, as mathematical values.
pub struct StateView {
    pub admin: AccountAddress,
    pub staking_contract_addr: ContractAddress,
    pub user_contract_addr: ContractAddress,
    pub project: ProjectsView,
}

impl View for State {
    type V = StateView;

    open spec fn view(&self) -> StateView {
        StateView {
            admin: self.admin,
            staking_contract_addr: self.staking_contract_addr,
            user_contract_addr: self.user_contract_addr,
            project: self.project@,
        }
    }
}

impl StateView {
    /// The state right after initialization by `origin`.
    pub open spec fn init(
        origin: AccountAddress,
        staking_contract_addr: ContractAddress,
        user_contract_addr: ContractAddress,
    ) -> Self {
        StateView {
            admin: origin,
            staking_contract_addr,
            user_contract_addr,
            project: ProjectsView::empty(),
        }
    }

    /// What `update_contract_state` makes of this state.
    pub open spec fn update_contract_state(
        self,
        invoker: AccountAddress,
        staking_contract_addr: ContractAddress,
        user_contract_addr: ContractAddress,
    ) -> Result<Self, Error> {
        if invoker != self.admin {
            Err(Error::InvalidCaller)
        } else {
            Ok(StateView { staking_contract_addr, user_contract_addr, ..self })
        }
    }

    /// What `transfer_admin` makes of this state.
    pub open spec fn transfer_admin(self, invoker: AccountAddress, admin: AccountAddress) -> Result<
        Self,
        Error,
    > {
        if invoker != self.admin {
            Err(Error::InvalidCaller)
        } else {
            Ok(StateView { admin, ..self })
        }
    }

    /// This state with the project `id` proposed, unless a project of that
    /// identifier exists: then this state.
    pub open spec fn with_candidate(
        self,
        id: Seq<char>,
        project_uri: Seq<char>,
        owners: Seq<AccountAddress>,
    ) -> Self {
        if self.project.contains(id) {
            self
        } else {
            StateView {
                project: self.project.put(id, ProjectStateView::candidate(project_uri, owners)),
                ..self
            }
        }
    }

    /// What `apply_curate_project` makes of this state.
    pub open spec fn apply_curate_project(
        self,
        invoker: AccountAddress,
        id: Seq<char>,
        project_uri: Seq<char>,
        owners: Seq<AccountAddress>,
    ) -> Result<Self, Error> {
        if invoker != self.admin {
            Err(Error::InvalidCaller)
        } else if self.project.contains(id) {
            Err(Error::ProjectHasBeenInitializedAlready)
        } else {
            Ok(self.with_candidate(id, project_uri, owners))
        }
    }

    /// What `curate_project` makes of this state, given the registry's
    /// reply about the sender, before the registry is asked to record the
    /// curation.
    pub open spec fn curate_project(
        self,
        sender: Address,
        id: Seq<char>,
        project_uri: Seq<char>,
        owners: Seq<AccountAddress>,
        reply: ViewReply,
    ) -> Result<Self, Error> {
        match spec_sender_account(sender) {
            Err(e) => Err(e),
            Ok(_) => match reply.grants(Role::Curator) {
                Err(e) => Err(e),
                Ok(_) => Ok(self.with_candidate(id, project_uri, owners)),
            },
        }
    }

    /// What `curate_project_admin` makes of this state, given the
    /// registry's reply about the curator.
    pub open spec fn curate_project_admin(
        self,
        invoker: AccountAddress,
        id: Seq<char>,
        project_uri: Seq<char>,
        owners: Seq<AccountAddress>,
        reply: ViewReply,
    ) -> Result<Self, Error> {
        if invoker != self.admin {
            Err(Error::InvalidCaller)
        } else {
            match reply.grants(Role::Curator) {
                Err(e) => Err(e),
                Ok(_) => Ok(self.with_candidate(id, project_uri, owners)),
            }
        }
    }

    /// What a guarded update of the project `id` makes of this state.
    pub open spec fn update_project(self, id: Seq<char>, update: UpdateView) -> Result<
        Self,
        Error,
    > {
        match self.project.update(id, update) {
            Ok(project) => Ok(StateView { project, ..self }),
            Err(e) => Err(e),
        }
    }

    /// What a guarded update that only the admin may ask for makes of this
    /// state.
    pub open spec fn admin_update(
        self,
        invoker: AccountAddress,
        id: Seq<char>,
        update: UpdateView,
    ) -> Result<Self, Error> {
        if invoker != self.admin {
            Err(Error::InvalidCaller)
        } else {
            self.update_project(id, update)
        }
    }

    /// What `validate_project` makes of this state, given the registry's
    /// reply about the sender, before the registry is asked to record the
    /// validation.
    pub open spec fn validate_project(self, sender: Address, id: Seq<char>, reply: ViewReply)
        -> Result<Self, Error> {
        match spec_sender_account(sender) {
            Err(e) => Err(e),
            Ok(_) => match reply.grants(Role::Validator) {
                Err(e) => Err(e),
                Ok(_) => self.update_project(id, UpdateView::Validate),
            },
        }
    }

    /// What `validate_project_admin` makes of this state, given the
    /// registry's reply about the validator.
    pub open spec fn validate_project_admin(
        self,
        invoker: AccountAddress,
        id: Seq<char>,
        reply: ViewReply,
    ) -> Result<Self, Error> {
        if invoker != self.admin {
            Err(Error::InvalidCaller)
        } else {
            match reply.grants(Role::Validator) {
                Err(e) => Err(e),
                Ok(_) => self.update_project(id, UpdateView::Validate),
            }
        }
    }

    /// What `add_token_addr` makes of this state.
    pub open spec fn add_token_addr(
        self,
        invoker: AccountAddress,
        id: Seq<char>,
        token_addr: ContractAddress,
    ) -> Result<Self, Error> {
        self.update_project(id, UpdateView::AddTokenAddr { caller: invoker, token_addr })
    }

    /// What `add_pub_key` makes of this state.
    pub open spec fn add_pub_key(self, invoker: AccountAddress, id: Seq<char>, pub_key: Seq<char>)
        -> Result<Self, Error> {
        self.admin_update(invoker, id, UpdateView::AddPubKey { pub_key })
    }

    /// What `update_owners` makes of this state.
    pub open spec fn update_owners(
        self,
        invoker: AccountAddress,
        id: Seq<char>,
        owners: Seq<AccountAddress>,
    ) -> Result<Self, Error> {
        self.admin_update(invoker, id, UpdateView::UpdateOwners { owners })
    }

    /// What `add_seed_sale` makes of this state.
    pub open spec fn add_seed_sale(
        self,
        invoker: AccountAddress,
        id: Seq<char>,
        seed_nft_addr: ContractAddress,
    ) -> Result<Self, Error> {
        self.admin_update(invoker, id, UpdateView::AddSeedSale { seed_nft_addr })
    }

    /// What `add_sale` makes of this state.
    pub open spec fn add_sale(
        self,
        invoker: AccountAddress,
        id: Seq<char>,
        sale_addr: ContractAddress,
    ) -> Result<Self, Error> {
        self.admin_update(invoker, id, UpdateView::AddSale { sale_addr })
    }

    /// What `start_sale` makes of this state.
    pub open spec fn start_sale(self, invoker: AccountAddress, id: Seq<char>) -> Result<
        Self,
        Error,
    > {
        self.admin_update(invoker, id, UpdateView::StartSale)
    }

    /// What `close_sale` makes of this state.
    pub open spec fn close_sale(self, invoker: AccountAddress, id: Seq<char>) -> Result<
        Self,
        Error,
    > {
        self.admin_update(invoker, id, UpdateView::CloseSale)
    }

    /// Whether `invoker` may set the token contract of the project `id`:
    /// the project exists, the invoker is one of its owners, and it is a
    /// candidate without a seed sale or a whitelisted project with one.
    pub open spec fn may_set_token_addr(self, invoker: AccountAddress, id: Seq<char>) -> bool {
        &&& self.project.get(id) matches Some(record)
        &&& record.owners.contains(invoker)
        &&& record.accepts_token_addr()
    }

    /// The registry lookup for a call that only an end user may send: the
    /// sender must be an account, and the registry is asked about it.
    pub open spec fn lookup_sender(self, sender: Address) -> Result<RegistryCallView, Error> {
        match spec_sender_account(sender) {
            Ok(account) => Ok(
                RegistryCallView::ViewUser { registry: self.user_contract_addr, addr: account },
            ),
            Err(e) => Err(e),
        }
    }

    /// The registry lookup for a call that the admin sends on behalf of
    /// `subject`: the invoker must be the admin, and the registry is asked
    /// about the subject.
    pub open spec fn lookup_by_admin(self, invoker: AccountAddress, subject: AccountAddress)
        -> Result<RegistryCallView, Error> {
        if invoker != self.admin {
            Err(Error::InvalidCaller)
        } else {
            Ok(RegistryCallView::ViewUser { registry: self.user_contract_addr, addr: subject })
        }
    }

    /// Lets the admin through and rejects anyone else.
    pub open spec fn ensure_admin(self, invoker: AccountAddress) -> Result<(), Error> {
        if invoker != self.admin {
            Err(Error::InvalidCaller)
        } else {
            Ok(())
        }
    }

    /// What `view_admin` shows to `sender`.
    pub open spec fn view_admin(self, sender: Address) -> Result<ViewAdminRes, Error> {
        if sender != Address::Account(self.admin) {
            Err(Error::InvalidCaller)
        } else {
            Ok(
                ViewAdminRes {
                    admin: self.admin,
                    staking_contract_addr: self.staking_contract_addr,
                    user_contract_addr: self.user_contract_addr,
                },
            )
        }
    }

    /// What `view_project` shows of the project `id`.
    pub open spec fn view_project(self, id: Seq<char>) -> Result<ProjectStateView, Error> {
        match self.project.get(id) {
            Some(record) => Ok(record),
            None => Err(Error::ProjectNotFound),
        }
    }
}

impl State {
    /// Whether `who` is the admin.
    pub fn is_admin(&self, who: &AccountAddress) -> (admin: bool)
        ensures
            admin == (*who == self@.admin),
    {
        *who == self.admin
    }

    /// Lets the admin through and rejects anyone else with `InvalidCaller`.
    pub fn ensure_admin(&self, invoker: AccountAddress) -> (res: Result<(), Error>)
        ensures
            res == self@.ensure_admin(invoker),
    {
        if self.is_admin(&invoker) {
            Ok(())
        } else {
            Err(Error::InvalidCaller)
        }
    }
}

impl Clone for State {
    /// A copy that holds the same values.
    fn clone(&self) -> (copy: Self)
        ensures
            copy@ == self@,
    {
        State {
            admin: self.admin,
            staking_contract_addr: self.staking_contract_addr,
            user_contract_addr: self.user_contract_addr,
            project: self.project.clone(),
        }
    }
}

impl PartialEq for State {
    /// Two states are equal when they name the same admin and contracts and
    /// hold the same projects.
    fn eq(&self, other: &Self) -> (same: bool) {
        if self.admin != other.admin {
            return false;
        }
        if self.staking_contract_addr != other.staking_contract_addr {
            return false;
        }
        if self.user_contract_addr != other.user_contract_addr {
            return false;
        }
        self.project.same_projects(&other.project)
    }
}

impl PartialEqSpecImpl for State {
    open spec fn obeys_eq_spec() -> bool {
        true
    }

    open spec fn eq_spec(&self, other: &Self) -> bool {
        &&& self.admin == other.admin
        &&& self.staking_contract_addr == other.staking_contract_addr
        &&& self.user_contract_addr == other.user_contract_addr
        &&& self.project@.same_projects(other.project@)
    }
}

} // verus!
