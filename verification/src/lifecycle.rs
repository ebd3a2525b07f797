//! The lifecycle as a whole: every operation that can change the state, and
//! what holds of all of them.

use vstd::prelude::*;
use crate::address::{AccountAddress, Address, ContractAddress};
use crate::error::Error;
use crate::project::{ProjectStateView, ProjectStatus, UpdateView};
use crate::registry::{spec_acknowledged, ViewReply};
use crate::state::StateView;

verus! {

/// A call of an entrypoint that can change the state, with all that decides
/// its outcome: who calls, the parameter, and for the calls that rest on
/// the user registry what the registry replied about the user (`reply`)
/// and whether it recorded the call (`recorded`).
pub enum Operation {
    UpdateContractState {
        invoker: AccountAddress,
        staking_contract_addr: ContractAddress,
        user_contract_addr: ContractAddress,
    },
    TransferAdmin { invoker: AccountAddress, admin: AccountAddress },
    ApplyCurateProject {
        invoker: AccountAddress,
        project_id: Seq<char>,
        project_uri: Seq<char>,
        owners: Seq<AccountAddress>,
    },
    CurateProject {
        sender: Address,
        project_id: Seq<char>,
        project_uri: Seq<char>,
        owners: Seq<AccountAddress>,
        reply: ViewReply,
        recorded: bool,
    },
    CurateProjectAdmin {
        invoker: AccountAddress,
        project_id: Seq<char>,
        project_uri: Seq<char>,
        owners: Seq<AccountAddress>,
        reply: ViewReply,
    },
    ValidateProject { sender: Address, project_id: Seq<char>, reply: ViewReply, recorded: bool },
    ValidateProjectAdmin { invoker: AccountAddress, project_id: Seq<char>, reply: ViewReply },
    AddTokenAddr { invoker: AccountAddress, project_id: Seq<char>, token_addr: ContractAddress },
    AddPubKey { invoker: AccountAddress, project_id: Seq<char>, pub_key: Seq<char> },
    UpdateOwners { invoker: AccountAddress, project_id: Seq<char>, owners: Seq<AccountAddress> },
    AddSeedSale { invoker: AccountAddress, project_id: Seq<char>, seed_nft_addr: ContractAddress },
    AddSale { invoker: AccountAddress, project_id: Seq<char>, sale_addr: ContractAddress },
    StartSale { invoker: AccountAddress, project_id: Seq<char> },
    CloseSale { invoker: AccountAddress, project_id: Seq<char> },
}

/// What becomes of a call that has passed its guards and asked the user
/// registry to record it.
pub open spec fn once_recorded(passed: Result<StateView, Error>, recorded: bool) -> Result<
    StateView,
    Error,
> {
    match passed {
        Ok(next) => match spec_acknowledged(recorded) {
            Ok(_) => Ok(next),
            Err(e) => Err(e),
        },
        Err(e) => Err(e),
    }
}

impl ProjectStatus {
    /// A status reached in one step is never an earlier one.
    pub proof fn lemma_step_ranks(self, next: ProjectStatus)
        requires
            self.may_become(next),
        ensures
            self.rank() <= next.rank() <= self.rank() + 1,
    {
    }
}

impl ProjectStateView {
    /// What one operation may make of a record: the status stays or takes
    /// one step forward, the URI stays, and a seed-sale NFT contract that is
    /// set stays set.
    pub open spec fn steps_to(self, next: Self) -> bool {
        &&& self.status.may_become(next.status)
        &&& next.project_uri == self.project_uri
        &&& self.seed_nft_addr is Some ==> next.seed_nft_addr is Some
    }

    /// What any number of operations may make of a record: the status is
    /// not an earlier one, the URI stays, and a seed-sale NFT contract that
    /// is set stays set.
    pub open spec fn leads_to(self, later: Self) -> bool {
        &&& self.status.rank() <= later.status.rank()
        &&& later.project_uri == self.project_uri
        &&& self.seed_nft_addr is Some ==> later.seed_nft_addr is Some
    }

    /// Every update that a record accepts is a step of its lifecycle.
    pub proof fn lemma_apply_steps(self, update: UpdateView)
        ensures
            self.apply(update) matches Ok(next) ==> self.steps_to(next),
    {
    }
}

impl StateView {
    /// What the operation makes of this state where its guards pass and, if
    /// it rests on the registry recording it, the registry does; else why
    /// it is rejected.
    pub open spec fn perform(self, op: Operation) -> Result<StateView, Error> {
        match op {
            Operation::UpdateContractState {
                invoker,
                staking_contract_addr,
                user_contract_addr,
            } => self.update_contract_state(invoker, staking_contract_addr, user_contract_addr),
            Operation::TransferAdmin { invoker, admin } => self.transfer_admin(invoker, admin),
            Operation::ApplyCurateProject {
                invoker,
                project_id,
                project_uri,
                owners,
            } => self.apply_curate_project(invoker, project_id, project_uri, owners),
            Operation::CurateProject {
                sender,
                project_id,
                project_uri,
                owners,
                reply,
                recorded,
            } => once_recorded(
                self.curate_project(sender, project_id, project_uri, owners, reply),
                recorded,
            ),
            Operation::CurateProjectAdmin {
                invoker,
                project_id,
                project_uri,
                owners,
                reply,
            } => self.curate_project_admin(invoker, project_id, project_uri, owners, reply),
            Operation::ValidateProject { sender, project_id, reply, recorded } => once_recorded(
                self.validate_project(sender, project_id, reply),
                recorded,
            ),
            Operation::ValidateProjectAdmin {
                invoker,
                project_id,
                reply,
            } => self.validate_project_admin(invoker, project_id, reply),
            Operation::AddTokenAddr { invoker, project_id, token_addr } => self.add_token_addr(
                invoker,
                project_id,
                token_addr,
            ),
            Operation::AddPubKey { invoker, project_id, pub_key } => self.add_pub_key(
                invoker,
                project_id,
                pub_key,
            ),
            Operation::UpdateOwners { invoker, project_id, owners } => self.update_owners(
                invoker,
                project_id,
                owners,
            ),
            Operation::AddSeedSale { invoker, project_id, seed_nft_addr } => self.add_seed_sale(
                invoker,
                project_id,
                seed_nft_addr,
            ),
            Operation::AddSale { invoker, project_id, sale_addr } => self.add_sale(
                invoker,
                project_id,
                sale_addr,
            ),
            Operation::StartSale { invoker, project_id } => self.start_sale(invoker, project_id),
            Operation::CloseSale { invoker, project_id } => self.close_sale(invoker, project_id),
        }
    }

    /// The state after the operation: what it makes of this state, or this
    /// state if it is rejected.
    pub open spec fn after(self, op: Operation) -> StateView {
        match self.perform(op) {
            Ok(next) => next,
            Err(_) => self,
        }
    }

    /// The state after a sequence of operations, one after the other.
    pub open spec fn after_all(self, ops: Seq<Operation>) -> StateView
        decreases ops.len(),
    {
        if ops.len() == 0 {
            self
        } else {
            self.after_all(ops.drop_last()).after(ops.last())
        }
    }

    /// What one operation may make of the project `id`: if it exists, it
    /// still exists and has taken at most one step; if it does not, it may
    /// have come into being, as a candidate.
    pub open spec fn project_steps(self, next: StateView, id: Seq<char>) -> bool {
        match self.project.get(id) {
            Some(record) => next.project.get(id) matches Some(stepped) && record.steps_to(stepped),
            None => next.project.get(id) matches Some(created) ==> created.status
                == ProjectStatus::Candidate,
        }
    }

    /// What any number of operations may make of the project `id`, if it
    /// exists: it still exists, and its status is not an earlier one.
    pub open spec fn project_leads(self, later: StateView, id: Seq<char>) -> bool {
        self.project.get(id) matches Some(record) ==> later.project.get(id) matches Some(reached)
            && record.leads_to(reached)
    }

    /// A state with a candidate added where none was is a step for every
    /// project.
    proof fn lemma_with_candidate_steps(
        self,
        project_id: Seq<char>,
        project_uri: Seq<char>,
        owners: Seq<AccountAddress>,
    )
        requires
            self.project.wf(),
        ensures
            self.with_candidate(project_id, project_uri, owners).project.wf(),
            forall|id: Seq<char>| #[trigger]
                self.project_steps(self.with_candidate(project_id, project_uri, owners), id),
    {
        self.project.lemma_put(project_id, ProjectStateView::candidate(project_uri, owners));
    }

    /// A guarded update of one project is a step for every project.
    proof fn lemma_update_project_steps(self, project_id: Seq<char>, update: UpdateView)
        requires
            self.project.wf(),
        ensures
            self.update_project(project_id, update) matches Ok(next) ==> next.project.wf(),
            self.update_project(project_id, update) matches Ok(next) ==> forall|id: Seq<char>| #[trigger]
                self.project_steps(next, id),
    {
        if let Some(record) = self.project.get(project_id) {
            if let Ok(stepped) = record.apply(update) {
                record.lemma_apply_steps(update);
                self.project.lemma_put(project_id, stepped);
            }
        }
    }

    /// The lifecycle order. Whatever the operation and whoever calls, no
    /// project disappears, no project changes its status but by one step
    /// forward along Candidate, Whitelist, OnSale, SaleClosed, and a project
    /// that comes into being is a candidate.
    pub proof fn law_one_step_forward(self, op: Operation)
        requires
            self.project.wf(),
        ensures
            self.after(op).project.wf(),
            forall|id: Seq<char>| #[trigger] self.project_steps(self.after(op), id),
    {
        match op {
            Operation::ApplyCurateProject { invoker, project_id, project_uri, owners } => {
                self.lemma_with_candidate_steps(project_id, project_uri, owners);
            },
            Operation::CurateProject { sender, project_id, project_uri, owners, reply, recorded } => {
                self.lemma_with_candidate_steps(project_id, project_uri, owners);
            },
            Operation::CurateProjectAdmin { invoker, project_id, project_uri, owners, reply } => {
                self.lemma_with_candidate_steps(project_id, project_uri, owners);
            },
            Operation::ValidateProject { sender, project_id, reply, recorded } => {
                self.lemma_update_project_steps(project_id, UpdateView::Validate);
            },
            Operation::ValidateProjectAdmin { invoker, project_id, reply } => {
                self.lemma_update_project_steps(project_id, UpdateView::Validate);
            },
            Operation::AddTokenAddr { invoker, project_id, token_addr } => {
                self.lemma_update_project_steps(
                    project_id,
                    UpdateView::AddTokenAddr { caller: invoker, token_addr },
                );
            },
            Operation::AddPubKey { invoker, project_id, pub_key } => {
                self.lemma_update_project_steps(project_id, UpdateView::AddPubKey { pub_key });
            },
            Operation::UpdateOwners { invoker, project_id, owners } => {
                self.lemma_update_project_steps(project_id, UpdateView::UpdateOwners { owners });
            },
            Operation::AddSeedSale { invoker, project_id, seed_nft_addr } => {
                self.lemma_update_project_steps(
                    project_id,
                    UpdateView::AddSeedSale { seed_nft_addr },
                );
            },
            Operation::AddSale { invoker, project_id, sale_addr } => {
                self.lemma_update_project_steps(project_id, UpdateView::AddSale { sale_addr });
            },
            Operation::StartSale { invoker, project_id } => {
                self.lemma_update_project_steps(project_id, UpdateView::StartSale);
            },
            Operation::CloseSale { invoker, project_id } => {
                self.lemma_update_project_steps(project_id, UpdateView::CloseSale);
            },
            _ => {},
        }
    }

    /// No way back. After any sequence of operations every project that
    /// existed still exists, its status is the same or a later one, its URI
    /// is the same, and its seed-sale NFT contract, if it had one, is still
    /// set.
    pub proof fn law_no_way_back(self, ops: Seq<Operation>)
        requires
            self.project.wf(),
        ensures
            self.after_all(ops).project.wf(),
            forall|id: Seq<char>| #[trigger] self.project_leads(self.after_all(ops), id),
        decreases ops.len(),
    {
        if ops.len() > 0 {
            let before = self.after_all(ops.drop_last());
            self.law_no_way_back(ops.drop_last());
            before.law_one_step_forward(ops.last());
            assert forall|id: Seq<char>| #[trigger]
                self.project_leads(self.after_all(ops), id) by {
                assert(self.project_leads(before, id));
                assert(before.project_steps(before.after(ops.last()), id));
                if let Some(record) = self.project.get(id) {
                    let reached = before.project.get(id).unwrap();
                    let stepped = self.after_all(ops).project.get(id).unwrap();
                    reached.status.lemma_step_ranks(stepped.status);
                }
            }
        }
    }

    /// The token contract can be set exactly by an owner of an existing
    /// project that is a candidate without a seed sale or a whitelisted
    /// project with one. A call for a project that does not exist fails
    /// with `ProjectNotFound`, one by anyone else than an owner with
    /// `InvalidCaller`, and one by an owner at another time with
    /// `InvalidStatus`.
    pub proof fn law_add_token_addr(
        self,
        invoker: AccountAddress,
        project_id: Seq<char>,
        token_addr: ContractAddress,
    )
        ensures
            self.add_token_addr(invoker, project_id, token_addr) is Ok
                <==> self.may_set_token_addr(invoker, project_id),
            self.project.get(project_id) matches Some(record)
                && record.owners.contains(invoker)
                && (record.status == ProjectStatus::Whitelist && record.seed_nft_addr is Some
                    || record.status == ProjectStatus::Candidate && record.seed_nft_addr is None)
                <==> self.may_set_token_addr(invoker, project_id),
            self.project.get(project_id) is None
                ==> self.add_token_addr(invoker, project_id, token_addr)
                    == Err::<StateView, Error>(Error::ProjectNotFound),
            self.project.get(project_id) matches Some(record)
                && !record.owners.contains(invoker)
                ==> self.add_token_addr(invoker, project_id, token_addr)
                    == Err::<StateView, Error>(Error::InvalidCaller),
            self.project.get(project_id) matches Some(record)
                && record.owners.contains(invoker)
                && !record.accepts_token_addr()
                ==> self.add_token_addr(invoker, project_id, token_addr)
                    == Err::<StateView, Error>(Error::InvalidStatus),
    {
    }

    /// A seed sale excludes a plain sale. Once `add_seed_sale` has succeeded
    /// for a project and left the state `seeded`, `add_sale` for that
    /// project never succeeds again, whatever happened in between and
    /// whoever calls; called by the admin while the project is still
    /// whitelisted, it fails with `ShouldNotBeTON`.
    pub proof fn law_seed_sale_excludes_sale(
        self,
        invoker: AccountAddress,
        project_id: Seq<char>,
        seed_nft_addr: ContractAddress,
        seeded: StateView,
        between: Seq<Operation>,
        caller: AccountAddress,
        sale_addr: ContractAddress,
    )
        requires
            self.project.wf(),
            self.add_seed_sale(invoker, project_id, seed_nft_addr) == Ok::<StateView, Error>(seeded),
        ensures
            seeded.after_all(between).add_sale(caller, project_id, sale_addr) is Err,
            seeded.after_all(between).project.get(project_id) matches Some(record)
                && record.seed_nft_addr is Some,
            caller == seeded.after_all(between).admin && seeded.after_all(between).project.get(
                project_id,
            ).unwrap().status == ProjectStatus::Whitelist ==> seeded.after_all(between).add_sale(
                caller,
                project_id,
                sale_addr,
            ) == Err::<StateView, Error>(Error::ShouldNotBeTON),
    {
        let record = self.project.get(project_id).unwrap();
        self.project.lemma_put(
            project_id,
            ProjectStateView { seed_nft_addr: Some(seed_nft_addr), ..record },
        );
        seeded.law_no_way_back(between);
        assert(seeded.project_leads(seeded.after_all(between), project_id));
    }

    /// A rejected operation changes nothing: the state after it is the
    /// state before it.
    pub proof fn law_rejected_changes_nothing(self, op: Operation)
        requires
            self.perform(op) is Err,
        ensures
            self.after(op) == self,
    {
    }

    /// The views show what the state holds and nothing else: on equal
    /// states they show the same, however often they are asked.
    pub proof fn law_views_repeat(self, other: StateView, sender: Address, project_id: Seq<char>)
        requires
            self == other,
        ensures
            self.view_admin(sender) == other.view_admin(sender),
            self.view_project(project_id) == other.view_project(project_id),
            self.project.entries == other.project.entries,
            self.project.ids() == other.project.ids(),
    {
    }
}

} // verus!
