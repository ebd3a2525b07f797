//! A single project: its record, its status, and the guarded updates that
//! move it through its lifecycle.

use vstd::prelude::*;
use vstd::std_specs::cmp::PartialEqSpecImpl;
use crate::address::{AccountAddress, ContractAddress};
use crate::error::{all_or_nothing, Error};

verus! {

/// Listing status of a project. A project enters as `Candidate` and moves
/// one step at a time towards `SaleClosed`; it never moves back.
#[derive(Clone, Copy, Debug, PartialEq, Eq, Structural)]
pub enum ProjectStatus {
    /// Candidate for a token sale.
    Candidate,
    /// Vetted; the token sale is being prepared.
    Whitelist,
    /// The token sale is running.
    OnSale,
    /// The token sale is over.
    SaleClosed,
}

impl ProjectStatus {
    /// The status that follows this one, if any.
    pub open spec fn successor(self) -> Option<ProjectStatus> {
        match self {
            ProjectStatus::Candidate => Some(ProjectStatus::Whitelist),
            ProjectStatus::Whitelist => Some(ProjectStatus::OnSale),
            ProjectStatus::OnSale => Some(ProjectStatus::SaleClosed),
            ProjectStatus::SaleClosed => None,
        }
    }

    /// How far along the lifecycle this status is.
    pub open spec fn rank(self) -> nat {
        match self {
            ProjectStatus::Candidate => 0,
            ProjectStatus::Whitelist => 1,
            ProjectStatus::OnSale => 2,
            ProjectStatus::SaleClosed => 3,
        }
    }

    /// Whether a single operation may leave a project that was in this
    /// status in the status `next`: it stays, or it takes one step forward.
    pub open spec fn may_become(self, next: ProjectStatus) -> bool {
        next == self || self.successor() == Some(next)
    }
}

/// The record of one project.
#[derive(Debug)]
pub struct ProjectState {
    pub project_uri: Option<String>,
    pub owners: Vec<AccountAddress>,
    pub pub_key: Option<String>,
    pub token_addr: Option<ContractAddress>,
    pub seed_nft_addr: Option<ContractAddress>,
    pub sale_addr: Option<ContractAddress>,
    pub status: ProjectStatus,
}

/// What a project record holds, as mathematical values.
pub struct ProjectStateView {
    pub project_uri: Option<Seq<char>>,
    pub owners: Seq<AccountAddress>,
    pub pub_key: Option<Seq<char>>,
    pub token_addr: Option<ContractAddress>,
    pub seed_nft_addr: Option<ContractAddress>,
    pub sale_addr: Option<ContractAddress>,
    pub status: ProjectStatus,
}

impl View for ProjectState {
    type V = ProjectStateView;

    open spec fn view(&self) -> ProjectStateView {
        ProjectStateView {
            project_uri: self.project_uri.deep_view(),
            owners: self.owners@,
            pub_key: self.pub_key.deep_view(),
            token_addr: self.token_addr,
            seed_nft_addr: self.seed_nft_addr,
            sale_addr: self.sale_addr,
            status: self.status,
        }
    }
}

/// A guarded update of a project record: what the lifecycle allows to
/// happen to a project once it exists.
#[derive(Debug)]
pub enum Update {
    /// Whitelist a candidate.
    Validate,
    /// Set the token contract, on behalf of `caller`.
    AddTokenAddr { caller: AccountAddress, token_addr: ContractAddress },
    /// Set the public key.
    AddPubKey { pub_key: String },
    /// Replace the owners.
    UpdateOwners { owners: Vec<AccountAddress> },
    /// Set the seed-sale NFT contract.
    AddSeedSale { seed_nft_addr: ContractAddress },
    /// Set the sale contract.
    AddSale { sale_addr: ContractAddress },
    /// Start the sale.
    StartSale,
    /// Close the sale.
    CloseSale,
}

/// A guarded update, as mathematical values.
pub enum UpdateView {
    Validate,
    AddTokenAddr { caller: AccountAddress, token_addr: ContractAddress },
    AddPubKey { pub_key: Seq<char> },
    UpdateOwners { owners: Seq<AccountAddress> },
    AddSeedSale { seed_nft_addr: ContractAddress },
    AddSale { sale_addr: ContractAddress },
    StartSale,
    CloseSale,
}

impl View for Update {
    type V = UpdateView;

    open spec fn view(&self) -> UpdateView {
        match *self {
            Update::Validate => UpdateView::Validate,
            Update::AddTokenAddr { caller, token_addr } => UpdateView::AddTokenAddr {
                caller,
                token_addr,
            },
            Update::AddPubKey { pub_key } => UpdateView::AddPubKey { pub_key: pub_key@ },
            Update::UpdateOwners { owners } => UpdateView::UpdateOwners { owners: owners@ },
            Update::AddSeedSale { seed_nft_addr } => UpdateView::AddSeedSale { seed_nft_addr },
            Update::AddSale { sale_addr } => UpdateView::AddSale { sale_addr },
            Update::StartSale => UpdateView::StartSale,
            Update::CloseSale => UpdateView::CloseSale,
        }
    }
}

impl ProjectStateView {
    /// The record of a project that was just proposed.
    pub open spec fn candidate(project_uri: Seq<char>, owners: Seq<AccountAddress>) -> Self {
        ProjectStateView {
            project_uri: Some(project_uri),
            owners,
            pub_key: None,
            token_addr: None,
            seed_nft_addr: None,
            sale_addr: None,
            status: ProjectStatus::Candidate,
        }
    }

    /// Whether the token address may be set now: a candidate without a seed
    /// sale, or a whitelisted project with one.
    pub open spec fn accepts_token_addr(self) -> bool {
        ||| self.status == ProjectStatus::Whitelist && self.seed_nft_addr is Some
        ||| self.status == ProjectStatus::Candidate && self.seed_nft_addr is None
    }

    /// Validation whitelists a candidate.
    pub open spec fn validate(self) -> Result<Self, Error> {
        if self.status != ProjectStatus::Candidate {
            Err(Error::InvalidStatus)
        } else {
            Ok(ProjectStateView { status: ProjectStatus::Whitelist, ..self })
        }
    }

    /// An owner sets the token contract.
    pub open spec fn add_token_addr(self, caller: AccountAddress, token_addr: ContractAddress)
        -> Result<Self, Error> {
        if !self.owners.contains(caller) {
            Err(Error::InvalidCaller)
        } else if !self.accepts_token_addr() {
            Err(Error::InvalidStatus)
        } else {
            Ok(ProjectStateView { token_addr: Some(token_addr), ..self })
        }
    }

    /// The public key is set once the project has left `Candidate`.
    pub open spec fn add_pub_key(self, pub_key: Seq<char>) -> Result<Self, Error> {
        if self.status == ProjectStatus::Candidate {
            Err(Error::InvalidStatus)
        } else {
            Ok(ProjectStateView { pub_key: Some(pub_key), ..self })
        }
    }

    /// The owners are replaced once the project has left `Candidate`.
    pub open spec fn update_owners(self, owners: Seq<AccountAddress>) -> Result<Self, Error> {
        if self.status == ProjectStatus::Candidate {
            Err(Error::InvalidStatus)
        } else {
            Ok(ProjectStateView { owners, ..self })
        }
    }

    /// A whitelisted project gets its seed-sale NFT contract.
    pub open spec fn add_seed_sale(self, seed_nft_addr: ContractAddress) -> Result<Self, Error> {
        if self.status != ProjectStatus::Whitelist {
            Err(Error::InvalidStatus)
        } else {
            Ok(ProjectStateView { seed_nft_addr: Some(seed_nft_addr), ..self })
        }
    }

    /// A whitelisted project without a seed sale gets its sale contract.
    pub open spec fn add_sale(self, sale_addr: ContractAddress) -> Result<Self, Error> {
        if self.status != ProjectStatus::Whitelist {
            Err(Error::InvalidStatus)
        } else if self.seed_nft_addr is Some {
            Err(Error::ShouldNotBeTON)
        } else {
            Ok(ProjectStateView { sale_addr: Some(sale_addr), ..self })
        }
    }

    /// The sale of a whitelisted project starts.
    pub open spec fn start_sale(self) -> Result<Self, Error> {
        if self.status != ProjectStatus::Whitelist {
            Err(Error::InvalidStatus)
        } else {
            Ok(ProjectStateView { status: ProjectStatus::OnSale, ..self })
        }
    }

    /// A running sale is closed.
    pub open spec fn close_sale(self) -> Result<Self, Error> {
        if self.status != ProjectStatus::OnSale {
            Err(Error::InvalidStatus)
        } else {
            Ok(ProjectStateView { status: ProjectStatus::SaleClosed, ..self })
        }
    }

    /// The transition table: what each update makes of this record, or why
    /// it is refused.
    pub open spec fn apply(self, update: UpdateView) -> Result<Self, Error> {
        match update {
            UpdateView::Validate => self.validate(),
            UpdateView::AddTokenAddr { caller, token_addr } => self.add_token_addr(
                caller,
                token_addr,
            ),
            UpdateView::AddPubKey { pub_key } => self.add_pub_key(pub_key),
            UpdateView::UpdateOwners { owners } => self.update_owners(owners),
            UpdateView::AddSeedSale { seed_nft_addr } => self.add_seed_sale(seed_nft_addr),
            UpdateView::AddSale { sale_addr } => self.add_sale(sale_addr),
            UpdateView::StartSale => self.start_sale(),
            UpdateView::CloseSale => self.close_sale(),
        }
    }
}

impl ProjectState {
    /// The record of a project that was just proposed: a candidate with its
    /// URI and owners, and nothing else set.
    pub fn candidate(project_uri: String, owners: Vec<AccountAddress>) -> (project: ProjectState)
        ensures
            project@ == ProjectStateView::candidate(project_uri@, owners@),
    {
        ProjectState {
            project_uri: Some(project_uri),
            owners,
            pub_key: None,
            token_addr: None,
            seed_nft_addr: None,
            sale_addr: None,
            status: ProjectStatus::Candidate,
        }
    }

    /// Whether `who` is one of the owners.
    pub fn is_owner(&self, who: &AccountAddress) -> (found: bool)
        ensures
            found == self@.owners.contains(*who),
    {
        let mut i: usize = 0;
        while i < self.owners.len()
            invariant
                i <= self.owners.len(),
                forall|j: int| 0 <= j < i ==> self.owners@[j] != *who,
            decreases self.owners.len() - i,
        {
            if self.owners[i] == *who {
                return true;
            }
            i += 1;
        }
        false
    }

    /// Whitelists the project if it is a candidate.
    pub fn validate(&mut self) -> (res: Result<(), Error>)
        ensures
            all_or_nothing(old(self)@, old(self)@.validate(), final(self)@, res),
    {
        match self.status {
            ProjectStatus::Candidate => {
                self.status = ProjectStatus::Whitelist;
                Ok(())
            },
            _ => Err(Error::InvalidStatus),
        }
    }

    /// Sets the token contract on behalf of `caller`, who must be an owner.
    pub fn add_token_addr(&mut self, caller: &AccountAddress, token_addr: ContractAddress) -> (res:
        Result<(), Error>)
        ensures
            all_or_nothing(
                old(self)@,
                old(self)@.add_token_addr(*caller, token_addr),
                final(self)@,
                res,
            ),
    {
        if !self.is_owner(caller) {
            return Err(Error::InvalidCaller);
        }
        let allowed = match self.status {
            ProjectStatus::Whitelist => self.seed_nft_addr.is_some(),
            ProjectStatus::Candidate => self.seed_nft_addr.is_none(),
            _ => false,
        };
        if !allowed {
            return Err(Error::InvalidStatus);
        }
        self.token_addr = Some(token_addr);
        Ok(())
    }

    /// Sets the public key unless the project is still a candidate.
    pub fn add_pub_key(&mut self, pub_key: String) -> (res: Result<(), Error>)
        ensures
            all_or_nothing(old(self)@, old(self)@.add_pub_key(pub_key@), final(self)@, res),
    {
        match self.status {
            ProjectStatus::Candidate => Err(Error::InvalidStatus),
            _ => {
                self.pub_key = Some(pub_key);
                Ok(())
            },
        }
    }

    /// Replaces the owners unless the project is still a candidate.
    pub fn update_owners(&mut self, owners: Vec<AccountAddress>) -> (res: Result<(), Error>)
        ensures
            all_or_nothing(old(self)@, old(self)@.update_owners(owners@), final(self)@, res),
    {
        match self.status {
            ProjectStatus::Candidate => Err(Error::InvalidStatus),
            _ => {
                self.owners = owners;
                Ok(())
            },
        }
    }

    /// Sets the seed-sale NFT contract of a whitelisted project.
    pub fn add_seed_sale(&mut self, seed_nft_addr: ContractAddress) -> (res: Result<(), Error>)
        ensures
            all_or_nothing(old(self)@, old(self)@.add_seed_sale(seed_nft_addr), final(self)@, res),
    {
        match self.status {
            ProjectStatus::Whitelist => {
                self.seed_nft_addr = Some(seed_nft_addr);
                Ok(())
            },
            _ => Err(Error::InvalidStatus),
        }
    }

    /// Sets the sale contract of a whitelisted project that has no seed sale.
    pub fn add_sale(&mut self, sale_addr: ContractAddress) -> (res: Result<(), Error>)
        ensures
            all_or_nothing(old(self)@, old(self)@.add_sale(sale_addr), final(self)@, res),
    {
        match self.status {
            ProjectStatus::Whitelist => {
                if self.seed_nft_addr.is_some() {
                    return Err(Error::ShouldNotBeTON);
                }
                self.sale_addr = Some(sale_addr);
                Ok(())
            },
            _ => Err(Error::InvalidStatus),
        }
    }

    /// Starts the sale of a whitelisted project.
    pub fn start_sale(&mut self) -> (res: Result<(), Error>)
        ensures
            all_or_nothing(old(self)@, old(self)@.start_sale(), final(self)@, res),
    {
        match self.status {
            ProjectStatus::Whitelist => {
                self.status = ProjectStatus::OnSale;
                Ok(())
            },
            _ => Err(Error::InvalidStatus),
        }
    }

    /// Closes a running sale.
    pub fn close_sale(&mut self) -> (res: Result<(), Error>)
        ensures
            all_or_nothing(old(self)@, old(self)@.close_sale(), final(self)@, res),
    {
        match self.status {
            ProjectStatus::OnSale => {
                self.status = ProjectStatus::SaleClosed;
                Ok(())
            },
            _ => Err(Error::InvalidStatus),
        }
    }

    /// Applies a guarded update: the record changes as the transition table
    /// says, or stays as it is where the update is refused.
    pub fn apply(&mut self, update: Update) -> (res: Result<(), Error>)
        ensures
            all_or_nothing(old(self)@, old(self)@.apply(update@), final(self)@, res),
    {
        match update {
            Update::Validate => self.validate(),
            Update::AddTokenAddr { caller, token_addr } => self.add_token_addr(&caller, token_addr),
            Update::AddPubKey { pub_key } => self.add_pub_key(pub_key),
            Update::UpdateOwners { owners } => self.update_owners(owners),
            Update::AddSeedSale { seed_nft_addr } => self.add_seed_sale(seed_nft_addr),
            Update::AddSale { sale_addr } => self.add_sale(sale_addr),
            Update::StartSale => self.start_sale(),
            Update::CloseSale => self.close_sale(),
        }
    }
}

/// A copy of an optional text.
fn copy_text(text: &Option<String>) -> (copy: Option<String>)
    ensures
        copy.deep_view() == text.deep_view(),
{
    match text {
        Some(t) => Some(t.clone()),
        None => None,
    }
}

/// A copy of a list of accounts.
pub fn copy_accounts(accounts: &Vec<AccountAddress>) -> (copy: Vec<AccountAddress>)
    ensures
        copy@ == accounts@,
{
    let mut copy: Vec<AccountAddress> = Vec::new();
    let mut i: usize = 0;
    while i < accounts.len()
        invariant
            i <= accounts.len(),
            copy@.len() == i,
            forall|j: int| 0 <= j < i ==> copy@[j] == accounts@[j],
        decreases accounts.len() - i,
    {
        copy.push(accounts[i]);
        i += 1;
    }
    assert(copy@ =~= accounts@);
    copy
}

/// Whether two optional texts read the same.
fn same_text(a: &Option<String>, b: &Option<String>) -> (same: bool)
    ensures
        same == (a.deep_view() == b.deep_view()),
{
    match (a, b) {
        (Some(x), Some(y)) => *x == *y,
        (None, None) => true,
        _ => false,
    }
}

/// Whether two lists hold the same accounts in the same order.
fn same_accounts(a: &Vec<AccountAddress>, b: &Vec<AccountAddress>) -> (same: bool)
    ensures
        same == (a@ == b@),
{
    if a.len() != b.len() {
        return false;
    }
    let mut i: usize = 0;
    while i < a.len()
        invariant
            i <= a.len(),
            a.len() == b.len(),
            forall|j: int| 0 <= j < i ==> a@[j] == b@[j],
        decreases a.len() - i,
    {
        if a[i] != b[i] {
            return false;
        }
        i += 1;
    }
    assert(a@ =~= b@);
    true
}

impl Clone for ProjectState {
    /// A copy that holds the same values.
    fn clone(&self) -> (copy: Self)
        ensures
            copy@ == self@,
    {
        ProjectState {
            project_uri: copy_text(&self.project_uri),
            owners: copy_accounts(&self.owners),
            pub_key: copy_text(&self.pub_key),
            token_addr: self.token_addr,
            seed_nft_addr: self.seed_nft_addr,
            sale_addr: self.sale_addr,
            status: self.status,
        }
    }
}

impl PartialEq for ProjectState {
    /// Two records are equal when every field holds the same value.
    fn eq(&self, other: &Self) -> (same: bool) {
        same_text(&self.project_uri, &other.project_uri)
            && same_accounts(&self.owners, &other.owners)
            && same_text(&self.pub_key, &other.pub_key)
            && self.token_addr == other.token_addr
            && self.seed_nft_addr == other.seed_nft_addr
            && self.sale_addr == other.sale_addr
            && self.status == other.status
    }
}

impl PartialEqSpecImpl for ProjectState {
    open spec fn obeys_eq_spec() -> bool {
        true
    }

    open spec fn eq_spec(&self, other: &Self) -> bool {
        self@ == other@
    }
}

} // verus!
