//! The user registry, as this contract sees it: the calls it is asked to
//! perform there, and what its answers entitle a user to.
//!
//! Whether a user is a curator or a validator is the registry's knowledge
//! alone. The contract never performs a call itself: it names the call, and
//! whoever drives it performs the call and hands back what came of it.

use vstd::prelude::*;
use vstd::std_specs::cmp::PartialEqSpecImpl;
use crate::address::{AccountAddress, Address, ContractAddress};
use crate::error::Error;

verus! {

/// What the registry answers to `view_user`.
#[derive(Debug)]
pub struct UserStateResponse {
    pub is_curator: bool,
    pub is_validator: bool,
    pub curated_projects: Vec<String>,
    pub validated_projects: Vec<String>,
}

/// What came of a `view_user` call.
#[derive(Debug)]
pub enum ViewReply {
    /// The call could not be completed, or returned nothing.
    Failed,
    /// The call returned something that does not read as a user.
    Malformed,
    /// The registry's answer.
    User(UserStateResponse),
}

/// A role that the registry grants to users.
#[derive(Clone, Copy, Debug, PartialEq, Eq, Structural)]
pub enum Role {
    /// May propose projects.
    Curator,
    /// May whitelist candidates.
    Validator,
}

impl UserStateResponse {
    /// Whether the registry reports the user in the given role.
    pub open spec fn spec_has_role(&self, role: Role) -> bool {
        match role {
            Role::Curator => self.is_curator,
            Role::Validator => self.is_validator,
        }
    }

    /// Whether the registry reports the user in the given role.
    #[verifier::when_used_as_spec(spec_has_role)]
    pub fn has_role(&self, role: Role) -> (held: bool)
        ensures
            held == self.spec_has_role(role),
    {
        match role {
            Role::Curator => self.is_curator,
            Role::Validator => self.is_validator,
        }
    }
}

impl ViewReply {
    /// What a reply means for a user who needs `role`: nothing stands in the
    /// way, or the call is rejected because the registry could not be asked,
    /// its answer could not be read, or the user does not hold the role.
    pub open spec fn spec_grants(&self, role: Role) -> Result<(), Error> {
        match *self {
            ViewReply::Failed => Err(Error::FailedInvokeUserContractView),
            ViewReply::Malformed => Err(Error::ParseParamsError),
            ViewReply::User(user) => if user.has_role(role) {
                Ok(())
            } else {
                Err(Error::InvalidCaller)
            },
        }
    }

    /// Decides whether the reply entitles the user to act in `role`.
    #[verifier::when_used_as_spec(spec_grants)]
    pub fn grants(&self, role: Role) -> (res: Result<(), Error>)
        ensures
            res == self.spec_grants(role),
    {
        match self {
            ViewReply::Failed => Err(Error::FailedInvokeUserContractView),
            ViewReply::Malformed => Err(Error::ParseParamsError),
            ViewReply::User(user) => if user.has_role(role) {
                Ok(())
            } else {
                Err(Error::InvalidCaller)
            },
        }
    }
}

/// A call into the user registry that the contract asks for.
#[derive(Debug)]
pub enum RegistryCall {
    /// Ask what the registry knows about `addr`. Changes nothing there.
    ViewUser { registry: ContractAddress, addr: AccountAddress },
    /// Record that `addr` curated the project.
    Curate { registry: ContractAddress, addr: AccountAddress, project_id: String },
    /// Record that `addr` validated the project.
    Validate { registry: ContractAddress, addr: AccountAddress, project_id: String },
}

/// A call into the user registry, as mathematical values.
pub enum RegistryCallView {
    ViewUser { registry: ContractAddress, addr: AccountAddress },
    Curate { registry: ContractAddress, addr: AccountAddress, project_id: Seq<char> },
    Validate { registry: ContractAddress, addr: AccountAddress, project_id: Seq<char> },
}

impl View for RegistryCall {
    type V = RegistryCallView;

    open spec fn view(&self) -> RegistryCallView {
        match *self {
            RegistryCall::ViewUser { registry, addr } => RegistryCallView::ViewUser {
                registry,
                addr,
            },
            RegistryCall::Curate { registry, addr, project_id } => RegistryCallView::Curate {
                registry,
                addr,
                project_id: project_id@,
            },
            RegistryCall::Validate { registry, addr, project_id } => RegistryCallView::Validate {
                registry,
                addr,
                project_id: project_id@,
            },
        }
    }
}

impl RegistryCallView {
    /// The contract that is called.
    pub open spec fn registry(self) -> ContractAddress {
        match self {
            RegistryCallView::ViewUser { registry, .. } => registry,
            RegistryCallView::Curate { registry, .. } => registry,
            RegistryCallView::Validate { registry, .. } => registry,
        }
    }

    /// Whether the call leaves the registry as it is.
    pub open spec fn is_read_only(self) -> bool {
        self is ViewUser
    }

    /// The name of the registry's entrypoint that is called.
    pub open spec fn entrypoint(self) -> Seq<char> {
        match self {
            RegistryCallView::ViewUser { .. } => "view_user"@,
            RegistryCallView::Curate { .. } => "curate"@,
            RegistryCallView::Validate { .. } => "validate"@,
        }
    }
}

impl RegistryCall {
    /// The contract that is called.
    pub fn registry(&self) -> (registry: ContractAddress)
        ensures
            registry == self@.registry(),
    {
        match self {
            RegistryCall::ViewUser { registry, .. } => *registry,
            RegistryCall::Curate { registry, .. } => *registry,
            RegistryCall::Validate { registry, .. } => *registry,
        }
    }

    /// The name of the registry's entrypoint that is called.
    pub fn entrypoint(&self) -> (name: &'static str)
        ensures
            name@ == self@.entrypoint(),
    {
        match self {
            RegistryCall::ViewUser { .. } => "view_user",
            RegistryCall::Curate { .. } => "curate",
            RegistryCall::Validate { .. } => "validate",
        }
    }

    /// Whether the call leaves the registry as it is.
    pub fn is_read_only(&self) -> (read_only: bool)
        ensures
            read_only == self@.is_read_only(),
    {
        match self {
            RegistryCall::ViewUser { .. } => true,
            _ => false,
        }
    }
}

impl PartialEq for RegistryCall {
    /// Two calls are equal when they call the same entrypoint of the same
    /// contract with the same arguments.
    fn eq(&self, other: &Self) -> (same: bool) {
        match (self, other) {
            (
                RegistryCall::ViewUser { registry: r1, addr: a1 },
                RegistryCall::ViewUser { registry: r2, addr: a2 },
            ) => *r1 == *r2 && *a1 == *a2,
            (
                RegistryCall::Curate { registry: r1, addr: a1, project_id: p1 },
                RegistryCall::Curate { registry: r2, addr: a2, project_id: p2 },
            ) => *r1 == *r2 && *a1 == *a2 && *p1 == *p2,
            (
                RegistryCall::Validate { registry: r1, addr: a1, project_id: p1 },
                RegistryCall::Validate { registry: r2, addr: a2, project_id: p2 },
            ) => *r1 == *r2 && *a1 == *a2 && *p1 == *p2,
            _ => false,
        }
    }
}

impl PartialEqSpecImpl for RegistryCall {
    open spec fn obeys_eq_spec() -> bool {
        true
    }

    open spec fn eq_spec(&self, other: &Self) -> bool {
        self@ == other@
    }
}

/// The account behind a call that only an end user may send.
pub open spec fn spec_sender_account(sender: Address) -> Result<AccountAddress, Error> {
    match sender {
        Address::Account(account) => Ok(account),
        Address::Contract(_) => Err(Error::OnlyAccount),
    }
}

/// The account behind a call that only an end user may send. A contract as
/// sender is rejected with `OnlyAccount`.
#[verifier::when_used_as_spec(spec_sender_account)]
pub fn sender_account(sender: Address) -> (res: Result<AccountAddress, Error>)
    ensures
        res == spec_sender_account(sender),
{
    match sender {
        Address::Account(account) => Ok(account),
        Address::Contract(_) => Err(Error::OnlyAccount),
    }
}

/// What the registry's handling of a `curate` or `validate` call means for
/// the call that asked for it.
pub open spec fn spec_acknowledged(recorded: bool) -> Result<(), Error> {
    if recorded {
        Ok(())
    } else {
        Err(Error::FailedInvokeUserContract)
    }
}

/// Decides what becomes of a call that asked the registry to record a
/// curation or validation: it stands if the registry recorded it, and is
/// rejected with `FailedInvokeUserContract` if not.
#[verifier::when_used_as_spec(spec_acknowledged)]
pub fn acknowledged(recorded: bool) -> (res: Result<(), Error>)
    ensures
        res == spec_acknowledged(recorded),
{
    if recorded {
        Ok(())
    } else {
        Err(Error::FailedInvokeUserContract)
    }
}

} // verus!
