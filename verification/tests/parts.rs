//! The parts on their own: addresses, records, the store, and the
//! registry's answers.

use overlay_projects::address::{AccountAddress, Address, ContractAddress};
use overlay_projects::error::Error;
use overlay_projects::project::{copy_accounts, ProjectState, ProjectStatus, Update};
use overlay_projects::registry::{
    acknowledged, sender_account, RegistryCall, Role, UserStateResponse, ViewReply,
};
use overlay_projects::store::ProjectStore;

fn account(byte: u8) -> AccountAddress {
    AccountAddress([byte; 32])
}

fn candidate(uri: &str) -> ProjectState {
    ProjectState::candidate(uri.to_string(), vec![account(1), account(2)])
}

#[test]
fn account_addresses_differ_by_any_byte() {
    let a = account(7);
    assert_eq!(a, AccountAddress([7; 32]));
    for i in 0..32 {
        let mut bytes = [7u8; 32];
        bytes[i] = 8;
        assert_ne!(a, AccountAddress(bytes));
    }
}

#[test]
fn senders_are_equal_when_kind_and_address_are() {
    let c = ContractAddress::new(3, 4);
    assert_eq!(c, ContractAddress { index: 3, subindex: 4 });
    assert_ne!(c, ContractAddress::new(4, 3));
    assert_eq!(Address::Account(account(1)), Address::Account(account(1)));
    assert_ne!(Address::Account(account(1)), Address::Account(account(2)));
    assert_eq!(Address::Contract(c), Address::Contract(c));
    assert_ne!(Address::Contract(c), Address::Contract(ContractAddress::new(3, 5)));
    assert_ne!(Address::Account(account(0)), Address::Contract(ContractAddress::new(0, 0)));
}

#[test]
fn a_sender_matches_its_own_account_only() {
    assert!(Address::Account(account(1)).matches_account(&account(1)));
    assert!(!Address::Account(account(1)).matches_account(&account(2)));
    assert!(!Address::Contract(ContractAddress::new(1, 1)).matches_account(&account(1)));
}

#[test]
fn a_candidate_has_uri_and_owners_and_nothing_else() {
    let project = candidate("uri");
    assert_eq!(
        project,
        ProjectState {
            project_uri: Some("uri".to_string()),
            owners: vec![account(1), account(2)],
            pub_key: None,
            token_addr: None,
            seed_nft_addr: None,
            sale_addr: None,
            status: ProjectStatus::Candidate,
        }
    );
    assert!(project.is_owner(&account(1)));
    assert!(project.is_owner(&account(2)));
    assert!(!project.is_owner(&account(3)));
}

#[test]
fn records_differ_by_any_field() {
    let base = candidate("uri");
    assert_eq!(base, base.clone());
    let mut other = base.clone();
    other.project_uri = None;
    assert_ne!(base, other);
    let mut other = base.clone();
    other.project_uri = Some("urj".to_string());
    assert_ne!(base, other);
    let mut other = base.clone();
    other.owners = vec![account(2), account(1)];
    assert_ne!(base, other);
    let mut other = base.clone();
    other.owners = vec![account(1)];
    assert_ne!(base, other);
    let mut other = base.clone();
    other.pub_key = Some(String::new());
    assert_ne!(base, other);
    let mut other = base.clone();
    other.token_addr = Some(ContractAddress::new(0, 0));
    assert_ne!(base, other);
    let mut other = base.clone();
    other.seed_nft_addr = Some(ContractAddress::new(0, 0));
    assert_ne!(base, other);
    let mut other = base.clone();
    other.sale_addr = Some(ContractAddress::new(0, 0));
    assert_ne!(base, other);
    let mut other = base.clone();
    other.status = ProjectStatus::Whitelist;
    assert_ne!(base, other);
}

#[test]
fn a_copy_of_accounts_holds_the_same_accounts() {
    assert_eq!(copy_accounts(&Vec::new()), Vec::new());
    let accounts = vec![account(3), account(1), account(3)];
    assert_eq!(copy_accounts(&accounts), accounts);
}

#[test]
fn a_record_takes_the_updates_that_its_status_allows() {
    let token = ContractAddress::new(9, 0);
    let seed = ContractAddress::new(7, 0);
    let sale = ContractAddress::new(8, 0);

    let mut project = candidate("uri");
    assert_eq!(
        project.apply(Update::AddPubKey { pub_key: "key".to_string() }),
        Err(Error::InvalidStatus)
    );
    assert_eq!(
        project.apply(Update::UpdateOwners { owners: vec![account(5)] }),
        Err(Error::InvalidStatus)
    );
    assert_eq!(project.apply(Update::AddSeedSale { seed_nft_addr: seed }), Err(Error::InvalidStatus));
    assert_eq!(project.apply(Update::AddSale { sale_addr: sale }), Err(Error::InvalidStatus));
    assert_eq!(project.apply(Update::StartSale), Err(Error::InvalidStatus));
    assert_eq!(project.apply(Update::CloseSale), Err(Error::InvalidStatus));
    assert_eq!(project, candidate("uri"));
    assert_eq!(
        project.apply(Update::AddTokenAddr { caller: account(3), token_addr: token }),
        Err(Error::InvalidCaller)
    );
    assert_eq!(
        project.apply(Update::AddTokenAddr { caller: account(2), token_addr: token }),
        Ok(())
    );
    assert_eq!(project.token_addr, Some(token));

    assert_eq!(project.apply(Update::Validate), Ok(()));
    assert_eq!(project.status, ProjectStatus::Whitelist);
    assert_eq!(project.apply(Update::Validate), Err(Error::InvalidStatus));
    assert_eq!(
        project.apply(Update::AddTokenAddr { caller: account(2), token_addr: sale }),
        Err(Error::InvalidStatus)
    );
    assert_eq!(project.apply(Update::AddPubKey { pub_key: "key".to_string() }), Ok(()));
    assert_eq!(project.apply(Update::UpdateOwners { owners: vec![account(5)] }), Ok(()));
    assert_eq!(project.apply(Update::AddSale { sale_addr: sale }), Ok(()));
    assert_eq!(project.apply(Update::AddSeedSale { seed_nft_addr: seed }), Ok(()));
    assert_eq!(project.apply(Update::AddSale { sale_addr: token }), Err(Error::ShouldNotBeTON));
    assert_eq!(
        project.apply(Update::AddTokenAddr { caller: account(2), token_addr: sale }),
        Err(Error::InvalidCaller)
    );
    assert_eq!(
        project.apply(Update::AddTokenAddr { caller: account(5), token_addr: sale }),
        Ok(())
    );

    assert_eq!(project.apply(Update::StartSale), Ok(()));
    assert_eq!(project.status, ProjectStatus::OnSale);
    assert_eq!(project.apply(Update::CloseSale), Ok(()));
    assert_eq!(project.status, ProjectStatus::SaleClosed);
    assert_eq!(
        project,
        ProjectState {
            project_uri: Some("uri".to_string()),
            owners: vec![account(5)],
            pub_key: Some("key".to_string()),
            token_addr: Some(sale),
            seed_nft_addr: Some(seed),
            sale_addr: Some(sale),
            status: ProjectStatus::SaleClosed,
        }
    );
}

#[test]
fn the_store_finds_what_was_inserted() {
    let mut store = ProjectStore::new();
    assert_eq!(store.len(), 0);
    assert!(!store.contains(&"alpha".to_string()));
    assert_eq!(store.get(&"alpha".to_string()), None);

    assert_eq!(store.insert("alpha".to_string(), candidate("one")), None);
    assert_eq!(store.insert("beta".to_string(), candidate("two")), None);
    assert_eq!(store.len(), 2);
    assert!(store.contains(&"alpha".to_string()));
    assert_eq!(store.get(&"alpha".to_string()), Some(&candidate("one")));
    assert_eq!(store.get(&"beta".to_string()), Some(&candidate("two")));
    assert_eq!(store.get(&"Alpha".to_string()), None);
    assert_eq!(store.get(&"alph".to_string()), None);
}

#[test]
fn inserting_under_a_taken_identifier_replaces_in_place_and_returns_the_old_record() {
    let mut store = ProjectStore::new();
    store.insert("alpha".to_string(), candidate("one"));
    store.insert("beta".to_string(), candidate("two"));
    store.insert("gamma".to_string(), candidate("three"));
    assert_eq!(store.insert("beta".to_string(), candidate("zwei")), Some(candidate("two")));
    assert_eq!(store.len(), 3);
    assert_eq!(
        store.iterate(),
        vec![
            ("alpha".to_string(), candidate("one")),
            ("beta".to_string(), candidate("zwei")),
            ("gamma".to_string(), candidate("three")),
        ]
    );
    assert_eq!(store.ids(), vec!["alpha".to_string(), "beta".to_string(), "gamma".to_string()]);
}

#[test]
fn insert_if_absent_keeps_what_is_there() {
    let mut store = ProjectStore::new();
    assert!(store.insert_if_absent("alpha".to_string(), candidate("one")));
    assert!(!store.insert_if_absent("alpha".to_string(), candidate("eins")));
    assert!(store.insert_if_absent("beta".to_string(), candidate("two")));
    assert_eq!(store.get(&"alpha".to_string()), Some(&candidate("one")));
    assert_eq!(store.len(), 2);
}

#[test]
fn update_in_place_changes_the_one_project_or_nothing() {
    let mut store = ProjectStore::new();
    store.insert("alpha".to_string(), candidate("one"));
    store.insert("beta".to_string(), candidate("two"));

    assert_eq!(store.update_in_place(&"gamma".to_string(), Update::Validate), Err(Error::ProjectNotFound));
    assert_eq!(store.update_in_place(&"alpha".to_string(), Update::StartSale), Err(Error::InvalidStatus));
    assert_eq!(
        store.iterate(),
        vec![("alpha".to_string(), candidate("one")), ("beta".to_string(), candidate("two"))]
    );

    assert_eq!(store.update_in_place(&"alpha".to_string(), Update::Validate), Ok(()));
    let mut validated = candidate("one");
    validated.status = ProjectStatus::Whitelist;
    assert_eq!(
        store.iterate(),
        vec![("alpha".to_string(), validated), ("beta".to_string(), candidate("two"))]
    );
}

#[test]
fn stores_hold_the_same_projects_whatever_their_order() {
    let mut a = ProjectStore::new();
    a.insert("alpha".to_string(), candidate("one"));
    a.insert("beta".to_string(), candidate("two"));
    let mut b = ProjectStore::new();
    b.insert("beta".to_string(), candidate("two"));
    assert!(!a.same_projects(&b));
    assert!(!b.same_projects(&a));
    b.insert("alpha".to_string(), candidate("one"));
    assert!(a.same_projects(&b));
    assert!(b.same_projects(&a));
    assert!(a.same_projects(&a.clone()));
    b.insert("alpha".to_string(), candidate("uno"));
    assert!(!a.same_projects(&b));
    let mut c = ProjectStore::new();
    c.insert("alpha".to_string(), candidate("one"));
    c.insert("gamma".to_string(), candidate("two"));
    assert!(!a.same_projects(&c));
    assert!(ProjectStore::new().same_projects(&ProjectStore::new()));
    assert!(!ProjectStore::new().same_projects(&a));
}

#[test]
fn a_copy_of_the_store_lists_the_same_in_the_same_order() {
    let mut store = ProjectStore::new();
    store.insert("b".to_string(), candidate("two"));
    store.insert("a".to_string(), candidate("one"));
    let copy = store.clone();
    assert_eq!(copy.iterate(), store.iterate());
    assert_eq!(copy.ids(), vec!["b".to_string(), "a".to_string()]);
    store.insert("c".to_string(), candidate("three"));
    assert_eq!(copy.len(), 2);
    assert_eq!(store.len(), 3);
}

#[test]
fn a_reply_grants_the_role_that_the_registry_reports() {
    let reply = |is_curator, is_validator| {
        ViewReply::User(UserStateResponse {
            is_curator,
            is_validator,
            curated_projects: Vec::new(),
            validated_projects: vec!["zero".to_string()],
        })
    };
    assert_eq!(reply(true, false).grants(Role::Curator), Ok(()));
    assert_eq!(reply(true, false).grants(Role::Validator), Err(Error::InvalidCaller));
    assert_eq!(reply(false, true).grants(Role::Curator), Err(Error::InvalidCaller));
    assert_eq!(reply(false, true).grants(Role::Validator), Ok(()));
    assert_eq!(reply(true, true).grants(Role::Curator), Ok(()));
    assert_eq!(reply(true, true).grants(Role::Validator), Ok(()));
    assert_eq!(reply(false, false).grants(Role::Curator), Err(Error::InvalidCaller));
    assert_eq!(reply(false, false).grants(Role::Validator), Err(Error::InvalidCaller));
    assert_eq!(ViewReply::Failed.grants(Role::Curator), Err(Error::FailedInvokeUserContractView));
    assert_eq!(ViewReply::Failed.grants(Role::Validator), Err(Error::FailedInvokeUserContractView));
    assert_eq!(ViewReply::Malformed.grants(Role::Curator), Err(Error::ParseParamsError));
    assert_eq!(ViewReply::Malformed.grants(Role::Validator), Err(Error::ParseParamsError));
}

#[test]
fn only_accounts_pass_as_end_users() {
    assert_eq!(sender_account(Address::Account(account(4))), Ok(account(4)));
    assert_eq!(
        sender_account(Address::Contract(ContractAddress::new(4, 4))),
        Err(Error::OnlyAccount)
    );
}

#[test]
fn a_call_stands_when_the_registry_recorded_it() {
    assert_eq!(acknowledged(true), Ok(()));
    assert_eq!(acknowledged(false), Err(Error::FailedInvokeUserContract));
}

#[test]
fn a_registry_call_names_its_contract_and_entrypoint() {
    let registry = ContractAddress::new(1001, 0);
    let view = RegistryCall::ViewUser { registry, addr: account(1) };
    let curate = RegistryCall::Curate { registry, addr: account(1), project_id: "alpha".to_string() };
    let validate =
        RegistryCall::Validate { registry, addr: account(1), project_id: "alpha".to_string() };
    assert_eq!(view.entrypoint(), "view_user");
    assert_eq!(curate.entrypoint(), "curate");
    assert_eq!(validate.entrypoint(), "validate");
    assert!(view.is_read_only());
    assert!(!curate.is_read_only());
    assert!(!validate.is_read_only());
    assert_eq!(view.registry(), registry);
    assert_eq!(curate.registry(), registry);
    assert_eq!(validate.registry(), registry);
}

#[test]
fn registry_calls_differ_by_entrypoint_and_arguments() {
    let registry = ContractAddress::new(1001, 0);
    let curate = RegistryCall::Curate { registry, addr: account(1), project_id: "alpha".to_string() };
    assert_eq!(
        curate,
        RegistryCall::Curate { registry, addr: account(1), project_id: "alpha".to_string() }
    );
    assert_ne!(
        curate,
        RegistryCall::Validate { registry, addr: account(1), project_id: "alpha".to_string() }
    );
    assert_ne!(
        curate,
        RegistryCall::Curate { registry, addr: account(1), project_id: "beta".to_string() }
    );
    assert_ne!(
        curate,
        RegistryCall::Curate { registry, addr: account(2), project_id: "alpha".to_string() }
    );
    assert_ne!(
        curate,
        RegistryCall::Curate {
            registry: ContractAddress::new(1001, 1),
            addr: account(1),
            project_id: "alpha".to_string()
        }
    );
    assert_ne!(curate, RegistryCall::ViewUser { registry, addr: account(1) });
    assert_eq!(
        RegistryCall::ViewUser { registry, addr: account(1) },
        RegistryCall::ViewUser { registry, addr: account(1) }
    );
    assert_ne!(
        RegistryCall::ViewUser { registry, addr: account(1) },
        RegistryCall::ViewUser { registry, addr: account(2) }
    );
}
