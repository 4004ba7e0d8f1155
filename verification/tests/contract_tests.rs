use std::collections::HashMap;

use training_network::account::AccountId;
use training_network::account_set::{AccountMap, AccountSet};
use training_network::contract::{Contract, ContractError, ONE_NEAR};
use training_network::state::{
    GovernanceState, ModelStatus, NetworkState, ProposalStatus, ProposalType,
};

fn acc(s: &str) -> AccountId {
    AccountId::parse(s).expect("valid account id")
}

fn contract(admin: &str, base_fee: u128, staking_fee: u128) -> Contract {
    Contract {
        network: NetworkState { workers: AccountSet::new(), stake: AccountMap::new() },
        requests: HashMap::new(),
        current_request_id: 0,
        governance: GovernanceState {
            proposals: Vec::new(),
            base_fee,
            admin: admin.to_string(),
            staking_fee,
        },
    }
}

fn names(v: &[&str]) -> Vec<String> {
    v.iter().map(|s| s.to_string()).collect()
}

// Each call is checked first and carried out only when accepted, as the
// contract's entry points do.
fn add_request(c: &mut Contract, sender: &AccountId, deposit: u128, epochs: u32, cid: String, sk: Vec<u8>, workers: Vec<String>) -> Result<(), ContractError> {
    c.check_add_request(deposit, epochs, &workers)?;
    c.add_request(sender, deposit, epochs, cid, sk, workers);
    Ok(())
}

fn complete_request(c: &mut Contract, sender: &AccountId, id: u32, model: String) -> Result<(), ContractError> {
    c.check_complete_request(sender, id)?;
    c.complete_request(sender, id, model);
    Ok(())
}

fn add_worker(c: &mut Contract, sender: &AccountId, deposit: u128) -> Result<(), ContractError> {
    c.check_add_worker(deposit)?;
    c.add_worker(sender, deposit);
    Ok(())
}

fn execute_proposal(c: &mut Contract, sender: &AccountId, id: usize) -> Result<(), ContractError> {
    c.check_execute_proposal(sender, id)?;
    c.execute_proposal(sender, id);
    Ok(())
}

fn propose_remove_worker(c: &mut Contract, sender: &AccountId, worker: String) -> Result<(), ContractError> {
    if AccountId::parse(&worker).is_none() {
        return Err(ContractError::InvalidAccountId);
    }
    c.propose_remove_worker(sender, worker);
    Ok(())
}

#[test]
fn account_ids_follow_near_rules() {
    assert!(AccountId::parse("alice.near").is_some());
    assert!(AccountId::parse("a-b_c.d0").is_some());
    assert!(AccountId::parse("ab").is_some());
    assert!(AccountId::parse("0").is_none());
    assert!(AccountId::parse("a").is_none());
    assert!(AccountId::parse("").is_none());
    assert!(AccountId::parse("-ab").is_none());
    assert!(AccountId::parse("ab-").is_none());
    assert!(AccountId::parse("a..b").is_none());
    assert!(AccountId::parse("Alice.near").is_none());
    assert!(AccountId::parse("alice near").is_none());
    assert!(AccountId::parse(&"a".repeat(64)).is_some());
    assert!(AccountId::parse(&"a".repeat(65)).is_none());
    assert_eq!(acc("bob.near").as_str(), "bob.near");
    assert!(acc("bob.near").same(&acc("bob.near")));
    assert!(!acc("bob.near").same(&acc("bob.nea")));
}

#[test]
fn default_state_is_empty_and_admits_no_admin() {
    let mut c = Contract::default();
    assert!(c.requests.is_empty());
    assert_eq!(c.current_request_id, 0);
    assert!(c.governance.proposals.is_empty());
    assert_eq!(c.governance.base_fee, 0);
    assert_eq!(c.governance.staking_fee, 0);
    assert_eq!(c.governance.admin, "0");
    assert!(c.network.workers.members().is_empty());
    assert!(c.network.stake.entries().is_empty());
    // with zero fees anyone may file a request and ask to join
    add_request(&mut c, &acc("client.near"), 0, 1, "cid".to_string(), vec![], names(&["w1.near"])).unwrap();
    add_worker(&mut c, &acc("w1.near"), 0).unwrap();
    // but "0" names no account, so nobody can execute a proposal
    assert_eq!(execute_proposal(&mut c, &acc("w1.near"), 0), Err(ContractError::NotAdmin));
}

#[test]
fn add_request_stores_request_under_next_id() {
    let mut c = contract("admin.near", 2, 0);
    let sender = acc("client.near");
    // the fee counts the names given, repeated ones included
    let fee = 2 * 3 * 3 * ONE_NEAR;
    assert_eq!(
        add_request(&mut c, &sender, fee - 1, 3, "cid".to_string(), vec![], names(&["w1.near", "w2.near", "w1.near"])),
        Err(ContractError::InsufficientDeposit)
    );
    let r = add_request(&mut c, 
        &sender,
        fee,
        3,
        "cid".to_string(),
        vec![1, 2, 3],
        names(&["w1.near", "w2.near", "w1.near"]),
    );
    assert_eq!(r, Ok(()));
    assert_eq!(c.current_request_id, 1);
    let q = c.requests.get(&0).expect("request 0");
    assert_eq!(q.status, ModelStatus::Pending);
    assert_eq!(q.epochs, 3);
    assert_eq!(q.creator.as_str(), "client.near");
    assert!(q.model_cid.is_empty());
    assert!(q.workers.contains(&acc("w1.near")));
    assert!(q.workers.contains(&acc("w2.near")));
    assert!(!q.workers.contains(&acc("client.near")));
    assert_eq!(q.workers.members().len(), 2);
    let d = q.datasets.get(&sender).expect("dataset of the sender");
    assert_eq!(d.dataset, "cid");
    assert_eq!(d.compressed_secret_key, vec![1, 2, 3]);
    assert_eq!(q.datasets.entries().len(), 1);

    let r2 = add_request(&mut c, &sender, fee, 3, "cid2".to_string(), vec![], names(&["w1.near", "w3.near"]));
    assert_eq!(r2, Ok(()));
    assert_eq!(c.current_request_id, 2);
    assert!(c.requests.contains_key(&1));
}

#[test]
fn add_request_refuses_small_deposit_and_changes_nothing() {
    let mut c = contract("admin.near", 1, 0);
    let r = add_request(&mut c, &acc("client.near"), 2 * ONE_NEAR - 1, 1, "cid".to_string(), vec![], names(&["w1.near", "w2.near"]));
    assert_eq!(r, Err(ContractError::InsufficientDeposit));
    assert_eq!(c.current_request_id, 0);
    assert!(c.requests.is_empty());
    assert_eq!(ContractError::InsufficientDeposit.message(), "Stake must be greater than staking fee");
}

#[test]
fn add_request_refuses_invalid_worker() {
    let mut c = contract("admin.near", 0, 0);
    let r = add_request(&mut c, &acc("client.near"), 0, 1, "cid".to_string(), vec![], names(&["w1.near", "Bad"]));
    assert_eq!(r, Err(ContractError::InvalidAccountId));
    assert!(c.requests.is_empty());
}

#[test]
fn add_request_refuses_fee_overflow() {
    let mut c = contract("admin.near", u128::MAX, 0);
    let r = add_request(&mut c, &acc("client.near"), u128::MAX, 2, "cid".to_string(), vec![], names(&[]));
    assert_eq!(r, Err(ContractError::ArithmeticOverflow));
    let mut c2 = contract("admin.near", u128::MAX / ONE_NEAR + 1, 0);
    let r2 = add_request(&mut c2, &acc("client.near"), u128::MAX, 1, "cid".to_string(), vec![], names(&["w1.near"]));
    assert_eq!(r2, Err(ContractError::ArithmeticOverflow));
    // with no workers the fee is zero once the first product fits
    let mut c3 = contract("admin.near", u128::MAX, 0);
    let r3 = add_request(&mut c3, &acc("client.near"), 0, 1, "cid".to_string(), vec![], names(&[]));
    assert_eq!(r3, Ok(()));
}

#[test]
fn add_request_refuses_exhausted_ids() {
    let mut c = contract("admin.near", 0, 0);
    c.current_request_id = u32::MAX;
    let r = add_request(&mut c, &acc("client.near"), 0, 1, "cid".to_string(), vec![], names(&["w1.near"]));
    assert_eq!(r, Err(ContractError::ArithmeticOverflow));
    assert!(c.requests.is_empty());
}

#[test]
fn complete_request_cases() {
    let mut c = contract("admin.near", 0, 0);
    let client = acc("client.near");
    add_request(&mut c, &client, 0, 1, "cid".to_string(), vec![], names(&["w1.near"])).unwrap();
    assert_eq!(complete_request(&mut c, &client, 7, "m".to_string()), Err(ContractError::UnknownRequest));
    assert_eq!(
        complete_request(&mut c, &acc("w1.near"), 0, "m".to_string()),
        Err(ContractError::CallerIsWorker)
    );
    assert_eq!(c.requests.get(&0).unwrap().status, ModelStatus::Pending);
    assert_eq!(complete_request(&mut c, &client, 0, "model1".to_string()), Ok(()));
    let q = c.requests.get(&0).unwrap();
    assert_eq!(q.status, ModelStatus::Finished);
    assert_eq!(q.model_cid, vec!["model1".to_string()]);
    assert_eq!(complete_request(&mut c, &client, 0, "model2".to_string()), Ok(()));
    assert_eq!(c.requests.get(&0).unwrap().model_cid.len(), 2);
}

#[test]
fn add_worker_files_proposal() {
    let mut c = contract("admin.near", 0, 5);
    let w = acc("worker.near");
    assert_eq!(add_worker(&mut c, &w, 5 * ONE_NEAR - 1), Err(ContractError::InsufficientDeposit));
    assert!(c.governance.proposals.is_empty());
    assert_eq!(add_worker(&mut c, &w, 5 * ONE_NEAR), Ok(()));
    let p = &c.governance.proposals[0];
    assert_eq!(p.proposal_id, 0);
    assert_eq!(p.status, ProposalStatus::Pending);
    assert_eq!(p.for_votes, 0);
    assert_eq!(p.angaist_votes, 0);
    assert_eq!(p.proposar.as_str(), "worker.near");
    match &p.proposal_type {
        ProposalType::AddWorker(a, s) => {
            assert_eq!(a.as_str(), "worker.near");
            assert_eq!(*s, 5 * ONE_NEAR);
        }
        _ => panic!("expected AddWorker"),
    }
    let mut big = contract("admin.near", 0, u128::MAX / ONE_NEAR + 1);
    assert_eq!(add_worker(&mut big, &w, u128::MAX), Err(ContractError::ArithmeticOverflow));
}

#[test]
fn proposals_get_consecutive_ids() {
    let mut c = contract("admin.near", 0, 0);
    let s = acc("someone.near");
    c.propose_change_base_fee(&s, 7);
    c.propose_change_stake_amount(&s, 9);
    assert_eq!(propose_remove_worker(&mut c, &s, "w1.near".to_string()), Ok(()));
    assert_eq!(propose_remove_worker(&mut c, &s, "W1".to_string()), Err(ContractError::InvalidAccountId));
    assert_eq!(c.governance.proposals.len(), 3);
    for (i, p) in c.governance.proposals.iter().enumerate() {
        assert_eq!(p.proposal_id, i as u32);
    }
    assert!(matches!(c.governance.proposals[0].proposal_type, ProposalType::ChangeBaseFee(7)));
    assert!(matches!(c.governance.proposals[1].proposal_type, ProposalType::ChangeStakeAmount(9)));
}

#[test]
fn execute_proposal_without_votes_rejects() {
    let mut c = contract("admin.near", 1, 1);
    let w = acc("worker.near");
    add_worker(&mut c, &w, ONE_NEAR).unwrap();
    assert_eq!(execute_proposal(&mut c, &w, 0), Err(ContractError::NotAdmin));
    assert_eq!(execute_proposal(&mut c, &acc("admin.near"), 1), Err(ContractError::UnknownProposal));
    assert_eq!(c.governance.proposals[0].status, ProposalStatus::Pending);
    assert_eq!(execute_proposal(&mut c, &acc("admin.near"), 0), Ok(()));
    assert_eq!(c.governance.proposals[0].status, ProposalStatus::Rejected);
    assert!(!c.network.workers.contains(&w));
    assert!(!c.network.stake.contains_key(&w));
}

#[test]
fn execute_proposal_with_votes_applies_change() {
    let admin = acc("admin.near");
    let mut c = contract("admin.near", 1, 1);
    let w = acc("worker.near");
    add_worker(&mut c, &w, 3 * ONE_NEAR).unwrap();
    c.governance.proposals[0].for_votes = 1;
    assert_eq!(execute_proposal(&mut c, &admin, 0), Ok(()));
    assert_eq!(c.governance.proposals[0].status, ProposalStatus::Approved);
    assert!(c.network.workers.contains(&w));
    assert_eq!(c.network.stake.get(&w), Some(&(3 * ONE_NEAR)));

    c.propose_change_base_fee(&w, 11);
    c.governance.proposals[1].for_votes = 2;
    c.governance.proposals[1].angaist_votes = 1;
    execute_proposal(&mut c, &admin, 1).unwrap();
    assert_eq!(c.governance.base_fee, 11);

    c.propose_change_stake_amount(&w, 12);
    c.governance.proposals[2].for_votes = 1;
    execute_proposal(&mut c, &admin, 2).unwrap();
    assert_eq!(c.governance.staking_fee, 12);

    propose_remove_worker(&mut c, &admin, "worker.near".to_string()).unwrap();
    c.governance.proposals[3].for_votes = 1;
    execute_proposal(&mut c, &admin, 3).unwrap();
    assert!(!c.network.workers.contains(&w));
    assert_eq!(c.network.stake.get(&w), None);
    assert_eq!(c.governance.proposals[3].status, ProposalStatus::Approved);
}

#[test]
fn account_map_replaces_and_removes() {
    let mut m: AccountMap<u32> = AccountMap::new();
    m.insert(acc("aa"), 1);
    m.insert(acc("bb"), 2);
    m.insert(acc("aa"), 3);
    assert_eq!(m.get(&acc("aa")), Some(&3));
    assert_eq!(m.entries().len(), 2);
    m.remove(&acc("aa"));
    assert_eq!(m.get(&acc("aa")), None);
    assert_eq!(m.get(&acc("bb")), Some(&2));
    let mut s = AccountSet::new();
    s.insert(acc("aa"));
    s.insert(acc("aa"));
    assert_eq!(s.members().len(), 1);
    s.remove(&acc("aa"));
    assert!(!s.contains(&acc("aa")));
}

#[test]
fn verify_krum_and_slash_does_nothing() {
    Contract::verify_krum_and_slash();
}

#[test]
fn refusal_messages() {
    assert_eq!(ContractError::NotAdmin.message(), "Only admin can execute proposals");
    assert_eq!(ContractError::CallerIsWorker.message(), "Only workers can complete requests");
    assert_eq!(ContractError::InsufficientDeposit.message(), "Stake must be greater than staking fee");
    assert!(!ContractError::InvalidAccountId.message().is_empty());
    assert!(!ContractError::UnknownRequest.message().is_empty());
    assert!(!ContractError::UnknownProposal.message().is_empty());
    assert!(!ContractError::ArithmeticOverflow.message().is_empty());
}

#[test]
fn finished_requests_carry_a_model() {
    let mut c = contract("admin.near", 0, 0);
    let client = acc("client.near");
    add_request(&mut c, &client, 0, 1, "cid".to_string(), vec![], names(&["w1.near"])).unwrap();
    add_request(&mut c, &client, 0, 1, "cid".to_string(), vec![], names(&["w1.near"])).unwrap();
    for (id, q) in c.requests.iter() {
        assert!(*id < c.current_request_id);
        assert_eq!(q.status == ModelStatus::Finished, !q.model_cid.is_empty());
    }
    complete_request(&mut c, &acc("other.near"), 1, "m".to_string()).unwrap();
    let q = c.requests.get(&1).unwrap();
    assert_eq!(q.status, ModelStatus::Finished);
    assert_eq!(q.model_cid.len(), 1);
    assert_eq!(c.requests.get(&0).unwrap().status, ModelStatus::Pending);
}
