//! The on-chain contract: training requests paid per epoch and per worker,
//! and governance proposals that the admin executes.
//!
//! Each method takes what the chain tells the contract about the call (the
//! calling account and the attached deposit) as arguments. A method that the
//! contract may refuse requires the inputs it accepts; its `check_` companion
//! (for a worker name, `AccountId::parse`) says whether a call is accepted
//! and, if not, why. A refusal fails the NEAR transaction, which leaves the
//! state as it was.

use std::collections::HashMap;

use vstd::prelude::*;

use crate::account::{is_valid_account_id, AccountId};
use crate::account_set::{AccountMap, AccountSet};
use crate::state::{
    GovernanceState, ModelData, ModelStatus, NetworkState, Proposal, ProposalStatus, ProposalType,
    RequestsState, Vote,
};

verus! {

broadcast use vstd::std_specs::hash::group_hash_axioms;

/// yoctoNEAR in one NEAR.
pub const ONE_NEAR: u128 = 1_000_000_000_000_000_000_000_000;

/// `near_sdk::NearToken::from_near(near).as_yoctonear()`: the source multiplies
/// by 10^24 (and panics on overflow in a build with overflow checks, which
/// `requires` leaves out).
#[verifier::external_body]
fn near_to_yocto(near: u128) -> (yocto: u128)
    requires
        near * ONE_NEAR <= u128::MAX,
    ensures
        yocto == near * ONE_NEAR,
{
    near_sdk::NearToken::from_near(near).as_yoctonear()
}

/// Why the contract refused a call.
#[derive(Clone, Copy, Debug, PartialEq, Eq, Structural)]
pub enum ContractError {
    /// The attached deposit is below what the call costs.
    InsufficientDeposit,
    /// A given account id is not a valid NEAR account id.
    InvalidAccountId,
    /// No request has the given id.
    UnknownRequest,
    /// The caller is one of the request's workers.
    CallerIsWorker,
    /// Only the admin executes proposals.
    NotAdmin,
    /// No proposal has the given id.
    UnknownProposal,
    /// An amount or a counter does not fit its integer type.
    ArithmeticOverflow,
}

impl ContractError {
    /// The message of the panic with which the contract refuses the call.
    pub fn message(&self) -> (m: &'static str)
        ensures
            m@ == error_message(*self),
    {
        match self {
            ContractError::InsufficientDeposit => "Stake must be greater than staking fee",
            ContractError::InvalidAccountId => "invalid account id",
            ContractError::UnknownRequest => "unknown request",
            ContractError::CallerIsWorker => "Only workers can complete requests",
            ContractError::NotAdmin => "Only admin can execute proposals",
            ContractError::UnknownProposal => "unknown proposal",
            ContractError::ArithmeticOverflow => "arithmetic operation overflow",
        }
    }
}

/// The text of each refusal.
pub open spec fn error_message(e: ContractError) -> Seq<char> {
    match e {
        ContractError::InsufficientDeposit => "Stake must be greater than staking fee"@,
        ContractError::InvalidAccountId => "invalid account id"@,
        ContractError::UnknownRequest => "unknown request"@,
        ContractError::CallerIsWorker => "Only workers can complete requests"@,
        ContractError::NotAdmin => "Only admin can execute proposals"@,
        ContractError::UnknownProposal => "unknown proposal"@,
        ContractError::ArithmeticOverflow => "arithmetic operation overflow"@,
    }
}

/// The contract's state.
pub struct Contract {
    pub network: NetworkState,
    pub requests: HashMap<u32, RequestsState>,
    pub current_request_id: u32,
    pub governance: GovernanceState,
}

/// The set of the accounts named in `ws`.
pub open spec fn named_accounts(ws: Seq<String>) -> Set<Seq<char>> {
    Set::new(|k: Seq<char>| exists|i: int| 0 <= i < ws.len() && #[trigger] ws[i]@ == k)
}

/// Whether every string of `ws` is a valid account id.
pub open spec fn all_valid_accounts(ws: Seq<String>) -> bool {
    forall|i: int| 0 <= i < ws.len() ==> is_valid_account_id(#[trigger] ws[i]@)
}

/// Whether computing the fee of a request (base fee times epochs times
/// workers, then NEAR to yoctoNEAR) overflows `u128` at some step.
pub open spec fn request_fee_overflows(base_fee: u128, epochs: u32, n_workers: nat) -> bool {
    ||| base_fee * epochs > u128::MAX
    ||| base_fee * epochs * n_workers > u128::MAX
    ||| base_fee * epochs * n_workers * ONE_NEAR > u128::MAX
}

/// The fee of a request, in yoctoNEAR.
pub open spec fn request_fee(base_fee: u128, epochs: u32, n_workers: nat) -> int {
    base_fee * epochs * n_workers * ONE_NEAR
}

/// What `add_request` answers.
pub open spec fn add_request_outcome(
    c: Contract,
    deposit: u128,
    epochs: u32,
    workers: Seq<String>,
) -> Result<(), ContractError> {
    if request_fee_overflows(c.governance.base_fee, epochs, workers.len()) {
        Err(ContractError::ArithmeticOverflow)
    } else if deposit < request_fee(c.governance.base_fee, epochs, workers.len()) {
        Err(ContractError::InsufficientDeposit)
    } else if !all_valid_accounts(workers) {
        Err(ContractError::InvalidAccountId)
    } else if c.current_request_id == u32::MAX {
        Err(ContractError::ArithmeticOverflow)
    } else {
        Ok(())
    }
}

/// What `add_worker` answers.
pub open spec fn add_worker_outcome(c: Contract, deposit: u128) -> Result<(), ContractError> {
    if c.governance.staking_fee * ONE_NEAR > u128::MAX {
        Err(ContractError::ArithmeticOverflow)
    } else if deposit < c.governance.staking_fee * ONE_NEAR {
        Err(ContractError::InsufficientDeposit)
    } else {
        Ok(())
    }
}

/// What `complete_request` answers for caller `sender`.
pub open spec fn complete_request_outcome(c: Contract, sender: Seq<char>, request_id: u32) -> Result<
    (),
    ContractError,
> {
    if !c.requests@.contains_key(request_id) {
        Err(ContractError::UnknownRequest)
    } else if c.requests@[request_id].workers@.contains(sender) {
        Err(ContractError::CallerIsWorker)
    } else {
        Ok(())
    }
}

/// What `execute_proposal` answers for caller `sender`.
pub open spec fn execute_proposal_outcome(c: Contract, sender: Seq<char>, proposal_id: usize) -> Result<
    (),
    ContractError,
> {
    if sender != c.governance.admin@ {
        Err(ContractError::NotAdmin)
    } else if proposal_id >= c.governance.proposals@.len() {
        Err(ContractError::UnknownProposal)
    } else {
        Ok(())
    }
}

/// `p` is a fresh proposal with id `id`, made by `proposer`.
pub open spec fn is_fresh_proposal(p: Proposal, id: u32, proposer: Seq<char>) -> bool {
    &&& p.proposal_id == id
    &&& p.proposar@ == proposer
    &&& p.status == ProposalStatus::Pending
    &&& p.votes@ == Map::<Seq<char>, Vote>::empty()
    &&& p.for_votes == 0
    &&& p.angaist_votes == 0
}

/// `new` is `old` with one more proposal, `p`, at the end of the list.
pub open spec fn appends_proposal(old: Contract, new: Contract, p: Proposal) -> bool {
    &&& new.governance.proposals@ == old.governance.proposals@.push(p)
    &&& new.network == old.network
    &&& new.requests == old.requests
    &&& new.current_request_id == old.current_request_id
    &&& new.governance.base_fee == old.governance.base_fee
    &&& new.governance.staking_fee == old.governance.staking_fee
    &&& new.governance.admin == old.governance.admin
}

/// Whether a proposal passes: more votes for it than against it.
pub open spec fn is_accepted(p: Proposal) -> bool {
    p.for_votes > p.angaist_votes
}

/// `new` is `old` with the change that an approved proposal of kind `t` makes.
pub open spec fn applies_proposal(old: Contract, new: Contract, t: ProposalType) -> bool {
    match t {
        ProposalType::AddWorker(w, s) => {
            &&& new.network.workers@ == old.network.workers@.insert(w@)
            &&& new.network.stake@ == old.network.stake@.insert(w@, s)
            &&& new.governance.base_fee == old.governance.base_fee
            &&& new.governance.staking_fee == old.governance.staking_fee
        },
        ProposalType::RemoveWorker(w) => {
            &&& new.network.workers@ == old.network.workers@.remove(w@)
            &&& new.network.stake@ == old.network.stake@.remove(w@)
            &&& new.governance.base_fee == old.governance.base_fee
            &&& new.governance.staking_fee == old.governance.staking_fee
        },
        ProposalType::ChangeBaseFee(f) => {
            &&& new.network == old.network
            &&& new.governance.base_fee == f
            &&& new.governance.staking_fee == old.governance.staking_fee
        },
        ProposalType::ChangeStakeAmount(s) => {
            &&& new.network == old.network
            &&& new.governance.base_fee == old.governance.base_fee
            &&& new.governance.staking_fee == s
        },
    }
}

/// A request holds exactly one dataset, its creator's, and it is finished
/// exactly when a model was recorded for it.
pub open spec fn request_wf(q: RequestsState) -> bool {
    &&& q.datasets@.dom() == set![q.creator@]
    &&& q.status != ModelStatus::Training
    &&& (q.status == ModelStatus::Finished <==> q.model_cid@.len() > 0)
}

impl Contract {
    /// The invariant that every call keeps: request ids come from the
    /// counter, each request is well formed, the workers are exactly the accounts with a stake, and each
    /// proposal carries its index as id and has no votes (the contract offers
    /// no way to vote).
    pub open spec fn wf(&self) -> bool {
        &&& forall|id: u32| #[trigger] self.requests@.contains_key(id) ==> id < self.current_request_id
        &&& forall|id: u32| #[trigger] self.requests@.contains_key(id) ==> request_wf(self.requests@[id])
        &&& self.network.workers@ == self.network.stake@.dom()
        &&& forall|i: int|
            0 <= i < self.governance.proposals@.len() ==> {
                let p = #[trigger] self.governance.proposals@[i];
                &&& p.proposal_id == i as u32
                &&& p.for_votes == 0
                &&& p.angaist_votes == 0
                &&& p.votes@ == Map::<Seq<char>, Vote>::empty()
            }
    }

    /// Proposes to set the base fee of requests to `fee` NEAR.
    pub fn propose_change_base_fee(&mut self, sender: &AccountId, fee: u128)
        ensures
            ({
                let p = final(self).governance.proposals@.last();
                &&& appends_proposal(*old(self), *final(self), p)
                &&& is_fresh_proposal(p, old(self).governance.proposals@.len() as u32, sender@)
                &&& p.proposal_type == ProposalType::ChangeBaseFee(fee)
            }),
            old(self).wf() ==> final(self).wf(),
    {
        let id = self.governance.proposals.len() as u32;
        let proposal = Proposal::new(id, ProposalType::ChangeBaseFee(fee), sender.clone());
        self.governance.proposals.push(proposal);
    }

    /// Proposes to set the least stake of a worker to `stake` NEAR.
    pub fn propose_change_stake_amount(&mut self, sender: &AccountId, stake: u128)
        ensures
            ({
                let p = final(self).governance.proposals@.last();
                &&& appends_proposal(*old(self), *final(self), p)
                &&& is_fresh_proposal(p, old(self).governance.proposals@.len() as u32, sender@)
                &&& p.proposal_type == ProposalType::ChangeStakeAmount(stake)
            }),
            old(self).wf() ==> final(self).wf(),
    {
        let id = self.governance.proposals.len() as u32;
        let proposal = Proposal::new(id, ProposalType::ChangeStakeAmount(stake), sender.clone());
        self.governance.proposals.push(proposal);
    }

    /// Proposes to remove the worker `worker`, which must be a valid account
    /// id (the contract refuses any other).
    pub fn propose_remove_worker(&mut self, sender: &AccountId, worker: String)
        requires
            is_valid_account_id(worker@),
        ensures
            ({
                let p = final(self).governance.proposals@.last();
                &&& appends_proposal(*old(self), *final(self), p)
                &&& is_fresh_proposal(p, old(self).governance.proposals@.len() as u32, sender@)
                &&& p.proposal_type matches ProposalType::RemoveWorker(w) && w@ == worker@
            }),
            old(self).wf() ==> final(self).wf(),
    {
        let w = match AccountId::parse(worker.as_str()) {
            Some(w) => w,
            None => {
                return;
            },
        };
        let id = self.governance.proposals.len() as u32;
        let proposal = Proposal::new(id, ProposalType::RemoveWorker(w), sender.clone());
        self.governance.proposals.push(proposal);
    }

    /// Whether the contract accepts `add_worker` with the attached `deposit`
    /// (yoctoNEAR): refused when the deposit is below the staking fee, or the
    /// fee does not fit `u128` in yoctoNEAR.
    pub fn check_add_worker(&self, deposit: u128) -> (r: Result<(), ContractError>)
        ensures
            r == add_worker_outcome(*self, deposit),
    {
        if self.governance.staking_fee > u128::MAX / ONE_NEAR {
            return Err(ContractError::ArithmeticOverflow);
        }
        let needed = near_to_yocto(self.governance.staking_fee);
        if deposit < needed {
            return Err(ContractError::InsufficientDeposit);
        }
        Ok(())
    }

    /// Asks to join as a worker with the attached `deposit` (yoctoNEAR) as
    /// stake: files an `AddWorker` proposal. The contract accepts the call
    /// only when `check_add_worker` does.
    pub fn add_worker(&mut self, sender: &AccountId, deposit: u128)
        requires
            add_worker_outcome(*old(self), deposit) is Ok,
        ensures
            ({
                let p = final(self).governance.proposals@.last();
                &&& appends_proposal(*old(self), *final(self), p)
                &&& is_fresh_proposal(p, old(self).governance.proposals@.len() as u32, sender@)
                &&& p.proposal_type matches ProposalType::AddWorker(w, s) && w@ == sender@ && s
                    == deposit
            }),
            old(self).wf() ==> final(self).wf(),
    {
        let id = self.governance.proposals.len() as u32;
        let proposal = Proposal::new(
            id,
            ProposalType::AddWorker(sender.clone(), deposit),
            sender.clone(),
        );
        self.governance.proposals.push(proposal);
    }

    /// Parses every worker name into an account set; `None` when one of
    /// them is not a valid account id.
    fn parse_workers(workers: &Vec<String>) -> (r: Option<AccountSet>)
        ensures
            r is Some <==> all_valid_accounts(workers@),
            r matches Some(set) ==> set@ == named_accounts(workers@),
    {
        let mut set = AccountSet::new();
        let mut i: usize = 0;
        while i < workers.len()
            invariant
                i <= workers@.len(),
                forall|j: int| 0 <= j < i ==> is_valid_account_id(#[trigger] workers@[j]@),
                set@ == Set::new(
                    |k: Seq<char>| exists|j: int| 0 <= j < i && #[trigger] workers@[j]@ == k,
                ),
            decreases workers@.len() - i,
        {
            match AccountId::parse(workers[i].as_str()) {
                Some(w) => {
                    let ghost prev = set@;
                    set.insert(w);
                    assert(set@ =~= Set::new(
                        |k: Seq<char>| exists|j: int| 0 <= j < i + 1 && #[trigger] workers@[j]@ == k,
                    )) by {
                        assert forall|k: Seq<char>|
                            (exists|j: int| 0 <= j < i + 1 && #[trigger] workers@[j]@ == k) implies set@.contains(k) by {
                            let j = choose|j: int| 0 <= j < i + 1 && #[trigger] workers@[j]@ == k;
                            if j < i {
                                assert(prev.contains(k));
                            }
                        }
                    }
                    i = i + 1;
                },
                None => {
                    return None;
                },
            }
        }
        assert(set@ =~= named_accounts(workers@));
        Some(set)
    }

    /// Whether the contract accepts `add_request` with the attached
    /// `deposit` (yoctoNEAR): the deposit must cover the base fee for each
    /// epoch and each named worker (repeated names counted), every name must
    /// be a valid account id, and the fee and the next request id must fit
    /// their integer types.
    pub fn check_add_request(&self, deposit: u128, epochs: u32, workers: &Vec<String>) -> (r: Result<
        (),
        ContractError,
    >)
        ensures
            r == add_request_outcome(*self, deposit, epochs, workers@),
    {
        let n_workers = workers.len() as u128;
        let per_worker = match self.governance.base_fee.checked_mul(epochs as u128) {
            Some(v) => v,
            None => {
                return Err(ContractError::ArithmeticOverflow);
            },
        };
        let total_near = match per_worker.checked_mul(n_workers) {
            Some(v) => v,
            None => {
                return Err(ContractError::ArithmeticOverflow);
            },
        };
        if total_near > u128::MAX / ONE_NEAR {
            return Err(ContractError::ArithmeticOverflow);
        }
        let fee = near_to_yocto(total_near);
        if deposit < fee {
            return Err(ContractError::InsufficientDeposit);
        }
        if Self::parse_workers(workers).is_none() {
            return Err(ContractError::InvalidAccountId);
        }
        if self.current_request_id == u32::MAX {
            return Err(ContractError::ArithmeticOverflow);
        }
        Ok(())
    }

    /// Files a training request of `epochs` epochs on the dataset
    /// `dataset_cid` for the given workers, paid by the attached `deposit`
    /// (yoctoNEAR). The request gets the next id. The contract accepts the
    /// call only when `check_add_request` does.
    pub fn add_request(
        &mut self,
        sender: &AccountId,
        deposit: u128,
        epochs: u32,
        dataset_cid: String,
        compressed_sk: Vec<u8>,
        workers: Vec<String>,
    )
        requires
            add_request_outcome(*old(self), deposit, epochs, workers@) is Ok,
        ensures
            ({
                let id = old(self).current_request_id;
                let q = final(self).requests@[id];
                &&& final(self).current_request_id == id + 1
                &&& final(self).requests@ == old(self).requests@.insert(id, q)
                &&& q.status == ModelStatus::Pending
                &&& q.workers@ == named_accounts(workers@)
                &&& q.datasets@.dom() == set![sender@]
                &&& q.datasets@[sender@].dataset == dataset_cid
                &&& q.datasets@[sender@].compressed_secret_key == compressed_sk
                &&& q.model_cid@ == Seq::<String>::empty()
                &&& q.creator@ == sender@
                &&& q.epochs == epochs
                &&& final(self).network == old(self).network
                &&& final(self).governance == old(self).governance
            }),
            old(self).wf() ==> final(self).wf(),
    {
        let worker_set = match Self::parse_workers(&workers) {
            Some(set) => set,
            None => {
                return;
            },
        };
        let mut datasets = AccountMap::new();
        datasets.insert(
            sender.clone(),
            ModelData { dataset: dataset_cid, compressed_secret_key: compressed_sk },
        );
        let request = RequestsState {
            status: ModelStatus::Pending,
            workers: worker_set,
            datasets,
            model_cid: Vec::new(),
            creator: sender.clone(),
            epochs,
        };
        let id = self.current_request_id;
        let _ = self.requests.insert(id, request);
        self.current_request_id = id + 1;
    }

    /// Whether the contract accepts `complete_request` from `sender`: the
    /// request must exist, and the caller must not be one of its workers.
    pub fn check_complete_request(&self, sender: &AccountId, request_id: u32) -> (r: Result<
        (),
        ContractError,
    >)
        ensures
            r == complete_request_outcome(*self, sender@, request_id),
    {
        match self.requests.get(&request_id) {
            None => Err(ContractError::UnknownRequest),
            Some(request) => {
                if request.workers.contains(sender) {
                    Err(ContractError::CallerIsWorker)
                } else {
                    Ok(())
                }
            },
        }
    }

    /// Records `model_cid` as a model produced for request `request_id` and
    /// marks the request finished. The contract accepts the call only when
    /// `check_complete_request` does.
    pub fn complete_request(&mut self, sender: &AccountId, request_id: u32, model_cid: String)
        requires
            complete_request_outcome(*old(self), sender@, request_id) is Ok,
        ensures
            ({
                let o = old(self).requests@[request_id];
                let q = final(self).requests@[request_id];
                &&& final(self).requests@ == old(self).requests@.insert(request_id, q)
                &&& q.status == ModelStatus::Finished
                &&& q.model_cid@ == o.model_cid@.push(model_cid)
                &&& q.workers == o.workers
                &&& q.datasets == o.datasets
                &&& q.creator == o.creator
                &&& q.epochs == o.epochs
                &&& final(self).network == old(self).network
                &&& final(self).governance == old(self).governance
                &&& final(self).current_request_id == old(self).current_request_id
            }),
            old(self).wf() ==> final(self).wf(),
    {
        let mut request = match self.requests.remove(&request_id) {
            Some(q) => q,
            None => {
                return;
            },
        };
        request.status = ModelStatus::Finished;
        request.model_cid.push(model_cid);
        let _ = self.requests.insert(request_id, request);
    }

    /// Whether the contract accepts `execute_proposal` from `sender`: only
    /// the admin executes proposals, and the proposal must exist.
    pub fn check_execute_proposal(&self, sender: &AccountId, proposal_id: usize) -> (r: Result<
        (),
        ContractError,
    >)
        ensures
            r == execute_proposal_outcome(*self, sender@, proposal_id),
    {
        if !sender.equals_text(&self.governance.admin) {
            return Err(ContractError::NotAdmin);
        }
        if proposal_id >= self.governance.proposals.len() {
            return Err(ContractError::UnknownProposal);
        }
        Ok(())
    }

    /// Executes proposal `proposal_id`. A proposal with more votes for than
    /// against is approved and its change applied; otherwise it is rejected
    /// and nothing else changes. Executing a proposal again is not prevented.
    /// The contract accepts the call only when `check_execute_proposal` does.
    pub fn execute_proposal(&mut self, sender: &AccountId, proposal_id: usize)
        requires
            execute_proposal_outcome(*old(self), sender@, proposal_id) is Ok,
        ensures
            ({
                let o = old(self).governance.proposals@[proposal_id as int];
                let q = final(self).governance.proposals@[proposal_id as int];
                &&& final(self).governance.proposals@.len() == old(self).governance.proposals@.len()
                &&& forall|i: int|
                    0 <= i < old(self).governance.proposals@.len() && i != proposal_id
                        ==> #[trigger] final(self).governance.proposals@[i] == old(
                        self,
                    ).governance.proposals@[i]
                &&& q.proposal_id == o.proposal_id
                &&& q.proposal_type == o.proposal_type
                &&& q.proposar == o.proposar
                &&& q.votes == o.votes
                &&& q.for_votes == o.for_votes
                &&& q.angaist_votes == o.angaist_votes
                &&& final(self).governance.admin == old(self).governance.admin
                &&& final(self).requests == old(self).requests
                &&& final(self).current_request_id == old(self).current_request_id
                &&& if is_accepted(o) {
                    &&& q.status == ProposalStatus::Approved
                    &&& applies_proposal(*old(self), *final(self), o.proposal_type)
                } else {
                    &&& q.status == ProposalStatus::Rejected
                    &&& final(self).network == old(self).network
                    &&& final(self).governance.base_fee == old(self).governance.base_fee
                    &&& final(self).governance.staking_fee == old(self).governance.staking_fee
                }
            }),
            old(self).wf() ==> {
                &&& final(self).governance.proposals@[proposal_id as int].status
                    == ProposalStatus::Rejected
                &&& final(self).network == old(self).network
                &&& final(self).governance.base_fee == old(self).governance.base_fee
                &&& final(self).governance.staking_fee == old(self).governance.staking_fee
            },
            old(self).wf() ==> final(self).wf(),
    {
        let accepted = self.governance.proposals[proposal_id].for_votes
            > self.governance.proposals[proposal_id].angaist_votes;
        if accepted {
            match &self.governance.proposals[proposal_id].proposal_type {
                ProposalType::AddWorker(worker, stake) => {
                    let w1 = worker.clone();
                    let w2 = worker.clone();
                    let st = *stake;
                    self.network.workers.insert(w1);
                    self.network.stake.insert(w2, st);
                },
                ProposalType::RemoveWorker(worker) => {
                    let w = worker.clone();
                    self.network.workers.remove(&w);
                    self.network.stake.remove(&w);
                },
                ProposalType::ChangeBaseFee(fee) => {
                    let f = *fee;
                    self.governance.base_fee = f;
                },
                ProposalType::ChangeStakeAmount(stake) => {
                    let st = *stake;
                    self.governance.staking_fee = st;
                },
            }
            self.governance.proposals[proposal_id].status = ProposalStatus::Approved;
        } else {
            self.governance.proposals[proposal_id].status = ProposalStatus::Rejected;
        }
    }

    /// Reserved for checking the Krum aggregation of a round and slashing the
    /// workers that deviated; it does nothing yet.
    pub fn verify_krum_and_slash() {
    }
}

impl Default for Contract {
    /// The contract's initial state: no workers, stakes, requests or
    /// proposals, the request counter at 0, both fees 0 and the text `"0"` as
    /// admin (which names no account, since account ids have at least two
    /// characters, so no caller can execute proposals).
    fn default() -> (c: Self)
        ensures
            c.network.workers@ == Set::<Seq<char>>::empty(),
            c.network.stake@ == Map::<Seq<char>, u128>::empty(),
            c.requests@ == Map::<u32, RequestsState>::empty(),
            c.governance.proposals@.len() == 0,
            c.current_request_id == 0,
            c.governance.base_fee == 0,
            c.governance.staking_fee == 0,
            c.governance.admin@ == "0"@,
            c.wf(),
    {
        Contract {
            network: NetworkState { workers: AccountSet::new(), stake: AccountMap::new() },
            requests: HashMap::new(),
            current_request_id: 0,
            governance: GovernanceState {
                proposals: Vec::new(),
                staking_fee: 0,
                admin: "0".to_owned(),
                base_fee: 0,
            },
        }
    }
}

/// Only the admin's own id, spelled out, executes proposals: an admin text
/// that is not a valid account id (such as the initial `"0"`) admits no
/// caller.
pub proof fn lemma_invalid_admin_admits_nobody(c: Contract, sender: AccountId, proposal_id: usize)
    requires
        !is_valid_account_id(c.governance.admin@),
        is_valid_account_id(sender@),
    ensures
        execute_proposal_outcome(c, sender@, proposal_id) == Err::<(), ContractError>(
            ContractError::NotAdmin,
        ),
{
}

/// Executing a proposal is refused exactly for a caller other than the
/// admin (`NotAdmin`) and, for the admin, for an id past the end of the list
/// (`UnknownProposal`); the answer depends on the admin and the number of
/// proposals alone.
pub proof fn lemma_execute_proposal_refusals(c: Contract, d: Contract, sender: Seq<char>, proposal_id: usize)
    requires
        c.governance.admin@ == d.governance.admin@,
        c.governance.proposals@.len() == d.governance.proposals@.len(),
    ensures
        execute_proposal_outcome(c, sender, proposal_id) == execute_proposal_outcome(d, sender, proposal_id),
        execute_proposal_outcome(c, sender, proposal_id) is Ok <==> sender == c.governance.admin@
            && proposal_id < c.governance.proposals@.len(),
        sender != c.governance.admin@ ==> execute_proposal_outcome(c, sender, proposal_id) == Err::<
            (),
            ContractError,
        >(ContractError::NotAdmin),
{
}

/// Asking to join is accepted exactly when the deposit covers the staking
/// fee in yoctoNEAR (and that amount fits `u128`); the answer depends on the
/// staking fee and the deposit alone.
pub proof fn lemma_add_worker_acceptance(c: Contract, d: Contract, deposit: u128)
    requires
        c.governance.staking_fee == d.governance.staking_fee,
    ensures
        add_worker_outcome(c, deposit) == add_worker_outcome(d, deposit),
        add_worker_outcome(c, deposit) is Ok <==> c.governance.staking_fee * ONE_NEAR <= u128::MAX
            && deposit >= c.governance.staking_fee * ONE_NEAR,
{
}

/// Filing a request is accepted exactly when the fee (base fee times epochs
/// times the number of names, in yoctoNEAR) fits `u128` at every step and the
/// deposit covers it, every name is a valid account id, and the request
/// counter can still advance; the answer depends on the base fee and the
/// counter alone, not on the network or the proposals.
pub proof fn lemma_add_request_acceptance(
    c: Contract,
    d: Contract,
    deposit: u128,
    epochs: u32,
    workers: Seq<String>,
)
    requires
        c.governance.base_fee == d.governance.base_fee,
        c.current_request_id == d.current_request_id,
    ensures
        add_request_outcome(c, deposit, epochs, workers) == add_request_outcome(d, deposit, epochs, workers),
        add_request_outcome(c, deposit, epochs, workers) is Ok <==> {
            let f = c.governance.base_fee;
            &&& f * epochs <= u128::MAX
            &&& f * epochs * workers.len() <= u128::MAX
            &&& f * epochs * workers.len() * ONE_NEAR <= u128::MAX
            &&& deposit >= f * epochs * workers.len() * ONE_NEAR
            &&& forall|i: int| 0 <= i < workers.len() ==> is_valid_account_id(#[trigger] workers[i]@)
            &&& c.current_request_id < u32::MAX
        },
{
}

/// Completing a request is refused exactly for a missing request
/// (`UnknownRequest`) and for a caller who is one of that request's own
/// workers (`CallerIsWorker`); the answer depends on the requests alone, not
/// on the network's workers, the proposals or the fees.
pub proof fn lemma_complete_request_refusals(c: Contract, d: Contract, sender: Seq<char>, request_id: u32)
    requires
        c.requests@ == d.requests@,
    ensures
        complete_request_outcome(c, sender, request_id) == complete_request_outcome(d, sender, request_id),
        complete_request_outcome(c, sender, request_id) is Ok <==> c.requests@.contains_key(request_id)
            && !c.requests@[request_id].workers@.contains(sender),
        !c.requests@.contains_key(request_id) ==> complete_request_outcome(c, sender, request_id)
            == Err::<(), ContractError>(ContractError::UnknownRequest),
        c.requests@.contains_key(request_id) && c.requests@[request_id].workers@.contains(sender)
            ==> complete_request_outcome(c, sender, request_id) == Err::<(), ContractError>(
            ContractError::CallerIsWorker,
        ),
{
}

/// No proposal of a well-formed contract can pass: nobody can vote, so every
/// proposal has as many votes for it as against it (none).
pub proof fn lemma_no_proposal_passes(c: Contract, i: int)
    requires
        c.wf(),
        0 <= i < c.governance.proposals@.len(),
    ensures
        !is_accepted(c.governance.proposals@[i]),
{
    let p = c.governance.proposals@[i];
    assert(p.for_votes == 0 && p.angaist_votes == 0);
}

/// In a well-formed contract the next request id is unused, so a new request
/// never replaces an existing one.
pub proof fn lemma_next_request_id_is_fresh(c: Contract)
    requires
        c.wf(),
    ensures
        !c.requests@.contains_key(c.current_request_id),
{
}

/// In a well-formed contract a request is finished exactly when a model was
/// recorded for it, and its only dataset is its creator's.
pub proof fn lemma_request_shape(c: Contract, id: u32)
    requires
        c.wf(),
        c.requests@.contains_key(id),
    ensures
        c.requests@[id].status == ModelStatus::Finished <==> c.requests@[id].model_cid@.len() > 0,
        c.requests@[id].datasets@.dom() == set![c.requests@[id].creator@],
{
}

/// In a well-formed contract an account is a worker exactly when it has a
/// stake.
pub proof fn lemma_workers_are_staked(c: Contract, a: Seq<char>)
    requires
        c.wf(),
    ensures
        c.network.workers@.contains(a) <==> c.network.stake@.contains_key(a),
{
}

} // verus!
