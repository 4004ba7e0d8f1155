//! The records that the contract keeps: the worker network, training
//! requests and governance proposals. Amounts of NEAR are held in yoctoNEAR.

use vstd::prelude::*;

use crate::account::AccountId;
use crate::account_set::{AccountMap, AccountSet};

verus! {

/// The registered workers and the stake that each of them deposited.
pub struct NetworkState {
    pub workers: AccountSet,
    /// Stake of each worker, in yoctoNEAR.
    pub stake: AccountMap<u128>,
}

/// A model-training request: its workers, the datasets published for it
/// (keyed by the publisher) and the model ids produced for it.
pub struct RequestsState {
    pub status: ModelStatus,
    pub workers: AccountSet,
    pub datasets: AccountMap<ModelData>,
    pub model_cid: Vec<String>,
    pub creator: AccountId,
    pub epochs: u32,
}

/// A dataset published for training.
#[derive(Debug)]
pub struct ModelData {
    /// Content id of the dataset (IPFS).
    pub dataset: String,
    /// The compressed serialized secret of the client.
    pub compressed_secret_key: Vec<u8>,
}

impl View for ModelData {
    type V = (Seq<char>, Seq<u8>);

    open spec fn view(&self) -> (Seq<char>, Seq<u8>) {
        (self.dataset@, self.compressed_secret_key@)
    }
}

impl Clone for ModelData {
    fn clone(&self) -> (r: Self)
        ensures
            r@ == self@,
    {
        ModelData {
            dataset: self.dataset.clone(),
            compressed_secret_key: self.compressed_secret_key.clone(),
        }
    }
}

/// Where a training request stands.
#[derive(Clone, Copy, Debug, PartialEq, Eq, Structural)]
pub enum ModelStatus {
    /// Waiting for the workers to join.
    Pending,
    Training,
    Finished,
}

/// A governance proposal to change the network or its fees.
pub struct Proposal {
    pub proposal_id: u32,
    pub proposal_type: ProposalType,
    pub proposar: AccountId,
    pub status: ProposalStatus,
    pub votes: AccountMap<Vote>,
    pub for_votes: u32,
    pub angaist_votes: u32,
}

impl Proposal {
    /// A fresh pending proposal with no votes.
    pub fn new(proposal_id: u32, proposal_type: ProposalType, proposar: AccountId) -> (p: Proposal)
        ensures
            p.proposal_id == proposal_id,
            p.proposal_type == proposal_type,
            p.proposar == proposar,
            p.status == ProposalStatus::Pending,
            p.votes@ == Map::<Seq<char>, Vote>::empty(),
            p.for_votes == 0,
            p.angaist_votes == 0,
    {
        Proposal {
            proposal_id,
            proposal_type,
            proposar,
            status: ProposalStatus::Pending,
            votes: AccountMap::new(),
            for_votes: 0,
            angaist_votes: 0,
        }
    }

}

/// What a proposal asks for. Amounts are in yoctoNEAR (a stake) or in NEAR
/// (the fees).
pub enum ProposalType {
    /// Admit a worker that deposited the given stake.
    AddWorker(AccountId, u128),
    RemoveWorker(AccountId),
    ChangeBaseFee(u128),
    ChangeStakeAmount(u128),
}

/// Where a proposal stands.
#[derive(Clone, Copy, Debug, PartialEq, Eq, Structural)]
pub enum ProposalStatus {
    Pending,
    Approved,
    Rejected,
}

/// A vote on a proposal.
#[derive(Clone, Copy, Debug, PartialEq, Eq, Structural)]
pub enum Vote {
    For,
    Against,
}

/// The proposals and the fees that governance sets; the admin, named by its
/// account id, executes proposals.
pub struct GovernanceState {
    pub proposals: Vec<Proposal>,
    /// Fee per epoch and per worker of a training request, in NEAR.
    pub base_fee: u128,
    pub admin: String,
    /// Least stake of a worker, in NEAR.
    pub staking_fee: u128,
}

} // verus!
