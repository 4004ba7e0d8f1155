//! The node's own records: the block height it has indexed, and the queue of
//! training requests addressed to its worker account.

use vstd::prelude::*;

use crate::account::AccountId;

verus! {

/// The latest block height that the node has seen, and the worker account
/// that it runs as.
pub struct LatestBlockHeight {
    pub account_id: AccountId,
    pub block_height: u64,
}

impl LatestBlockHeight {
    /// Records `block_height` as the latest height.
    pub fn set(&mut self, block_height: u64) -> (r: &mut Self)
        ensures
            r.block_height == block_height,
            r.account_id == old(self).account_id,
            *final(self) == *final(r),
    {
        self.block_height = block_height;
        self
    }
}

/// A dataset to train on, as the node receives it.
#[derive(Debug, PartialEq, Eq, Hash)]
pub struct ModelData {
    /// Content id of the dataset (IPFS).
    pub dataset: String,
    /// The compressed serialized secret of the client.
    pub compressed_secret_key: Vec<u8>,
}

impl View for ModelData {
    type V = (Seq<char>, Seq<u8>);

    open spec fn view(&self) -> (Seq<char>, Seq<u8>) {
        (self.dataset@, self.compressed_secret_key@)
    }
}

impl Clone for ModelData {
    fn clone(&self) -> (r: Self)
        ensures
            r@ == self@,
    {
        ModelData {
            dataset: self.dataset.clone(),
            compressed_secret_key: self.compressed_secret_key.clone(),
        }
    }
}

impl ModelData {
    /// Whether two records hold the same dataset and secret.
    pub fn same(&self, other: &ModelData) -> (b: bool)
        ensures
            b == (self@ == other@),
    {
        if self.dataset != other.dataset {
            return false;
        }
        let a = &self.compressed_secret_key;
        let c = &other.compressed_secret_key;
        if a.len() != c.len() {
            return false;
        }
        let mut i: usize = 0;
        while i < a.len()
            invariant
                i <= a@.len(),
                a@ == self@.1,
                c@ == other@.1,
                a@.len() == c@.len(),
                forall|j: int| 0 <= j < i ==> a@[j] == c@[j],
            decreases a@.len() - i,
        {
            if a[i] != c[i] {
                assert(self@.1[i as int] != other@.1[i as int]);
                return false;
            }
            i = i + 1;
        }
        assert(a@ =~= c@);
        true
    }
}

/// The training requests waiting for this node, each once.
pub struct RequestQueue {
    pub requests: Vec<ModelData>,
}

impl View for RequestQueue {
    type V = Set<(Seq<char>, Seq<u8>)>;

    open spec fn view(&self) -> Set<(Seq<char>, Seq<u8>)> {
        Set::new(
            |m: (Seq<char>, Seq<u8>)|
                exists|i: int| 0 <= i < self.requests@.len() && #[trigger] self.requests@[i]@ == m,
        )
    }
}

impl RequestQueue {
    /// No request is queued twice.
    pub open spec fn wf(&self) -> bool {
        forall|i: int, j: int|
            0 <= i < self.requests@.len() && 0 <= j < self.requests@.len() && i != j
                ==> #[trigger] self.requests@[i]@ != #[trigger] self.requests@[j]@
    }

    /// Queues `request` unless the same request is already queued.
    pub fn add_request(&mut self, request: ModelData)
        ensures
            final(self)@ == old(self)@.insert(request@),
            old(self).wf() ==> final(self).wf(),
    {
        let mut i: usize = 0;
        while i < self.requests.len()
            invariant
                i <= self.requests@.len(),
                forall|j: int| 0 <= j < i ==> self.requests@[j]@ != request@,
            decreases self.requests@.len() - i,
        {
            if self.requests[i].same(&request) {
                proof {
                    assert(old(self)@.contains(request@));
                    assert(old(self)@.insert(request@) =~= old(self)@);
                }
                return;
            }
            i = i + 1;
        }
        let ghost m = request@;
        self.requests.push(request);
        proof {
            assert forall|k: (Seq<char>, Seq<u8>)|
                self@.contains(k) == old(self)@.insert(m).contains(k) by {
                if old(self)@.contains(k) {
                    let j = choose|j: int| 0 <= j < old(self).requests@.len() && #[trigger] old(self).requests@[j]@ == k;
                    assert(self.requests@[j]@ == k);
                }
                if k == m {
                    assert(self.requests@[old(self).requests@.len() as int]@ == k);
                }
                if self@.contains(k) && k != m {
                    let j = choose|j: int| 0 <= j < self.requests@.len() && #[trigger] self.requests@[j]@ == k;
                    assert(old(self).requests@[j]@ == k);
                }
            }
            assert(self@ =~= old(self)@.insert(m));
        }
    }
}

impl Default for RequestQueue {
    fn default() -> (q: Self)
        ensures
            q@ == Set::<(Seq<char>, Seq<u8>)>::empty(),
            q.wf(),
    {
        let q = RequestQueue { requests: Vec::new() };
        assert(q@ =~= Set::<(Seq<char>, Seq<u8>)>::empty());
        q
    }
}

/// The arguments of a call of the contract's `add_request`.
#[derive(Debug, PartialEq, Eq)]
pub struct RequestArguments {
    pub epochs: u32,
    pub dataset_cid: String,
    pub compressed_sk: Vec<u8>,
    pub workers: Vec<String>,
}

impl View for RequestArguments {
    type V = (u32, Seq<char>, Seq<u8>, Seq<Seq<char>>);

    open spec fn view(&self) -> (u32, Seq<char>, Seq<u8>, Seq<Seq<char>>) {
        (
            self.epochs,
            self.dataset_cid@,
            self.compressed_sk@,
            self.workers@.map_values(|w: String| w@),
        )
    }
}

impl Clone for RequestArguments {
    fn clone(&self) -> (r: Self)
        ensures
            r@ == self@,
    {
        let r = RequestArguments {
            epochs: self.epochs,
            dataset_cid: self.dataset_cid.clone(),
            compressed_sk: self.compressed_sk.clone(),
            workers: self.workers.clone(),
        };
        assert(r.workers@.map_values(|w: String| w@) =~= self.workers@.map_values(|w: String| w@));
        r
    }
}

} // verus!
