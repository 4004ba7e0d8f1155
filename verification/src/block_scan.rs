//! Picking, out of a block's actions, the training requests addressed to
//! this node's worker.

use vstd::prelude::*;

use crate::account::{is_valid_account_id, AccountId};
use crate::node_types::{ModelData, RequestArguments};

verus! {

/// A function call made by an action.
pub struct CallRecord {
    pub method_name: String,
    /// The call's arguments read as `add_request` arguments; `None` when they
    /// are not such arguments.
    pub arguments: Option<RequestArguments>,
}

/// What the node reads of an action in a block.
pub struct ActionRecord {
    /// The account the action is addressed to.
    pub receiver_id: String,
    /// The outcome of the action's receipt: `None` when the block holds no
    /// receipt for it, `Some(true)` when it succeeded with a receipt id,
    /// `Some(false)` for any other outcome.
    pub receipt: Option<bool>,
    /// The function call it makes, if it makes one.
    pub call: Option<CallRecord>,
}

/// Why a block could not be handled; `action` is the position of the action
/// at fault.
#[derive(Clone, Copy, Debug, PartialEq, Eq, Structural)]
pub enum BlockError {
    /// The block holds no receipt for the action.
    MissingReceipt { action: usize },
    /// A worker named in the action's arguments is not a valid account id.
    InvalidWorkerAccount { action: usize },
}

/// Looks for `worker` among `ws` in order: `Some(true)` when it is found,
/// `Some(false)` when it is not, `None` when a name that is not a valid
/// account id comes before it.
pub open spec fn worker_lookup(ws: Seq<String>, worker: Seq<char>) -> Option<bool>
    decreases ws.len(),
{
    if ws.len() == 0 {
        Some(false)
    } else if !is_valid_account_id(ws[0]@) {
        None
    } else if ws[0]@ == worker {
        Some(true)
    } else {
        worker_lookup(ws.drop_first(), worker)
    }
}

/// What the node takes from action `a`, at position `idx`: a request for the
/// worker, nothing, or an error.
pub open spec fn action_outcome(a: ActionRecord, idx: usize, contract: Seq<char>, worker: Seq<char>) -> Result<
    Option<(Seq<char>, Seq<u8>)>,
    BlockError,
> {
    if a.receiver_id@ != contract {
        Ok(None)
    } else {
        match a.receipt {
            None => Err(BlockError::MissingReceipt { action: idx }),
            Some(success) => {
                if !success {
                    Ok(None)
                } else {
                    match a.call {
                        None => Ok(None),
                        Some(c) => {
                            if c.method_name@ != "add_request"@ {
                                Ok(None)
                            } else {
                                match c.arguments {
                                    None => Ok(None),
                                    Some(args) => match worker_lookup(args.workers@, worker) {
                                        None => Err(BlockError::InvalidWorkerAccount { action: idx }),
                                        Some(found) => if found {
                                            Ok(Some((args.dataset_cid@, args.compressed_sk@)))
                                        } else {
                                            Ok(None)
                                        },
                                    },
                                }
                            }
                        },
                    }
                }
            },
        }
    }
}

/// The requests for `worker` among the actions from position `from` on, in
/// order, or the first error.
pub open spec fn block_requests(
    actions: Seq<ActionRecord>,
    from: int,
    contract: Seq<char>,
    worker: Seq<char>,
) -> Result<Seq<(Seq<char>, Seq<u8>)>, BlockError>
    decreases actions.len() - from,
{
    if from < 0 || from >= actions.len() {
        Ok(Seq::empty())
    } else {
        match action_outcome(actions[from], from as usize, contract, worker) {
            Err(e) => Err(e),
            Ok(o) => match block_requests(actions, from + 1, contract, worker) {
                Err(e) => Err(e),
                Ok(rest) => match o {
                    Some(m) => Ok(seq![m] + rest),
                    None => Ok(rest),
                },
            },
        }
    }
}

/// Looking a worker up among names is a membership test: a hit names exactly
/// the worker; a miss means no name is the worker; `None` means some name is
/// not a valid account id. Among valid names the lookup answers whether the
/// worker is one of them.
pub proof fn lemma_worker_lookup_is_membership(ws: Seq<String>, worker: Seq<char>)
    ensures
        worker_lookup(ws, worker) == Some(true) ==> exists|i: int| 0 <= i < ws.len() && #[trigger] ws[i]@ == worker,
        worker_lookup(ws, worker) == Some(false) ==> forall|i: int| 0 <= i < ws.len() ==> #[trigger] ws[i]@ != worker,
        worker_lookup(ws, worker) is None ==> exists|i: int|
            0 <= i < ws.len() && !is_valid_account_id(#[trigger] ws[i]@),
        (forall|i: int| 0 <= i < ws.len() ==> is_valid_account_id(#[trigger] ws[i]@)) ==> worker_lookup(ws, worker)
            == Some(exists|i: int| 0 <= i < ws.len() && #[trigger] ws[i]@ == worker),
    decreases ws.len(),
{
    if ws.len() > 0 {
        let rest = ws.drop_first();
        lemma_worker_lookup_is_membership(rest, worker);
        assert forall|i: int| 0 <= i < rest.len() implies #[trigger] rest[i] == ws[i + 1] by {}
        if worker_lookup(ws, worker) == Some(true) {
            if ws[0]@ != worker {
                let i = choose|i: int| 0 <= i < rest.len() && #[trigger] rest[i]@ == worker;
                assert(ws[i + 1]@ == worker);
            }
        }
        if worker_lookup(ws, worker) == Some(false) {
            assert forall|i: int| 0 <= i < ws.len() implies #[trigger] ws[i]@ != worker by {
                if i > 0 {
                    assert(rest[i - 1]@ != worker);
                }
            }
        }
        if worker_lookup(ws, worker) is None {
            if is_valid_account_id(ws[0]@) {
                let i = choose|i: int| 0 <= i < rest.len() && !is_valid_account_id(#[trigger] rest[i]@);
                assert(!is_valid_account_id(ws[i + 1]@));
            }
        }
        if forall|i: int| 0 <= i < ws.len() ==> is_valid_account_id(#[trigger] ws[i]@) {
            assert forall|i: int| 0 <= i < rest.len() implies is_valid_account_id(#[trigger] rest[i]@) by {
                assert(is_valid_account_id(ws[i + 1]@));
            }
            if ws[0]@ != worker {
                assert((exists|i: int| 0 <= i < ws.len() && #[trigger] ws[i]@ == worker) == (exists|
                    i: int,
                | 0 <= i < rest.len() && #[trigger] rest[i]@ == worker)) by {
                    if exists|i: int| 0 <= i < ws.len() && #[trigger] ws[i]@ == worker {
                        let i = choose|i: int| 0 <= i < ws.len() && #[trigger] ws[i]@ == worker;
                        assert(rest[i - 1]@ == worker);
                    }
                    if exists|i: int| 0 <= i < rest.len() && #[trigger] rest[i]@ == worker {
                        let i = choose|i: int| 0 <= i < rest.len() && #[trigger] rest[i]@ == worker;
                        assert(ws[i + 1]@ == worker);
                    }
                }
            } else {
                assert(ws[0]@ == worker);
            }
        }
    }
}

/// Action `a` is a successful `add_request` call on `contract` whose worker
/// list names `worker`, and `m` is the dataset and secret it carries.
pub open spec fn is_request_for(a: ActionRecord, contract: Seq<char>, worker: Seq<char>, m: (Seq<char>, Seq<u8>)) -> bool {
    &&& a.receiver_id@ == contract
    &&& a.receipt == Some(true)
    &&& a.call is Some
    &&& a.call.unwrap().method_name@ == "add_request"@
    &&& a.call.unwrap().arguments is Some
    &&& exists|j: int|
        0 <= j < a.call.unwrap().arguments.unwrap().workers@.len()
            && #[trigger] a.call.unwrap().arguments.unwrap().workers@[j]@ == worker
    &&& m == (a.call.unwrap().arguments.unwrap().dataset_cid@, a.call.unwrap().arguments.unwrap().compressed_sk@)
}

/// Every request picked from a block comes from an action, at or after
/// `from`, that is a successful `add_request` call on the contract naming
/// the worker, and carries that call's dataset and secret.
pub proof fn lemma_picked_requests_are_for_worker(
    actions: Seq<ActionRecord>,
    from: int,
    contract: Seq<char>,
    worker: Seq<char>,
)
    requires
        0 <= from,
    ensures
        block_requests(actions, from, contract, worker) is Ok ==> {
            let s = block_requests(actions, from, contract, worker)->Ok_0;
            forall|k: int|
                #![trigger s[k]]
                0 <= k < s.len() ==> exists|i: int|
                    from <= i < actions.len() && is_request_for(#[trigger] actions[i], contract, worker, s[k])
        },
    decreases actions.len() - from,
{
    if from < actions.len() {
        lemma_picked_requests_are_for_worker(actions, from + 1, contract, worker);
        let a = actions[from];
        match block_requests(actions, from, contract, worker) {
            Ok(s) => {
                let rest = block_requests(actions, from + 1, contract, worker)->Ok_0;
                match action_outcome(a, from as usize, contract, worker) {
                    Ok(Some(m)) => {
                        let args = a.call.unwrap().arguments.unwrap();
                        lemma_worker_lookup_is_membership(args.workers@, worker);
                        assert(s == seq![m] + rest);
                        assert(is_request_for(a, contract, worker, m));
                        assert forall|k: int| #![trigger s[k]] 0 <= k < s.len() implies exists|i: int|
                            from <= i < actions.len() && is_request_for(#[trigger] actions[i], contract, worker, s[k]) by {
                            if k == 0 {
                                assert(is_request_for(actions[from], contract, worker, s[0]));
                            } else {
                                assert(s[k] == rest[k - 1]);
                            }
                        }
                    },
                    _ => {
                        assert(s == rest);
                    },
                }
            },
            Err(_) => {},
        }
    }
}

/// `acc` followed by what `r` holds, or `r`'s error.
pub open spec fn prepend_requests(
    acc: Seq<(Seq<char>, Seq<u8>)>,
    r: Result<Seq<(Seq<char>, Seq<u8>)>, BlockError>,
) -> Result<Seq<(Seq<char>, Seq<u8>)>, BlockError> {
    match r {
        Ok(s) => Ok(acc + s),
        Err(e) => Err(e),
    }
}

/// Looks for `worker` among the workers named in `ws`.
fn find_worker(ws: &Vec<String>, worker: &AccountId) -> (r: Option<bool>)
    ensures
        r == worker_lookup(ws@, worker@),
{
    let mut i: usize = 0;
    assert(ws@.skip(0) =~= ws@);
    while i < ws.len()
        invariant
            i <= ws@.len(),
            worker_lookup(ws@, worker@) == worker_lookup(ws@.skip(i as int), worker@),
        decreases ws@.len() - i,
    {
        let ghost rest = ws@.skip(i as int);
        assert(rest[0] == ws@[i as int]);
        assert(rest.drop_first() =~= ws@.skip(i + 1));
        match AccountId::parse(ws[i].as_str()) {
            None => {
                return None;
            },
            Some(a) => {
                if a.same(worker) {
                    return Some(true);
                }
            },
        }
        i = i + 1;
    }
    assert(ws@.skip(i as int).len() == 0);
    Some(false)
}

/// What the node takes from one action.
fn scan_action(a: &ActionRecord, idx: usize, contract: &AccountId, worker: &AccountId) -> (r: Result<
    Option<ModelData>,
    BlockError,
>)
    ensures
        match action_outcome(*a, idx, contract@, worker@) {
            Err(e) => r == Err::<Option<ModelData>, BlockError>(e),
            Ok(None) => r == Ok::<Option<ModelData>, BlockError>(None),
            Ok(Some(m)) => r matches Ok(Some(d)) && d@ == m,
        },
{
    if !contract.equals_text(&a.receiver_id) {
        return Ok(None);
    }
    match a.receipt {
        None => Err(BlockError::MissingReceipt { action: idx }),
        Some(success) => {
            if !success {
                return Ok(None);
            }
            match &a.call {
                None => Ok(None),
                Some(c) => {
                    let name = "add_request".to_owned();
                    if c.method_name != name {
                        return Ok(None);
                    }
                    match &c.arguments {
                        None => Ok(None),
                        Some(args) => match find_worker(&args.workers, worker) {
                            None => Err(BlockError::InvalidWorkerAccount { action: idx }),
                            Some(found) => {
                                if found {
                                    Ok(
                                        Some(
                                            ModelData {
                                                dataset: args.dataset_cid.clone(),
                                                compressed_secret_key: args.compressed_sk.clone(),
                                            },
                                        ),
                                    )
                                } else {
                                    Ok(None)
                                }
                            },
                        },
                    }
                },
            }
        },
    }
}

/// The training requests in a block for `worker`, in the order of the
/// actions: calls of `add_request` on `contract` whose receipt succeeded, whose
/// arguments parse and whose workers include `worker`. Fails on the first
/// action addressed to `contract` with no receipt in the block, and on the
/// first such call that names an invalid worker account before naming
/// `worker`.
pub fn requests_for_worker(actions: &Vec<ActionRecord>, contract: &AccountId, worker: &AccountId) -> (r:
    Result<Vec<ModelData>, BlockError>)
    ensures
        match block_requests(actions@, 0, contract@, worker@) {
            Err(e) => r == Err::<Vec<ModelData>, BlockError>(e),
            Ok(s) => r matches Ok(v) && v@.map_values(|d: ModelData| d@) == s,
        },
{
    let mut found: Vec<ModelData> = Vec::new();
    let mut i: usize = 0;
    while i < actions.len()
        invariant
            i <= actions@.len(),
            block_requests(actions@, 0, contract@, worker@) == prepend_requests(
                found@.map_values(|d: ModelData| d@),
                block_requests(actions@, i as int, contract@, worker@),
            ),
        decreases actions@.len() - i,
    {
        let ghost before = found@.map_values(|d: ModelData| d@);
        match scan_action(&actions[i], i, contract, worker) {
            Err(e) => {
                return Err(e);
            },
            Ok(None) => {},
            Ok(Some(d)) => {
                found.push(d);
                assert(found@.map_values(|d: ModelData| d@) =~= before.push(d@));
            },
        }
        proof {
            let after = found@.map_values(|d: ModelData| d@);
            match block_requests(actions@, i + 1, contract@, worker@) {
                Ok(rest) => {
                    match action_outcome(actions@[i as int], i, contract@, worker@) {
                        Ok(Some(m)) => {
                            assert(before + (seq![m] + rest) =~= after + rest);
                        },
                        _ => {},
                    }
                },
                Err(_) => {},
            }
        }
        i = i + 1;
    }
    assert(found@.map_values(|d: ModelData| d@) + Seq::empty() =~= found@.map_values(|d: ModelData| d@));
    Ok(found)
}

} // verus!
