use training_network::account::AccountId;
use training_network::block_scan::{requests_for_worker, ActionRecord, BlockError, CallRecord};
use training_network::indexer::{
    backoff_delay, elapsed_longer_than_timeout_at, is_elapsed_longer_than_timeout, supervise,
    AttemptEvent, ChainId, Indexer, Options, SupervisorAction, UnixTime,
};
use training_network::node_types::{LatestBlockHeight, ModelData, RequestArguments, RequestQueue};

fn acc(s: &str) -> AccountId {
    AccountId::parse(s).expect("valid account id")
}

fn options() -> Options {
    Options { start_block_height: 100, behind_threshold: 200, running_threshold: 300, chain_id: ChainId::Testnet }
}

fn md(d: &str, k: &[u8]) -> ModelData {
    ModelData { dataset: d.to_string(), compressed_secret_key: k.to_vec() }
}

#[test]
fn queue_keeps_each_request_once() {
    let mut q = RequestQueue::default();
    q.add_request(md("a", &[1]));
    q.add_request(md("b", &[1]));
    q.add_request(md("a", &[1]));
    q.add_request(md("a", &[2]));
    assert_eq!(q.requests, vec![md("a", &[1]), md("b", &[1]), md("a", &[2])]);
}

#[test]
fn latest_block_height_set() {
    let mut h = LatestBlockHeight { account_id: acc("worker.near"), block_height: 1 };
    let r = h.set(42);
    assert_eq!(r.block_height, 42);
    assert_eq!(h.block_height, 42);
    assert_eq!(h.account_id.as_str(), "worker.near");
}

#[test]
fn indexer_tracks_blocks() {
    let h = LatestBlockHeight { account_id: acc("worker.near"), block_height: 7 };
    let mut ix = Indexer::new(h, &options());
    assert_eq!(ix.latest_block_height(), 7);
    assert_eq!(ix.is_behind(), Some(true));
    assert_eq!(ix.latest_block_timestamp(), None);
    assert!(ix.is_running());
    assert!(ix.running_after(300_000_000_000));
    assert!(!ix.running_after(300_000_000_001));
    assert_eq!(ix.behind_timeout_ms(), 200_000);
    let now = UnixTime { secs: 10_000, nanos: 0 };
    assert!(ix.is_behind_at(now));
    ix.update_block_height_and_timestamp(9, 9_800 * 1_000_000_000);
    assert_eq!(ix.latest_block_height(), 9);
    assert!(!ix.is_behind_at(now));
    assert!(ix.is_behind_at(UnixTime { secs: 10_000, nanos: 1 }));
    ix.update_block_height_and_timestamp(10, 9_700 * 1_000_000_000 + 999_999_999);
    assert!(ix.is_behind_at(now));
    // a block from 1970 is far behind the system clock
    ix.update_block_height_and_timestamp(11, 1_000_000_000);
    assert_eq!(ix.latest_block_timestamp(), Some(1_000_000_000));
    assert_eq!(ix.is_behind(), Some(true));
}

#[test]
fn elapsed_timeout_boundaries() {
    let now = UnixTime { secs: 1_000, nanos: 0 };
    assert!(elapsed_longer_than_timeout_at(now, 0, 999_999));
    assert!(!elapsed_longer_than_timeout_at(now, 0, 1_000_000));
    assert!(elapsed_longer_than_timeout_at(UnixTime { secs: 1_000, nanos: 1 }, 0, 1_000_000));
    assert!(!elapsed_longer_than_timeout_at(now, 2_000, 0));
    // a timestamp that reads as a huge negative number of seconds is out of chrono's range
    assert!(!elapsed_longer_than_timeout_at(now, u64::MAX / 2 + 1, 0));
    assert_eq!(is_elapsed_longer_than_timeout(0, 1_000), Some(true));
    assert_eq!(is_elapsed_longer_than_timeout(i64::MAX as u64, 0), Some(false));
    // a timestamp chrono cannot represent needs no representable timeout
    assert_eq!(is_elapsed_longer_than_timeout(i64::MAX as u64, u64::MAX), Some(false));
    assert!(!elapsed_longer_than_timeout_at(now, i64::MAX as u64, u64::MAX));
}

#[test]
fn backoff_grows_and_is_capped() {
    assert_eq!(backoff_delay(0, 10, 3000), Some(10));
    assert_eq!(backoff_delay(3, 10, 3000), Some(80));
    assert_eq!(backoff_delay(9, 10, 3000), Some(3000));
    assert_eq!(backoff_delay(63, 1, u64::MAX), Some(1u64 << 63));
    assert_eq!(backoff_delay(63, 2, 10), None);
    assert_eq!(backoff_delay(64, 1, 1200), None);
}

#[test]
fn supervisor_decisions() {
    assert_eq!(supervise(1, AttemptEvent::BuildFailed), Some(SupervisorAction::Wait { secs: 20 }));
    assert_eq!(supervise(5, AttemptEvent::Started), Some(SupervisorAction::Wait { secs: 300 }));
    assert_eq!(supervise(2, AttemptEvent::Finished { clean: false }), Some(SupervisorAction::Wait { secs: 4 }));
    assert_eq!(supervise(2, AttemptEvent::Finished { clean: true }), Some(SupervisorAction::Stop));
    assert_eq!(supervise(70, AttemptEvent::Finished { clean: true }), Some(SupervisorAction::Stop));
    assert_eq!(supervise(70, AttemptEvent::BuildFailed), None);
}

fn args(cid: &str, workers: &[&str]) -> RequestArguments {
    RequestArguments {
        epochs: 1,
        dataset_cid: cid.to_string(),
        compressed_sk: vec![9],
        workers: workers.iter().map(|w| w.to_string()).collect(),
    }
}

fn call(receiver: &str, receipt: Option<bool>, method: &str, a: Option<RequestArguments>) -> ActionRecord {
    ActionRecord {
        receiver_id: receiver.to_string(),
        receipt,
        call: Some(CallRecord { method_name: method.to_string(), arguments: a }),
    }
}

#[test]
fn block_scan_picks_requests_for_worker() {
    let contract = acc("contract.near");
    let me = acc("me.near");
    let actions = vec![
        call("contract.near", Some(true), "add_request", Some(args("a", &["x.near", "me.near"]))),
        call("other.near", None, "add_request", Some(args("b", &["me.near"]))),
        call("contract.near", Some(false), "add_request", Some(args("c", &["me.near"]))),
        call("contract.near", Some(true), "add_worker", Some(args("d", &["me.near"]))),
        call("contract.near", Some(true), "add_request", None),
        call("contract.near", Some(true), "add_request", Some(args("e", &["x.near"]))),
        ActionRecord { receiver_id: "contract.near".to_string(), receipt: Some(true), call: None },
        call("contract.near", Some(true), "add_request", Some(args("f", &["me.near", "BAD"]))),
    ];
    let r = requests_for_worker(&actions, &contract, &me).expect("no error");
    assert_eq!(r, vec![ModelData { dataset: "a".to_string(), compressed_secret_key: vec![9] }, ModelData { dataset: "f".to_string(), compressed_secret_key: vec![9] }]);
}

#[test]
fn block_scan_errors() {
    let contract = acc("contract.near");
    let me = acc("me.near");
    let missing = vec![
        call("contract.near", Some(true), "add_request", Some(args("a", &["me.near"]))),
        call("contract.near", None, "add_request", Some(args("b", &["me.near"]))),
    ];
    assert_eq!(requests_for_worker(&missing, &contract, &me), Err(BlockError::MissingReceipt { action: 1 }));
    let invalid = vec![call("contract.near", Some(true), "add_request", Some(args("a", &["x.near", "BAD", "me.near"])))];
    assert_eq!(requests_for_worker(&invalid, &contract, &me), Err(BlockError::InvalidWorkerAccount { action: 0 }));
    assert_eq!(requests_for_worker(&Vec::new(), &contract, &me), Ok(Vec::new()));
}

#[test]
fn fresh_indexer_is_behind_for_any_threshold() {
    let h = LatestBlockHeight { account_id: acc("worker.near"), block_height: 3 };
    let o = Options { start_block_height: 3, behind_threshold: u64::MAX, running_threshold: 0, chain_id: ChainId::Mainnet };
    let ix = Indexer::new(h, &o);
    assert_eq!(ix.is_behind(), Some(true));
    assert!(ix.is_behind_at(UnixTime { secs: 0, nanos: 0 }));
}

#[test]
fn chrono_date_range_boundaries() {
    let first: i64 = -8_334_601_228_800;
    let last: i64 = 8_210_266_876_799;
    let late = UnixTime { secs: last + 1, nanos: 0 };
    assert!(elapsed_longer_than_timeout_at(late, last as u64, 0));
    assert!(!elapsed_longer_than_timeout_at(UnixTime { secs: last + 2, nanos: 0 }, (last + 1) as u64, 0));
    let now = UnixTime { secs: 0, nanos: 0 };
    assert!(elapsed_longer_than_timeout_at(now, first as u64, 0));
    assert!(!elapsed_longer_than_timeout_at(now, (first - 1) as u64, 0));
}
