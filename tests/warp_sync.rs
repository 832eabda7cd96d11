use lightsync::chain_info::{
    BabeConsensus, BabeEpochInformation, ChainInformation, ChainInformationFinality, Header,
    ValidChainInformation, ValidityError,
};
use lightsync::heap_pages::{storage_heap_pages_to_value, InvalidHeapPagesError};
use lightsync::warp_sync::{
    grandpa_warp_sync, BabeEpochToFetch, BabeFetchEpochQuery, Config, Error, Fragment,
    FragmentError, GrandpaWarpSync, GrandpaWarpSyncResponse, InProgressGrandpaWarpSync,
    Success, Verifier, VirtualMachineParamsGet, WarpSyncRequest,
};

fn header(n: u64) -> Header {
    Header { hash: [n as u8; 32], number: n, state_root: [100 + n as u8; 32], scale_encoded: vec![n as u8] }
}

fn finality(set_id: u64) -> ChainInformationFinality {
    ChainInformationFinality {
        after_finalized_block_authorities_set_id: set_id,
        finalized_triggered_authorities: Vec::new(),
        finalized_scheduled_change: None,
    }
}

fn epoch(index: u64) -> BabeEpochInformation {
    BabeEpochInformation { epoch_index: index, start_slot_number: Some(index * 10), authorities: Vec::new(), randomness: [0; 32] }
}

fn anchor() -> ValidChainInformation {
    ValidChainInformation::try_from(ChainInformation {
        finalized_block_header: header(0),
        finality: finality(0),
        consensus: BabeConsensus {
            finalized_block_epoch_information: None,
            finalized_next_epoch_transition: epoch(0),
            slots_per_epoch: 10,
        },
    })
    .ok()
    .unwrap()
}

fn batch(numbers: &[u64], is_finished: bool) -> GrandpaWarpSyncResponse {
    GrandpaWarpSyncResponse {
        fragments: numbers
            .iter()
            .map(|n| Fragment { header: header(*n), scale_encoded_justification: vec![1, 2] })
            .collect(),
        is_finished,
    }
}

fn start() -> InProgressGrandpaWarpSync<&'static str> {
    grandpa_warp_sync(Config { start_chain_information: anchor(), sources_capacity: 4 })
}

fn request(s: InProgressGrandpaWarpSync<&'static str>) -> WarpSyncRequest<&'static str> {
    match s {
        InProgressGrandpaWarpSync::WarpSyncRequest(r) => r,
        _ => panic!("expected a warp sync request"),
    }
}

fn verifier_state(s: InProgressGrandpaWarpSync<&'static str>) -> Verifier<&'static str> {
    match s {
        InProgressGrandpaWarpSync::Verifier(v) => v,
        _ => panic!("expected a verifier"),
    }
}

fn in_progress(s: GrandpaWarpSync<&'static str>) -> InProgressGrandpaWarpSync<&'static str> {
    match s {
        GrandpaWarpSync::InProgress(p) => p,
        GrandpaWarpSync::Finished(_) => panic!("expected the sync in progress"),
    }
}

/// Checks every fragment of the batch, the k-th giving finality `set_ids[k]`.
fn verify_all(mut v: Verifier<&'static str>, set_ids: &[u64]) -> InProgressGrandpaWarpSync<&'static str> {
    for (k, set_id) in set_ids.iter().enumerate() {
        let (state, result) = v.next(Ok(finality(*set_id)));
        assert!(result.is_ok());
        if k + 1 == set_ids.len() {
            return state;
        }
        v = verifier_state(state);
    }
    unreachable!()
}

/// Runs the runtime phase with the given epochs, from the params request.
fn run_runtime(params: VirtualMachineParamsGet<&'static str>, current: u64, next: u64) -> (GrandpaWarpSync<&'static str>, Option<Error>) {
    let (s, err) = params.set_virtual_machine_params(Some(vec![0, 97, 115, 109]), None);
    assert!(err.is_none());
    let query = match in_progress(s) {
        InProgressGrandpaWarpSync::EpochQuery(q) => q,
        _ => panic!("expected an epoch query"),
    };
    assert_eq!(query.epoch_to_fetch(), BabeEpochToFetch::CurrentEpoch);
    let (code, pages) = query.runtime_to_build().unwrap();
    assert_eq!(code, &vec![0, 97, 115, 109]);
    assert_eq!(pages, 1024);
    let (s, err) = query.start(Ok(BabeFetchEpochQuery::StorageGet(b":babe".to_vec())));
    assert!(err.is_none());
    let get = match in_progress(s) {
        InProgressGrandpaWarpSync::StorageGet(g) => g,
        _ => panic!("expected a storage request"),
    };
    assert_eq!(get.key(), b":babe");
    assert_eq!(get.key_as_vec(), b":babe".to_vec());
    let (s, err) = get.inject_value(BabeFetchEpochQuery::Finished(Ok(epoch(current))));
    assert!(err.is_none());
    let query = match in_progress(s) {
        InProgressGrandpaWarpSync::EpochQuery(q) => q,
        _ => panic!("expected an epoch query"),
    };
    assert_eq!(query.epoch_to_fetch(), BabeEpochToFetch::NextEpoch);
    assert!(query.runtime_to_build().is_none());
    query.start(Ok(BabeFetchEpochQuery::Finished(Ok(epoch(next)))))
}

fn success(s: (GrandpaWarpSync<&'static str>, Option<Error>)) -> Success<&'static str> {
    assert!(s.1.is_none());
    match s.0 {
        GrandpaWarpSync::Finished(success) => success,
        GrandpaWarpSync::InProgress(_) => panic!("expected the sync to be over"),
    }
}

fn params(s: InProgressGrandpaWarpSync<&'static str>) -> VirtualMachineParamsGet<&'static str> {
    match s {
        InProgressGrandpaWarpSync::VirtualMachineParamsGet(p) => p,
        _ => panic!("expected a params request"),
    }
}

#[test]
fn warp_sync_happy_path() {
    let waiting = match start() {
        InProgressGrandpaWarpSync::WaitingForSources(w) => w,
        _ => panic!("a new sync waits for sources"),
    };
    let req = waiting.add_source("a");
    let (id, data) = req.current_source();
    assert_eq!(*data, "a");
    assert_eq!(req.start_block_hash(), [0; 32]);
    let v = verifier_state(req.handle_response(Some(batch(&[1, 2, 3], true))));
    let (fragment, against) = v.next_fragment().unwrap();
    assert_eq!(fragment.header.number, 1);
    assert_eq!(against.after_finalized_block_authorities_set_id, 0);
    let p = params(verify_all(v, &[1, 2, 3]));
    assert_eq!(p.warp_sync_header().number, 3);
    assert_eq!(p.warp_sync_source().0, id);
    let done = success(run_runtime(p, 7, 8));
    let info = done.chain_information.as_ref();
    assert_eq!(info.finalized_block_header.hash, [3; 32]);
    assert_eq!(info.finality.after_finalized_block_authorities_set_id, 3);
    assert_eq!(info.consensus.slots_per_epoch, 10);
    assert_eq!(info.consensus.finalized_block_epoch_information.as_ref().unwrap().epoch_index, 7);
    assert_eq!(info.consensus.finalized_next_epoch_transition.epoch_index, 8);
    assert_eq!(done.sources, vec!["a"]);
}

#[test]
fn warp_sync_retry_with_second_source() {
    let waiting = match start() {
        InProgressGrandpaWarpSync::WaitingForSources(w) => w,
        _ => panic!("a new sync waits for sources"),
    };
    let mut req = waiting.add_source("a");
    let b = req.add_source("b");
    let v = verifier_state(req.handle_response(Some(batch(&[1, 2], true))));
    let (s, r) = v.next(Ok(finality(1)));
    assert!(r.is_ok());
    let (s, r) = verifier_state(s).next(Err(FragmentError::Verify("bad signature".to_string())));
    assert!(matches!(r, Err(FragmentError::Verify(_))));
    let req = request(s);
    assert_eq!(req.current_source().0, b);
    assert_eq!(*req.current_source().1, "b");
    let v = verifier_state(req.handle_response(Some(batch(&[1, 2], true))));
    let p = params(verify_all(v, &[1, 2]));
    let done = success(run_runtime(p, 1, 2));
    assert_eq!(done.sources, vec!["a", "b"]);
}

#[test]
fn warp_sync_waits_when_every_source_was_tried() {
    let waiting = match start() {
        InProgressGrandpaWarpSync::WaitingForSources(w) => w,
        _ => panic!("a new sync waits for sources"),
    };
    let req = waiting.add_source("a");
    let waiting = match req.handle_response(None) {
        InProgressGrandpaWarpSync::WaitingForSources(w) => w,
        _ => panic!("every source was tried"),
    };
    let req = waiting.add_source("c");
    assert_eq!(*req.current_source().1, "c");
    let state = InProgressGrandpaWarpSync::WarpSyncRequest(req);
    assert_eq!(state.sources().len(), 2);
}

#[test]
fn warp_sync_keeps_progress_after_a_failed_batch() {
    let waiting = match start() {
        InProgressGrandpaWarpSync::WaitingForSources(w) => w,
        _ => panic!("a new sync waits for sources"),
    };
    let mut req = waiting.add_source("a");
    req.add_source("b");
    let v = verifier_state(req.handle_response(Some(batch(&[4], false))));
    let req = request(verify_all(v, &[2]));
    assert_eq!(*req.current_source().1, "a");
    assert_eq!(req.start_block_hash(), [4; 32]);
    // The same source is asked again; its next batch fails.
    let v = verifier_state(req.handle_response(Some(batch(&[9], true))));
    let (fragment, against) = v.next_fragment().unwrap();
    assert_eq!(fragment.header.number, 9);
    assert_eq!(against.after_finalized_block_authorities_set_id, 2);
    let (s, r) = v.next(Err(FragmentError::Verify("bad".to_string())));
    assert!(r.is_err());
    let req = request(s);
    assert_eq!(*req.current_source().1, "b");
    assert_eq!(req.start_block_hash(), [4; 32]);
}

#[test]
fn warp_sync_empty_batch() {
    let waiting = match start() {
        InProgressGrandpaWarpSync::WaitingForSources(w) => w,
        _ => panic!("a new sync waits for sources"),
    };
    let v = verifier_state(waiting.add_source("a").handle_response(Some(batch(&[], true))));
    assert!(v.next_fragment().is_none());
    let (s, r) = v.next(Ok(finality(1)));
    assert!(matches!(r, Err(FragmentError::EmptyProof)));
    assert!(matches!(s, InProgressGrandpaWarpSync::WaitingForSources(_)));
}

fn reach_params(sources: &[&'static str]) -> VirtualMachineParamsGet<&'static str> {
    let waiting = match start() {
        InProgressGrandpaWarpSync::WaitingForSources(w) => w,
        _ => panic!("a new sync waits for sources"),
    };
    let mut req = waiting.add_source(sources[0]);
    for s in &sources[1..] {
        req.add_source(s);
    }
    let v = verifier_state(req.handle_response(Some(batch(&[5], true))));
    params(verify_all(v, &[1]))
}

#[test]
fn warp_sync_missing_code() {
    let p = reach_params(&["a", "b"]);
    let (s, err) = p.set_virtual_machine_params(None, None);
    assert!(matches!(err, Some(Error::MissingCode)));
    let req = request(in_progress(s));
    assert_eq!(*req.current_source().1, "b");
    assert_eq!(req.start_block_hash(), [0; 32]);
}

#[test]
fn warp_sync_invalid_heap_pages() {
    let p = reach_params(&["a"]);
    let (s, err) = p.set_virtual_machine_params(Some(vec![1]), Some(vec![1, 2, 3]));
    assert!(matches!(err, Some(Error::InvalidHeapPages(InvalidHeapPagesError::WrongLength))));
    assert!(matches!(in_progress(s), InProgressGrandpaWarpSync::WaitingForSources(_)));
}

#[test]
fn warp_sync_runtime_build_failure() {
    let p = reach_params(&["a"]);
    let (s, err) = p.set_virtual_machine_params(Some(vec![1]), Some(vec![0, 1, 0, 0, 0, 0, 0, 0]));
    assert!(err.is_none());
    let q = match in_progress(s) {
        InProgressGrandpaWarpSync::EpochQuery(q) => q,
        _ => panic!("expected an epoch query"),
    };
    assert_eq!(q.runtime_to_build().unwrap().1, 256);
    let (_, err) = q.start(Err("invalid wasm".to_string()));
    assert!(matches!(err, Some(Error::NewRuntime(_))));
}

#[test]
fn warp_sync_epoch_query_failure() {
    let p = reach_params(&["a"]);
    let (s, _) = p.set_virtual_machine_params(Some(vec![1]), None);
    let q = match in_progress(s) {
        InProgressGrandpaWarpSync::EpochQuery(q) => q,
        _ => panic!("expected an epoch query"),
    };
    let (s, err) = q.start(Ok(BabeFetchEpochQuery::Finished(Err("trap".to_string()))));
    assert!(matches!(err, Some(Error::BabeFetchEpoch(_))));
    assert!(matches!(in_progress(s), InProgressGrandpaWarpSync::WaitingForSources(_)));
}

#[test]
fn warp_sync_incoherent_epochs() {
    let p = reach_params(&["a"]);
    let (s, err) = run_runtime(p, 4, 6);
    assert!(matches!(err, Some(Error::InvalidChain(ValidityError::NonConsecutiveEpochs))));
    assert!(matches!(in_progress(s), InProgressGrandpaWarpSync::WaitingForSources(_)));
}

#[test]
fn warp_sync_next_key_request() {
    let p = reach_params(&["a"]);
    let (s, _) = p.set_virtual_machine_params(Some(vec![1]), None);
    let q = match in_progress(s) {
        InProgressGrandpaWarpSync::EpochQuery(q) => q,
        _ => panic!("expected an epoch query"),
    };
    let (s, err) = q.start(Ok(BabeFetchEpochQuery::NextKey(vec![1, 2])));
    assert!(err.is_none());
    let nk = match in_progress(s) {
        InProgressGrandpaWarpSync::NextKey(n) => n,
        _ => panic!("expected a next key request"),
    };
    assert_eq!(nk.key(), &[1, 2]);
    assert_eq!(nk.storage_root(), [105; 32]);
    assert_eq!(nk.warp_sync_header().number, 5);
    let (s, _) = nk.inject_key(BabeFetchEpochQuery::Finished(Ok(epoch(1))));
    assert!(matches!(in_progress(s), InProgressGrandpaWarpSync::EpochQuery(_)));
}

#[test]
fn remove_current_source_during_verification() {
    let waiting = match start() {
        InProgressGrandpaWarpSync::WaitingForSources(w) => w,
        _ => panic!("a new sync waits for sources"),
    };
    let mut req = waiting.add_source("a");
    let b = req.add_source("b");
    let v = verifier_state(req.handle_response(Some(batch(&[1, 2], true))));
    assert!(v.next_fragment().is_some());
    let state = InProgressGrandpaWarpSync::Verifier(v);
    let ids = state.sources();
    assert_eq!(ids.len(), 2);
    let (removed, state) = state.remove_source(ids[0]);
    assert_eq!(removed, "a");
    let req = request(state);
    assert_eq!(req.current_source().0, b);
}

#[test]
fn remove_other_source_keeps_state() {
    let p = reach_params(&["a", "b"]);
    let state = InProgressGrandpaWarpSync::VirtualMachineParamsGet(p);
    let ids = state.sources();
    let (removed, state) = state.remove_source(ids[1]);
    assert_eq!(removed, "b");
    let p = params(state);
    assert_eq!(p.warp_sync_header().number, 5);
    let state = InProgressGrandpaWarpSync::VirtualMachineParamsGet(p);
    assert_eq!(state.sources().len(), 1);
}

#[test]
fn remove_source_after_verification_starts_over() {
    let p = reach_params(&["a", "b"]);
    let state = InProgressGrandpaWarpSync::VirtualMachineParamsGet(p);
    let ids = state.sources();
    let (removed, state) = state.remove_source(ids[0]);
    assert_eq!(removed, "a");
    let req = request(state);
    assert_eq!(*req.current_source().1, "b");
    assert_eq!(req.start_block_hash(), [0; 32]);
}

#[test]
fn source_user_data_access() {
    let waiting = match start() {
        InProgressGrandpaWarpSync::WaitingForSources(w) => w,
        _ => panic!("a new sync waits for sources"),
    };
    let mut state = InProgressGrandpaWarpSync::WarpSyncRequest(waiting.add_source("a"));
    let id = state.sources()[0];
    assert_eq!(*state.source_user_data(id), "a");
    *state.source_user_data_mut(id) = "z";
    assert_eq!(*state.source_user_data(id), "z");
    assert_eq!(state.as_chain_information().as_ref().finalized_block_header.number, 0);
}

#[test]
fn chain_information_validity() {
    let bad = ChainInformation {
        finalized_block_header: header(1),
        finality: finality(0),
        consensus: BabeConsensus {
            finalized_block_epoch_information: Some(epoch(3)),
            finalized_next_epoch_transition: epoch(4),
            slots_per_epoch: 0,
        },
    };
    assert!(matches!(ValidChainInformation::try_from(bad), Err(ValidityError::ZeroSlotsPerEpoch)));
    let genesis_wrong = ChainInformation {
        finalized_block_header: header(0),
        finality: finality(0),
        consensus: BabeConsensus {
            finalized_block_epoch_information: None,
            finalized_next_epoch_transition: epoch(1),
            slots_per_epoch: 5,
        },
    };
    assert!(matches!(ValidChainInformation::try_from(genesis_wrong), Err(ValidityError::NonConsecutiveEpochs)));
}

#[test]
fn heap_pages_values() {
    assert_eq!(storage_heap_pages_to_value(None), Ok(1024));
    assert_eq!(storage_heap_pages_to_value(Some(&[0, 2, 0, 0, 0, 0, 0, 0])), Ok(512));
    assert_eq!(storage_heap_pages_to_value(Some(&[1, 0, 0, 0, 0, 0, 0, 1])), Ok(0x0100_0000_0000_0001));
    assert_eq!(storage_heap_pages_to_value(Some(&[1, 2])), Err(InvalidHeapPagesError::WrongLength));
}
