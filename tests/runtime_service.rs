use lightsync::runtime_service::{
    call_step, CallAction, CallEvent,
    find_storage_value, remove_metadata_length_prefix, BestBlock, BestBlockUpdate, CallSnapshot,
    CallStart, CoreVersion, LatestKnownRuntime, MetadataError, ProofVerifyError,
    RemoveMetadataLengthPrefixError, RuntimeCallError, StorageQueryError, SuccessfulRuntime,
};
use lightsync::scale::DecodeError;

/// A stand-in virtual machine: the code it was built from and its heap pages.
type Vm = (Vec<u8>, u64);

fn spec_of(code: &[u8]) -> CoreVersion {
    CoreVersion { spec_version: code[0] as u32, scale_encoded: code.to_vec() }
}

fn build(code: &Vec<u8>, pages: u64) -> Result<(Vm, CoreVersion), ()> {
    if code.is_empty() {
        Err(())
    } else {
        Ok(((code.clone(), pages), spec_of(code)))
    }
}

fn genesis(code: &[u8]) -> LatestKnownRuntime<Vm> {
    let c = Some(code.to_vec());
    let runtime = SuccessfulRuntime::from_params(&c, &None, build);
    LatestKnownRuntime::new(runtime, c, None, [0; 32], [9; 32], false)
}

fn block(n: u64) -> BestBlock {
    BestBlock { hash: [n as u8; 32], number: n, state_root: [50 + n as u8; 32] }
}

fn spec_version(r: &LatestKnownRuntime<Vm>) -> u32 {
    r.best_block_runtime().unwrap().spec_version
}

#[test]
fn genesis_start_without_upgrade() {
    let mut rt = genesis(&[1, 0xAA]);
    let mut matches = false;
    let update = rt.update_from_best_block(&mut matches, &block(1), true, Ok((Some(vec![1, 0xAA]), None)), build);
    assert_eq!(update, BestBlockUpdate::Unchanged);
    assert!(matches);
    assert_eq!(rt.runtime_block_hash, [1; 32]);
    assert_eq!(rt.runtime_block_height, 1);
    assert_eq!(rt.runtime_block_state_root, [51; 32]);
    assert!(rt.best_near_head_of_chain);
    assert_eq!(spec_version(&rt), 1);
}

#[test]
fn upgrade_detection() {
    let mut rt = genesis(&[1, 0xAA]);
    let mut matches = false;
    rt.update_from_best_block(&mut matches, &block(1), true, Ok((Some(vec![1, 0xAA]), None)), build);
    let update = rt.update_from_best_block(&mut matches, &block(2), true, Ok((Some(vec![2, 0xBB]), None)), build);
    assert_eq!(update, BestBlockUpdate::RuntimeChanged { log_upgrade: true });
    assert_eq!(rt.runtime_code, Some(vec![2, 0xBB]));
    assert_eq!(spec_version(&rt), 2);
    assert_eq!(rt.runtime_block_height, 2);
    let update = rt.update_from_best_block(&mut matches, &block(3), true, Ok((Some(vec![2, 0xBB]), None)), build);
    assert_eq!(update, BestBlockUpdate::Unchanged);
    assert_eq!(rt.runtime_block_height, 3);
}

#[test]
fn first_change_after_genesis_is_not_logged() {
    let mut rt = genesis(&[1]);
    let mut matches = false;
    let update = rt.update_from_best_block(&mut matches, &block(7), false, Ok((Some(vec![3]), None)), build);
    assert_eq!(update, BestBlockUpdate::RuntimeChanged { log_upgrade: false });
    assert!(matches);
    assert_eq!(spec_version(&rt), 3);
}

#[test]
fn heap_pages_change_rebuilds() {
    let mut rt = genesis(&[1]);
    let mut matches = true;
    let pages = Some(vec![0, 1, 0, 0, 0, 0, 0, 0]);
    let update = rt.update_from_best_block(&mut matches, &block(3), false, Ok((Some(vec![1]), pages.clone())), build);
    assert_eq!(update, BestBlockUpdate::RuntimeChanged { log_upgrade: true });
    assert_eq!(rt.heap_pages, pages);
    let vm = match &rt.runtime {
        Ok(r) => r.virtual_machine.clone().unwrap(),
        Err(()) => panic!("runtime expected"),
    };
    assert_eq!(vm.1, 256);
}

#[test]
fn invalid_new_runtime_is_kept_as_error() {
    let mut rt = genesis(&[1]);
    let mut matches = true;
    let update = rt.update_from_best_block(&mut matches, &block(3), false, Ok((None, None)), build);
    assert_eq!(update, BestBlockUpdate::RuntimeChanged { log_upgrade: true });
    assert!(rt.runtime.is_err());
    assert!(rt.best_block_runtime().is_err());
    assert!(matches!(rt.call_snapshot(), Err(RuntimeCallError::InvalidRuntime)));
    assert!(matches!(rt.cached_metadata(), Err(MetadataError::InvalidRuntime)));
}

#[test]
fn storage_failure_keeps_the_block() {
    let mut rt = genesis(&[1]);
    let mut matches = false;
    let update = rt.update_from_best_block(&mut matches, &block(4), true, Err(StorageQueryError { is_network_problem: true }), build);
    assert_eq!(update, BestBlockUpdate::StorageFailed { network_problem: true });
    assert_eq!(rt.runtime_block_height, 0);
    assert_eq!(rt.runtime_block_hash, [0; 32]);
    assert!(rt.best_near_head_of_chain);
    assert!(!matches);
}

#[test]
fn height_follows_monotonic_best_blocks() {
    let mut rt = genesis(&[1]);
    let mut matches = false;
    let mut last = 0;
    for n in [1u64, 2, 2, 5, 9] {
        let storage = if n == 5 { Err(StorageQueryError { is_network_problem: false }) } else { Ok((Some(vec![1]), None)) };
        rt.update_from_best_block(&mut matches, &block(n), false, storage, build);
        assert!(rt.runtime_block_height >= last);
        last = rt.runtime_block_height;
    }
    assert_eq!(last, 9);
}

#[test]
fn call_under_concurrent_upgrade() {
    let mut rt = genesis(&[1]);
    let mut matches = false;
    let snapshot = rt.call_snapshot().unwrap();
    assert_eq!(snapshot, CallSnapshot { spec_version: 1, block_hash: [0; 32], block_height: 0, block_state_root: [9; 32] });
    // The runtime is upgraded while the call proof is being fetched.
    rt.update_from_best_block(&mut matches, &block(6), true, Ok((Some(vec![2]), None)), build);
    assert!(matches!(rt.begin_call(&snapshot), Ok(CallStart::Restart)));
    let snapshot = rt.call_snapshot().unwrap();
    assert_eq!(snapshot.spec_version, 2);
    assert_eq!(snapshot.block_hash, [6; 32]);
    let vm = match rt.begin_call(&snapshot) {
        Ok(CallStart::Run(vm)) => vm,
        _ => panic!("the call should run"),
    };
    assert_eq!(vm.0, vec![2]);
    assert!(rt.runtime.as_ref().unwrap().virtual_machine.is_none());
    rt.end_call(vm);
    assert!(rt.runtime.as_ref().unwrap().virtual_machine.is_some());
    assert_eq!(spec_version(&rt), snapshot.spec_version);
}

#[test]
fn network_problem_classification() {
    assert!(RuntimeCallError::StorageRetrieval(ProofVerifyError::TrieRootNotFound).is_network_problem());
    assert!(!RuntimeCallError::StorageRetrieval(ProofVerifyError::Other("x".to_string())).is_network_problem());
    assert!(!RuntimeCallError::InvalidRuntime.is_network_problem());
    assert!(!RuntimeCallError::CallError("trap".to_string()).is_network_problem());
    assert!(!RuntimeCallError::StartError("x".to_string()).is_network_problem());
}

#[test]
fn metadata_prefix() {
    assert_eq!(remove_metadata_length_prefix(&[0x0C, 1, 2, 3]), Ok(&[1u8, 2, 3][..]));
    assert_eq!(remove_metadata_length_prefix(&[0x0C, 1, 2]), Err(RemoveMetadataLengthPrefixError::LengthMismatch));
    assert_eq!(
        remove_metadata_length_prefix(&[]),
        Err(RemoveMetadataLengthPrefixError::InvalidLength(DecodeError::NotEnoughBytes))
    );
}

#[test]
fn metadata_is_cached() {
    let mut rt = genesis(&[1]);
    assert!(matches!(rt.cached_metadata(), Ok(None)));
    let stored = rt.store_metadata(Ok(vec![0x08, 7, 7])).unwrap();
    assert_eq!(stored, vec![7, 7]);
    assert_eq!(rt.cached_metadata().unwrap(), Some(vec![7, 7]));
    assert!(matches!(rt.store_metadata(Ok(vec![0x08])), Err(MetadataError::MetadataDecode(_))));
    assert!(matches!(rt.store_metadata(Err(RuntimeCallError::InvalidRuntime)), Err(MetadataError::CallError(_))));
    assert_eq!(rt.cached_metadata().unwrap(), Some(vec![7, 7]));
}

#[test]
fn runtime_version_of_known_block() {
    let rt = genesis(&[4]);
    assert_eq!(rt.runtime_version_of_block(&[0; 32]).unwrap().unwrap().spec_version, 4);
    assert!(rt.runtime_version_of_block(&[1; 32]).is_none());
}

#[test]
fn near_head_heuristic() {
    let mut rt = genesis(&[1]);
    assert!(!rt.is_near_head_of_chain_heuristic(true));
    rt.best_near_head_of_chain = true;
    assert!(rt.is_near_head_of_chain_heuristic(true));
    assert!(!rt.is_near_head_of_chain_heuristic(false));
}

#[test]
fn genesis_storage_lookup() {
    let storage = vec![
        (b":heappages".to_vec(), vec![0, 1, 0, 0, 0, 0, 0, 0]),
        (b":code".to_vec(), vec![5, 6]),
        (b":code".to_vec(), vec![9]),
    ];
    assert_eq!(find_storage_value(&storage, b":code"), Some(vec![5, 6]));
    assert_eq!(find_storage_value(&storage, b":other"), None);
}

#[test]
fn runtime_from_params() {
    assert!(SuccessfulRuntime::from_params(&None, &None, build).is_err());
    assert!(SuccessfulRuntime::from_params(&Some(vec![1]), &Some(vec![1]), build).is_err());
    assert!(SuccessfulRuntime::from_params(&Some(vec![]), &None, build).is_err());
    let rt = SuccessfulRuntime::from_params(&Some(vec![3]), &None, build).ok().unwrap();
    assert_eq!(rt.runtime_spec.spec_version, 3);
    assert_eq!(rt.virtual_machine, Some((vec![3], 1024)));
    assert!(rt.metadata.is_none());
}

#[test]
fn runtime_call_steps() {
    let snapshot = CallSnapshot { spec_version: 1, block_hash: [2; 32], block_height: 5, block_state_root: [7; 32] };
    assert!(matches!(call_step(&snapshot, CallEvent::StorageRoot), CallAction::ResumeWithRoot(r) if r == [7; 32]));
    assert!(matches!(call_step(&snapshot, CallEvent::StorageGet(Ok(Some(vec![4])))), CallAction::InjectValue(Some(v)) if v == vec![4]));
    assert!(matches!(call_step(&snapshot, CallEvent::StorageGet(Ok(None))), CallAction::InjectValue(None)));
    assert!(matches!(
        call_step(&snapshot, CallEvent::StorageGet(Err(ProofVerifyError::TrieRootNotFound))),
        CallAction::Done(Err(RuntimeCallError::StorageRetrieval(ProofVerifyError::TrieRootNotFound)))
    ));
    assert!(matches!(call_step(&snapshot, CallEvent::Finished(Ok(vec![9]))), CallAction::Done(Ok(v)) if v == vec![9]));
    assert!(matches!(call_step(&snapshot, CallEvent::Finished(Err("trap".to_string()))), CallAction::Done(Err(RuntimeCallError::CallError(_)))));
    assert!(matches!(call_step(&snapshot, CallEvent::StartFailed("x".to_string())), CallAction::Done(Err(RuntimeCallError::StartError(_)))));
}
