//! The record of the latest known runtime, and the decisions taken on it by
//! the task that follows the best block and by runtime calls.
//!
//! The record holds the compiled runtime of a recent best block, the raw
//! `:code` and `:heappages` it was built from, and the block it was last
//! seen at. The task that follows best blocks reports each new block and
//! the storage read at it to [`LatestKnownRuntime::update_from_best_block`],
//! which says whether the runtime changed. A runtime call takes a
//! [`CallSnapshot`], obtains a call proof without holding the record, and
//! then [`LatestKnownRuntime::begin_call`] says whether the runtime is still
//! the one of the snapshot.
use crate::heap_pages::{heap_pages_of, storage_heap_pages_to_value};
use crate::scale::{compact_decode, decode_scale_compact_usize, DecodeError};
use crate::warp_sync::opt_bytes;
use vstd::prelude::*;

verus! {

/// The version of a runtime: its SCALE-encoded description and the spec
/// version read from it.
pub struct CoreVersion {
    pub spec_version: u32,
    pub scale_encoded: Vec<u8>,
}

impl CoreVersion {
    /// A copy of the version.
    pub fn duplicate(&self) -> (r: CoreVersion)
        ensures
            r.spec_version == self.spec_version,
            r.scale_encoded@ == self.scale_encoded@,
    {
        let bytes = self.scale_encoded.clone();
        assert(bytes@ =~= self.scale_encoded@);
        CoreVersion { spec_version: self.spec_version, scale_encoded: bytes }
    }
}

/// A compiled runtime.
pub struct SuccessfulRuntime<TVm> {
    /// Metadata extracted from the runtime, once asked for.
    pub metadata: Option<Vec<u8>>,
    /// Version of the runtime.
    pub runtime_spec: CoreVersion,
    /// The virtual machine, ready for calls. Empty only while a call runs.
    pub virtual_machine: Option<TVm>,
}

/// Why a proof did not give a storage value.
#[derive(Debug)]
pub enum ProofVerifyError {
    /// The proof does not hold the trie root asked for.
    TrieRootNotFound,
    /// Any other problem, with its description.
    Other(String),
}

/// Error that can happen when calling a runtime function.
#[derive(Debug)]
pub enum RuntimeCallError {
    /// Error during the runtime call.
    CallError(String),
    /// Error initializing the runtime call.
    StartError(String),
    /// Runtime of the best block isn't valid.
    InvalidRuntime,
    /// Error while retrieving the storage item from other nodes.
    StorageRetrieval(ProofVerifyError),
}

impl RuntimeCallError {
    /// Returns `true` if this is caused by networking issues, as opposed to a
    /// consensus-related issue. A proof without the trie root asked for is
    /// taken as the remote not knowing the block.
    pub fn is_network_problem(&self) -> (r: bool)
        ensures
            r <==> (*self matches RuntimeCallError::StorageRetrieval(
                ProofVerifyError::TrieRootNotFound,
            )),
    {
        match self {
            RuntimeCallError::CallError(_) => false,
            RuntimeCallError::StartError(_) => false,
            RuntimeCallError::InvalidRuntime => false,
            RuntimeCallError::StorageRetrieval(ProofVerifyError::TrieRootNotFound) => true,
            RuntimeCallError::StorageRetrieval(_) => false,
        }
    }
}

/// Why the metadata held by a runtime's answer could not be read.
#[derive(Debug, Clone, Copy, PartialEq, Eq, Structural)]
pub enum RemoveMetadataLengthPrefixError {
    /// The length prefix is not a valid compact integer.
    InvalidLength(DecodeError),
    /// The length prefix does not match the length of what follows.
    LengthMismatch,
}

/// Error that can happen when obtaining the metadata.
#[derive(Debug)]
pub enum MetadataError {
    /// Error during the runtime call.
    CallError(RuntimeCallError),
    /// Runtime of the best block isn't valid.
    InvalidRuntime,
    /// Error while decoding metadata fetched from runtime.
    MetadataDecode(RemoveMetadataLengthPrefixError),
}

/// What the answer `b` of a metadata call holds: the bytes after the length
/// prefix, which must be exactly as long as the prefix says.
pub open spec fn metadata_of(b: Seq<u8>) -> Result<Seq<u8>, RemoveMetadataLengthPrefixError> {
    match compact_decode(b) {
        Err(e) => Err(RemoveMetadataLengthPrefixError::InvalidLength(e)),
        Ok((len, used)) => if b.len() - used != len {
            Err(RemoveMetadataLengthPrefixError::LengthMismatch)
        } else {
            Ok(b.subrange(used, b.len() as int))
        },
    }
}

/// Strips the length prefix off the answer of a metadata call.
pub fn remove_metadata_length_prefix(bytes: &[u8]) -> (r: Result<
    &[u8],
    RemoveMetadataLengthPrefixError,
>)
    ensures
        match r {
            Ok(m) => metadata_of(bytes@) == Ok::<Seq<u8>, RemoveMetadataLengthPrefixError>(m@),
            Err(e) => metadata_of(bytes@) == Err::<Seq<u8>, RemoveMetadataLengthPrefixError>(e),
        },
{
    match decode_scale_compact_usize(bytes) {
        Err(e) => Err(RemoveMetadataLengthPrefixError::InvalidLength(e)),
        Ok((len, used)) => {
            if bytes.len() - used != len {
                Err(RemoveMetadataLengthPrefixError::LengthMismatch)
            } else {
                Ok(vstd::slice::slice_subrange(bytes, used, bytes.len()))
            }
        },
    }
}

/// The value of the first entry of `storage` under `key`.
pub open spec fn storage_value_of(storage: Seq<(Vec<u8>, Vec<u8>)>, key: Seq<u8>) -> Option<
    Seq<u8>,
>
    decreases storage.len(),
{
    if storage.len() == 0 {
        None
    } else if storage[0].0@ == key {
        Some(storage[0].1@)
    } else {
        storage_value_of(storage.subrange(1, storage.len() as int), key)
    }
}

fn bytes_equal(a: &[u8], b: &[u8]) -> (r: bool)
    ensures
        r == (a@ == b@),
{
    if a.len() != b.len() {
        return false;
    }
    let mut i: usize = 0;
    while i < a.len()
        invariant
            i <= a@.len(),
            a@.len() == b@.len(),
            forall|j: int| 0 <= j < i ==> a@[j] == b@[j],
        decreases a.len() - i,
    {
        if a[i] != b[i] {
            return false;
        }
        i = i + 1;
    }
    assert(a@ =~= b@);
    true
}

fn optional_bytes_equal(a: &Option<Vec<u8>>, b: &Option<Vec<u8>>) -> (r: bool)
    ensures
        r == (opt_bytes(*a) == opt_bytes(*b)),
{
    match (a, b) {
        (Some(x), Some(y)) => bytes_equal(x.as_slice(), y.as_slice()),
        (None, None) => true,
        _ => false,
    }
}

/// Looks `key` up in a list of storage entries, such as a genesis storage.
pub fn find_storage_value(storage: &Vec<(Vec<u8>, Vec<u8>)>, key: &[u8]) -> (r: Option<Vec<u8>>)
    ensures
        opt_bytes(r) == storage_value_of(storage@, key@),
{
    let mut i: usize = 0;
    assert(storage@.subrange(0, storage@.len() as int) =~= storage@);
    while i < storage.len()
        invariant
            i <= storage@.len(),
            storage_value_of(storage@.subrange(i as int, storage@.len() as int), key@)
                == storage_value_of(storage@, key@),
        decreases storage.len() - i,
    {
        let ghost rest = storage@.subrange(i as int, storage@.len() as int);
        assert(rest.subrange(1, rest.len() as int) =~= storage@.subrange(
            i + 1,
            storage@.len() as int,
        ));
        if bytes_equal(storage[i].0.as_slice(), key) {
            let v = storage[i].1.clone();
            assert(v@ =~= storage@[i as int].1@);
            return Some(v);
        }
        i = i + 1;
    }
    None
}

impl<TVm> SuccessfulRuntime<TVm> {
    /// Builds a runtime from the `:code` and `:heappages` storage values:
    /// without code, or with refused heap pages, there is no runtime;
    /// otherwise `build` compiles the code with that many heap pages and
    /// reads the runtime's version, or fails.
    pub fn from_params<F: FnOnce(&Vec<u8>, u64) -> Result<(TVm, CoreVersion), ()>>(
        code: &Option<Vec<u8>>,
        heap_pages: &Option<Vec<u8>>,
        build: F,
    ) -> (r: Result<Self, ()>)
        requires
            forall|c: &Vec<u8>, p: u64| #[trigger] build.requires((c, p)),
        ensures
            code is None ==> r is Err,
            heap_pages_of(opt_bytes(*heap_pages)) is Err ==> r is Err,
            code is Some && heap_pages_of(opt_bytes(*heap_pages)) is Ok ==> exists|
                out: Result<(TVm, CoreVersion), ()>,
            |
                {
                    &&& #[trigger] build.ensures(
                        (&code.unwrap(), heap_pages_of(opt_bytes(*heap_pages)).unwrap()),
                        out,
                    )
                    &&& match out {
                        Err(()) => r is Err,
                        Ok((vm, spec)) => r matches Ok(rt) && rt.metadata is None
                            && rt.runtime_spec == spec && rt.virtual_machine == Some(vm),
                    }
                },
    {
        let code = match code {
            Some(c) => c,
            None => return Err(()),
        };
        let pages = match heap_pages {
            Some(v) => storage_heap_pages_to_value(Some(v.as_slice())),
            None => storage_heap_pages_to_value(None),
        };
        let pages = match pages {
            Ok(p) => p,
            Err(_) => return Err(()),
        };
        match build(code, pages) {
            Ok((vm, runtime_spec)) => Ok(
                SuccessfulRuntime { metadata: None, runtime_spec, virtual_machine: Some(vm) },
            ),
            Err(()) => Err(()),
        }
    }
}

/// What the task that follows best blocks knows of a new best block.
pub struct BestBlock {
    pub hash: [u8; 32],
    pub number: u64,
    pub state_root: [u8; 32],
}

/// Why `:code` and `:heappages` could not be read at a block.
pub struct StorageQueryError {
    /// Whether the failure comes from the network rather than from the
    /// answer's content.
    pub is_network_problem: bool,
}

/// The height the record holds after a best-block update: the block's, when
/// its storage could be read.
pub open spec fn tracked_height(before: u64, block_number: u64, storage_read: bool) -> u64 {
    if storage_read {
        block_number
    } else {
        before
    }
}

/// Following best blocks whose heights never decrease, starting at or above
/// the record's height, the record's height never decreases.
/// `heights[i]` is the record's height before update `i`, of the block of
/// height `numbers[i]` whose storage was read when `read[i]` holds.
pub proof fn lemma_height_monotonic(numbers: Seq<u64>, read: Seq<bool>, heights: Seq<u64>)
    requires
        read.len() == numbers.len(),
        heights.len() == numbers.len() + 1,
        numbers.len() > 0 ==> heights[0] <= numbers[0],
        forall|i: int| 0 <= i < numbers.len() - 1 ==> #[trigger] numbers[i] <= numbers[i + 1],
        forall|i: int|
            0 <= i < numbers.len() ==> #[trigger] heights[i + 1] == tracked_height(
                heights[i],
                numbers[i],
                read[i],
            ),
    ensures
        forall|i: int, j: int| 0 <= i <= j < heights.len() ==> heights[i] <= heights[j],
{
    assert forall|k: int| 0 <= k < heights.len() - 1 implies #[trigger] heights[k] <= heights[k
        + 1] by {
        lemma_height_below_block(numbers, read, heights, k);
    }
    assert forall|i: int, j: int| 0 <= i <= j < heights.len() implies heights[i] <= heights[j] by {
        lemma_sorted(heights, i, j);
    }
}

/// Before update `i`, the record's height is at most the height of the
/// block of that update.
proof fn lemma_height_below_block(numbers: Seq<u64>, read: Seq<bool>, heights: Seq<u64>, i: int)
    requires
        read.len() == numbers.len(),
        heights.len() == numbers.len() + 1,
        0 <= i < numbers.len(),
        heights[0] <= numbers[0],
        forall|k: int| 0 <= k < numbers.len() - 1 ==> #[trigger] numbers[k] <= numbers[k + 1],
        forall|k: int|
            0 <= k < numbers.len() ==> #[trigger] heights[k + 1] == tracked_height(
                heights[k],
                numbers[k],
                read[k],
            ),
    ensures
        heights[i] <= numbers[i],
        forall|j: int| i <= j < numbers.len() ==> heights[i] <= #[trigger] numbers[j],
    decreases i,
{
    if i > 0 {
        lemma_height_below_block(numbers, read, heights, i - 1);
        assert(heights[i] == tracked_height(heights[i - 1], numbers[i - 1], read[i - 1]));
        assert(numbers[i - 1] <= numbers[i]);
    }
    assert forall|j: int| i <= j < numbers.len() implies heights[i] <= #[trigger] numbers[j] by {
        lemma_sorted(numbers, i, j);
    }
}

proof fn lemma_sorted(s: Seq<u64>, i: int, j: int)
    requires
        0 <= i <= j < s.len(),
        forall|k: int| 0 <= k < s.len() - 1 ==> #[trigger] s[k] <= s[k + 1],
    ensures
        s[i] <= s[j],
    decreases j - i,
{
    if i < j {
        lemma_sorted(s, i, j - 1);
        assert(s[j - 1] <= s[j]);
    }
}

/// What a best-block update did to the runtime.
#[derive(Debug, Clone, Copy, PartialEq, Eq, Structural)]
pub enum BestBlockUpdate {
    /// The storage could not be read: nothing but the best block's
    /// heuristic was updated. The failure is to be logged at debug level
    /// when it comes from the network, else as a warning.
    StorageFailed { network_problem: bool },
    /// `:code` and `:heappages` did not change: nobody is to be notified.
    Unchanged,
    /// They changed and the runtime was rebuilt: the version subscribers are
    /// to be notified. `log_upgrade` says whether to log the upgrade, which
    /// is done only once the runtime was known to match the best block.
    RuntimeChanged { log_upgrade: bool },
}

/// The latest known runtime and the block it was last seen at.
pub struct LatestKnownRuntime<TVm> {
    /// The compiled runtime, or `Err` if it could not be built.
    pub runtime: Result<SuccessfulRuntime<TVm>, ()>,
    /// Storage value of `:code` the runtime was built from.
    pub runtime_code: Option<Vec<u8>>,
    /// Storage value of `:heappages` the runtime was built from.
    pub heap_pages: Option<Vec<u8>>,
    /// Hash of a recent block known to use this runtime.
    pub runtime_block_hash: [u8; 32],
    /// Height of that block.
    pub runtime_block_height: u64,
    /// Storage trie root of that block.
    pub runtime_block_state_root: [u8; 32],
    /// Whether the sync was near the head of the chain at the last best
    /// block update.
    pub best_near_head_of_chain: bool,
}

/// The two records hold the same block and storage values.
pub open spec fn same_block<TVm>(a: LatestKnownRuntime<TVm>, b: LatestKnownRuntime<TVm>) -> bool {
    &&& a.runtime_code == b.runtime_code
    &&& a.heap_pages == b.heap_pages
    &&& a.runtime_block_hash == b.runtime_block_hash
    &&& a.runtime_block_height == b.runtime_block_height
    &&& a.runtime_block_state_root == b.runtime_block_state_root
    &&& a.best_near_head_of_chain == b.best_near_head_of_chain
}

/// What [`LatestKnownRuntime::begin_call`] does, from record `before` to
/// record `after` with result `r`.
pub open spec fn call_began<TVm>(
    before: LatestKnownRuntime<TVm>,
    snapshot: CallSnapshot,
    r: Result<CallStart<TVm>, RuntimeCallError>,
    after: LatestKnownRuntime<TVm>,
) -> bool {
    &&& same_block(before, after)
    &&& match before.runtime {
        Err(()) => r matches Err(RuntimeCallError::InvalidRuntime) && after.runtime
            == before.runtime,
        Ok(rt) => if rt.runtime_spec.spec_version != snapshot.spec_version {
            r matches Ok(CallStart::Restart) && after.runtime == before.runtime
        } else {
            &&& r == Ok::<CallStart<TVm>, RuntimeCallError>(
                CallStart::Run(rt.virtual_machine.unwrap()),
            )
            &&& after.runtime matches Ok(now)
            &&& now.runtime_spec == rt.runtime_spec
            &&& now.metadata == rt.metadata
            &&& now.virtual_machine is None
        },
    }
}

/// What [`LatestKnownRuntime::end_call`] does: the virtual machine is back.
pub open spec fn call_ended<TVm>(
    before: LatestKnownRuntime<TVm>,
    vm: TVm,
    after: LatestKnownRuntime<TVm>,
) -> bool {
    &&& same_block(before, after)
    &&& match (before.runtime, after.runtime) {
        (Ok(b), Ok(a)) => a.runtime_spec == b.runtime_spec && a.metadata == b.metadata
            && a.virtual_machine == Some(vm),
        _ => false,
    }
}

/// A call that runs uses a runtime of the snapshot's spec version, and the
/// record the caller holds once the virtual machine is given back still has
/// that spec version.
pub proof fn lemma_call_consistency<TVm>(
    snapshot: CallSnapshot,
    record: LatestKnownRuntime<TVm>,
    vm: TVm,
    during: LatestKnownRuntime<TVm>,
    vm_back: TVm,
    after: LatestKnownRuntime<TVm>,
)
    requires
        call_began(record, snapshot, Ok(CallStart::Run(vm)), during),
        call_ended(during, vm_back, after),
    ensures
        after.runtime matches Ok(rt) && rt.runtime_spec.spec_version == snapshot.spec_version,
{
}

/// What a runtime call reads of the record before asking for a call proof.
#[derive(Debug, Clone, Copy, PartialEq, Eq)]
pub struct CallSnapshot {
    pub spec_version: u32,
    pub block_hash: [u8; 32],
    pub block_height: u64,
    pub block_state_root: [u8; 32],
}

/// What a runtime call does once it holds the record again.
pub enum CallStart<TVm> {
    /// The runtime changed since the snapshot: take a new one and start over.
    Restart,
    /// The runtime is the one of the snapshot: here is its virtual machine,
    /// to be given back with [`LatestKnownRuntime::end_call`].
    Run(TVm),
}

impl<TVm> LatestKnownRuntime<TVm> {
    /// The record at genesis: `runtime`, built from `code` and `heap_pages`
    /// of the genesis storage, at height 0.
    pub fn new(
        runtime: Result<SuccessfulRuntime<TVm>, ()>,
        runtime_code: Option<Vec<u8>>,
        heap_pages: Option<Vec<u8>>,
        genesis_block_hash: [u8; 32],
        genesis_block_state_root: [u8; 32],
        best_near_head_of_chain: bool,
    ) -> (r: Self)
        ensures
            r.runtime == runtime,
            r.runtime_code == runtime_code,
            r.heap_pages == heap_pages,
            r.runtime_block_hash == genesis_block_hash,
            r.runtime_block_height == 0,
            r.runtime_block_state_root == genesis_block_state_root,
            r.best_near_head_of_chain == best_near_head_of_chain,
    {
        LatestKnownRuntime {
            runtime,
            runtime_code,
            heap_pages,
            runtime_block_hash: genesis_block_hash,
            runtime_block_height: 0,
            runtime_block_state_root: genesis_block_state_root,
            best_near_head_of_chain,
        }
    }

    /// The version of the runtime, or `Err` if it is invalid.
    pub fn best_block_runtime(&self) -> (r: Result<CoreVersion, ()>)
        ensures
            match self.runtime {
                Ok(rt) => r matches Ok(v) && v.spec_version == rt.runtime_spec.spec_version
                    && v.scale_encoded@ == rt.runtime_spec.scale_encoded@,
                Err(()) => r is Err,
            },
    {
        match &self.runtime {
            Ok(rt) => Ok(rt.runtime_spec.duplicate()),
            Err(()) => Err(()),
        }
    }

    /// The version of block `block_hash` when it is the block the record was
    /// last seen at; `None` if it is another block, whose runtime must then
    /// be read from the network.
    pub fn runtime_version_of_block(&self, block_hash: &[u8; 32]) -> (r: Option<
        Result<CoreVersion, ()>,
    >)
        ensures
            *block_hash != self.runtime_block_hash ==> r is None,
            *block_hash == self.runtime_block_hash ==> match self.runtime {
                Ok(rt) => r matches Some(Ok(v)) && v.spec_version == rt.runtime_spec.spec_version
                    && v.scale_encoded@ == rt.runtime_spec.scale_encoded@,
                Err(()) => r matches Some(Err(_)),
            },
    {
        if bytes_equal(block_hash.as_slice(), self.runtime_block_hash.as_slice()) {
            proof {
                assert forall|i: int| 0 <= i < 32 implies block_hash[i]
                    == self.runtime_block_hash[i] by {
                    vstd::array::lemma_array_index(*block_hash, i);
                    vstd::array::lemma_array_index(self.runtime_block_hash, i);
                }
                assert(*block_hash =~= self.runtime_block_hash);
            }
            Some(self.best_block_runtime())
        } else {
            assert(block_hash@ != self.runtime_block_hash@);
            None
        }
    }

    /// Whether the node is believed to be near the head of the chain: the
    /// sync service must think so now, and must have thought so at the last
    /// best block this record reported.
    pub fn is_near_head_of_chain_heuristic(&self, sync_service_near: bool) -> (r: bool)
        ensures
            r == (sync_service_near && self.best_near_head_of_chain),
    {
        sync_service_near && self.best_near_head_of_chain
    }

    /// Takes a new best block into account, with the `:code` and
    /// `:heappages` values read at it (in that order) and whether the sync
    /// is near the head of the chain. `matches_best_block` is the follower's
    /// flag telling whether the runtime was known to match the best block;
    /// `build` compiles a runtime as [`SuccessfulRuntime::from_params`]
    /// describes, and is called only when the storage values changed.
    pub fn update_from_best_block<F: FnOnce(&Vec<u8>, u64) -> Result<(TVm, CoreVersion), ()>>(
        &mut self,
        matches_best_block: &mut bool,
        block: &BestBlock,
        near_head_of_chain: bool,
        storage: Result<(Option<Vec<u8>>, Option<Vec<u8>>), StorageQueryError>,
        build: F,
    ) -> (r: BestBlockUpdate)
        requires
            forall|c: &Vec<u8>, p: u64| #[trigger] build.requires((c, p)),
        ensures
            final(self).best_near_head_of_chain == near_head_of_chain,
            final(self).runtime_block_height == tracked_height(
                old(self).runtime_block_height,
                block.number,
                storage is Ok,
            ),
            match storage {
                Err(e) => {
                    &&& r == BestBlockUpdate::StorageFailed {
                        network_problem: e.is_network_problem,
                    }
                    &&& *final(matches_best_block) == *old(matches_best_block)
                    &&& final(self).runtime == old(self).runtime
                    &&& final(self).runtime_code == old(self).runtime_code
                    &&& final(self).heap_pages == old(self).heap_pages
                    &&& final(self).runtime_block_hash == old(self).runtime_block_hash
                    &&& final(self).runtime_block_height == old(self).runtime_block_height
                    &&& final(self).runtime_block_state_root == old(
                        self,
                    ).runtime_block_state_root
                },
                Ok((code, pages)) => {
                    &&& final(self).runtime_block_hash == block.hash
                    &&& final(self).runtime_block_height == block.number
                    &&& final(self).runtime_block_state_root == block.state_root
                    &&& *final(matches_best_block)
                    &&& opt_bytes(final(self).runtime_code) == opt_bytes(code)
                    &&& opt_bytes(final(self).heap_pages) == opt_bytes(pages)
                    &&& if opt_bytes(code) == opt_bytes(old(self).runtime_code) && opt_bytes(pages)
                        == opt_bytes(old(self).heap_pages) {
                        &&& r == BestBlockUpdate::Unchanged
                        &&& final(self).runtime == old(self).runtime
                        &&& final(self).runtime_code == old(self).runtime_code
                        &&& final(self).heap_pages == old(self).heap_pages
                    } else {
                        &&& r == BestBlockUpdate::RuntimeChanged {
                            log_upgrade: *old(matches_best_block),
                        }
                        &&& final(self).runtime_code == code
                        &&& final(self).heap_pages == pages
                        &&& (code is None ==> final(self).runtime is Err)
                        &&& (heap_pages_of(opt_bytes(pages)) is Err ==> final(self).runtime is Err)
                        &&& (code is Some && heap_pages_of(opt_bytes(pages)) is Ok ==> exists|
                            out: Result<(TVm, CoreVersion), ()>,
                        |
                            {
                                &&& #[trigger] build.ensures(
                                    (&code.unwrap(), heap_pages_of(opt_bytes(pages)).unwrap()),
                                    out,
                                )
                                &&& match out {
                                    Err(()) => final(self).runtime is Err,
                                    Ok((vm, spec)) => final(self).runtime matches Ok(rt)
                                        && rt.metadata is None && rt.runtime_spec == spec
                                        && rt.virtual_machine == Some(vm),
                                }
                            })
                    }
                },
            },
    {
        self.best_near_head_of_chain = near_head_of_chain;
        let (new_code, new_heap_pages) = match storage {
            Err(error) => {
                return BestBlockUpdate::StorageFailed { network_problem: error.is_network_problem };
            },
            Ok(values) => values,
        };
        // The block is always updated, so that calls run against a recent
        // state even when the runtime did not change.
        self.runtime_block_hash = block.hash;
        self.runtime_block_height = block.number;
        self.runtime_block_state_root = block.state_root;
        if optional_bytes_equal(&new_code, &self.runtime_code) && optional_bytes_equal(
            &new_heap_pages,
            &self.heap_pages,
        ) {
            *matches_best_block = true;
            return BestBlockUpdate::Unchanged;
        }
        let log_upgrade = *matches_best_block;
        *matches_best_block = true;
        self.runtime = SuccessfulRuntime::from_params(&new_code, &new_heap_pages, build);
        self.runtime_code = new_code;
        self.heap_pages = new_heap_pages;
        BestBlockUpdate::RuntimeChanged { log_upgrade }
    }

    /// What a runtime call reads before asking for a call proof: the spec
    /// version and the block of the record, or `InvalidRuntime`.
    pub fn call_snapshot(&self) -> (r: Result<CallSnapshot, RuntimeCallError>)
        ensures
            match self.runtime {
                Err(()) => r matches Err(RuntimeCallError::InvalidRuntime),
                Ok(rt) => r == Ok::<CallSnapshot, RuntimeCallError>(
                    CallSnapshot {
                        spec_version: rt.runtime_spec.spec_version,
                        block_hash: self.runtime_block_hash,
                        block_height: self.runtime_block_height,
                        block_state_root: self.runtime_block_state_root,
                    },
                ),
            },
    {
        match &self.runtime {
            Err(()) => Err(RuntimeCallError::InvalidRuntime),
            Ok(rt) => Ok(
                CallSnapshot {
                    spec_version: rt.runtime_spec.spec_version,
                    block_hash: self.runtime_block_hash,
                    block_height: self.runtime_block_height,
                    block_state_root: self.runtime_block_state_root,
                },
            ),
        }
    }

    /// Once the call proof is there: `InvalidRuntime`, or a restart if the
    /// spec version is no longer the snapshot's, or the virtual machine,
    /// taken out of the record until [`LatestKnownRuntime::end_call`].
    pub fn begin_call(&mut self, snapshot: &CallSnapshot) -> (r: Result<
        CallStart<TVm>,
        RuntimeCallError,
    >)
        requires
            old(self).runtime matches Ok(rt) ==> rt.virtual_machine is Some,
        ensures
            call_began(*old(self), *snapshot, r, *final(self)),
    {
        match &mut self.runtime {
            Err(()) => Err(RuntimeCallError::InvalidRuntime),
            Ok(rt) => {
                if rt.runtime_spec.spec_version != snapshot.spec_version {
                    return Ok(CallStart::Restart);
                }
                match rt.virtual_machine.take() {
                    Some(vm) => Ok(CallStart::Run(vm)),
                    None => vstd::pervasive::unreached(),
                }
            },
        }
    }

    /// Gives the virtual machine back after a call, whatever its outcome.
    pub fn end_call(&mut self, vm: TVm)
        requires
            old(self).runtime is Ok,
        ensures
            call_ended(*old(self), vm, *final(self)),
    {
        match &mut self.runtime {
            Ok(rt) => {
                rt.virtual_machine = Some(vm);
            },
            Err(()) => {},
        }
    }

    /// The metadata kept in the record: `InvalidRuntime`, or the metadata if
    /// it was already extracted, or `None`.
    pub fn cached_metadata(&self) -> (r: Result<Option<Vec<u8>>, MetadataError>)
        ensures
            match self.runtime {
                Err(()) => r matches Err(MetadataError::InvalidRuntime),
                Ok(rt) => match rt.metadata {
                    Some(m) => r matches Ok(Some(v)) && v@ == m@,
                    None => r matches Ok(None),
                },
            },
    {
        match &self.runtime {
            Err(()) => Err(MetadataError::InvalidRuntime),
            Ok(rt) => match &rt.metadata {
                Some(m) => {
                    let v = m.clone();
                    assert(v@ =~= m@);
                    Ok(Some(v))
                },
                None => Ok(None),
            },
        }
    }

    /// Takes the answer of the metadata call made while the record was held:
    /// the metadata it holds is kept in the record and returned.
    pub fn store_metadata(&mut self, call_result: Result<Vec<u8>, RuntimeCallError>) -> (r: Result<
        Vec<u8>,
        MetadataError,
    >)
        ensures
            final(self).runtime_code == old(self).runtime_code,
            final(self).heap_pages == old(self).heap_pages,
            final(self).runtime_block_hash == old(self).runtime_block_hash,
            final(self).runtime_block_height == old(self).runtime_block_height,
            final(self).runtime_block_state_root == old(self).runtime_block_state_root,
            final(self).best_near_head_of_chain == old(self).best_near_head_of_chain,
            match call_result {
                Err(e) => r == Err::<Vec<u8>, MetadataError>(MetadataError::CallError(e))
                    && final(self).runtime == old(self).runtime,
                Ok(answer) => match metadata_of(answer@) {
                    Err(e) => r == Err::<Vec<u8>, MetadataError>(MetadataError::MetadataDecode(e))
                        && final(self).runtime == old(self).runtime,
                    Ok(m) => {
                        &&& r matches Ok(v) && v@ == m
                        &&& match old(self).runtime {
                            Err(()) => final(self).runtime == old(self).runtime,
                            Ok(before) => match final(self).runtime {
                                Ok(now) => {
                                    &&& now.runtime_spec == before.runtime_spec
                                    &&& now.virtual_machine == before.virtual_machine
                                    &&& now.metadata matches Some(kept) && kept@ == m
                                },
                                Err(()) => false,
                            },
                        }
                    },
                },
            },
    {
        let answer = match call_result {
            Err(e) => return Err(MetadataError::CallError(e)),
            Ok(answer) => answer,
        };
        match remove_metadata_length_prefix(answer.as_slice()) {
            Err(e) => Err(MetadataError::MetadataDecode(e)),
            Ok(metadata) => {
                let kept = vstd::slice::slice_to_vec(metadata);
                let returned = vstd::slice::slice_to_vec(metadata);
                match &mut self.runtime {
                    Ok(rt) => {
                        rt.metadata = Some(kept);
                    },
                    Err(()) => {},
                }
                Ok(returned)
            },
        }
    }
}


/// Where a runtime call, run on the virtual machine taken by
/// [`LatestKnownRuntime::begin_call`], stopped.
pub enum CallEvent {
    /// The call could not start, for the reason given.
    StartFailed(String),
    /// The call ended: its return value, or why it failed.
    Finished(Result<Vec<u8>, String>),
    /// The call needs a storage value; this is what the call proof gives for
    /// the key, checked against the snapshot's state root.
    StorageGet(Result<Option<Vec<u8>>, ProofVerifyError>),
    /// The call needs the storage root.
    StorageRoot,
}

/// What to do with a runtime call that stopped.
pub enum CallAction {
    /// Give the call this storage value and run it on.
    InjectValue(Option<Vec<u8>>),
    /// Give the call this storage root and run it on.
    ResumeWithRoot([u8; 32]),
    /// The call is over: give the virtual machine back with
    /// [`LatestKnownRuntime::end_call`] and return this result.
    Done(Result<Vec<u8>, RuntimeCallError>),
}

/// Decides what a runtime call made under `snapshot` does when it stops at
/// `event`. Storage is read from the call proof at the snapshot's state
/// root; a value the proof cannot give ends the call with
/// `StorageRetrieval`.
pub fn call_step(snapshot: &CallSnapshot, event: CallEvent) -> (r: CallAction)
    ensures
        match event {
            CallEvent::StartFailed(e) => r == CallAction::Done(
                Err(RuntimeCallError::StartError(e)),
            ),
            CallEvent::Finished(Ok(v)) => r == CallAction::Done(Ok(v)),
            CallEvent::Finished(Err(e)) => r == CallAction::Done(
                Err(RuntimeCallError::CallError(e)),
            ),
            CallEvent::StorageGet(Ok(value)) => r == CallAction::InjectValue(value),
            CallEvent::StorageGet(Err(e)) => r == CallAction::Done(
                Err(RuntimeCallError::StorageRetrieval(e)),
            ),
            CallEvent::StorageRoot => r == CallAction::ResumeWithRoot(snapshot.block_state_root),
        },
{
    match event {
        CallEvent::StartFailed(e) => CallAction::Done(Err(RuntimeCallError::StartError(e))),
        CallEvent::Finished(Ok(v)) => CallAction::Done(Ok(v)),
        CallEvent::Finished(Err(e)) => CallAction::Done(Err(RuntimeCallError::CallError(e))),
        CallEvent::StorageGet(Ok(value)) => CallAction::InjectValue(value),
        CallEvent::StorageGet(Err(e)) => CallAction::Done(Err(RuntimeCallError::StorageRetrieval(e))),
        CallEvent::StorageRoot => CallAction::ResumeWithRoot(snapshot.block_state_root),
    }
}

} // verus!
