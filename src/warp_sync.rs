//! GRANDPA warp sync.
//!
//! Starting from a trusted chain information, the machine asks sources for
//! batches of finality fragments, has each fragment checked, asks for the
//! runtime of the last header reached, has the BABE epochs read from that
//! runtime, and ends with a validated [`ChainInformation`].
//!
//! Each variant of [`InProgressGrandpaWarpSync`] is a point where the caller
//! has work to do: fetch a batch, check a fragment against an authority set,
//! read storage, build the runtime and run an epoch query on it. The caller
//! reports the result through the variant's methods and gets the next state.
//! Every decision (which source to ask, what is kept when a batch fails,
//! when the sync is over) is taken here.
use crate::chain_info::{
    BabeConsensus, BabeEpochInformation, ChainInformation, ChainInformationFinality, Header,
    ValidChainInformation, ValidityError, validity_of,
};
use crate::heap_pages::{heap_pages_of, storage_heap_pages_to_value, InvalidHeapPagesError};
use crate::sources::{
    all_tried, first_untried, marked_tried, present_user_data, slot_present, slot_untried, Source,
    Sources,
};
use vstd::prelude::*;

verus! {

/// Identifier of a source of the state machine.
#[derive(Debug, Copy, Clone, PartialEq, Eq, Structural, Hash, PartialOrd, Ord)]
pub struct SourceId(usize);

impl SourceId {
    /// The slot of the source.
    pub closed spec fn index(self) -> usize {
        self.0
    }
}

/// Problem met while running the runtime of the warp-synced block.
#[derive(Debug)]
pub enum Error {
    /// The storage holds no `:code`.
    MissingCode,
    /// The `:heappages` value is refused.
    InvalidHeapPages(InvalidHeapPagesError),
    /// The epoch query failed, with the reason given.
    BabeFetchEpoch(String),
    /// The runtime could not be built, with the reason given.
    NewRuntime(String),
    /// Parameters produced by the runtime are incoherent.
    InvalidChain(ValidityError),
}

/// Why a fragment was refused.
#[derive(Debug)]
pub enum FragmentError {
    /// The batch holds no fragment.
    EmptyProof,
    /// The fragment does not verify, with the reason given.
    Verify(String),
}

/// The configuration for [`grandpa_warp_sync`].
pub struct Config {
    /// The chain information of the starting point of the warp syncing.
    pub start_chain_information: ValidChainInformation,
    /// The initial capacity of the list of sources.
    pub sources_capacity: usize,
}

/// A finality fragment: a header that changes the authority set, and the
/// justification signed by the previous set.
pub struct Fragment {
    pub header: Header,
    pub scale_encoded_justification: Vec<u8>,
}

/// A batch of fragments sent by a source.
pub struct GrandpaWarpSyncResponse {
    pub fragments: Vec<Fragment>,
    /// `true` if this is the last batch.
    pub is_finished: bool,
}

/// Which epoch an epoch query reads.
#[derive(Debug, Copy, Clone, PartialEq, Eq, Structural)]
pub enum BabeEpochToFetch {
    CurrentEpoch,
    NextEpoch,
}

/// Where an epoch query run on the runtime stopped. A request for the
/// storage root is not reported: the caller resumes the query with the
/// state root that `storage_root` of the current state gives.
pub enum BabeFetchEpochQuery {
    /// The query ended: the epoch, or why it failed.
    Finished(Result<BabeEpochInformation, String>),
    /// The query needs the storage value of this key.
    StorageGet(Vec<u8>),
    /// The query needs the key that follows this one.
    NextKey(Vec<u8>),
}

/// The result of a successful warp sync.
pub struct Success<TSrc> {
    /// The synced chain information.
    pub chain_information: ValidChainInformation,
    /// The user data of the sources that were in the state machine at the
    /// end, in the order in which they were added.
    pub sources: Vec<TSrc>,
}

/// The GRANDPA warp sync state machine.
pub enum GrandpaWarpSync<TSrc> {
    /// Warp syncing is over.
    Finished(Success<TSrc>),
    /// Warp syncing is in progress.
    InProgress(InProgressGrandpaWarpSync<TSrc>),
}

/// Warp syncing in progress, by what is needed to continue.
pub enum InProgressGrandpaWarpSync<TSrc> {
    /// Loading a storage value is required in order to continue.
    StorageGet(StorageGet<TSrc>),
    /// Fetching the key that follows a given one is required in order to continue.
    NextKey(NextKey<TSrc>),
    /// Verifying the warp sync response is required to continue.
    Verifier(Verifier<TSrc>),
    /// Requesting GRANDPA warp sync data from a source is required to continue.
    WarpSyncRequest(WarpSyncRequest<TSrc>),
    /// Fetching the parameters for the virtual machine is required to continue.
    VirtualMachineParamsGet(VirtualMachineParamsGet<TSrc>),
    /// Starting an epoch query on the runtime is required to continue.
    EpochQuery(EpochQuery<TSrc>),
    /// Adding more sources of GRANDPA warp sync data to is required to continue.
    WaitingForSources(WaitingForSources<TSrc>),
}

/// Loading a storage value is required in order to continue.
pub struct StorageGet<TSrc> {
    key: Vec<u8>,
    fetched_current_epoch: Option<BabeEpochInformation>,
    state: PostVerificationState<TSrc>,
}

/// Fetching the key that follows a given one is required in order to continue.
pub struct NextKey<TSrc> {
    key: Vec<u8>,
    fetched_current_epoch: Option<BabeEpochInformation>,
    state: PostVerificationState<TSrc>,
}

/// Verifying the warp sync response is required to continue.
pub struct Verifier<TSrc> {
    fragments: Vec<Fragment>,
    /// Position of the next fragment to check.
    next_index: usize,
    /// Finality after the fragments of this batch checked so far; `None`
    /// before the first.
    batch_finality: Option<ChainInformationFinality>,
    start_chain_information: ValidChainInformation,
    warp_sync_source_id: SourceId,
    sources: Sources<TSrc>,
    final_set_of_fragments: bool,
    previous_verifier_values: Option<(Header, ChainInformationFinality)>,
}

/// Requesting GRANDPA warp sync data from a source is required to continue.
pub struct WarpSyncRequest<TSrc> {
    source_id: SourceId,
    sources: Sources<TSrc>,
    start_chain_information: ValidChainInformation,
    previous_verifier_values: Option<(Header, ChainInformationFinality)>,
}

/// Fetching the parameters for the virtual machine is required to continue.
pub struct VirtualMachineParamsGet<TSrc> {
    state: PostVerificationState<TSrc>,
}

/// Starting an epoch query on the runtime is required to continue. For the
/// current epoch the runtime is first built from the code and heap pages
/// that [`EpochQuery::runtime_to_build`] gives.
pub struct EpochQuery<TSrc> {
    epoch_to_fetch: BabeEpochToFetch,
    runtime_to_build: Option<(Vec<u8>, u64)>,
    fetched_current_epoch: Option<BabeEpochInformation>,
    state: PostVerificationState<TSrc>,
}

/// Adding more sources of GRANDPA warp sync data to is required to continue.
pub struct WaitingForSources<TSrc> {
    /// List of sources. They have all been tried.
    sources: Sources<TSrc>,
    start_chain_information: ValidChainInformation,
    previous_verifier_values: Option<(Header, ChainInformationFinality)>,
}

/// What is known once every fragment has been checked.
struct PostVerificationState<TSrc> {
    header: Header,
    chain_information_finality: ChainInformationFinality,
    start_chain_information: ValidChainInformation,
    sources: Sources<TSrc>,
    warp_sync_source_id: SourceId,
}

/// `r` is the state in which the next untried source of `slots` gets a
/// request, or, when every source was tried, the wait for a new one; either
/// way with `slots`, the anchor `start` and the accepted `previous` values.
pub open spec fn restarted<TSrc>(
    r: InProgressGrandpaWarpSync<TSrc>,
    slots: Seq<Option<Source<TSrc>>>,
    start: ChainInformation,
    previous: Option<(Header, ChainInformationFinality)>,
) -> bool {
    match r {
        InProgressGrandpaWarpSync::WarpSyncRequest(q) => {
            &&& first_untried(slots, q.source() as int)
            &&& q.slots() == slots
            &&& q.anchor() == start
            &&& q.previous() == previous
        },
        InProgressGrandpaWarpSync::WaitingForSources(w) => {
            &&& all_tried(slots)
            &&& w.slots() == slots
            &&& w.anchor() == start
            &&& w.previous() == previous
        },
        _ => false,
    }
}

/// `b` is `a` with another source table: same variant, same data.
pub open spec fn same_but_slots<TSrc>(
    a: InProgressGrandpaWarpSync<TSrc>,
    b: InProgressGrandpaWarpSync<TSrc>,
) -> bool {
    match (a, b) {
        (InProgressGrandpaWarpSync::StorageGet(x), InProgressGrandpaWarpSync::StorageGet(y)) => {
            &&& y.source() == x.source()
            &&& y.anchor() == x.anchor()
            &&& y.header() == x.header()
            &&& y.finality() == x.finality()
            &&& y.fetched_current_epoch() == x.fetched_current_epoch()
            &&& y.spec_key() == x.spec_key()
        },
        (InProgressGrandpaWarpSync::NextKey(x), InProgressGrandpaWarpSync::NextKey(y)) => {
            &&& y.source() == x.source()
            &&& y.anchor() == x.anchor()
            &&& y.header() == x.header()
            &&& y.finality() == x.finality()
            &&& y.fetched_current_epoch() == x.fetched_current_epoch()
            &&& y.spec_key() == x.spec_key()
        },
        (InProgressGrandpaWarpSync::Verifier(x), InProgressGrandpaWarpSync::Verifier(y)) => {
            &&& y.source() == x.source()
            &&& y.anchor() == x.anchor()
            &&& y.previous() == x.previous()
            &&& y.fragments() == x.fragments()
            &&& y.next_index() == x.next_index()
            &&& y.batch_finality() == x.batch_finality()
            &&& y.is_final() == x.is_final()
        },
        (
            InProgressGrandpaWarpSync::WarpSyncRequest(x),
            InProgressGrandpaWarpSync::WarpSyncRequest(y),
        ) => {
            &&& y.source() == x.source()
            &&& y.anchor() == x.anchor()
            &&& y.previous() == x.previous()
        },
        (
            InProgressGrandpaWarpSync::VirtualMachineParamsGet(x),
            InProgressGrandpaWarpSync::VirtualMachineParamsGet(y),
        ) => {
            &&& y.source() == x.source()
            &&& y.anchor() == x.anchor()
            &&& y.header() == x.header()
            &&& y.finality() == x.finality()
        },
        (InProgressGrandpaWarpSync::EpochQuery(x), InProgressGrandpaWarpSync::EpochQuery(y)) => {
            &&& y.source() == x.source()
            &&& y.anchor() == x.anchor()
            &&& y.header() == x.header()
            &&& y.finality() == x.finality()
            &&& y.fetched_current_epoch() == x.fetched_current_epoch()
            &&& y.spec_epoch_to_fetch() == x.spec_epoch_to_fetch()
            &&& y.spec_runtime_to_build() == x.spec_runtime_to_build()
        },
        (
            InProgressGrandpaWarpSync::WaitingForSources(x),
            InProgressGrandpaWarpSync::WaitingForSources(y),
        ) => {
            &&& y.anchor() == x.anchor()
            &&& y.previous() == x.previous()
        },
        _ => false,
    }
}

impl<TSrc> PostVerificationState<TSrc> {
    closed spec fn wf(&self) -> bool {
        slot_present(self.sources@, self.warp_sync_source_id.0 as int)
    }
}

impl<TSrc> InProgressGrandpaWarpSync<TSrc> {
    /// Whether the state is well formed: the source in use is in the table,
    /// a wait for sources happens only once every source was tried, and the
    /// fragment queue is consistent.
    pub open spec fn wf(&self) -> bool {
        match self {
            InProgressGrandpaWarpSync::StorageGet(s) => s.wf(),
            InProgressGrandpaWarpSync::NextKey(s) => s.wf(),
            InProgressGrandpaWarpSync::Verifier(s) => s.wf(),
            InProgressGrandpaWarpSync::WarpSyncRequest(s) => s.wf(),
            InProgressGrandpaWarpSync::VirtualMachineParamsGet(s) => s.wf(),
            InProgressGrandpaWarpSync::EpochQuery(s) => s.wf(),
            InProgressGrandpaWarpSync::WaitingForSources(s) => s.wf(),
        }
    }

    /// The slots of the source table.
    pub open spec fn source_slots(&self) -> Seq<Option<Source<TSrc>>> {
        match self {
            InProgressGrandpaWarpSync::StorageGet(s) => s.slots(),
            InProgressGrandpaWarpSync::NextKey(s) => s.slots(),
            InProgressGrandpaWarpSync::Verifier(s) => s.slots(),
            InProgressGrandpaWarpSync::WarpSyncRequest(s) => s.slots(),
            InProgressGrandpaWarpSync::VirtualMachineParamsGet(s) => s.slots(),
            InProgressGrandpaWarpSync::EpochQuery(s) => s.slots(),
            InProgressGrandpaWarpSync::WaitingForSources(s) => s.slots(),
        }
    }

    /// The trusted anchor.
    pub open spec fn start_chain_information(&self) -> ChainInformation {
        match self {
            InProgressGrandpaWarpSync::StorageGet(s) => s.anchor(),
            InProgressGrandpaWarpSync::NextKey(s) => s.anchor(),
            InProgressGrandpaWarpSync::Verifier(s) => s.anchor(),
            InProgressGrandpaWarpSync::WarpSyncRequest(s) => s.anchor(),
            InProgressGrandpaWarpSync::VirtualMachineParamsGet(s) => s.anchor(),
            InProgressGrandpaWarpSync::EpochQuery(s) => s.anchor(),
            InProgressGrandpaWarpSync::WaitingForSources(s) => s.anchor(),
        }
    }

    /// The source whose data is being used, if any.
    pub open spec fn current_source(&self) -> Option<usize> {
        match self {
            InProgressGrandpaWarpSync::StorageGet(s) => Some(s.source()),
            InProgressGrandpaWarpSync::NextKey(s) => Some(s.source()),
            InProgressGrandpaWarpSync::Verifier(s) => Some(s.source()),
            InProgressGrandpaWarpSync::WarpSyncRequest(s) => Some(s.source()),
            InProgressGrandpaWarpSync::VirtualMachineParamsGet(s) => Some(s.source()),
            InProgressGrandpaWarpSync::EpochQuery(s) => Some(s.source()),
            InProgressGrandpaWarpSync::WaitingForSources(s) => None,
        }
    }

    /// Whether all fragments have been checked.
    pub open spec fn is_post_verification(&self) -> bool {
        match self {
            InProgressGrandpaWarpSync::StorageGet(s) => true,
            InProgressGrandpaWarpSync::NextKey(s) => true,
            InProgressGrandpaWarpSync::VirtualMachineParamsGet(s) => true,
            InProgressGrandpaWarpSync::EpochQuery(s) => true,
            _ => false,
        }
    }

    /// The header reached by the fragments, in the states after all
    /// fragments have been checked.
    pub open spec fn post_header(&self) -> Header {
        match self {
            InProgressGrandpaWarpSync::StorageGet(s) => s.header(),
            InProgressGrandpaWarpSync::NextKey(s) => s.header(),
            InProgressGrandpaWarpSync::VirtualMachineParamsGet(s) => s.header(),
            InProgressGrandpaWarpSync::EpochQuery(s) => s.header(),
            _ => arbitrary(),
        }
    }

    /// The finality reached by the fragments, in the states after all
    /// fragments have been checked.
    pub open spec fn post_finality(&self) -> ChainInformationFinality {
        match self {
            InProgressGrandpaWarpSync::StorageGet(s) => s.finality(),
            InProgressGrandpaWarpSync::NextKey(s) => s.finality(),
            InProgressGrandpaWarpSync::VirtualMachineParamsGet(s) => s.finality(),
            InProgressGrandpaWarpSync::EpochQuery(s) => s.finality(),
            _ => arbitrary(),
        }
    }

    /// The header and finality accepted after the last complete batch, in
    /// the states before all fragments have been checked.
    pub open spec fn previous_verifier_values(&self) -> Option<
        (Header, ChainInformationFinality),
    > {
        match self {
            InProgressGrandpaWarpSync::Verifier(s) => s.previous(),
            InProgressGrandpaWarpSync::WarpSyncRequest(s) => s.previous(),
            InProgressGrandpaWarpSync::WaitingForSources(s) => s.previous(),
            _ => None,
        }
    }
}

impl<TSrc> Verifier<TSrc> {
    /// The slots of the source table.
    pub closed spec fn slots(&self) -> Seq<Option<Source<TSrc>>> {
        self.sources@
    }

    /// The source that sent the batch.
    pub closed spec fn source(&self) -> usize {
        self.warp_sync_source_id.0
    }

    /// The trusted anchor.
    pub closed spec fn anchor(&self) -> ChainInformation {
        self.start_chain_information@
    }

    /// The fragments of the batch.
    pub closed spec fn fragments(&self) -> Seq<Fragment> {
        self.fragments@
    }

    /// Position of the next fragment to check.
    pub closed spec fn next_index(&self) -> int {
        self.next_index as int
    }

    /// Finality after the fragments of this batch checked so far.
    pub closed spec fn batch_finality(&self) -> Option<ChainInformationFinality> {
        self.batch_finality
    }

    /// Whether this is the last batch.
    pub closed spec fn is_final(&self) -> bool {
        self.final_set_of_fragments
    }

    /// The header and finality accepted after the last complete batch.
    pub closed spec fn previous(&self) -> Option<(Header, ChainInformationFinality)> {
        self.previous_verifier_values
    }

    /// Whether the verifier is well formed.
    pub closed spec fn wf(&self) -> bool {
        &&& slot_present(self.sources@, self.warp_sync_source_id.0 as int)
        &&& self.next_index <= self.fragments@.len()
        &&& (self.next_index == self.fragments@.len() ==> self.fragments@.len() == 0)
        &&& (self.next_index == 0 <==> self.batch_finality is None)
    }
}

impl<TSrc> WarpSyncRequest<TSrc> {
    /// The slots of the source table.
    pub closed spec fn slots(&self) -> Seq<Option<Source<TSrc>>> {
        self.sources@
    }

    /// The source to ask.
    pub closed spec fn source(&self) -> usize {
        self.source_id.0
    }

    /// The trusted anchor.
    pub closed spec fn anchor(&self) -> ChainInformation {
        self.start_chain_information@
    }

    /// The header and finality accepted after the last complete batch.
    pub closed spec fn previous(&self) -> Option<(Header, ChainInformationFinality)> {
        self.previous_verifier_values
    }

    /// Whether the request is well formed: its source is in the table.
    pub closed spec fn wf(&self) -> bool {
        slot_present(self.sources@, self.source_id.0 as int)
    }
}

impl<TSrc> WaitingForSources<TSrc> {
    /// The slots of the source table.
    pub closed spec fn slots(&self) -> Seq<Option<Source<TSrc>>> {
        self.sources@
    }

    /// The trusted anchor.
    pub closed spec fn anchor(&self) -> ChainInformation {
        self.start_chain_information@
    }

    /// The header and finality accepted after the last complete batch.
    pub closed spec fn previous(&self) -> Option<(Header, ChainInformationFinality)> {
        self.previous_verifier_values
    }

    /// Whether the wait is well formed: every source was tried.
    pub closed spec fn wf(&self) -> bool {
        all_tried(self.sources@)
    }
}

impl<TSrc> StorageGet<TSrc> {
    /// The slots of the source table.
    pub closed spec fn slots(&self) -> Seq<Option<Source<TSrc>>> {
        self.state.sources@
    }

    /// The source that sent the last batch.
    pub closed spec fn source(&self) -> usize {
        self.state.warp_sync_source_id.0
    }

    /// The trusted anchor.
    pub closed spec fn anchor(&self) -> ChainInformation {
        self.state.start_chain_information@
    }

    /// The header reached by the fragments.
    pub closed spec fn header(&self) -> Header {
        self.state.header
    }

    /// The finality reached by the fragments.
    pub closed spec fn finality(&self) -> ChainInformationFinality {
        self.state.chain_information_finality
    }

    /// Whether the state is well formed: its source is in the table.
    pub closed spec fn wf(&self) -> bool {
        self.state.wf()
    }

    /// The current epoch, once read.
    pub closed spec fn fetched_current_epoch(&self) -> Option<BabeEpochInformation> {
        self.fetched_current_epoch
    }

    /// The key asked for.
    pub closed spec fn spec_key(&self) -> Seq<u8> {
        self.key@
    }
}

impl<TSrc> NextKey<TSrc> {
    /// The slots of the source table.
    pub closed spec fn slots(&self) -> Seq<Option<Source<TSrc>>> {
        self.state.sources@
    }

    /// The source that sent the last batch.
    pub closed spec fn source(&self) -> usize {
        self.state.warp_sync_source_id.0
    }

    /// The trusted anchor.
    pub closed spec fn anchor(&self) -> ChainInformation {
        self.state.start_chain_information@
    }

    /// The header reached by the fragments.
    pub closed spec fn header(&self) -> Header {
        self.state.header
    }

    /// The finality reached by the fragments.
    pub closed spec fn finality(&self) -> ChainInformationFinality {
        self.state.chain_information_finality
    }

    /// Whether the state is well formed: its source is in the table.
    pub closed spec fn wf(&self) -> bool {
        self.state.wf()
    }

    /// The current epoch, once read.
    pub closed spec fn fetched_current_epoch(&self) -> Option<BabeEpochInformation> {
        self.fetched_current_epoch
    }

    /// The key asked for.
    pub closed spec fn spec_key(&self) -> Seq<u8> {
        self.key@
    }
}

impl<TSrc> VirtualMachineParamsGet<TSrc> {
    /// The slots of the source table.
    pub closed spec fn slots(&self) -> Seq<Option<Source<TSrc>>> {
        self.state.sources@
    }

    /// The source that sent the last batch.
    pub closed spec fn source(&self) -> usize {
        self.state.warp_sync_source_id.0
    }

    /// The trusted anchor.
    pub closed spec fn anchor(&self) -> ChainInformation {
        self.state.start_chain_information@
    }

    /// The header reached by the fragments.
    pub closed spec fn header(&self) -> Header {
        self.state.header
    }

    /// The finality reached by the fragments.
    pub closed spec fn finality(&self) -> ChainInformationFinality {
        self.state.chain_information_finality
    }

    /// Whether the state is well formed: its source is in the table.
    pub closed spec fn wf(&self) -> bool {
        self.state.wf()
    }
}

impl<TSrc> EpochQuery<TSrc> {
    /// The slots of the source table.
    pub closed spec fn slots(&self) -> Seq<Option<Source<TSrc>>> {
        self.state.sources@
    }

    /// The source that sent the last batch.
    pub closed spec fn source(&self) -> usize {
        self.state.warp_sync_source_id.0
    }

    /// The trusted anchor.
    pub closed spec fn anchor(&self) -> ChainInformation {
        self.state.start_chain_information@
    }

    /// The header reached by the fragments.
    pub closed spec fn header(&self) -> Header {
        self.state.header
    }

    /// The finality reached by the fragments.
    pub closed spec fn finality(&self) -> ChainInformationFinality {
        self.state.chain_information_finality
    }

    /// Whether the state is well formed: its source is in the table.
    pub closed spec fn wf(&self) -> bool {
        self.state.wf()
    }

    /// The current epoch, once read.
    pub closed spec fn fetched_current_epoch(&self) -> Option<BabeEpochInformation> {
        self.fetched_current_epoch
    }

    /// The epoch to read.
    pub closed spec fn spec_epoch_to_fetch(&self) -> BabeEpochToFetch {
        self.epoch_to_fetch
    }

    /// The code and heap pages of the runtime to build first, if any.
    pub closed spec fn spec_runtime_to_build(&self) -> Option<(Vec<u8>, u64)> {
        self.runtime_to_build
    }
}

/// Starts syncing via GRANDPA warp sync.
pub fn grandpa_warp_sync<TSrc>(config: Config) -> (r: InProgressGrandpaWarpSync<TSrc>)
    ensures
        r.wf(),
        r is WaitingForSources,
        r.source_slots() == Seq::<Option<Source<TSrc>>>::empty(),
        r.start_chain_information() == config.start_chain_information@,
        r.previous_verifier_values() is None,
{
    InProgressGrandpaWarpSync::WaitingForSources(
        WaitingForSources {
            sources: Sources::with_capacity(config.sources_capacity),
            start_chain_information: config.start_chain_information,
            previous_verifier_values: None,
        },
    )
}

/// The next untried source gets a request; with none, the machine waits for
/// a new source.
fn warp_sync_request_from_next_source<TSrc>(
    sources: Sources<TSrc>,
    start_chain_information: ValidChainInformation,
    previous_verifier_values: Option<(Header, ChainInformationFinality)>,
) -> (r: InProgressGrandpaWarpSync<TSrc>)
    ensures
        r.wf(),
        restarted(r, sources@, start_chain_information@, previous_verifier_values),
{
    match sources.first_untried() {
        Some(id) => InProgressGrandpaWarpSync::WarpSyncRequest(
            WarpSyncRequest {
                source_id: SourceId(id),
                sources,
                start_chain_information,
                previous_verifier_values,
            },
        ),
        None => InProgressGrandpaWarpSync::WaitingForSources(
            WaitingForSources { sources, start_chain_information, previous_verifier_values },
        ),
    }
}

/// Once every source has been tried, the machine waits for a new source.
pub proof fn lemma_exhausted_sources_wait<TSrc>(
    r: InProgressGrandpaWarpSync<TSrc>,
    slots: Seq<Option<Source<TSrc>>>,
    start: ChainInformation,
    previous: Option<(Header, ChainInformationFinality)>,
)
    requires
        all_tried(slots),
        restarted(r, slots, start, previous),
    ensures
        r is WaitingForSources,
        r.source_slots() == slots,
        r.previous_verifier_values() == previous,
{
}


/// The bytes of an optional storage value.
pub open spec fn opt_bytes(v: Option<Vec<u8>>) -> Option<Seq<u8>> {
    match v {
        Some(b) => Some(b@),
        None => None,
    }
}

/// The finality against which the next fragment of `v` is checked: the one
/// reached by this batch so far, else the one accepted after the last batch,
/// else the anchor's.
pub open spec fn finality_to_check<TSrc>(v: Verifier<TSrc>) -> ChainInformationFinality {
    match v.batch_finality() {
        Some(f) => f,
        None => match v.previous() {
            Some((_, f)) => f,
            None => v.anchor().finality,
        },
    }
}

/// `p` is a state after verification with the given header, finality,
/// anchor, sources and source.
pub open spec fn post_state_is<TSrc>(
    p: InProgressGrandpaWarpSync<TSrc>,
    header: Header,
    finality: ChainInformationFinality,
    start: ChainInformation,
    slots: Seq<Option<Source<TSrc>>>,
    source: usize,
) -> bool {
    &&& p.wf()
    &&& p.is_post_verification()
    &&& p.post_header() == header
    &&& p.post_finality() == finality
    &&& p.start_chain_information() == start
    &&& p.source_slots() == slots
    &&& p.current_source() == Some(source)
}

/// What the machine does when an epoch query stops at `query`, having read
/// the current epoch `fetched` (if any), with the given post-verification
/// state. `r` is the new state and the error reported.
pub open spec fn epoch_step<TSrc>(
    query: BabeFetchEpochQuery,
    fetched: Option<BabeEpochInformation>,
    header: Header,
    finality: ChainInformationFinality,
    start: ChainInformation,
    slots: Seq<Option<Source<TSrc>>>,
    source: usize,
    r: (GrandpaWarpSync<TSrc>, Option<Error>),
) -> bool {
    match query {
        BabeFetchEpochQuery::Finished(Ok(epoch)) => match fetched {
            Some(current) => {
                let consensus = BabeConsensus {
                    finalized_block_epoch_information: Some(current),
                    finalized_next_epoch_transition: epoch,
                    slots_per_epoch: start.consensus.slots_per_epoch,
                };
                match validity_of(consensus) {
                    None => r.1 is None && match r.0 {
                        GrandpaWarpSync::Finished(s) => {
                            &&& s.chain_information@ == (ChainInformation {
                                finalized_block_header: header,
                                finality,
                                consensus,
                            })
                            &&& s.sources@ == present_user_data(slots)
                        },
                        _ => false,
                    },
                    Some(e) => r.1 == Some(Error::InvalidChain(e)) && match r.0 {
                        GrandpaWarpSync::InProgress(p) => p.wf() && restarted(p, slots, start, None),
                        _ => false,
                    },
                }
            },
            None => r.1 is None && match r.0 {
                GrandpaWarpSync::InProgress(p) => {
                    &&& post_state_is(p, header, finality, start, slots, source)
                    &&& p matches InProgressGrandpaWarpSync::EpochQuery(q)
                    &&& q.spec_epoch_to_fetch() == BabeEpochToFetch::NextEpoch
                    &&& q.fetched_current_epoch() == Some(epoch)
                    &&& q.spec_runtime_to_build() is None
                },
                _ => false,
            },
        },
        BabeFetchEpochQuery::Finished(Err(e)) => r.1 == Some(Error::BabeFetchEpoch(e)) && match r.0 {
            GrandpaWarpSync::InProgress(p) => p.wf() && restarted(p, slots, start, None),
            _ => false,
        },
        BabeFetchEpochQuery::StorageGet(key) => r.1 is None && match r.0 {
            GrandpaWarpSync::InProgress(p) => {
                &&& post_state_is(p, header, finality, start, slots, source)
                &&& p matches InProgressGrandpaWarpSync::StorageGet(s)
                &&& s.spec_key() == key@
                &&& s.fetched_current_epoch() == fetched
            },
            _ => false,
        },
        BabeFetchEpochQuery::NextKey(key) => r.1 is None && match r.0 {
            GrandpaWarpSync::InProgress(p) => {
                &&& post_state_is(p, header, finality, start, slots, source)
                &&& p matches InProgressGrandpaWarpSync::NextKey(s)
                &&& s.spec_key() == key@
                &&& s.fetched_current_epoch() == fetched
            },
            _ => false,
        },
    }
}

/// What [`Verifier::next`] does: a batch without fragments, or a refused
/// fragment, moves the request to the next untried source and keeps the
/// values accepted after the last complete batch; an accepted fragment
/// moves to the next one, and the last one ends the batch.
pub open spec fn verifier_step<TSrc>(
    v: Verifier<TSrc>,
    outcome: Result<ChainInformationFinality, FragmentError>,
    r: (InProgressGrandpaWarpSync<TSrc>, Result<(), FragmentError>),
) -> bool {
    if v.fragments().len() == 0 {
        &&& r.1 == Err::<(), FragmentError>(FragmentError::EmptyProof)
        &&& restarted(r.0, v.slots(), v.anchor(), v.previous())
    } else {
        match outcome {
            Err(e) => {
                &&& r.1 == Err::<(), FragmentError>(e)
                &&& restarted(r.0, v.slots(), v.anchor(), v.previous())
            },
            Ok(finality) => {
                &&& r.1 is Ok
                &&& if v.next_index() + 1 < v.fragments().len() {
                    match r.0 {
                        InProgressGrandpaWarpSync::Verifier(w) => {
                            &&& w.slots() == v.slots()
                            &&& w.source() == v.source()
                            &&& w.anchor() == v.anchor()
                            &&& w.previous() == v.previous()
                            &&& w.fragments() == v.fragments()
                            &&& w.next_index() == v.next_index() + 1
                            &&& w.batch_finality() == Some(finality)
                            &&& w.is_final() == v.is_final()
                        },
                        _ => false,
                    }
                } else if v.is_final() {
                    &&& post_state_is(
                        r.0,
                        v.fragments().last().header,
                        finality,
                        v.anchor(),
                        v.slots(),
                        v.source(),
                    )
                    &&& r.0 is VirtualMachineParamsGet
                } else {
                    match r.0 {
                        InProgressGrandpaWarpSync::WarpSyncRequest(q) => {
                            &&& q.slots() == v.slots()
                            &&& q.source() == v.source()
                            &&& q.anchor() == v.anchor()
                            &&& q.previous() == Some((v.fragments().last().header, finality))
                        },
                        _ => false,
                    }
                }
            },
        }
    }
}

/// What [`WarpSyncRequest::handle_response`] does, besides marking the
/// source as tried: without a response the request moves to the next
/// untried source; with one, its fragments are to be checked. The values
/// accepted after the last complete batch are kept.
pub open spec fn response_step<TSrc>(
    q: WarpSyncRequest<TSrc>,
    response: Option<GrandpaWarpSyncResponse>,
    r: InProgressGrandpaWarpSync<TSrc>,
) -> bool {
    &&& r.start_chain_information() == q.anchor()
    &&& r.previous_verifier_values() == q.previous()
    &&& match response {
        None => restarted(r, r.source_slots(), q.anchor(), q.previous()),
        Some(resp) => match r {
            InProgressGrandpaWarpSync::Verifier(v) => {
                &&& v.source() == q.source()
                &&& v.fragments() == resp.fragments@
                &&& v.next_index() == 0
                &&& v.is_final() == resp.is_finished
                &&& v.previous() == q.previous()
            },
            _ => false,
        },
    }
}

/// Result of removing a source from a post-verification state.
enum StateRemoveSourceResult<TSrc> {
    /// The source of the fragments was removed: the sync starts over.
    RemovedCurrent(InProgressGrandpaWarpSync<TSrc>),
    /// Another source was removed.
    RemovedOther(PostVerificationState<TSrc>),
}

impl<TSrc> PostVerificationState<TSrc> {
    fn add_source(&mut self, user_data: TSrc) -> (r: SourceId)
        requires
            old(self).sources@.len() < usize::MAX,
        ensures
            r.0 == old(self).sources@.len(),
            final(self).sources@ == old(self).sources@.push(
                Some(Source { user_data, already_tried: false }),
            ),
            final(self).header == old(self).header,
            final(self).chain_information_finality == old(self).chain_information_finality,
            final(self).start_chain_information@ == old(self).start_chain_information@,
            final(self).warp_sync_source_id == old(self).warp_sync_source_id,
            old(self).wf() ==> final(self).wf(),
    {
        SourceId(self.sources.insert(user_data))
    }

    fn remove_source(self, to_remove: SourceId) -> (r: (TSrc, StateRemoveSourceResult<TSrc>))
        requires
            slot_present(self.sources@, to_remove.0 as int),
        ensures
            r.0 == self.sources@[to_remove.0 as int].unwrap().user_data,
            match r.1 {
                StateRemoveSourceResult::RemovedCurrent(p) => {
                    &&& to_remove == self.warp_sync_source_id
                    &&& p.wf()
                    &&& restarted(
                        p,
                        self.sources@.update(to_remove.0 as int, None),
                        self.start_chain_information@,
                        None,
                    )
                },
                StateRemoveSourceResult::RemovedOther(s) => {
                    &&& to_remove != self.warp_sync_source_id
                    &&& s.sources@ == self.sources@.update(to_remove.0 as int, None)
                    &&& s.header == self.header
                    &&& s.chain_information_finality == self.chain_information_finality
                    &&& s.start_chain_information@ == self.start_chain_information@
                    &&& s.warp_sync_source_id == self.warp_sync_source_id
                    &&& (self.wf() ==> s.wf())
                },
            },
    {
        let mut sources = self.sources;
        let removed = sources.remove(to_remove.0);
        if to_remove == self.warp_sync_source_id {
            (
                removed,
                StateRemoveSourceResult::RemovedCurrent(
                    warp_sync_request_from_next_source(sources, self.start_chain_information, None),
                ),
            )
        } else {
            (
                removed,
                StateRemoveSourceResult::RemovedOther(
                    PostVerificationState {
                        header: self.header,
                        chain_information_finality: self.chain_information_finality,
                        start_chain_information: self.start_chain_information,
                        sources,
                        warp_sync_source_id: self.warp_sync_source_id,
                    },
                ),
            )
        }
    }
}

/// Continues after an epoch query stopped at `query`.
fn from_babe_fetch_epoch_query<TSrc>(
    query: BabeFetchEpochQuery,
    fetched_current_epoch: Option<BabeEpochInformation>,
    state: PostVerificationState<TSrc>,
) -> (r: (GrandpaWarpSync<TSrc>, Option<Error>))
    requires
        state.wf(),
    ensures
        epoch_step(
            query,
            fetched_current_epoch,
            state.header,
            state.chain_information_finality,
            state.start_chain_information@,
            state.sources@,
            state.warp_sync_source_id.0,
            r,
        ),
{
    match query {
        BabeFetchEpochQuery::Finished(Ok(epoch)) => match fetched_current_epoch {
            Some(current) => {
                // The number of slots per epoch never changes once the chain
                // runs, so it is taken from the anchor.
                let slots_per_epoch =
                    state.start_chain_information.as_ref().consensus.slots_per_epoch;
                let chain_information = ChainInformation {
                    finalized_block_header: state.header,
                    finality: state.chain_information_finality,
                    consensus: BabeConsensus {
                        finalized_block_epoch_information: Some(current),
                        finalized_next_epoch_transition: epoch,
                        slots_per_epoch,
                    },
                };
                match ValidChainInformation::try_from(chain_information) {
                    Ok(chain_information) => (
                        GrandpaWarpSync::Finished(
                            Success { chain_information, sources: state.sources.into_user_data() },
                        ),
                        None,
                    ),
                    Err(err) => (
                        GrandpaWarpSync::InProgress(
                            warp_sync_request_from_next_source(
                                state.sources,
                                state.start_chain_information,
                                None,
                            ),
                        ),
                        Some(Error::InvalidChain(err)),
                    ),
                }
            },
            None => (
                GrandpaWarpSync::InProgress(
                    InProgressGrandpaWarpSync::EpochQuery(
                        EpochQuery {
                            epoch_to_fetch: BabeEpochToFetch::NextEpoch,
                            runtime_to_build: None,
                            fetched_current_epoch: Some(epoch),
                            state,
                        },
                    ),
                ),
                None,
            ),
        },
        BabeFetchEpochQuery::Finished(Err(error)) => (
            GrandpaWarpSync::InProgress(
                warp_sync_request_from_next_source(
                    state.sources,
                    state.start_chain_information,
                    None,
                ),
            ),
            Some(Error::BabeFetchEpoch(error)),
        ),
        BabeFetchEpochQuery::StorageGet(key) => (
            GrandpaWarpSync::InProgress(
                InProgressGrandpaWarpSync::StorageGet(
                    StorageGet { key, fetched_current_epoch, state },
                ),
            ),
            None,
        ),
        BabeFetchEpochQuery::NextKey(key) => (
            GrandpaWarpSync::InProgress(
                InProgressGrandpaWarpSync::NextKey(NextKey { key, fetched_current_epoch, state }),
            ),
            None,
        ),
    }
}

impl<TSrc> StorageGet<TSrc> {
    /// Returns the key whose value the epoch query needs.
    pub fn key(&self) -> (r: &[u8])
        ensures
            r@ == self.spec_key(),
    {
        self.key.as_slice()
    }

    /// Returns the key whose value the epoch query needs, as a new vector.
    pub fn key_as_vec(&self) -> (r: Vec<u8>)
        ensures
            r@ == self.spec_key(),
    {
        let r = self.key.clone();
        assert(r@ =~= self.key@);
        r
    }

    /// Returns the source that we received the warp sync data from.
    pub fn warp_sync_source(&self) -> (r: (SourceId, &TSrc))
        requires
            self.wf(),
        ensures
            r.0.index() == self.source(),
            *r.1 == self.slots()[self.source() as int].unwrap().user_data,
    {
        (self.state.warp_sync_source_id, self.state.sources.get(self.state.warp_sync_source_id.0))
    }

    /// Returns the header that we're warp syncing up to.
    pub fn warp_sync_header(&self) -> (r: &Header)
        ensures
            *r == self.header(),
    {
        &self.state.header
    }

    /// Add a source to the list of sources.
    pub fn add_source(&mut self, user_data: TSrc) -> (r: SourceId)
        requires
            old(self).slots().len() < usize::MAX,
        ensures
            r.index() == old(self).slots().len(),
            final(self).slots() == old(self).slots().push(
                Some(Source { user_data, already_tried: false }),
            ),
            final(self).header() == old(self).header(),
            final(self).finality() == old(self).finality(),
            final(self).anchor() == old(self).anchor(),
            final(self).source() == old(self).source(),
            final(self).fetched_current_epoch() == old(self).fetched_current_epoch(),
            final(self).spec_key() == old(self).spec_key(),
            old(self).wf() ==> final(self).wf(),
    {
        self.state.add_source(user_data)
    }

    /// Continues once the epoch query, given the value of the key, stopped
    /// again at `query`.
    pub fn inject_value(self, query: BabeFetchEpochQuery) -> (r: (GrandpaWarpSync<TSrc>, Option<Error>))
        requires
            self.wf(),
        ensures
            epoch_step(
                query,
                self.fetched_current_epoch(),
                self.header(),
                self.finality(),
                self.anchor(),
                self.slots(),
                self.source(),
                r,
            ),
    {
        from_babe_fetch_epoch_query(query, self.fetched_current_epoch, self.state)
    }
}

impl<TSrc> NextKey<TSrc> {
    /// Returns the key whose next key the epoch query needs.
    pub fn key(&self) -> (r: &[u8])
        ensures
            r@ == self.spec_key(),
    {
        self.key.as_slice()
    }

    /// Returns the source that we received the warp sync data from.
    pub fn warp_sync_source(&self) -> (r: (SourceId, &TSrc))
        requires
            self.wf(),
        ensures
            r.0.index() == self.source(),
            *r.1 == self.slots()[self.source() as int].unwrap().user_data,
    {
        (self.state.warp_sync_source_id, self.state.sources.get(self.state.warp_sync_source_id.0))
    }

    /// Returns the header that we're warp syncing up to.
    pub fn warp_sync_header(&self) -> (r: &Header)
        ensures
            *r == self.header(),
    {
        &self.state.header
    }

    /// Add a source to the list of sources.
    pub fn add_source(&mut self, user_data: TSrc) -> (r: SourceId)
        requires
            old(self).slots().len() < usize::MAX,
        ensures
            r.index() == old(self).slots().len(),
            final(self).slots() == old(self).slots().push(
                Some(Source { user_data, already_tried: false }),
            ),
            final(self).header() == old(self).header(),
            final(self).finality() == old(self).finality(),
            final(self).anchor() == old(self).anchor(),
            final(self).source() == old(self).source(),
            final(self).fetched_current_epoch() == old(self).fetched_current_epoch(),
            final(self).spec_key() == old(self).spec_key(),
            old(self).wf() ==> final(self).wf(),
    {
        self.state.add_source(user_data)
    }

    /// Continues once the epoch query, given the next key, stopped again at
    /// `query`.
    pub fn inject_key(self, query: BabeFetchEpochQuery) -> (r: (GrandpaWarpSync<TSrc>, Option<Error>))
        requires
            self.wf(),
        ensures
            epoch_step(
                query,
                self.fetched_current_epoch(),
                self.header(),
                self.finality(),
                self.anchor(),
                self.slots(),
                self.source(),
                r,
            ),
    {
        from_babe_fetch_epoch_query(query, self.fetched_current_epoch, self.state)
    }
}

impl<TSrc> VirtualMachineParamsGet<TSrc> {
    /// Returns the source that we received the warp sync data from.
    pub fn warp_sync_source(&self) -> (r: (SourceId, &TSrc))
        requires
            self.wf(),
        ensures
            r.0.index() == self.source(),
            *r.1 == self.slots()[self.source() as int].unwrap().user_data,
    {
        (self.state.warp_sync_source_id, self.state.sources.get(self.state.warp_sync_source_id.0))
    }

    /// Returns the header that we're warp syncing up to.
    pub fn warp_sync_header(&self) -> (r: &Header)
        ensures
            *r == self.header(),
    {
        &self.state.header
    }

    /// Add a source to the list of sources.
    pub fn add_source(&mut self, user_data: TSrc) -> (r: SourceId)
        requires
            old(self).slots().len() < usize::MAX,
        ensures
            r.index() == old(self).slots().len(),
            final(self).slots() == old(self).slots().push(
                Some(Source { user_data, already_tried: false }),
            ),
            final(self).header() == old(self).header(),
            final(self).finality() == old(self).finality(),
            final(self).anchor() == old(self).anchor(),
            final(self).source() == old(self).source(),
                        old(self).wf() ==> final(self).wf(),
    {
        self.state.add_source(user_data)
    }

    /// Sets the code and heap pages read from the storage under the keys
    /// `:code` and `:heappages` of the warp-synced block. Without code, or
    /// with refused heap pages, the sync starts over from the anchor;
    /// otherwise the runtime is to be built and its current epoch read.
    pub fn set_virtual_machine_params(
        self,
        code: Option<Vec<u8>>,
        heap_pages: Option<Vec<u8>>,
    ) -> (r: (GrandpaWarpSync<TSrc>, Option<Error>))
        requires
            self.wf(),
        ensures
            code is None ==> r.1 == Some(Error::MissingCode) && match r.0 {
                GrandpaWarpSync::InProgress(p) => p.wf() && restarted(
                    p,
                    self.slots(),
                    self.anchor(),
                    None,
                ),
                _ => false,
            },
            code is Some ==> match heap_pages_of(opt_bytes(heap_pages)) {
                Err(e) => r.1 == Some(Error::InvalidHeapPages(e)) && match r.0 {
                    GrandpaWarpSync::InProgress(p) => p.wf() && restarted(
                        p,
                        self.slots(),
                        self.anchor(),
                        None,
                    ),
                    _ => false,
                },
                Ok(pages) => r.1 is None && match r.0 {
                    GrandpaWarpSync::InProgress(p) => {
                        &&& post_state_is(
                            p,
                            self.header(),
                            self.finality(),
                            self.anchor(),
                            self.slots(),
                            self.source(),
                        )
                        &&& p matches InProgressGrandpaWarpSync::EpochQuery(q)
                        &&& q.spec_epoch_to_fetch() == BabeEpochToFetch::CurrentEpoch
                        &&& q.fetched_current_epoch() is None
                        &&& q.spec_runtime_to_build() == Some((code.unwrap(), pages))
                    },
                    _ => false,
                },
            },
    {
        let code = match code {
            Some(code) => code,
            None => {
                return (
                    GrandpaWarpSync::InProgress(
                        warp_sync_request_from_next_source(
                            self.state.sources,
                            self.state.start_chain_information,
                            None,
                        ),
                    ),
                    Some(Error::MissingCode),
                );
            },
        };
        let pages = match &heap_pages {
            Some(v) => storage_heap_pages_to_value(Some(v.as_slice())),
            None => storage_heap_pages_to_value(None),
        };
        match pages {
            Ok(pages) => (
                GrandpaWarpSync::InProgress(
                    InProgressGrandpaWarpSync::EpochQuery(
                        EpochQuery {
                            epoch_to_fetch: BabeEpochToFetch::CurrentEpoch,
                            runtime_to_build: Some((code, pages)),
                            fetched_current_epoch: None,
                            state: self.state,
                        },
                    ),
                ),
                None,
            ),
            Err(err) => (
                GrandpaWarpSync::InProgress(
                    warp_sync_request_from_next_source(
                        self.state.sources,
                        self.state.start_chain_information,
                        None,
                    ),
                ),
                Some(Error::InvalidHeapPages(err)),
            ),
        }
    }
}

impl<TSrc> EpochQuery<TSrc> {
    /// The epoch to read.
    pub fn epoch_to_fetch(&self) -> (r: BabeEpochToFetch)
        ensures
            r == self.spec_epoch_to_fetch(),
    {
        self.epoch_to_fetch
    }

    /// The code and heap pages from which to build the runtime before the
    /// query, if it is not built yet.
    pub fn runtime_to_build(&self) -> (r: Option<(&Vec<u8>, u64)>)
        ensures
            match self.spec_runtime_to_build() {
                Some((code, pages)) => r == Some((&code, pages)),
                None => r is None,
            },
    {
        match &self.runtime_to_build {
            Some((code, pages)) => Some((code, *pages)),
            None => None,
        }
    }

    /// Returns the source that we received the warp sync data from.
    pub fn warp_sync_source(&self) -> (r: (SourceId, &TSrc))
        requires
            self.wf(),
        ensures
            r.0.index() == self.source(),
            *r.1 == self.slots()[self.source() as int].unwrap().user_data,
    {
        (self.state.warp_sync_source_id, self.state.sources.get(self.state.warp_sync_source_id.0))
    }

    /// Returns the header that we're warp syncing up to.
    pub fn warp_sync_header(&self) -> (r: &Header)
        ensures
            *r == self.header(),
    {
        &self.state.header
    }

    /// Add a source to the list of sources.
    pub fn add_source(&mut self, user_data: TSrc) -> (r: SourceId)
        requires
            old(self).slots().len() < usize::MAX,
        ensures
            r.index() == old(self).slots().len(),
            final(self).slots() == old(self).slots().push(
                Some(Source { user_data, already_tried: false }),
            ),
            final(self).header() == old(self).header(),
            final(self).finality() == old(self).finality(),
            final(self).anchor() == old(self).anchor(),
            final(self).source() == old(self).source(),
            final(self).fetched_current_epoch() == old(self).fetched_current_epoch(),
            final(self).spec_epoch_to_fetch() == old(self).spec_epoch_to_fetch(),
            final(self).spec_runtime_to_build() == old(self).spec_runtime_to_build(),
            old(self).wf() ==> final(self).wf(),
    {
        self.state.add_source(user_data)
    }

    /// Continues once the query was started: `Err` if the runtime could not
    /// be built, else where the query stopped.
    pub fn start(self, query: Result<BabeFetchEpochQuery, String>) -> (r: (
        GrandpaWarpSync<TSrc>,
        Option<Error>,
    ))
        requires
            self.wf(),
        ensures
            match query {
                Err(e) => r.1 == Some(Error::NewRuntime(e)) && match r.0 {
                    GrandpaWarpSync::InProgress(p) => p.wf() && restarted(
                        p,
                        self.slots(),
                        self.anchor(),
                        None,
                    ),
                    _ => false,
                },
                Ok(q) => epoch_step(
                    q,
                    self.fetched_current_epoch(),
                    self.header(),
                    self.finality(),
                    self.anchor(),
                    self.slots(),
                    self.source(),
                    r,
                ),
            },
    {
        match query {
            Err(error) => (
                GrandpaWarpSync::InProgress(
                    warp_sync_request_from_next_source(
                        self.state.sources,
                        self.state.start_chain_information,
                        None,
                    ),
                ),
                Some(Error::NewRuntime(error)),
            ),
            Ok(query) => from_babe_fetch_epoch_query(query, self.fetched_current_epoch, self.state),
        }
    }
}


impl<TSrc> WaitingForSources<TSrc> {
    /// Add a source to the list of sources. The new source gets the next
    /// request.
    pub fn add_source(self, user_data: TSrc) -> (r: WarpSyncRequest<TSrc>)
        requires
            self.slots().len() < usize::MAX,
        ensures
            r.wf(),
            r.source() == self.slots().len(),
            r.slots() == self.slots().push(Some(Source { user_data, already_tried: false })),
            r.anchor() == self.anchor(),
            r.previous() == self.previous(),
    {
        let mut sources = self.sources;
        let id = sources.insert(user_data);
        WarpSyncRequest {
            source_id: SourceId(id),
            sources,
            start_chain_information: self.start_chain_information,
            previous_verifier_values: self.previous_verifier_values,
        }
    }

    /// Remove a source from the list of sources.
    pub fn remove_source(self, to_remove: SourceId) -> (r: (TSrc, InProgressGrandpaWarpSync<TSrc>))
        requires
            self.wf(),
            slot_present(self.slots(), to_remove.index() as int),
        ensures
            r.0 == self.slots()[to_remove.index() as int].unwrap().user_data,
            r.1.wf(),
            r.1 is WaitingForSources,
            r.1.source_slots() == self.slots().update(to_remove.index() as int, None),
            r.1.start_chain_information() == self.anchor(),
            r.1.previous_verifier_values() == self.previous(),
    {
        let mut sources = self.sources;
        let removed = sources.remove(to_remove.0);
        (
            removed,
            InProgressGrandpaWarpSync::WaitingForSources(
                WaitingForSources {
                    sources,
                    start_chain_information: self.start_chain_information,
                    previous_verifier_values: self.previous_verifier_values,
                },
            ),
        )
    }
}

impl<TSrc> WarpSyncRequest<TSrc> {
    /// The source to make a GRANDPA warp sync request to.
    pub fn current_source(&self) -> (r: (SourceId, &TSrc))
        requires
            self.wf(),
        ensures
            r.0.index() == self.source(),
            *r.1 == self.slots()[self.source() as int].unwrap().user_data,
    {
        (self.source_id, self.sources.get(self.source_id.0))
    }

    /// The hash of the header to warp sync from: the one reached by the last
    /// complete batch, else the anchor's.
    pub fn start_block_hash(&self) -> (r: [u8; 32])
        ensures
            r == match self.previous() {
                Some((header, _)) => header.hash,
                None => self.anchor().finalized_block_header.hash,
            },
    {
        match &self.previous_verifier_values {
            Some((header, _)) => header.hash,
            None => self.start_chain_information.as_ref().finalized_block_header.hash,
        }
    }

    /// Add a source to the list of sources.
    pub fn add_source(&mut self, user_data: TSrc) -> (r: SourceId)
        requires
            old(self).slots().len() < usize::MAX,
        ensures
            r.index() == old(self).slots().len(),
            final(self).slots() == old(self).slots().push(
                Some(Source { user_data, already_tried: false }),
            ),
            final(self).source() == old(self).source(),
            final(self).anchor() == old(self).anchor(),
            final(self).previous() == old(self).previous(),
            old(self).wf() ==> final(self).wf(),
    {
        SourceId(self.sources.insert(user_data))
    }

    /// Remove a source from the list of sources. Removing the source being
    /// asked moves the request to the next untried source.
    pub fn remove_source(self, to_remove: SourceId) -> (r: (TSrc, InProgressGrandpaWarpSync<TSrc>))
        requires
            self.wf(),
            slot_present(self.slots(), to_remove.index() as int),
        ensures
            r.0 == self.slots()[to_remove.index() as int].unwrap().user_data,
            r.1.wf(),
            to_remove.index() == self.source() ==> restarted(
                r.1,
                self.slots().update(to_remove.index() as int, None),
                self.anchor(),
                self.previous(),
            ),
            to_remove.index() != self.source() ==> {
                &&& r.1 is WarpSyncRequest
                &&& r.1.current_source() == Some(self.source())
                &&& r.1.source_slots() == self.slots().update(to_remove.index() as int, None)
                &&& r.1.start_chain_information() == self.anchor()
                &&& r.1.previous_verifier_values() == self.previous()
            },
    {
        let mut sources = self.sources;
        let removed = sources.remove(to_remove.0);
        if to_remove == self.source_id {
            (
                removed,
                warp_sync_request_from_next_source(
                    sources,
                    self.start_chain_information,
                    self.previous_verifier_values,
                ),
            )
        } else {
            (
                removed,
                InProgressGrandpaWarpSync::WarpSyncRequest(
                    WarpSyncRequest {
                        source_id: self.source_id,
                        sources,
                        start_chain_information: self.start_chain_information,
                        previous_verifier_values: self.previous_verifier_values,
                    },
                ),
            )
        }
    }

    /// Submit a GRANDPA warp sync response if the request succeeded or `None`
    /// if it did not. Either way the source is marked as tried; a response
    /// is then checked fragment by fragment, and a failure moves the request
    /// to the next untried source.
    pub fn handle_response(self, response: Option<GrandpaWarpSyncResponse>) -> (r:
        InProgressGrandpaWarpSync<TSrc>)
        requires
            self.wf(),
        ensures
            r.wf(),
            marked_tried(self.slots(), self.source() as int, r.source_slots()),
            response_step(self, response, r),
    {
        let mut sources = self.sources;
        sources.mark_tried(self.source_id.0);
        match response {
            Some(response) => InProgressGrandpaWarpSync::Verifier(
                Verifier {
                    fragments: response.fragments,
                    next_index: 0,
                    batch_finality: None,
                    start_chain_information: self.start_chain_information,
                    warp_sync_source_id: self.source_id,
                    sources,
                    final_set_of_fragments: response.is_finished,
                    previous_verifier_values: self.previous_verifier_values,
                },
            ),
            None => warp_sync_request_from_next_source(
                sources,
                self.start_chain_information,
                self.previous_verifier_values,
            ),
        }
    }
}

impl<TSrc> Verifier<TSrc> {
    /// The fragment to check next, and the finality it is checked against;
    /// `None` for a batch without fragments.
    pub fn next_fragment(&self) -> (r: Option<(&Fragment, &ChainInformationFinality)>)
        requires
            self.wf(),
        ensures
            self.fragments().len() == 0 ==> r is None,
            self.fragments().len() > 0 ==> r == Some(
                (
                    &self.fragments()[self.next_index()],
                    &finality_to_check(*self),
                ),
            ),
    {
        if self.fragments.len() == 0 {
            return None;
        }
        let finality = match &self.batch_finality {
            Some(f) => f,
            None => match &self.previous_verifier_values {
                Some((_, f)) => f,
                None => &self.start_chain_information.as_ref().finality,
            },
        };
        Some((&self.fragments[self.next_index], finality))
    }

    /// Add a source to the list of sources.
    pub fn add_source(&mut self, user_data: TSrc) -> (r: SourceId)
        requires
            old(self).slots().len() < usize::MAX,
        ensures
            r.index() == old(self).slots().len(),
            final(self).slots() == old(self).slots().push(
                Some(Source { user_data, already_tried: false }),
            ),
            final(self).source() == old(self).source(),
            final(self).anchor() == old(self).anchor(),
            final(self).previous() == old(self).previous(),
            final(self).fragments() == old(self).fragments(),
            final(self).next_index() == old(self).next_index(),
            final(self).batch_finality() == old(self).batch_finality(),
            final(self).is_final() == old(self).is_final(),
            old(self).wf() ==> final(self).wf(),
    {
        SourceId(self.sources.insert(user_data))
    }

    /// Remove a source from the list of sources. Removing the source of the
    /// batch drops the batch and moves the request to the next untried
    /// source, keeping what earlier batches established.
    pub fn remove_source(self, to_remove: SourceId) -> (r: (TSrc, InProgressGrandpaWarpSync<TSrc>))
        requires
            self.wf(),
            slot_present(self.slots(), to_remove.index() as int),
        ensures
            r.0 == self.slots()[to_remove.index() as int].unwrap().user_data,
            r.1.wf(),
            to_remove.index() == self.source() ==> restarted(
                r.1,
                self.slots().update(to_remove.index() as int, None),
                self.anchor(),
                self.previous(),
            ),
            to_remove.index() != self.source() ==> match r.1 {
                InProgressGrandpaWarpSync::Verifier(v) => {
                    &&& v.slots() == self.slots().update(to_remove.index() as int, None)
                    &&& v.source() == self.source()
                    &&& v.anchor() == self.anchor()
                    &&& v.previous() == self.previous()
                    &&& v.fragments() == self.fragments()
                    &&& v.next_index() == self.next_index()
                    &&& v.batch_finality() == self.batch_finality()
                    &&& v.is_final() == self.is_final()
                },
                _ => false,
            },
    {
        let mut sources = self.sources;
        let removed = sources.remove(to_remove.0);
        if to_remove == self.warp_sync_source_id {
            (
                removed,
                warp_sync_request_from_next_source(
                    sources,
                    self.start_chain_information,
                    self.previous_verifier_values,
                ),
            )
        } else {
            (
                removed,
                InProgressGrandpaWarpSync::Verifier(
                    Verifier {
                        fragments: self.fragments,
                        next_index: self.next_index,
                        batch_finality: self.batch_finality,
                        start_chain_information: self.start_chain_information,
                        warp_sync_source_id: self.warp_sync_source_id,
                        sources,
                        final_set_of_fragments: self.final_set_of_fragments,
                        previous_verifier_values: self.previous_verifier_values,
                    },
                ),
            )
        }
    }

    /// Continues with the result of checking the fragment that
    /// [`Verifier::next_fragment`] gave: the finality after it, or why it
    /// was refused. A refused fragment drops the batch and moves the request
    /// to the next untried source, keeping what earlier batches established.
    /// Once the last fragment of a batch is accepted, its header and the
    /// finality after it are kept: the next batch is asked from the same
    /// source, or, after the last batch, the runtime parameters are asked.
    pub fn next(self, outcome: Result<ChainInformationFinality, FragmentError>) -> (r: (
        InProgressGrandpaWarpSync<TSrc>,
        Result<(), FragmentError>,
    ))
        requires
            self.wf(),
        ensures
            r.0.wf(),
            verifier_step(self, outcome, r),
    {
        if self.fragments.len() == 0 {
            return (
                warp_sync_request_from_next_source(
                    self.sources,
                    self.start_chain_information,
                    self.previous_verifier_values,
                ),
                Err(FragmentError::EmptyProof),
            );
        }
        match outcome {
            Err(error) => (
                warp_sync_request_from_next_source(
                    self.sources,
                    self.start_chain_information,
                    self.previous_verifier_values,
                ),
                Err(error),
            ),
            Ok(finality) => {
                if self.next_index + 1 < self.fragments.len() {
                    (
                        InProgressGrandpaWarpSync::Verifier(
                            Verifier {
                                fragments: self.fragments,
                                next_index: self.next_index + 1,
                                batch_finality: Some(finality),
                                start_chain_information: self.start_chain_information,
                                warp_sync_source_id: self.warp_sync_source_id,
                                sources: self.sources,
                                final_set_of_fragments: self.final_set_of_fragments,
                                previous_verifier_values: self.previous_verifier_values,
                            },
                        ),
                        Ok(()),
                    )
                } else {
                    let mut fragments = self.fragments;
                    let last = fragments.pop().unwrap();
                    if self.final_set_of_fragments {
                        (
                            InProgressGrandpaWarpSync::VirtualMachineParamsGet(
                                VirtualMachineParamsGet {
                                    state: PostVerificationState {
                                        header: last.header,
                                        chain_information_finality: finality,
                                        start_chain_information: self.start_chain_information,
                                        sources: self.sources,
                                        warp_sync_source_id: self.warp_sync_source_id,
                                    },
                                },
                            ),
                            Ok(()),
                        )
                    } else {
                        (
                            InProgressGrandpaWarpSync::WarpSyncRequest(
                                WarpSyncRequest {
                                    source_id: self.warp_sync_source_id,
                                    sources: self.sources,
                                    start_chain_information: self.start_chain_information,
                                    previous_verifier_values: Some((last.header, finality)),
                                },
                            ),
                            Ok(()),
                        )
                    }
                }
            },
        }
    }
}


impl<TSrc> InProgressGrandpaWarpSync<TSrc> {
    /// Returns the chain information that is considered verified: the
    /// anchor.
    pub fn as_chain_information(&self) -> (r: &ValidChainInformation)
        ensures
            r@ == self.start_chain_information(),
    {
        match self {
            InProgressGrandpaWarpSync::StorageGet(s) => &s.state.start_chain_information,
            InProgressGrandpaWarpSync::NextKey(s) => &s.state.start_chain_information,
            InProgressGrandpaWarpSync::Verifier(s) => &s.start_chain_information,
            InProgressGrandpaWarpSync::WarpSyncRequest(s) => &s.start_chain_information,
            InProgressGrandpaWarpSync::VirtualMachineParamsGet(s) => &s.state.start_chain_information,
            InProgressGrandpaWarpSync::EpochQuery(s) => &s.state.start_chain_information,
            InProgressGrandpaWarpSync::WaitingForSources(s) => &s.start_chain_information,
        }
    }

    /// The sources of the state machine, in the order in which they were
    /// added.
    pub fn sources(&self) -> (r: Vec<SourceId>)
        ensures
            forall|k: int| 0 <= k < r@.len() ==> slot_present(self.source_slots(), #[trigger] r@[k].index() as int),
            forall|id: int| slot_present(self.source_slots(), id) ==> exists|k: int| 0 <= k < r@.len() && #[trigger] r@[k].index() == id,
            forall|a: int, b: int| 0 <= a < b < r@.len() ==> r@[a].index() < r@[b].index(),
    {
        let sources = match self {
            InProgressGrandpaWarpSync::StorageGet(s) => &s.state.sources,
            InProgressGrandpaWarpSync::NextKey(s) => &s.state.sources,
            InProgressGrandpaWarpSync::Verifier(s) => &s.sources,
            InProgressGrandpaWarpSync::WarpSyncRequest(s) => &s.sources,
            InProgressGrandpaWarpSync::VirtualMachineParamsGet(s) => &s.state.sources,
            InProgressGrandpaWarpSync::EpochQuery(s) => &s.state.sources,
            InProgressGrandpaWarpSync::WaitingForSources(s) => &s.sources,
        };
        let ids = sources.ids();
        let mut out: Vec<SourceId> = Vec::new();
        let mut i: usize = 0;
        while i < ids.len()
            invariant
                i <= ids@.len(),
                out@.len() == i,
                forall|k: int| 0 <= k < i ==> #[trigger] out@[k].index() == ids@[k],
            decreases ids.len() - i,
        {
            out.push(SourceId(ids[i]));
            i = i + 1;
        }
        proof {
            assert forall|id: int| slot_present(self.source_slots(), id) implies exists|k: int| 0 <= k < out@.len() && #[trigger] out@[k].index() == id by {
                let k = choose|k: int| 0 <= k < ids@.len() && #[trigger] ids@[k] as int == id;
                assert(out@[k].index() == ids@[k]);
            }
        }
        out
    }

    /// Returns the user data of the given source.
    pub fn source_user_data(&self, source_id: SourceId) -> (r: &TSrc)
        requires
            slot_present(self.source_slots(), source_id.index() as int),
        ensures
            *r == self.source_slots()[source_id.index() as int].unwrap().user_data,
    {
        let sources = match self {
            InProgressGrandpaWarpSync::StorageGet(s) => &s.state.sources,
            InProgressGrandpaWarpSync::NextKey(s) => &s.state.sources,
            InProgressGrandpaWarpSync::Verifier(s) => &s.sources,
            InProgressGrandpaWarpSync::WarpSyncRequest(s) => &s.sources,
            InProgressGrandpaWarpSync::VirtualMachineParamsGet(s) => &s.state.sources,
            InProgressGrandpaWarpSync::EpochQuery(s) => &s.state.sources,
            InProgressGrandpaWarpSync::WaitingForSources(s) => &s.sources,
        };
        sources.get(source_id.0)
    }

    /// Returns the user data of the given source, to be changed.
    pub fn source_user_data_mut(&mut self, source_id: SourceId) -> (r: &mut TSrc)
        requires
            slot_present(old(self).source_slots(), source_id.index() as int),
        ensures
            *r == old(self).source_slots()[source_id.index() as int].unwrap().user_data,
            final(self).source_slots() == old(self).source_slots().update(
                source_id.index() as int,
                Some(
                    Source {
                        user_data: *final(r),
                        already_tried: old(self).source_slots()[source_id.index() as int].unwrap().already_tried,
                    },
                ),
            ),
            same_but_slots(*old(self), *final(self)),
            final(self).start_chain_information() == old(self).start_chain_information(),
            final(self).current_source() == old(self).current_source(),
            final(self).previous_verifier_values() == old(self).previous_verifier_values(),
            old(self).wf() ==> final(self).wf(),
    {
        match self {
            InProgressGrandpaWarpSync::StorageGet(s) => s.state.sources.get_mut(source_id.0),
            InProgressGrandpaWarpSync::NextKey(s) => s.state.sources.get_mut(source_id.0),
            InProgressGrandpaWarpSync::Verifier(s) => s.sources.get_mut(source_id.0),
            InProgressGrandpaWarpSync::WarpSyncRequest(s) => s.sources.get_mut(source_id.0),
            InProgressGrandpaWarpSync::VirtualMachineParamsGet(s) => s.state.sources.get_mut(source_id.0),
            InProgressGrandpaWarpSync::EpochQuery(s) => s.state.sources.get_mut(source_id.0),
            InProgressGrandpaWarpSync::WaitingForSources(s) => s.sources.get_mut(source_id.0),
        }
    }

    /// Remove a source from the list of sources. Removing the source whose
    /// data is in use drops that work and moves the request to the next
    /// untried source; after all fragments have been checked, the sync then
    /// starts over from the anchor.
    pub fn remove_source(self, to_remove: SourceId) -> (r: (TSrc, InProgressGrandpaWarpSync<TSrc>))
        requires
            self.wf(),
            slot_present(self.source_slots(), to_remove.index() as int),
        ensures
            r.0 == self.source_slots()[to_remove.index() as int].unwrap().user_data,
            r.1.wf(),
            self.current_source() == Some(to_remove.index()) ==> restarted(
                r.1,
                self.source_slots().update(to_remove.index() as int, None),
                self.start_chain_information(),
                if self.is_post_verification() {
                    None
                } else {
                    self.previous_verifier_values()
                },
            ),
            self.current_source() != Some(to_remove.index()) ==> {
                &&& same_but_slots(self, r.1)
                &&& r.1.source_slots() == self.source_slots().update(to_remove.index() as int, None)
                &&& r.1.current_source() == self.current_source()
                &&& r.1.start_chain_information() == self.start_chain_information()
                &&& r.1.previous_verifier_values() == self.previous_verifier_values()
                &&& r.1.is_post_verification() == self.is_post_verification()
            },
    {
        match self {
            InProgressGrandpaWarpSync::WaitingForSources(s) => s.remove_source(to_remove),
            InProgressGrandpaWarpSync::WarpSyncRequest(s) => s.remove_source(to_remove),
            InProgressGrandpaWarpSync::Verifier(s) => s.remove_source(to_remove),
            InProgressGrandpaWarpSync::VirtualMachineParamsGet(s) => {
                let VirtualMachineParamsGet { state } = s;
                let (removed, result) = state.remove_source(to_remove);
                match result {
                    StateRemoveSourceResult::RemovedOther(state) => (
                        removed,
                        InProgressGrandpaWarpSync::VirtualMachineParamsGet(VirtualMachineParamsGet { state }),
                    ),
                    StateRemoveSourceResult::RemovedCurrent(next) => (removed, next),
                }
            },
            InProgressGrandpaWarpSync::EpochQuery(s) => {
                let EpochQuery { epoch_to_fetch, runtime_to_build, fetched_current_epoch, state } = s;
                let (removed, result) = state.remove_source(to_remove);
                match result {
                    StateRemoveSourceResult::RemovedOther(state) => (
                        removed,
                        InProgressGrandpaWarpSync::EpochQuery(EpochQuery { epoch_to_fetch, runtime_to_build, fetched_current_epoch, state }),
                    ),
                    StateRemoveSourceResult::RemovedCurrent(next) => (removed, next),
                }
            },
            InProgressGrandpaWarpSync::StorageGet(s) => {
                let StorageGet { key, fetched_current_epoch, state } = s;
                let (removed, result) = state.remove_source(to_remove);
                match result {
                    StateRemoveSourceResult::RemovedOther(state) => (
                        removed,
                        InProgressGrandpaWarpSync::StorageGet(StorageGet { key, fetched_current_epoch, state }),
                    ),
                    StateRemoveSourceResult::RemovedCurrent(next) => (removed, next),
                }
            },
            InProgressGrandpaWarpSync::NextKey(s) => {
                let NextKey { key, fetched_current_epoch, state } = s;
                let (removed, result) = state.remove_source(to_remove);
                match result {
                    StateRemoveSourceResult::RemovedOther(state) => (
                        removed,
                        InProgressGrandpaWarpSync::NextKey(NextKey { key, fetched_current_epoch, state }),
                    ),
                    StateRemoveSourceResult::RemovedCurrent(next) => (removed, next),
                }
            },
        }
    }
}


/// While a batch is being checked, each accepted fragment keeps the values
/// accepted after the last complete batch.
proof fn lemma_batch_keeps_previous<TSrc>(
    q: WarpSyncRequest<TSrc>,
    response: GrandpaWarpSyncResponse,
    states: Seq<InProgressGrandpaWarpSync<TSrc>>,
    outcomes: Seq<Result<ChainInformationFinality, FragmentError>>,
    results: Seq<Result<(), FragmentError>>,
    k: int,
)
    requires
        states.len() == outcomes.len() + 1,
        results.len() == outcomes.len(),
        0 <= k < outcomes.len(),
        response_step(q, Some(response), states[0]),
        forall|i: int|
            0 <= i < outcomes.len() ==> #[trigger] states[i] is Verifier && verifier_step(
                states[i]->Verifier_0,
                outcomes[i],
                (states[i + 1], results[i]),
            ),
    ensures
        states[k]->Verifier_0.previous() == q.previous(),
    decreases k,
{
    if k > 0 {
        lemma_batch_keeps_previous(q, response, states, outcomes, results, k - 1);
        let v = states[k - 1]->Verifier_0;
        assert(states[k] is Verifier);
        if v.fragments().len() == 0 {
            assert(restarted(states[k], v.slots(), v.anchor(), v.previous()));
        } else {
            match outcomes[k - 1] {
                Err(_) => {
                    assert(restarted(states[k], v.slots(), v.anchor(), v.previous()));
                },
                Ok(_) => {},
            }
        }
    }
}

/// A failed batch does not lose what earlier batches established. After a
/// request holding the values accepted after the last complete batch gets a
/// response, some fragments of it are accepted and one is refused (or the
/// batch is empty): the machine is then at a new request or a wait for
/// sources, with those values unchanged.
pub proof fn lemma_failed_batch_keeps_progress<TSrc>(
    q: WarpSyncRequest<TSrc>,
    response: GrandpaWarpSyncResponse,
    states: Seq<InProgressGrandpaWarpSync<TSrc>>,
    outcomes: Seq<Result<ChainInformationFinality, FragmentError>>,
    results: Seq<Result<(), FragmentError>>,
)
    requires
        outcomes.len() > 0,
        states.len() == outcomes.len() + 1,
        results.len() == outcomes.len(),
        response_step(q, Some(response), states[0]),
        forall|i: int|
            0 <= i < outcomes.len() ==> #[trigger] states[i] is Verifier && verifier_step(
                states[i]->Verifier_0,
                outcomes[i],
                (states[i + 1], results[i]),
            ),
        results.last() is Err,
    ensures
        states.last() is WarpSyncRequest || states.last() is WaitingForSources,
        states.last().previous_verifier_values() == q.previous(),
{
    let n = outcomes.len() - 1;
    lemma_batch_keeps_previous(q, response, states, outcomes, results, n);
    let v = states[n]->Verifier_0;
    assert(states[n] is Verifier);
    assert(states[n + 1] == states.last());
    assert(restarted(states.last(), v.slots(), v.anchor(), v.previous()));
}


impl<TSrc> StorageGet<TSrc> {
    /// The answer to a storage-root request of the epoch query: the state
    /// root of the warp-synced header.
    pub fn storage_root(&self) -> (r: [u8; 32])
        ensures
            r == self.header().state_root,
    {
        self.state.header.state_root
    }
}

impl<TSrc> NextKey<TSrc> {
    /// The answer to a storage-root request of the epoch query: the state
    /// root of the warp-synced header.
    pub fn storage_root(&self) -> (r: [u8; 32])
        ensures
            r == self.header().state_root,
    {
        self.state.header.state_root
    }
}

impl<TSrc> EpochQuery<TSrc> {
    /// The answer to a storage-root request of the epoch query: the state
    /// root of the warp-synced header.
    pub fn storage_root(&self) -> (r: [u8; 32])
        ensures
            r == self.header().state_root,
    {
        self.state.header.state_root
    }
}


/// Once all fragments are checked, reading the current epoch and then the
/// next one, when they are coherent, ends the sync: the chain information
/// holds the warp-synced header and finality and the anchor's slots per
/// epoch, and the sources are the user data of the sources present, each
/// once, in the order in which they were added.
pub proof fn lemma_epoch_queries_finish<TSrc>(
    q: EpochQuery<TSrc>,
    current: BabeEpochInformation,
    next: BabeEpochInformation,
    r1: (GrandpaWarpSync<TSrc>, Option<Error>),
    r2: (GrandpaWarpSync<TSrc>, Option<Error>),
)
    requires
        q.fetched_current_epoch() is None,
        epoch_step(
            BabeFetchEpochQuery::Finished(Ok(current)),
            q.fetched_current_epoch(),
            q.header(),
            q.finality(),
            q.anchor(),
            q.slots(),
            q.source(),
            r1,
        ),
        r1.0 matches GrandpaWarpSync::InProgress(InProgressGrandpaWarpSync::EpochQuery(q2))
            && epoch_step(
            BabeFetchEpochQuery::Finished(Ok(next)),
            q2.fetched_current_epoch(),
            q2.header(),
            q2.finality(),
            q2.anchor(),
            q2.slots(),
            q2.source(),
            r2,
        ),
        validity_of(
            BabeConsensus {
                finalized_block_epoch_information: Some(current),
                finalized_next_epoch_transition: next,
                slots_per_epoch: q.anchor().consensus.slots_per_epoch,
            },
        ) is None,
    ensures
        r1.1 is None,
        r2.1 is None,
        r2.0 matches GrandpaWarpSync::Finished(s) && {
            &&& s.chain_information@.finalized_block_header == q.header()
            &&& s.chain_information@.finality == q.finality()
            &&& s.chain_information@.consensus.slots_per_epoch
                == q.anchor().consensus.slots_per_epoch
            &&& s.sources@ == present_user_data(q.slots())
        },
{
}


/// When the request moves on, it goes to the first untried source, in the
/// order in which sources were added: a source already tried is not asked
/// again while an untried one remains.
pub proof fn lemma_restart_picks_first_untried<TSrc>(
    r: InProgressGrandpaWarpSync<TSrc>,
    slots: Seq<Option<Source<TSrc>>>,
    start: ChainInformation,
    previous: Option<(Header, ChainInformationFinality)>,
    id: int,
)
    requires
        restarted(r, slots, start, previous),
        first_untried(slots, id),
    ensures
        r is WarpSyncRequest,
        r.current_source() == Some(id as usize),
        r.source_slots() == slots,
        r.previous_verifier_values() == previous,
{
    if let InProgressGrandpaWarpSync::WarpSyncRequest(q) = r {
        let chosen = q.source() as int;
        if chosen < id {
            assert(!slot_untried(slots, chosen));
        } else if id < chosen {
            assert(!slot_untried(slots, id));
        }
    } else {
        assert(!slot_untried(slots, id));
    }
}

} // verus!
