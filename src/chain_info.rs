//! The description of a chain's finalized head: its header, its GRANDPA
//! finality state and its BABE consensus parameters.
use vstd::prelude::*;

verus! {

/// What the chain logic reads of a block header. `scale_encoded` holds the
/// header as it travels on the wire; the other fields are read from it.
pub struct Header {
    pub hash: [u8; 32],
    pub number: u64,
    pub state_root: [u8; 32],
    pub scale_encoded: Vec<u8>,
}

/// A member of an authority set, with its weight.
#[derive(Clone, Copy, Debug)]
pub struct Authority {
    pub public_key: [u8; 32],
    pub weight: u64,
}

/// The GRANDPA finality state after the finalized block.
pub struct ChainInformationFinality {
    /// Identifier of the authority set that finalizes the blocks after the
    /// finalized one.
    pub after_finalized_block_authorities_set_id: u64,
    /// The authorities of that set.
    pub finalized_triggered_authorities: Vec<Authority>,
    /// A change of authorities scheduled at a later block: that block's
    /// number and the new set.
    pub finalized_scheduled_change: Option<(u64, Vec<Authority>)>,
}

/// The parameters of a BABE epoch.
pub struct BabeEpochInformation {
    pub epoch_index: u64,
    /// Slot at which the epoch starts, when known.
    pub start_slot_number: Option<u64>,
    pub authorities: Vec<Authority>,
    pub randomness: [u8; 32],
}

/// BABE consensus parameters at the finalized block.
pub struct BabeConsensus {
    /// Epoch of the finalized block; `None` for the genesis block.
    pub finalized_block_epoch_information: Option<BabeEpochInformation>,
    /// The epoch that follows it.
    pub finalized_next_epoch_transition: BabeEpochInformation,
    /// Number of slots in each epoch; it never changes once the chain runs.
    pub slots_per_epoch: u64,
}

/// A finalized head together with its finality and consensus state.
pub struct ChainInformation {
    pub finalized_block_header: Header,
    pub finality: ChainInformationFinality,
    pub consensus: BabeConsensus,
}

/// Why a [`ChainInformation`] is not coherent.
#[derive(Clone, Copy, Debug, PartialEq, Eq, Structural)]
pub enum ValidityError {
    /// The next epoch does not follow the current one (or, at genesis, is
    /// not the first epoch).
    NonConsecutiveEpochs,
    /// Epochs of zero slots.
    ZeroSlotsPerEpoch,
}

/// Whether the epochs of `c` follow each other.
pub open spec fn epochs_consecutive(c: BabeConsensus) -> bool {
    match c.finalized_block_epoch_information {
        Some(cur) => c.finalized_next_epoch_transition.epoch_index == cur.epoch_index + 1,
        None => c.finalized_next_epoch_transition.epoch_index == 0,
    }
}

/// What [`ValidChainInformation::try_from`] returns for `c`: the first
/// check that fails, if any.
pub open spec fn validity_of(c: BabeConsensus) -> Option<ValidityError> {
    if c.slots_per_epoch == 0 {
        Some(ValidityError::ZeroSlotsPerEpoch)
    } else if !epochs_consecutive(c) {
        Some(ValidityError::NonConsecutiveEpochs)
    } else {
        None
    }
}

/// A [`ChainInformation`] whose consensus parameters are coherent.
pub struct ValidChainInformation {
    inner: ChainInformation,
}

impl ValidChainInformation {
    /// The chain information held.
    pub closed spec fn view(&self) -> ChainInformation {
        self.inner
    }

    #[verifier::type_invariant]
    spec fn coherent(&self) -> bool {
        validity_of(self.inner.consensus) is None
    }

    /// Checks `inner` and wraps it.
    pub fn try_from(inner: ChainInformation) -> (r: Result<ValidChainInformation, ValidityError>)
        ensures
            match r {
                Ok(v) => validity_of(inner.consensus) is None && v@ == inner,
                Err(e) => validity_of(inner.consensus) == Some(e),
            },
    {
        if inner.consensus.slots_per_epoch == 0 {
            return Err(ValidityError::ZeroSlotsPerEpoch);
        }
        let consecutive = match &inner.consensus.finalized_block_epoch_information {
            Some(cur) => cur.epoch_index < u64::MAX
                && inner.consensus.finalized_next_epoch_transition.epoch_index == cur.epoch_index
                + 1,
            None => inner.consensus.finalized_next_epoch_transition.epoch_index == 0,
        };
        if !consecutive {
            return Err(ValidityError::NonConsecutiveEpochs);
        }
        Ok(ValidChainInformation { inner })
    }

    /// The chain information held.
    pub fn as_ref(&self) -> (r: &ChainInformation)
        ensures
            *r == self@,
    {
        &self.inner
    }

    /// Gives the chain information back.
    pub fn into_inner(self) -> (r: ChainInformation)
        ensures
            r == self@,
    {
        self.inner
    }
}

} // verus!
