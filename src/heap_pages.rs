//! The `:heappages` storage value: how many memory pages the runtime gets.
use crate::scale::{le_value, lemma_le_value_step};
use vstd::arithmetic::power::pow;
use vstd::prelude::*;

verus! {

/// Pages given to the runtime when the storage holds no `:heappages`.
pub const DEFAULT_HEAP_PAGES: u64 = 1024;

/// Why a `:heappages` value is refused.
#[derive(Clone, Copy, Debug, PartialEq, Eq, Structural)]
pub enum InvalidHeapPagesError {
    /// The value is not eight bytes long.
    WrongLength,
}

/// What a `:heappages` storage value stands for: the default when absent,
/// else eight little-endian bytes.
pub open spec fn heap_pages_of(value: Option<Seq<u8>>) -> Result<u64, InvalidHeapPagesError> {
    match value {
        None => Ok(DEFAULT_HEAP_PAGES),
        Some(b) => if b.len() == 8 {
            Ok(le_value(b) as u64)
        } else {
            Err(InvalidHeapPagesError::WrongLength)
        },
    }
}

proof fn lemma_le_value_bound(s: Seq<u8>, i: int)
    requires
        0 <= i <= s.len(),
    ensures
        le_value(s.subrange(i, s.len() as int)) < pow(256, (s.len() - i) as nat),
    decreases s.len() - i,
{
    if i == s.len() {
        vstd::arithmetic::power::lemma_pow0(256);
        assert(s.subrange(i, s.len() as int).len() == 0);
    } else {
        lemma_le_value_step(s, i);
        lemma_le_value_bound(s, i + 1);
        let p = pow(256, (s.len() - i - 1) as nat);
        vstd::arithmetic::power::lemma_pow_adds(256, 1, (s.len() - i - 1) as nat);
        vstd::arithmetic::power::lemma_pow1(256);
        let rest = le_value(s.subrange(i + 1, s.len() as int));
        assert(s[i] as nat + 256 * rest < 256 * p) by (nonlinear_arith)
            requires
                rest < p,
                s[i] < 256,
        ;
    }
}

/// Reads a `:heappages` storage value.
pub fn storage_heap_pages_to_value(value: Option<&[u8]>) -> (r: Result<u64, InvalidHeapPagesError>)
    ensures
        r == heap_pages_of(
            match value {
                Some(b) => Some(b@),
                None => None,
            },
        ),
{
    match value {
        None => Ok(DEFAULT_HEAP_PAGES),
        Some(b) => {
            if b.len() != 8 {
                return Err(InvalidHeapPagesError::WrongLength);
            }
            let mut acc: u64 = 0;
            let mut i: usize = 8;
            while i > 0
                invariant
                    i <= 8,
                    b@.len() == 8,
                    acc as nat == le_value(b@.subrange(i as int, 8)),
                decreases i,
            {
                proof {
                    lemma_le_value_step(b@, i - 1);
                    lemma_le_value_bound(b@, i - 1);
                    reveal_with_fuel(pow, 9);
                    assert(pow(256, (8 - (i - 1)) as nat) <= pow(256, 8)) by {
                        vstd::arithmetic::power::lemma_pow_increases(256, (8 - (i - 1)) as nat, 8);
                    }
                }
                acc = 256 * acc + b[i - 1] as u64;
                i = i - 1;
            }
            assert(b@.subrange(0, 8) =~= b@);
            Ok(acc)
        },
    }
}

} // verus!
