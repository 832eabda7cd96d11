//! Light-client building blocks: the SCALE compact integer codec, the
//! GRANDPA warp-sync state machine and the runtime tracking record.

pub mod scale;
pub mod sources;
pub mod chain_info;
pub mod heap_pages;
pub mod warp_sync;
pub mod runtime_service;
