//! Verified models of two ledger components: a simple counter and an
//! admin-gated non-fungible minter. Each component's state lives in host
//! storage and is mutated only through the operations declared here; the
//! contracts pin down every transition exactly.

pub mod admin_nft;
pub mod counter;
