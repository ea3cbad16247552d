//! An escrow staking pool for non-fungible assets: deterministic derivation
//! of custodial addresses, the checks that guard every transfer, and the
//! stake / unstake state machine, each with a proved contract.
pub mod address;
pub mod derivation;
pub mod rarity;
pub mod staking;
