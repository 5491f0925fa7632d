//! Verified models of four MultiversX game contracts: a faction DAO, the
//! balancer that assigns players to factions, a game-asset minter and an NFT
//! holder airdrop. Each contract's storage is held by a struct of this crate,
//! and each endpoint is a method that checks the call, updates the storage and
//! returns the transfers or contract calls that the host chain must perform.

pub mod arith;
pub mod chain;
pub mod encoding;
pub mod store;
pub mod game_balancer;
pub mod game_faction;
pub mod game_minter;
pub mod nft_airdrop;
