//! A ledger-resident record store for collectible metadata: each record keeps
//! an owner, an immutable token identifier, a favorite flag and a short
//! category, and lives at an address derived from its owner and token.

pub mod address;
pub mod errors;
pub mod guard;
pub mod instructions;
pub mod states;
pub mod store;
pub mod nft_gallery;
