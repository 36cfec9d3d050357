//! The four instructions, each a guarded transition over one loaded record.

pub mod close_nft;
pub mod initialize_nft;
pub mod toggle_favorite;
pub mod update_category;
