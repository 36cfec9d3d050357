use vstd::prelude::*;

verus! {

/// The ways an instruction can fail.
#[derive(Debug, Clone, Copy, PartialEq, Eq, Structural)]
pub enum NFTError {
    /// The creating identity is the all-zero key.
    InvalidUser,
    /// The token identifier is the all-zero key.
    InvalidTokenId,
    /// The caller is not the owner of the record.
    UnauthorizedUser,
    /// The new category is longer than its fixed capacity.
    UpdateCategoryInvalidLength,
    /// No address could be derived from the owner and the token.
    InvalidAddressSeeds,
    /// The address holds no active record.
    NotFound,
    /// The derived address already holds an active record.
    AccountAlreadyInUse,
    /// A failure that fits no other kind.
    Unknown,
}

impl NFTError {
    /// The description of each error kind.
    pub open spec fn spec_message(self) -> Seq<char> {
        match self {
            NFTError::InvalidUser => "Cannot initialize, invalid Solana address"@,
            NFTError::InvalidTokenId => "Cannot initialize, invalid Token ID"@,
            NFTError::UnauthorizedUser => "Unauthorized User"@,
            NFTError::UpdateCategoryInvalidLength => "Error updating category, invalid length"@,
            NFTError::InvalidAddressSeeds => "Invalid PDA Seeds"@,
            NFTError::NotFound => "Account not found"@,
            NFTError::AccountAlreadyInUse => "Account already in use"@,
            NFTError::Unknown => "Unknown Error!"@,
        }
    }

    /// A short human-readable description of the error.
    pub fn message(&self) -> (r: String)
        ensures
            r@ == self.spec_message(),
    {
        let s = match self {
            NFTError::InvalidUser => "Cannot initialize, invalid Solana address",
            NFTError::InvalidTokenId => "Cannot initialize, invalid Token ID",
            NFTError::UnauthorizedUser => "Unauthorized User",
            NFTError::UpdateCategoryInvalidLength => "Error updating category, invalid length",
            NFTError::InvalidAddressSeeds => "Invalid PDA Seeds",
            NFTError::NotFound => "Account not found",
            NFTError::AccountAlreadyInUse => "Account already in use",
            NFTError::Unknown => "Unknown Error!",
        };
        s.to_owned()
    }
}

} // verus!
