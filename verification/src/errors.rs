use vstd::prelude::*;

verus! {

/// Why an operation on an identity record was rejected.
#[derive(Clone, Copy, Debug, PartialEq, Eq, Structural)]
pub enum SovereignError {
    /// The caller is not the authority of the dimension it tried to write.
    Unauthorized,
    /// An identity already exists for this owner.
    IdentityAlreadyExists,
    /// No identity exists for this owner.
    IdentityNotFound,
    /// A score above 10000 basis points.
    InvalidScore,
    /// The all-zero key was offered as an authority.
    InvalidAuthority,
    /// The dimension has no authority yet.
    AuthorityNotSet,
    /// The caller does not own the identity.
    OwnerMismatch,
    /// The score details were already set up.
    DetailsAlreadyInitialized,
    /// The score details were never set up.
    DetailsNotInitialized,
}

impl SovereignError {
    /// The text of the message for this error.
    pub open spec fn message_text(self) -> Seq<char> {
        match self {
            SovereignError::Unauthorized => "Unauthorized: caller is not the authorized authority for this dimension"@,
            SovereignError::IdentityAlreadyExists => "Identity already exists for this owner"@,
            SovereignError::IdentityNotFound => "Identity not found"@,
            SovereignError::InvalidScore => "Invalid score: must be between 0 and 10000"@,
            SovereignError::InvalidAuthority => "Invalid authority: cannot set zero address as authority"@,
            SovereignError::AuthorityNotSet => "Authority not set: must set authority before updating score"@,
            SovereignError::OwnerMismatch => "Owner mismatch: signer is not the identity owner"@,
            SovereignError::DetailsAlreadyInitialized => "Score details already initialized"@,
            SovereignError::DetailsNotInitialized => "Score details not initialized"@,
        }
    }

    /// The message shown to a caller for this error.
    pub fn message(&self) -> (text: &'static str)
        ensures
            text@ == self.message_text(),
    {
        match self {
            SovereignError::Unauthorized => "Unauthorized: caller is not the authorized authority for this dimension",
            SovereignError::IdentityAlreadyExists => "Identity already exists for this owner",
            SovereignError::IdentityNotFound => "Identity not found",
            SovereignError::InvalidScore => "Invalid score: must be between 0 and 10000",
            SovereignError::InvalidAuthority => "Invalid authority: cannot set zero address as authority",
            SovereignError::AuthorityNotSet => "Authority not set: must set authority before updating score",
            SovereignError::OwnerMismatch => "Owner mismatch: signer is not the identity owner",
            SovereignError::DetailsAlreadyInitialized => "Score details already initialized",
            SovereignError::DetailsNotInitialized => "Score details not initialized",
        }
    }
}

} // verus!
