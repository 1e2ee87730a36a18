//! Why an operation was refused.

use vstd::prelude::*;

verus! {

/// The four families every refusal belongs to.
#[derive(Clone, Copy, Debug, PartialEq, Eq, Structural)]
pub enum ErrorKind {
    /// A signer is missing, an account has the wrong owner, or an address was
    /// not derived from the seeds it claims.
    Authorization,
    /// Stored bytes have the wrong length or tag, or cannot be decoded.
    Data,
    /// The account list has the wrong number of entries.
    Cardinality,
    /// A service outside this program reported a failure.
    ExternalService,
}

/// The first failed check of an operation; nothing is done after it.
#[derive(Clone, Copy, Debug, PartialEq, Eq, Structural)]
pub enum EscrowError {
    /// A required signature is missing, an account is not owned by the program
    /// it must belong to, or a derived address does not match.
    InvalidAccountOwner,
    /// Account data has the wrong length, the wrong tag, or does not decode.
    InvalidAccountData,
    /// The account list does not have the expected number of entries.
    NotEnoughAccountKeys,
    /// A failure handed back by the host, with the code it reported.
    External(u64),
}

impl EscrowError {
    /// The family of this error.
    pub open spec fn spec_kind(self) -> ErrorKind {
        match self {
            EscrowError::InvalidAccountOwner => ErrorKind::Authorization,
            EscrowError::InvalidAccountData => ErrorKind::Data,
            EscrowError::NotEnoughAccountKeys => ErrorKind::Cardinality,
            EscrowError::External(_) => ErrorKind::ExternalService,
        }
    }

    /// The family of this error.
    #[verifier::when_used_as_spec(spec_kind)]
    pub fn kind(self) -> (kind: ErrorKind)
        ensures
            kind == self.spec_kind(),
    {
        match self {
            EscrowError::InvalidAccountOwner => ErrorKind::Authorization,
            EscrowError::InvalidAccountData => ErrorKind::Data,
            EscrowError::NotEnoughAccountKeys => ErrorKind::Cardinality,
            EscrowError::External(_) => ErrorKind::ExternalService,
        }
    }
}

} // verus!
