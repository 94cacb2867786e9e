//! The closed taxonomy of kernel-reported outcomes.
//!
//! A trap hands back a raw status word.  Status zero means success; every
//! other status in the kernel's taxonomy decodes to exactly one variant of
//! [`Error`].  Decoding is total: a status outside the taxonomy decodes to
//! [`Error::UnsupportedObjectKind`], the variant this layer itself uses where
//! a generic dispatch meets an object kind it does not support.

use vstd::prelude::*;

verus! {

/// A typed kernel error, mirroring the kernel's status codes one-to-one,
/// plus [`Error::UnsupportedObjectKind`] for requests this layer refuses
/// before trapping.
#[derive(Clone, Copy, Debug, PartialEq, Eq, Structural)]
pub enum Error {
    /// An argument word was malformed or out of the operation's domain.
    InvalidArgument,
    /// The invoked capability did not authorize the operation.
    InvalidCapability,
    /// The operation is not defined for the invoked object.
    IllegalOperation,
    /// A value fell outside the range the operation accepts.
    RangeError,
    /// An address missed the alignment the operation requires.
    AlignmentError,
    /// A capability-space lookup failed to resolve.
    FailedLookup,
    /// The message carried fewer words than the operation needs.
    TruncatedMessage,
    /// An object must be deallocated first: the deallocation-order catch-all.
    DeleteFirst,
    /// Outstanding derived capabilities must be revoked first.
    RevokeFirst,
    /// The kernel had no memory left to complete the request.
    NotEnoughMemory,
    /// The capability carried too few access rights for the operation.
    InsufficientRights,
    /// The named address or resource is already in use.
    AddressInUse,
    /// An index named a slot or entry that does not exist.
    InvalidIndex,
    /// A generic dispatch was asked for an object kind this configuration
    /// does not support; never reported by the kernel itself.
    UnsupportedObjectKind,
}

impl Error {
    /// The raw status word this error encodes to.
    pub open spec fn code_spec(self) -> u64 {
        match self {
            Error::InvalidArgument => 1,
            Error::InvalidCapability => 2,
            Error::IllegalOperation => 3,
            Error::RangeError => 4,
            Error::AlignmentError => 5,
            Error::FailedLookup => 6,
            Error::TruncatedMessage => 7,
            Error::DeleteFirst => 8,
            Error::RevokeFirst => 9,
            Error::NotEnoughMemory => 10,
            Error::InsufficientRights => 11,
            Error::AddressInUse => 12,
            Error::InvalidIndex => 13,
            Error::UnsupportedObjectKind => 14,
        }
    }

    /// The typed reading of a raw status word: `None` for success, otherwise
    /// exactly one error.  Total: a status outside the taxonomy reads as
    /// [`Error::UnsupportedObjectKind`].
    pub open spec fn decode_spec(code: u64) -> Option<Error> {
        if code == 0 {
            None
        } else {
            Some(
                if code == 1 {
                    Error::InvalidArgument
                } else if code == 2 {
                    Error::InvalidCapability
                } else if code == 3 {
                    Error::IllegalOperation
                } else if code == 4 {
                    Error::RangeError
                } else if code == 5 {
                    Error::AlignmentError
                } else if code == 6 {
                    Error::FailedLookup
                } else if code == 7 {
                    Error::TruncatedMessage
                } else if code == 8 {
                    Error::DeleteFirst
                } else if code == 9 {
                    Error::RevokeFirst
                } else if code == 10 {
                    Error::NotEnoughMemory
                } else if code == 11 {
                    Error::InsufficientRights
                } else if code == 12 {
                    Error::AddressInUse
                } else if code == 13 {
                    Error::InvalidIndex
                } else {
                    Error::UnsupportedObjectKind
                },
            )
        }
    }

    /// A command's outcome as decoded from a reply status: `Ok(())` exactly
    /// on status zero.
    pub open spec fn unit_outcome_spec(code: u64) -> Result<(), Error> {
        match Error::decode_spec(code) {
            None => Ok(()),
            Some(e) => Err(e),
        }
    }

    /// A one-word query's outcome as decoded from a reply status and the
    /// reply's first word: the word exactly on status zero.
    pub open spec fn word_outcome_spec(code: u64, value: u64) -> Result<u64, Error> {
        match Error::decode_spec(code) {
            None => Ok(value),
            Some(e) => Err(e),
        }
    }

    /// The raw status word this error encodes to.
    pub fn into_sys(self) -> (r: u64)
        ensures
            r == self.code_spec(),
    {
        match self {
            Error::InvalidArgument => 1,
            Error::InvalidCapability => 2,
            Error::IllegalOperation => 3,
            Error::RangeError => 4,
            Error::AlignmentError => 5,
            Error::FailedLookup => 6,
            Error::TruncatedMessage => 7,
            Error::DeleteFirst => 8,
            Error::RevokeFirst => 9,
            Error::NotEnoughMemory => 10,
            Error::InsufficientRights => 11,
            Error::AddressInUse => 12,
            Error::InvalidIndex => 13,
            Error::UnsupportedObjectKind => 14,
        }
    }

    /// Decode a raw status word: `None` for success, otherwise the one typed
    /// error it names.
    pub fn from_sys(code: u64) -> (r: Option<Error>)
        ensures
            r == Error::decode_spec(code),
    {
        if code == 0 {
            None
        } else {
            Some(
                match code {
                    1 => Error::InvalidArgument,
                    2 => Error::InvalidCapability,
                    3 => Error::IllegalOperation,
                    4 => Error::RangeError,
                    5 => Error::AlignmentError,
                    6 => Error::FailedLookup,
                    7 => Error::TruncatedMessage,
                    8 => Error::DeleteFirst,
                    9 => Error::RevokeFirst,
                    10 => Error::NotEnoughMemory,
                    11 => Error::InsufficientRights,
                    12 => Error::AddressInUse,
                    13 => Error::InvalidIndex,
                    _ => Error::UnsupportedObjectKind,
                },
            )
        }
    }

    /// Decode a command reply: `Ok(())` exactly on status zero.
    pub fn wrap(code: u64) -> (r: Result<(), Error>)
        ensures
            r == Error::unit_outcome_spec(code),
    {
        match Error::from_sys(code) {
            None => Ok(()),
            Some(e) => Err(e),
        }
    }

    /// Decode a one-word query reply: the word exactly on status zero.
    pub fn or(code: u64, value: u64) -> (r: Result<u64, Error>)
        ensures
            r == Error::word_outcome_spec(code, value),
    {
        match Error::from_sys(code) {
            None => Ok(value),
            Some(e) => Err(e),
        }
    }
}

/// Law: decoding a raw status in the taxonomy and re-encoding the result
/// gives the status back — success stays success, and each error code is its
/// own encoding.
pub proof fn lemma_status_decode_then_encode(code: u64)
    requires
        code <= 14,
    ensures
        code == 0 ==> Error::decode_spec(code) is None,
        code != 0 ==> (Error::decode_spec(code) matches Some(e) && e.code_spec() == code),
{
}

/// Law: every typed error decodes back from its own encoding.
pub proof fn lemma_status_encode_then_decode(e: Error)
    ensures
        Error::decode_spec(e.code_spec()) == Some(e),
{
}

/// Law: decoding is total and unambiguous — every raw status word maps to
/// "no error" exactly on zero, and to exactly one typed error otherwise.
pub proof fn lemma_status_decode_total(code: u64)
    ensures
        (Error::decode_spec(code) is None) <==> code == 0,
        code != 0 ==> Error::decode_spec(code) is Some,
{
}

} // verus!

