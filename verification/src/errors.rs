//! The error taxonomy of the SDK. Every fallible step of the
//! request-construction and response-typing pipeline returns one of these
//! variants; nothing in the library panics.

use vstd::prelude::*;

verus! {

/// A typed, recoverable failure of one SDK operation.
#[derive(Debug, Clone, PartialEq, Eq)]
pub enum SdkError {
    /// The session cookie pair is absent or incomplete.
    MissingCredential,
    /// No community account id was supplied and none is remembered.
    MissingAccountId,
    /// An operation that needs a player UID was called without one.
    MissingUid,
    /// The remembered UID table has no entry for the requested game.
    MissingGameUid,
    /// The UID's leading digit maps to no known server or region.
    UnknownUidPrefix,
    /// A network-level failure, reported by the embedding application.
    Transport(String),
    /// The upstream envelope carried a non-zero status code.
    Upstream { retcode: i32, message: String },
    /// The requested account or game binding is absent from the listing.
    NotFound,
    /// The response body did not match the expected schema.
    Deserialization(String),
    /// A success envelope arrived without its payload.
    MissingData,
}

impl SdkError {
    /// A short diagnostic label for the variant, for logs and messages.
    pub fn describe(&self) -> (r: &'static str)
        ensures
            r@ == describe_spec(*self),
    {
        match self {
            SdkError::MissingCredential => "missing credential",
            SdkError::MissingAccountId => "missing account id",
            SdkError::MissingUid => "missing uid",
            SdkError::MissingGameUid => "missing game uid",
            SdkError::UnknownUidPrefix => "unknown uid prefix",
            SdkError::Transport(_) => "transport failure",
            SdkError::Upstream { .. } => "upstream failure",
            SdkError::NotFound => "not found",
            SdkError::Deserialization(_) => "deserialization failure",
            SdkError::MissingData => "missing data",
        }
    }
}

/// The diagnostic label belonging to each variant.
pub open spec fn describe_spec(e: SdkError) -> Seq<char> {
    match e {
        SdkError::MissingCredential => "missing credential"@,
        SdkError::MissingAccountId => "missing account id"@,
        SdkError::MissingUid => "missing uid"@,
        SdkError::MissingGameUid => "missing game uid"@,
        SdkError::UnknownUidPrefix => "unknown uid prefix"@,
        SdkError::Transport(_) => "transport failure"@,
        SdkError::Upstream { .. } => "upstream failure"@,
        SdkError::NotFound => "not found"@,
        SdkError::Deserialization(_) => "deserialization failure"@,
        SdkError::MissingData => "missing data"@,
    }
}

} // verus!
