//! Error kinds of the synchronization core.

use vstd::prelude::*;

verus! {

/// Everything that can go wrong in a core operation.
///
/// - `Auth`: the remote rejected the credential; only a new refresh token can
///   recover from it.
/// - `Protocol`: the remote answered with an unexpected, empty or malformed
///   body; for the token-refresh call this is treated like an expired
///   credential.
/// - `Remote`: any other non-success answer from the catalog, listing or
///   download endpoints.
/// - `NotReady`: no catalog has been loaded yet.
/// - `NotAuthenticated`: no access token has been obtained yet.
/// - `Filesystem`: a directory could not be created or a file not written.
#[derive(Debug, Clone, Copy, PartialEq, Eq, Structural)]
pub enum SyncError {
    Auth,
    Protocol,
    Remote,
    NotReady,
    NotAuthenticated,
    Filesystem,
}

impl SyncError {
    /// The fixed human-readable line for each error kind, as logs and the
    /// control surface's error bodies report it.
    pub open spec fn spec_message(self) -> Seq<char> {
        match self {
            SyncError::Auth => "the remote rejected the credential"@,
            SyncError::Protocol => "unexpected or empty response body (token likely expired)"@,
            SyncError::Remote => "the remote answered with a non-success status"@,
            SyncError::NotReady => "Metadata not loaded"@,
            SyncError::NotAuthenticated => "JWT token not available"@,
            SyncError::Filesystem => "could not create a directory or write a file"@,
        }
    }

    /// Renders this error kind's fixed message.
    pub fn message(&self) -> (r: String)
        ensures
            r@ == self.spec_message(),
    {
        match self {
            SyncError::Auth => String::from_str("the remote rejected the credential"),
            SyncError::Protocol => String::from_str(
                "unexpected or empty response body (token likely expired)",
            ),
            SyncError::Remote => String::from_str("the remote answered with a non-success status"),
            SyncError::NotReady => String::from_str("Metadata not loaded"),
            SyncError::NotAuthenticated => String::from_str("JWT token not available"),
            SyncError::Filesystem => String::from_str(
                "could not create a directory or write a file",
            ),
        }
    }
}

} // verus!
