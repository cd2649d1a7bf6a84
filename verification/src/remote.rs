//! Decisions around the four remote calls.
//!
//! The surrounding application performs the HTTP round-trips and parses the
//! JSON bodies; each call's status and parsed body come back here, and these
//! functions decide — exactly as the protocol demands — whether the call
//! succeeded and which error it failed with.

use vstd::prelude::*;

use crate::config::Config;
use crate::errors::SyncError;
use crate::models::{DatapackFile, Metadata, RefreshTokenRequest, RefreshTokenResponse};

verus! {

/// A successful HTTP status, as the transport reports it.
pub open spec fn spec_status_success(status: u16) -> bool {
    200 <= status < 300
}

/// Exec mirror of `spec_status_success`.
pub fn status_success(status: u16) -> (r: bool)
    ensures
        r == spec_status_success(status),
{
    200 <= status && status < 300
}

/// The request body of a token refresh: the currently held refresh token.
pub fn refresh_request(config: &Config) -> (r: RefreshTokenRequest)
    ensures
        r.refresh_token == config.refresh_token,
{
    RefreshTokenRequest { refresh_token: config.refresh_token.clone() }
}

/// The access token reconciliation needs, or `NotAuthenticated` before the
/// first successful refresh.
pub fn require_jwt(config: &Config) -> (r: Result<String, SyncError>)
    ensures
        match config.jwt_token {
            Some(t) => r == Ok::<String, SyncError>(t),
            None => r == Err::<String, SyncError>(SyncError::NotAuthenticated),
        },
{
    match &config.jwt_token {
        Some(t) => Ok(t.clone()),
        None => Err(SyncError::NotAuthenticated),
    }
}

/// Judges the answer of the token-refresh endpoint.  A non-success status is
/// an authentication failure; an empty body is the remote's unambiguous
/// expired-token signal, and, like a body that did not parse, a protocol
/// failure.
pub fn interpret_refresh_response(
    status: u16,
    body_empty: bool,
    parsed: Option<RefreshTokenResponse>,
) -> (r: Result<RefreshTokenResponse, SyncError>)
    ensures
        !spec_status_success(status) ==> r == Err::<RefreshTokenResponse, SyncError>(
            SyncError::Auth,
        ),
        spec_status_success(status) && body_empty ==> r == Err::<RefreshTokenResponse, SyncError>(
            SyncError::Protocol,
        ),
        spec_status_success(status) && !body_empty ==> match parsed {
            Some(p) => r == Ok::<RefreshTokenResponse, SyncError>(p),
            None => r == Err::<RefreshTokenResponse, SyncError>(SyncError::Protocol),
        },
{
    if !status_success(status) {
        Err(SyncError::Auth)
    } else if body_empty {
        Err(SyncError::Protocol)
    } else {
        match parsed {
            Some(p) => Ok(p),
            None => Err(SyncError::Protocol),
        }
    }
}

/// Judges the answer of the catalog endpoint: any non-success status or
/// malformed body is a remote failure, and the previous catalog stays.
pub fn interpret_catalog_response(status: u16, parsed: Option<Metadata>) -> (r: Result<
    Metadata,
    SyncError,
>)
    ensures
        !spec_status_success(status) ==> r == Err::<Metadata, SyncError>(SyncError::Remote),
        spec_status_success(status) ==> match parsed {
            Some(m) => r == Ok::<Metadata, SyncError>(m),
            None => r == Err::<Metadata, SyncError>(SyncError::Remote),
        },
{
    if !status_success(status) {
        Err(SyncError::Remote)
    } else {
        match parsed {
            Some(m) => Ok(m),
            None => Err(SyncError::Remote),
        }
    }
}

/// Judges the answer of the artifact-listing endpoint.  A non-success status
/// is an authentication failure (most commonly an expired access token); a
/// body that did not parse is a protocol failure.
pub fn interpret_listing_response(status: u16, parsed: Option<Vec<DatapackFile>>) -> (r: Result<
    Vec<DatapackFile>,
    SyncError,
>)
    ensures
        !spec_status_success(status) ==> r == Err::<Vec<DatapackFile>, SyncError>(SyncError::Auth),
        spec_status_success(status) ==> match parsed {
            Some(files) => r == Ok::<Vec<DatapackFile>, SyncError>(files),
            None => r == Err::<Vec<DatapackFile>, SyncError>(SyncError::Protocol),
        },
{
    if !status_success(status) {
        Err(SyncError::Auth)
    } else {
        match parsed {
            Some(files) => Ok(files),
            None => Err(SyncError::Protocol),
        }
    }
}

/// Judges the answer of the artifact-download endpoint: the whole file's
/// bytes on success, a remote failure otherwise.
pub fn interpret_download_response(status: u16, bytes: Vec<u8>) -> (r: Result<Vec<u8>, SyncError>)
    ensures
        !spec_status_success(status) ==> r == Err::<Vec<u8>, SyncError>(SyncError::Remote),
        spec_status_success(status) ==> r == Ok::<Vec<u8>, SyncError>(bytes),
{
    if !status_success(status) {
        Err(SyncError::Remote)
    } else {
        Ok(bytes)
    }
}

/// The URL an artifact is downloaded from.
pub open spec fn spec_download_url(
    datapack_id: Seq<char>,
    session_id: Seq<char>,
    file_name: Seq<char>,
) -> Seq<char> {
    "https://member.apexracinguk.com/member/download-datapack-file/"@ + datapack_id + "/"@
        + session_id + "/"@ + file_name
}

/// Builds the download URL of one artifact from its datapack, session and
/// file name.
pub fn download_file_url(datapack_id: &str, session_id: &str, file_name: &str) -> (r: String)
    ensures
        r@ == spec_download_url(datapack_id@, session_id@, file_name@),
{
    let mut r = String::from_str("https://member.apexracinguk.com/member/download-datapack-file/");
    r.append(datapack_id);
    r.append("/");
    r.append(session_id);
    r.append("/");
    r.append(file_name);
    proof {
        assert(r@ =~= spec_download_url(datapack_id@, session_id@, file_name@));
    }
    r
}

/// How the one-shot connection tool reads the status of its probe request:
/// anything below 400 — and 405, which only rejects the method — proves the
/// supplied credentials; 401 rejects them; any other status is a server
/// failure.
#[derive(Debug, Clone, Copy, PartialEq, Eq, Structural)]
pub enum CredentialCheckOutcome {
    Accepted,
    InvalidCredentials,
    ServerError,
}

/// Classifies the HTTP status of a credential probe.
pub fn credential_check_outcome(status: u16) -> (r: CredentialCheckOutcome)
    ensures
        (status < 400 || status == 405) ==> r == CredentialCheckOutcome::Accepted,
        status == 401 ==> r == CredentialCheckOutcome::InvalidCredentials,
        (400 <= status && status != 401 && status != 405) ==> r
            == CredentialCheckOutcome::ServerError,
{
    if status < 400 || status == 405 {
        CredentialCheckOutcome::Accepted
    } else if status == 401 {
        CredentialCheckOutcome::InvalidCredentials
    } else {
        CredentialCheckOutcome::ServerError
    }
}

} // verus!
