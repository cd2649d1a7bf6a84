//! The credential/configuration record.
//!
//! Exactly one live `Config` exists per process, shared behind a
//! reader/writer lock owned by the surrounding application.  Every mutation
//! here replaces whole fields under that exclusive lock; readers take a
//! `snapshot` (or a single field) under the shared lock.  The record itself
//! never touches the network or the disk: the application loads it at start
//! and, in the file-backed deployment, persists it after every
//! `update_tokens`.

use vstd::prelude::*;

use crate::errors::SyncError;
use crate::models::RefreshTokenResponse;
use crate::remote::{interpret_refresh_response, spec_status_success};

verus! {

/// The mutable credential record plus the static admin credential.
///
/// `refresh_token` is always present and is all that is needed to bootstrap;
/// `jwt_token` (the access token) is absent until the first successful
/// refresh.
#[derive(Debug, Clone)]
pub struct Config {
    pub refresh_token: String,
    pub jwt_token: Option<String>,
    pub admin_username: String,
    pub admin_password: String,
}

/// The admin user name used when none is configured.
pub fn default_admin_username() -> (r: String)
    ensures
        r@ == "admin"@,
{
    String::from_str("admin")
}

/// The admin password used when none is configured.
pub fn default_admin_password() -> (r: String)
    ensures
        r@ == "changeme"@,
{
    String::from_str("changeme")
}

impl Config {
    /// Builds the record from the values the environment supplies: the
    /// mandatory bootstrap refresh token and the two optional admin
    /// credentials, which fall back to the fixed defaults.  No access token
    /// is present yet.
    pub fn from_env_parts(
        refresh_token: String,
        admin_username: Option<String>,
        admin_password: Option<String>,
    ) -> (r: Config)
        ensures
            r.refresh_token == refresh_token,
            r.jwt_token is None,
            match admin_username {
                Some(u) => r.admin_username == u,
                None => r.admin_username@ == "admin"@,
            },
            match admin_password {
                Some(p) => r.admin_password == p,
                None => r.admin_password@ == "changeme"@,
            },
    {
        let u = match admin_username {
            Some(u) => u,
            None => default_admin_username(),
        };
        let p = match admin_password {
            Some(p) => p,
            None => default_admin_password(),
        };
        Config { refresh_token, jwt_token: None, admin_username: u, admin_password: p }
    }

    /// Builds the record from what the configuration file held: the
    /// bootstrap refresh token, an access token if one was saved, and the
    /// admin credentials, which fall back to the fixed defaults where the
    /// file leaves them out.
    pub fn from_file_parts(
        refresh_token: String,
        jwt_token: Option<String>,
        admin_username: Option<String>,
        admin_password: Option<String>,
    ) -> (r: Config)
        ensures
            r.refresh_token == refresh_token,
            r.jwt_token == jwt_token,
            match admin_username {
                Some(u) => r.admin_username == u,
                None => r.admin_username@ == "admin"@,
            },
            match admin_password {
                Some(p) => r.admin_password == p,
                None => r.admin_password@ == "changeme"@,
            },
    {
        let u = match admin_username {
            Some(u) => u,
            None => default_admin_username(),
        };
        let p = match admin_password {
            Some(p) => p,
            None => default_admin_password(),
        };
        Config { refresh_token, jwt_token, admin_username: u, admin_password: p }
    }

    /// Installs the tokens a successful refresh returned: the new access
    /// token and the rotated refresh token, as one whole-record update.  The
    /// admin credential is untouched.
    pub fn update_tokens(&mut self, jwt: String, refresh: String)
        ensures
            final(self).jwt_token == Some(jwt),
            final(self).refresh_token == refresh,
            final(self).admin_username == old(self).admin_username,
            final(self).admin_password == old(self).admin_password,
    {
        self.jwt_token = Some(jwt);
        self.refresh_token = refresh;
    }

    /// Installs what a successful token refresh returned: afterwards the
    /// held access token is exactly the `id_token` of the answer and the
    /// held refresh token is exactly its rotated `refresh_token` — the old
    /// refresh token is not reused.
    pub fn apply_refresh(&mut self, response: RefreshTokenResponse)
        ensures
            final(self).jwt_token == Some(response.id_token),
            final(self).refresh_token == response.refresh_token,
            final(self).admin_username == old(self).admin_username,
            final(self).admin_password == old(self).admin_password,
    {
        self.update_tokens(response.id_token, response.refresh_token);
    }

    /// Applies the outcome of a token-refresh round-trip.  On success both
    /// tokens rotate to what the answer carried; on any failure the whole
    /// record stays exactly as it was and the error propagates — an
    /// authentication failure for a bad status, a protocol failure for an
    /// empty or unparsable body.
    pub fn apply_refresh_outcome(
        &mut self,
        status: u16,
        body_empty: bool,
        parsed: Option<RefreshTokenResponse>,
    ) -> (r: Result<(), SyncError>)
        ensures
            final(self).admin_username == old(self).admin_username,
            final(self).admin_password == old(self).admin_password,
            match r {
                Ok(()) => {
                    &&& spec_status_success(status)
                    &&& !body_empty
                    &&& parsed is Some
                    &&& final(self).jwt_token == Some(parsed->Some_0.id_token)
                    &&& final(self).refresh_token == parsed->Some_0.refresh_token
                },
                Err(e) => {
                    &&& *final(self) == *old(self)
                    &&& (e == SyncError::Auth <==> !spec_status_success(status))
                    &&& (e == SyncError::Protocol <==> spec_status_success(status) && (body_empty
                        || parsed is None))
                    &&& (e == SyncError::Auth || e == SyncError::Protocol)
                },
            },
    {
        match interpret_refresh_response(status, body_empty, parsed) {
            Ok(response) => {
                self.apply_refresh(response);
                Ok(())
            },
            Err(e) => Err(e),
        }
    }

    /// Replaces the refresh token, leaving every other field as it was.
    pub fn set_refresh_token(&mut self, new_token: String)
        ensures
            final(self).refresh_token == new_token,
            final(self).jwt_token == old(self).jwt_token,
            final(self).admin_username == old(self).admin_username,
            final(self).admin_password == old(self).admin_password,
    {
        self.refresh_token = new_token;
    }

    /// The current access token, or the empty string while none is held.
    pub fn get_current_jwt(&self) -> (r: String)
        ensures
            match self.jwt_token {
                Some(t) => r == t,
                None => r@ == Seq::<char>::empty(),
            },
    {
        match &self.jwt_token {
            Some(t) => t.clone(),
            None => String::new(),
        }
    }

    /// A copy of the whole record, as a reader takes under the shared lock.
    pub fn snapshot(&self) -> (r: Config)
        ensures
            r == *self,
    {
        let jwt = match &self.jwt_token {
            Some(t) => Some(t.clone()),
            None => None,
        };
        Config {
            refresh_token: self.refresh_token.clone(),
            jwt_token: jwt,
            admin_username: self.admin_username.clone(),
            admin_password: self.admin_password.clone(),
        }
    }

    /// True when the stored refresh token is still the placeholder a freshly
    /// created configuration file carries; the agent refuses to start on it.
    pub fn has_placeholder_token(&self) -> (r: bool)
        ensures
            r == (self.refresh_token@ == "PASTE_YOUR_REFRESH_TOKEN_HERE"@),
    {
        let sentinel = String::from_str("PASTE_YOUR_REFRESH_TOKEN_HERE");
        self.refresh_token == sentinel
    }
}

} // verus!
