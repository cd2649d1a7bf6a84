use setup_sync::auth::check_basic_auth;
use setup_sync::catalog::CatalogCache;
use setup_sync::config::{default_admin_password, default_admin_username, Config};
use setup_sync::errors::SyncError;
use setup_sync::models::{Metadata, RefreshTokenResponse};
use setup_sync::remote::{
    credential_check_outcome, download_file_url, interpret_catalog_response,
    interpret_download_response, interpret_listing_response, interpret_refresh_response,
    refresh_request, require_jwt, CredentialCheckOutcome,
};
use setup_sync::text::{contains_substring, decimal_string, is_setup_file, sanitize_filename};

fn response(id: &str, refresh: &str) -> RefreshTokenResponse {
    RefreshTokenResponse {
        id_token: id.to_string(),
        refresh_token: refresh.to_string(),
        expires_in: "3600".to_string(),
    }
}

#[test]
fn error_messages_are_fixed() {
    assert_eq!(SyncError::Auth.message(), "the remote rejected the credential");
    assert_eq!(
        SyncError::Protocol.message(),
        "unexpected or empty response body (token likely expired)"
    );
    assert_eq!(SyncError::Remote.message(), "the remote answered with a non-success status");
    assert_eq!(SyncError::NotReady.message(), "Metadata not loaded");
    assert_eq!(SyncError::NotAuthenticated.message(), "JWT token not available");
    assert_eq!(SyncError::Filesystem.message(), "could not create a directory or write a file");
}

#[test]
fn sanitize_replaces_every_forbidden_character() {
    assert_eq!(sanitize_filename("a:b/c"), "a_b_c");
    assert_eq!(sanitize_filename(r#"/\:*?"<>|"#), "_________");
    assert_eq!(sanitize_filename("Nürburgring GP"), "Nürburgring GP");
    assert_eq!(sanitize_filename(""), "");
    assert_eq!(sanitize_filename("a::b"), "a__b");
}

#[test]
fn decimal_string_renders_exact_digits() {
    assert_eq!(decimal_string(0), "0");
    assert_eq!(decimal_string(5), "5");
    assert_eq!(decimal_string(10), "10");
    assert_eq!(decimal_string(905), "905");
    assert_eq!(decimal_string(u32::MAX), "4294967295");
}

#[test]
fn setup_file_suffix_is_exact_and_case_sensitive() {
    assert!(is_setup_file("a.sto"));
    assert!(is_setup_file(".sto"));
    assert!(!is_setup_file("sto"));
    assert!(!is_setup_file("a.STO"));
    assert!(!is_setup_file("a.sto.bak"));
}

#[test]
fn substring_search_finds_the_domain() {
    let listing = "Currently stored credentials:\n  Target: setups.example.com\n";
    assert!(contains_substring(listing, "setups.example.com"));
    assert!(!contains_substring(listing, "other.example.com"));
    assert!(contains_substring(listing, ""));
    assert!(!contains_substring("short", "much longer needle"));
}

#[test]
fn refresh_rotates_both_tokens() {
    let mut config = Config::from_env_parts("boot-token".to_string(), None, None);
    assert_eq!(config.jwt_token, None);
    config.apply_refresh(response("jwt-1", "rotated-1"));
    let snap = config.snapshot();
    assert_eq!(snap.jwt_token.as_deref(), Some("jwt-1"));
    assert_eq!(snap.refresh_token, "rotated-1");
    config.apply_refresh(response("jwt-2", "rotated-2"));
    assert_eq!(config.jwt_token.as_deref(), Some("jwt-2"));
    assert_eq!(config.refresh_token, "rotated-2");
}

#[test]
fn update_tokens_keeps_admin_credentials() {
    let mut config = Config::from_env_parts(
        "boot".to_string(),
        Some("root".to_string()),
        Some("secret".to_string()),
    );
    config.update_tokens("jwt".to_string(), "next".to_string());
    assert_eq!(config.admin_username, "root");
    assert_eq!(config.admin_password, "secret");
    assert_eq!(config.jwt_token.as_deref(), Some("jwt"));
    assert_eq!(config.refresh_token, "next");
}

#[test]
fn env_config_applies_defaults() {
    let config = Config::from_env_parts("t".to_string(), None, None);
    assert_eq!(config.admin_username, "admin");
    assert_eq!(config.admin_password, "changeme");
    assert_eq!(default_admin_username(), "admin");
    assert_eq!(default_admin_password(), "changeme");
}

#[test]
fn file_config_keeps_saved_tokens_and_defaults_the_rest() {
    let config = Config::from_file_parts(
        "file-token".to_string(),
        Some("saved-jwt".to_string()),
        None,
        Some("pw".to_string()),
    );
    assert_eq!(config.refresh_token, "file-token");
    assert_eq!(config.jwt_token.as_deref(), Some("saved-jwt"));
    assert_eq!(config.admin_username, "admin");
    assert_eq!(config.admin_password, "pw");
}

#[test]
fn placeholder_token_is_detected() {
    let config = Config::from_file_parts(
        "PASTE_YOUR_REFRESH_TOKEN_HERE".to_string(),
        None,
        None,
        None,
    );
    assert!(config.has_placeholder_token());
    let good = Config::from_file_parts("real".to_string(), None, None, None);
    assert!(!good.has_placeholder_token());
}

#[test]
fn current_jwt_is_empty_before_the_first_refresh() {
    let mut config = Config::from_env_parts("boot".to_string(), None, None);
    assert_eq!(config.get_current_jwt(), "");
    config.update_tokens("jwt".to_string(), "next".to_string());
    assert_eq!(config.get_current_jwt(), "jwt");
}

#[test]
fn require_jwt_fails_before_authentication() {
    let mut config = Config::from_env_parts("boot".to_string(), None, None);
    assert_eq!(require_jwt(&config), Err(SyncError::NotAuthenticated));
    config.update_tokens("jwt".to_string(), "next".to_string());
    assert_eq!(require_jwt(&config), Ok("jwt".to_string()));
}

#[test]
fn refresh_request_carries_the_held_token() {
    let config = Config::from_env_parts("boot".to_string(), None, None);
    assert_eq!(refresh_request(&config).refresh_token, "boot");
}

#[test]
fn refresh_response_interpretation() {
    assert_eq!(
        interpret_refresh_response(500, false, Some(response("a", "b"))).unwrap_err(),
        SyncError::Auth
    );
    assert_eq!(
        interpret_refresh_response(200, true, None).unwrap_err(),
        SyncError::Protocol
    );
    assert_eq!(
        interpret_refresh_response(200, false, None).unwrap_err(),
        SyncError::Protocol
    );
    let ok = interpret_refresh_response(200, false, Some(response("id", "rt"))).unwrap();
    assert_eq!(ok.id_token, "id");
    assert_eq!(ok.refresh_token, "rt");
    assert_eq!(ok.expires_in, "3600");
}

#[test]
fn failed_refresh_leaves_the_credential_untouched() {
    let mut config = Config::from_env_parts("boot".to_string(), None, None);
    config.update_tokens("jwt-old".to_string(), "refresh-old".to_string());
    assert_eq!(
        config.apply_refresh_outcome(500, false, Some(response("x", "y"))),
        Err(SyncError::Auth)
    );
    assert_eq!(config.apply_refresh_outcome(200, true, None), Err(SyncError::Protocol));
    assert_eq!(config.apply_refresh_outcome(200, false, None), Err(SyncError::Protocol));
    assert_eq!(config.jwt_token.as_deref(), Some("jwt-old"));
    assert_eq!(config.refresh_token, "refresh-old");
    assert_eq!(
        config.apply_refresh_outcome(200, false, Some(response("jwt-new", "refresh-new"))),
        Ok(())
    );
    assert_eq!(config.jwt_token.as_deref(), Some("jwt-new"));
    assert_eq!(config.refresh_token, "refresh-new");
}

#[test]
fn failed_fetch_leaves_the_catalog_untouched() {
    let mut cache = CatalogCache::new();
    let loaded = Metadata {
        cars: vec![(
            "1".to_string(),
            setup_sync::models::CarInfo {
                id: 1,
                display_name: "One".to_string(),
                iracing_path: None,
            },
        )],
        tracks: vec![],
    };
    assert_eq!(cache.apply_fetch_outcome(200, Some(loaded)), Ok(()));
    assert_eq!(cache.apply_fetch_outcome(503, None), Err(SyncError::Remote));
    assert_eq!(cache.get().unwrap().cars.len(), 1);
    assert_eq!(
        cache.apply_fetch_outcome(200, Some(Metadata { cars: vec![], tracks: vec![] })),
        Ok(())
    );
    assert_eq!(cache.get().unwrap().cars.len(), 0);
}

#[test]
fn catalog_response_interpretation() {
    let m = Metadata { cars: vec![], tracks: vec![] };
    assert_eq!(
        interpret_catalog_response(502, None).map(|_| ()).unwrap_err(),
        SyncError::Remote
    );
    assert_eq!(
        interpret_catalog_response(200, None).map(|_| ()).unwrap_err(),
        SyncError::Remote
    );
    assert!(interpret_catalog_response(204, Some(m)).is_ok());
}

#[test]
fn listing_response_interpretation() {
    assert_eq!(
        interpret_listing_response(401, None).map(|_| ()).unwrap_err(),
        SyncError::Auth
    );
    assert_eq!(
        interpret_listing_response(200, None).map(|_| ()).unwrap_err(),
        SyncError::Protocol
    );
    let files = interpret_listing_response(200, Some(vec![])).unwrap();
    assert!(files.is_empty());
}

#[test]
fn download_response_interpretation() {
    assert_eq!(
        interpret_download_response(404, vec![]).map(|_| ()).unwrap_err(),
        SyncError::Remote
    );
    assert_eq!(interpret_download_response(200, vec![1, 2, 3]).unwrap(), vec![1, 2, 3]);
}

#[test]
fn download_url_is_built_from_the_artifact_identity() {
    assert_eq!(
        download_file_url("pack9", "sess3", "race.sto"),
        "https://member.apexracinguk.com/member/download-datapack-file/pack9/sess3/race.sto"
    );
}

#[test]
fn catalog_cache_starts_empty_and_swaps_whole() {
    let mut cache = CatalogCache::new();
    assert!(cache.get().is_none());
    assert_eq!(cache.require().map(|_| ()).unwrap_err(), SyncError::NotReady);
    let m1 = Metadata {
        cars: vec![(
            "1".to_string(),
            setup_sync::models::CarInfo {
                id: 1,
                display_name: "One".to_string(),
                iracing_path: None,
            },
        )],
        tracks: vec![],
    };
    cache.replace(m1);
    assert_eq!(cache.get().unwrap().cars.len(), 1);
    let m2 = Metadata { cars: vec![], tracks: vec![] };
    cache.replace(m2);
    let seen = cache.get().unwrap();
    assert_eq!(seen.cars.len(), 0);
    assert_eq!(seen.tracks.len(), 0);
}

#[test]
fn auth_guard_rejects_missing_or_malformed_headers() {
    assert!(!check_basic_auth(None, "admin", "changeme"));
    assert!(!check_basic_auth(Some(""), "admin", "changeme"));
    assert!(!check_basic_auth(Some("Bearer abc"), "admin", "changeme"));
    // Not base64 at all.
    assert!(!check_basic_auth(Some("Basic !!!"), "admin", "changeme"));
    // Decodes, but holds no colon: base64 of "adminchangeme".
    assert!(!check_basic_auth(Some("Basic YWRtaW5jaGFuZ2VtZQ=="), "admin", "changeme"));
}

#[test]
fn auth_guard_accepts_exactly_the_admin_credentials() {
    // base64 of "admin:changeme"
    let good = "Basic YWRtaW46Y2hhbmdlbWU=";
    assert!(check_basic_auth(Some(good), "admin", "changeme"));
    assert!(!check_basic_auth(Some(good), "admin", "other"));
    assert!(!check_basic_auth(Some(good), "other", "changeme"));
    // base64 of "admin:change" — a prefix of the password is not enough.
    assert!(!check_basic_auth(Some("Basic YWRtaW46Y2hhbmdl"), "admin", "changeme"));
    // base64 of "admin:pass:word" — the password may hold colons.
    assert!(check_basic_auth(Some("Basic YWRtaW46cGFzczp3b3Jk"), "admin", "pass:word"));
}

#[test]
fn credential_probe_classifies_statuses() {
    assert_eq!(credential_check_outcome(200), CredentialCheckOutcome::Accepted);
    assert_eq!(credential_check_outcome(399), CredentialCheckOutcome::Accepted);
    assert_eq!(credential_check_outcome(405), CredentialCheckOutcome::Accepted);
    assert_eq!(credential_check_outcome(401), CredentialCheckOutcome::InvalidCredentials);
    assert_eq!(credential_check_outcome(500), CredentialCheckOutcome::ServerError);
    assert_eq!(credential_check_outcome(404), CredentialCheckOutcome::ServerError);
}
