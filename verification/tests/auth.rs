//! Getting credentials.

use spotify_player::auth::after_login;
use spotify_player::auth::after_refresh;
use spotify_player::auth::credentials;
use spotify_player::auth::get_creds;
use spotify_player::auth::oauth_scopes;
use spotify_player::auth::AppConfig;
use spotify_player::auth::AuthConfig;
use spotify_player::auth::AuthError;
use spotify_player::auth::Configs;
use spotify_player::auth::CredsStep;
use spotify_player::auth::DeviceConfig;
use spotify_player::auth::OAuthToken;
use spotify_player::auth::StoredOAuthToken;
use spotify_player::auth::SPOTIFY_CLIENT_ID;

fn config() -> AuthConfig<String> {
    AuthConfig::in_folder("/home/me".to_string())
}

fn stored(token: &str) -> Option<StoredOAuthToken> {
    Some(StoredOAuthToken { refresh_token: token.to_string() })
}

fn token() -> OAuthToken {
    OAuthToken { access_token: "access".to_string(), refresh_token: "next".to_string() }
}

#[test]
fn default_config() {
    let config = config();
    assert_eq!(config.login_redirect_uri, "http://127.0.0.1:8989/login");
    assert_eq!(config.cache_folder, "/home/me");
    assert_eq!(config.audio_cache_folder, None);
}

#[test]
fn config_from_configuration() {
    for (audio_cache, folder) in [(true, Some("audio")), (false, None)] {
        let config = AuthConfig::new(Configs {
            app_config: AppConfig {
                device: DeviceConfig { audio_cache },
                login_redirect_uri: "http://localhost:1/x".to_string(),
            },
            cache_folder: 7u8,
        });
        assert_eq!(config.audio_cache_folder, folder);
        assert_eq!(config.login_redirect_uri, "http://localhost:1/x");
        assert_eq!(config.cache_folder, 7);
    }
}

#[test]
fn scopes_of_the_application() {
    let scopes = oauth_scopes();
    assert_eq!(scopes.len(), 17);
    assert_eq!(scopes[0], "user-read-playback-state");
    assert_eq!(scopes[4], "streaming");
    assert_eq!(scopes[16], "user-personalized");
}

#[test]
fn stored_token_is_refreshed() {
    match get_creds(&config(), false, true, stored("kept")) {
        Ok(CredsStep::Refresh { settings, refresh_token }) => {
            assert_eq!(refresh_token, "kept");
            assert_eq!(settings.client_id, SPOTIFY_CLIENT_ID);
            assert_eq!(settings.redirect_uri, "http://127.0.0.1:8989/login");
            assert_eq!(settings.scopes, oauth_scopes());
            assert!(!settings.open_in_browser);
            assert!(settings.client().is_ok());
        }
        other => panic!("{other:?}"),
    }
}

#[test]
fn no_login_unless_wanted() {
    for (use_cached, token) in [(true, None), (true, stored("")), (false, stored("kept"))] {
        assert!(matches!(
            get_creds(&config(), false, use_cached, token),
            Err(AuthError::NotAuthenticated)
        ));
    }
    assert!(matches!(
        after_refresh(&config(), false, None),
        Err(AuthError::NotAuthenticated)
    ));
}

#[test]
fn wanted_login_opens_browser() {
    for step in [
        get_creds(&config(), true, true, None),
        get_creds(&config(), true, true, stored("")),
        get_creds(&config(), true, false, stored("kept")),
        after_refresh(&config(), true, None),
    ] {
        match step {
            Ok(CredsStep::Login { message, settings }) => {
                assert_eq!(
                    message,
                    "No cached credentials found, please authenticate the application first."
                );
                assert!(settings.open_in_browser);
                assert_eq!(settings.client_id, "65b708073fc0480ea92a077233ca87bd");
                assert!(settings.client().is_ok());
            }
            other => panic!("{other:?}"),
        }
    }
}

#[test]
fn bad_redirect_uri_gives_no_client() {
    let mut config = config();
    config.login_redirect_uri = "no uri".to_string();
    for use_cached in [true, false] {
        match get_creds(&config, true, use_cached, stored("kept")) {
            Ok(CredsStep::Refresh { settings, .. }) | Ok(CredsStep::Login { settings, .. }) => {
                match settings.client() {
                    Err(AuthError::OAuth(err)) => assert_eq!(
                        err.to_string(),
                        "Invalid Redirect URI no uri (relative URL without a base)"
                    ),
                    _ => panic!("a client or another error"),
                }
            }
            other => panic!("{other:?}"),
        }
    }
}

#[test]
fn new_token_is_stored_and_used_next() {
    for (step, creates) in [
        (after_refresh(&config(), false, Some(token())), false),
        (after_login(Ok(token())), true),
    ] {
        match step {
            Ok(CredsStep::Authenticated { create_folder, store, access_token }) => {
                assert_eq!(create_folder, creates);
                assert_eq!(access_token, "access");
                assert_eq!(store.refresh_token, "next");
                match get_creds(&config(), false, true, Some(store)) {
                    Ok(CredsStep::Refresh { refresh_token, .. }) => {
                        assert_eq!(refresh_token, "next")
                    }
                    other => panic!("{other:?}"),
                }
            }
            other => panic!("{other:?}"),
        }
    }
}

#[test]
fn failed_login_is_an_error() {
    let failed = after_login(Err(librespot_oauth::OAuthError::Recv));
    assert!(matches!(failed, Err(AuthError::OAuth(librespot_oauth::OAuthError::Recv))));
}

#[test]
fn credentials_carry_access_token() {
    let credentials = credentials("access".to_string());
    assert_eq!(credentials.username, None);
    assert_eq!(credentials.auth_data, b"access".to_vec());
}

#[test]
fn login_errors_have_messages() {
    let refused = get_creds(&config(), false, false, None).unwrap_err();
    assert_eq!(
        refused.message(),
        Some("No cached credentials found, please authenticate the application first.")
    );
    assert_eq!(AuthError::OAuth(librespot_oauth::OAuthError::Recv).message(), None);
}
