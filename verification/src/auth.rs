//! How the application gets its Spotify credentials.
//!
//! The login is a series of steps that the application carries out. [`get_creds`] gives the first
//! one, `after_refresh` and `after_login` go on from there.

use vstd::prelude::*;
use vstd::string::*;

use librespot_core::authentication::Credentials;
use librespot_oauth::OAuthClient;
use librespot_oauth::OAuthClientBuilder;
use librespot_oauth::OAuthError;

verus! {

/// The client id under which the application is registered.
pub const SPOTIFY_CLIENT_ID: &'static str = "65b708073fc0480ea92a077233ca87bd";

/// The URI that the browser is sent to after a login, unless another one is configured.
pub const DEFAULT_REDIRECT_URI: &'static str = "http://127.0.0.1:8989/login";

/// The file in the cache folder that holds the refresh token.
pub const TOKEN_FILE: &'static str = "oauth_token.json";

/// The folder in the cache folder that holds audio data.
pub const AUDIO_FOLDER: &'static str = "audio";

/// What the user is told where a login is needed.
pub const LOGIN_MESSAGE: &'static str =
    "No cached credentials found, please authenticate the application first.";

/// What the application asks for on behalf of the user, see
/// <https://developer.spotify.com/documentation/web-api/concepts/scopes#list-of-scopes>.
pub open spec fn scopes() -> Seq<Seq<char>> {
    seq![
        "user-read-playback-state"@,
        "user-modify-playback-state"@,
        "user-read-currently-playing"@,
        "app-remote-control"@,
        "streaming"@,
        "playlist-read-private"@,
        "playlist-read-collaborative"@,
        "playlist-modify-private"@,
        "playlist-modify-public"@,
        "user-follow-modify"@,
        "user-follow-read"@,
        "user-read-playback-position"@,
        "user-top-read"@,
        "user-read-recently-played"@,
        "user-library-modify"@,
        "user-library-read"@,
        "user-personalized"@,
    ]
}

/// The texts that references to them stand for.
pub open spec fn texts(strs: Seq<&'static str>) -> Seq<Seq<char>> {
    strs.map_values(|s: &'static str| s@)
}

/// What the application asks for on behalf of the user.
pub fn oauth_scopes() -> (r: Vec<&'static str>)
    ensures
        texts(r@) == scopes(),
{
    let r: Vec<&'static str> = vec![
        "user-read-playback-state",
        "user-modify-playback-state",
        "user-read-currently-playing",
        "app-remote-control",
        "streaming",
        "playlist-read-private",
        "playlist-read-collaborative",
        "playlist-modify-private",
        "playlist-modify-public",
        "user-follow-modify",
        "user-follow-read",
        "user-read-playback-position",
        "user-top-read",
        "user-read-recently-played",
        "user-library-modify",
        "user-library-read",
        "user-personalized",
    ];
    assert(texts(r@) =~= scopes());
    r
}

/// The part of the configuration that belongs to the device.
#[derive(Debug)]
pub struct DeviceConfig {
    /// Whether audio data is cached.
    pub audio_cache: bool,
}

/// The part of the configuration that the user writes.
#[derive(Debug)]
pub struct AppConfig {
    pub device: DeviceConfig,
    pub login_redirect_uri: String,
}

/// The configuration. `P` is the type of paths.
#[derive(Debug)]
pub struct Configs<P> {
    pub app_config: AppConfig,
    pub cache_folder: P,
}

/// What the login needs of the configuration. `P` is the type of paths.
#[derive(Debug)]
pub struct AuthConfig<P> {
    /// The folder in the cache folder that audio data is cached in, if it is.
    pub audio_cache_folder: Option<&'static str>,
    pub login_redirect_uri: String,
    pub cache_folder: P,
}

impl<P> AuthConfig<P> {
    /// The login without a configuration, with its files in the folder `home`.
    pub fn in_folder(home: P) -> (r: AuthConfig<P>)
        ensures
            r.audio_cache_folder is None,
            r.login_redirect_uri@ == DEFAULT_REDIRECT_URI@,
            r.cache_folder == home,
    {
        AuthConfig {
            audio_cache_folder: None,
            login_redirect_uri: DEFAULT_REDIRECT_URI.to_owned(),
            cache_folder: home,
        }
    }

    /// What the login needs of the configuration.
    pub fn new(configs: Configs<P>) -> (r: AuthConfig<P>)
        ensures
            r.audio_cache_folder == (if configs.app_config.device.audio_cache {
                Some(AUDIO_FOLDER)
            } else {
                None
            }),
            r.login_redirect_uri == configs.app_config.login_redirect_uri,
            r.cache_folder == configs.cache_folder,
    {
        let audio_cache_folder = if configs.app_config.device.audio_cache {
            Some(AUDIO_FOLDER)
        } else {
            None
        };
        AuthConfig {
            audio_cache_folder,
            login_redirect_uri: configs.app_config.login_redirect_uri,
            cache_folder: configs.cache_folder,
        }
    }
}

/// Why there are no credentials.
#[derive(Debug)]
pub enum AuthError {
    /// There is no valid refresh token, and a login is not wanted.
    NotAuthenticated,
    /// The client of a login could not be built, or the login failed. The error is handed on as it
    /// came.
    OAuth(OAuthError),
}

impl AuthError {
    /// What the user is told, where the error is one of this library.
    pub open spec fn text(self) -> Option<Seq<char>> {
        match self {
            AuthError::NotAuthenticated => Some(LOGIN_MESSAGE@),
            AuthError::OAuth(_) => None,
        }
    }

    /// What the user is told, where the error is one of this library. An outside error speaks for
    /// itself.
    pub fn message(&self) -> (r: Option<&'static str>)
        ensures
            self.text() is None <==> r is None,
            r matches Some(text) ==> self.text() == Some(text@),
            self is NotAuthenticated ==> r == Some(LOGIN_MESSAGE),
    {
        match self {
            AuthError::NotAuthenticated => Some(LOGIN_MESSAGE),
            AuthError::OAuth(_) => None,
        }
    }
}

/// `librespot_oauth::OAuthClient`.
#[verifier::external_type_specification]
#[verifier::external_body]
pub struct ExOAuthClient(librespot_oauth::OAuthClient);

/// `librespot_oauth::OAuthError`.
#[verifier::external_type_specification]
#[verifier::external_body]
pub struct ExOAuthError(librespot_oauth::OAuthError);

/// What `librespot_oauth::OAuthClientBuilder::build` makes of a client id, a redirect URI and scopes:
/// a client or an error.
pub uninterp spec fn built_client(
    client_id: Seq<char>,
    redirect_uri: Seq<char>,
    scopes: Seq<Seq<char>>,
    open_in_browser: bool,
) -> Result<OAuthClient, OAuthError>;

/// `librespot_oauth::OAuthClientBuilder`: `new` and `build`.
///
/// The client, or the error, is a function of the arguments. It is an error where the redirect URI
/// does not parse as a URL, and names that URI; which texts parse is not stated.
#[verifier::external_body]
fn librespot_build(client_id: &str, redirect_uri: &str, scopes: Vec<&'static str>) -> (r: Result<
    OAuthClient,
    OAuthError,
>)
    ensures
        r == built_client(client_id@, redirect_uri@, texts(scopes@), false),
{
    OAuthClientBuilder::new(client_id, redirect_uri, scopes).build()
}

/// `librespot_oauth::OAuthClientBuilder`: `new`, `open_in_browser` and `build`.
///
/// The client, or the error, is a function of the arguments. It is an error where the redirect URI
/// does not parse as a URL, and names that URI; which texts parse is not stated.
#[verifier::external_body]
fn librespot_build_with_browser(
    client_id: &str,
    redirect_uri: &str,
    scopes: Vec<&'static str>,
) -> (r: Result<OAuthClient, OAuthError>)
    ensures
        r == built_client(client_id@, redirect_uri@, texts(scopes@), true),
{
    OAuthClientBuilder::new(client_id, redirect_uri, scopes).open_in_browser().build()
}

/// `librespot_core::authentication::Credentials`.
#[verifier::external_type_specification]
#[verifier::external_body]
pub struct ExCredentials(librespot_core::authentication::Credentials);

/// What `librespot_core::authentication::Credentials::with_access_token` makes of a token.
pub uninterp spec fn token_credentials(access_token: Seq<char>) -> Credentials;

/// `librespot_core::authentication::Credentials::with_access_token`: the credentials are a function
/// of the token.
#[verifier::external_body]
fn librespot_with_access_token(access_token: String) -> (r: Credentials)
    ensures
        r == token_credentials(access_token@),
{
    Credentials::with_access_token(access_token)
}

/// The credentials that log in with an access token.
pub fn credentials(access_token: String) -> (r: Credentials)
    ensures
        r == token_credentials(access_token@),
{
    librespot_with_access_token(access_token)
}

/// How the client of a login is set up.
#[derive(Debug)]
pub struct OAuthSettings {
    pub client_id: &'static str,
    pub redirect_uri: String,
    pub scopes: Vec<&'static str>,
    /// Whether the page of the login is opened in a browser.
    pub open_in_browser: bool,
}

/// How the client of a login is set up.
pub struct OAuthSettingsView {
    pub client_id: Seq<char>,
    pub redirect_uri: Seq<char>,
    pub scopes: Seq<Seq<char>>,
    pub open_in_browser: bool,
}

impl View for OAuthSettings {
    type V = OAuthSettingsView;

    open spec fn view(&self) -> OAuthSettingsView {
        OAuthSettingsView {
            client_id: self.client_id@,
            redirect_uri: self.redirect_uri@,
            scopes: texts(self.scopes@),
            open_in_browser: self.open_in_browser,
        }
    }
}

/// How the client of this application is set up.
pub open spec fn settings_for(redirect_uri: Seq<char>, open_in_browser: bool) -> OAuthSettingsView {
    OAuthSettingsView {
        client_id: SPOTIFY_CLIENT_ID@,
        redirect_uri,
        scopes: scopes(),
        open_in_browser,
    }
}

/// What comes of building a client: an error is handed on as it came.
pub open spec fn checked(built: Result<OAuthClient, OAuthError>) -> Result<OAuthClient, AuthError> {
    match built {
        Ok(client) => Ok(client),
        Err(e) => Err(AuthError::OAuth(e)),
    }
}

/// The client with the given settings, or why there is none.
pub open spec fn client_for(settings: OAuthSettingsView) -> Result<OAuthClient, AuthError> {
    checked(
        built_client(
            settings.client_id,
            settings.redirect_uri,
            settings.scopes,
            settings.open_in_browser,
        ),
    )
}

impl OAuthSettings {
    fn new(redirect_uri: &String, open_in_browser: bool) -> (r: OAuthSettings)
        ensures
            r@ == settings_for(redirect_uri@, open_in_browser),
    {
        OAuthSettings {
            client_id: SPOTIFY_CLIENT_ID,
            redirect_uri: redirect_uri.clone(),
            scopes: oauth_scopes(),
            open_in_browser,
        }
    }

    /// A client with these settings.
    pub fn client(self) -> (r: Result<OAuthClient, AuthError>)
        ensures
            r == client_for(self@),
    {
        checked_client(
            if self.open_in_browser {
                librespot_build_with_browser(self.client_id, self.redirect_uri.as_str(), self.scopes)
            } else {
                librespot_build(self.client_id, self.redirect_uri.as_str(), self.scopes)
            },
        )
    }
}

/// The client that was built, or why it was not.
pub fn checked_client(built: Result<OAuthClient, OAuthError>) -> (r: Result<OAuthClient, AuthError>)
    ensures
        r == checked(built),
{
    match built {
        Ok(client) => Ok(client),
        Err(e) => Err(AuthError::OAuth(e)),
    }
}

/// What is stored of a login.
#[derive(Debug)]
pub struct StoredOAuthToken {
    pub refresh_token: String,
}

/// What a login or a refresh gives.
#[derive(Debug)]
pub struct OAuthToken {
    pub access_token: String,
    pub refresh_token: String,
}

/// What is to be done next to get credentials.
#[derive(Debug)]
pub enum CredsStep {
    /// Refresh the stored token, then go on with `after_refresh`.
    Refresh { settings: OAuthSettings, refresh_token: String },
    /// Show the message and log in, then go on with `after_login`.
    Login { message: &'static str, settings: OAuthSettings },
    /// Store the token in the token file, after creating the cache folder where that is asked for.
    /// Whether that succeeds or not, log in with the `credentials` of the access token.
    Authenticated { create_folder: bool, store: StoredOAuthToken, access_token: String },
}

/// What is to be done next to get credentials.
pub enum CredsStepView {
    Refresh { settings: OAuthSettingsView, refresh_token: Seq<char> },
    Login { message: Seq<char>, settings: OAuthSettingsView },
    Authenticated { create_folder: bool, store: Seq<char>, access_token: Seq<char> },
}

impl View for CredsStep {
    type V = CredsStepView;

    open spec fn view(&self) -> CredsStepView {
        match *self {
            CredsStep::Refresh { settings, refresh_token } => CredsStepView::Refresh {
                settings: settings@,
                refresh_token: refresh_token@,
            },
            CredsStep::Login { message, settings } => CredsStepView::Login {
                message: message@,
                settings: settings@,
            },
            CredsStep::Authenticated { create_folder, store, access_token } => {
                CredsStepView::Authenticated {
                    create_folder,
                    store: store.refresh_token@,
                    access_token: access_token@,
                }
            },
        }
    }
}

/// What a result says.
pub open spec fn creds_view(r: Result<CredsStep, AuthError>) -> Result<CredsStepView, AuthError> {
    match r {
        Ok(step) => Ok(step@),
        Err(e) => Err(e),
    }
}

/// The step where no stored token can be used: a login, if it is wanted.
pub open spec fn login_step(redirect_uri: Seq<char>, reauth: bool) -> Result<
    CredsStepView,
    AuthError,
> {
    if reauth {
        Ok(
            CredsStepView::Login {
                message: LOGIN_MESSAGE@,
                settings: settings_for(redirect_uri, true),
            },
        )
    } else {
        Err(AuthError::NotAuthenticated)
    }
}

/// The first step: a stored token is refreshed, if it may be used and is not empty.
pub open spec fn first_step(
    redirect_uri: Seq<char>,
    reauth: bool,
    use_cached: bool,
    stored: Option<Seq<char>>,
) -> Result<CredsStepView, AuthError> {
    match stored {
        Some(refresh_token) if use_cached && refresh_token.len() > 0 => Ok(
            CredsStepView::Refresh { settings: settings_for(redirect_uri, false), refresh_token },
        ),
        _ => login_step(redirect_uri, reauth),
    }
}

/// The step after a refresh, which may have been rejected.
pub open spec fn step_after_refresh(
    redirect_uri: Seq<char>,
    reauth: bool,
    refreshed: Option<OAuthToken>,
) -> Result<CredsStepView, AuthError> {
    match refreshed {
        Some(token) => Ok(
            CredsStepView::Authenticated {
                create_folder: false,
                store: token.refresh_token@,
                access_token: token.access_token@,
            },
        ),
        None => login_step(redirect_uri, reauth),
    }
}

/// The step after a login, which may have failed.
pub open spec fn step_after_login(token: Result<OAuthToken, OAuthError>) -> Result<
    CredsStepView,
    AuthError,
> {
    match token {
        Ok(token) => Ok(
            CredsStepView::Authenticated {
                create_folder: true,
                store: token.refresh_token@,
                access_token: token.access_token@,
            },
        ),
        Err(e) => Err(AuthError::OAuth(e)),
    }
}

/// The token that is stored, by its text.
pub open spec fn stored_text(stored: Option<StoredOAuthToken>) -> Option<Seq<char>> {
    match stored {
        Some(stored) => Some(stored.refresh_token@),
        None => None,
    }
}

fn login_or_fail<P>(auth_config: &AuthConfig<P>, reauth: bool) -> (r: Result<CredsStep, AuthError>)
    ensures
        creds_view(r) == login_step(auth_config.login_redirect_uri@, reauth),
{
    if !reauth {
        return Err(AuthError::NotAuthenticated);
    }
    Ok(
        CredsStep::Login {
            message: LOGIN_MESSAGE,
            settings: OAuthSettings::new(&auth_config.login_redirect_uri, true),
        },
    )
}

/// Starts to get credentials: `reauth` says whether to log in where no stored token can be used,
/// `use_cached` whether a stored token may be used. `stored` is what the token file holds, if it can
/// be read.
pub fn get_creds<P>(
    auth_config: &AuthConfig<P>,
    reauth: bool,
    use_cached: bool,
    stored: Option<StoredOAuthToken>,
) -> (r: Result<CredsStep, AuthError>)
    ensures
        creds_view(r) == first_step(
            auth_config.login_redirect_uri@,
            reauth,
            use_cached,
            stored_text(stored),
        ),
{
    if use_cached {
        if let Some(stored) = stored {
            if !stored.refresh_token.as_str().is_empty() {
                return Ok(
                    CredsStep::Refresh {
                        settings: OAuthSettings::new(&auth_config.login_redirect_uri, false),
                        refresh_token: stored.refresh_token,
                    },
                );
            }
        }
    }
    login_or_fail(auth_config, reauth)
}

/// Goes on after the stored token was refreshed, or rejected.
pub fn after_refresh<P>(
    auth_config: &AuthConfig<P>,
    reauth: bool,
    refreshed: Option<OAuthToken>,
) -> (r: Result<CredsStep, AuthError>)
    ensures
        creds_view(r) == step_after_refresh(auth_config.login_redirect_uri@, reauth, refreshed),
{
    match refreshed {
        Some(token) => Ok(
            CredsStep::Authenticated {
                create_folder: false,
                store: StoredOAuthToken { refresh_token: token.refresh_token },
                access_token: token.access_token,
            },
        ),
        None => login_or_fail(auth_config, reauth),
    }
}

/// Goes on after a login, or the failure of one, whose error is handed on.
pub fn after_login(token: Result<OAuthToken, OAuthError>) -> (r: Result<CredsStep, AuthError>)
    ensures
        creds_view(r) == step_after_login(token),
{
    match token {
        Ok(token) => Ok(
            CredsStep::Authenticated {
                create_folder: true,
                store: StoredOAuthToken { refresh_token: token.refresh_token },
                access_token: token.access_token,
            },
        ),
        Err(e) => Err(AuthError::OAuth(e)),
    }
}

/// Where a login is not wanted, the user is never asked to log in.
pub proof fn law_no_login_unless_wanted(
    redirect_uri: Seq<char>,
    use_cached: bool,
    stored: Option<Seq<char>>,
    refreshed: Option<OAuthToken>,
)
    ensures
        first_step(redirect_uri, false, use_cached, stored) matches Ok(step) ==> !(step is Login),
        step_after_refresh(redirect_uri, false, refreshed) matches Ok(step) ==> !(step is Login),
{
}

/// Where a login is wanted, nothing but its failure or a bad redirect URI keeps credentials away:
/// every step leads to a next one, and a refresh that is rejected leads to a login.
pub proof fn law_wanted_login_is_reached(
    redirect_uri: Seq<char>,
    use_cached: bool,
    stored: Option<Seq<char>>,
    refreshed: Option<OAuthToken>,
    token: OAuthToken,
)
    ensures
        first_step(redirect_uri, true, use_cached, stored) is Ok,
        step_after_refresh(redirect_uri, true, refreshed) is Ok,
        refreshed is None ==> step_after_refresh(redirect_uri, true, refreshed)->Ok_0 is Login,
        step_after_login(Ok(token)) is Ok,
{
}

/// A stored token that is rejected, that is empty or that may not be used is as good as none.
pub proof fn law_unusable_token_is_none(
    redirect_uri: Seq<char>,
    reauth: bool,
    use_cached: bool,
    stored: Option<Seq<char>>,
)
    ensures
        step_after_refresh(redirect_uri, reauth, None) == first_step(
            redirect_uri,
            reauth,
            use_cached,
            None,
        ),
        first_step(redirect_uri, reauth, false, stored) == first_step(
            redirect_uri,
            reauth,
            use_cached,
            None,
        ),
        first_step(redirect_uri, reauth, use_cached, Some(Seq::empty())) == first_step(
            redirect_uri,
            reauth,
            use_cached,
            None,
        ),
{
}

/// What one login or refresh stores is what the next start refreshes: the refresh token of the token
/// that was obtained last, where it is not empty.
pub proof fn law_stored_token_is_refreshed_next(
    redirect_uri: Seq<char>,
    reauth: bool,
    token: OAuthToken,
    refreshed: bool,
)
    requires
        token.refresh_token@.len() > 0,
    ensures
        ({
            let done = if refreshed {
                step_after_refresh(redirect_uri, reauth, Some(token))
            } else {
                step_after_login(Ok(token))
            };
            &&& done matches Ok(CredsStepView::Authenticated { store, access_token, .. })
            &&& access_token == token.access_token@
            &&& first_step(redirect_uri, reauth, true, Some(store)) == Ok::<
                CredsStepView,
                AuthError,
            >(
                CredsStepView::Refresh {
                    settings: settings_for(redirect_uri, false),
                    refresh_token: token.refresh_token@,
                },
            )
        }),
{
}

/// Where no stored token can be used and a login is not wanted, the user is told to authenticate
/// first, and nothing else is asked of the application.
pub proof fn law_unwanted_login_is_refused(redirect_uri: Seq<char>, stored: Option<Seq<char>>)
    ensures
        first_step(redirect_uri, false, false, stored) matches Err(e) && e.text() == Some(
            "No cached credentials found, please authenticate the application first."@,
        ),
        step_after_refresh(redirect_uri, false, None) matches Err(e) && e.text() == Some(
            "No cached credentials found, please authenticate the application first."@,
        ),
{
}

} // verus!
