//! What the login promises.

use vstd::prelude::*;

use librespot_oauth::OAuthClient;
use librespot_oauth::OAuthError;

use crate::auth::AuthError;
use crate::auth::built_client;
use crate::auth::client_for;
use crate::auth::CredsStepView;
use crate::auth::first_step;
use crate::auth::LOGIN_MESSAGE;
use crate::auth::OAuthSettingsView;
use crate::auth::OAuthToken;
use crate::auth::scopes;
use crate::auth::SPOTIFY_CLIENT_ID;
use crate::auth::step_after_login;
use crate::auth::step_after_refresh;

verus! {

/// Whether a login or a refresh is set up for this application and the configured redirect URI, with all
/// that the application asks for.
pub open spec fn is_set_up(settings: OAuthSettingsView, redirect_uri: Seq<char>) -> bool {
    &&& settings.client_id == SPOTIFY_CLIENT_ID@
    &&& settings.redirect_uri == redirect_uri
    &&& settings.scopes == scopes()
}

/// A stored token is refreshed, without a browser, where it may be used and is not empty. Otherwise the
/// user logs in, with a browser, where that is wanted, and is told to authenticate where it is not.
pub proof fn law_first_step_of_a_login(
    redirect_uri: Seq<char>,
    reauth: bool,
    use_cached: bool,
    stored: Option<Seq<char>>,
)
    ensures
        ({
            let step = first_step(redirect_uri, reauth, use_cached, stored);
            if use_cached && stored is Some && stored->0.len() > 0 {
                step matches Ok(CredsStepView::Refresh { settings, refresh_token }) && is_set_up(
                    settings,
                    redirect_uri,
                ) && !settings.open_in_browser && refresh_token == stored->0
            } else if reauth {
                step matches Ok(CredsStepView::Login { message, settings }) && is_set_up(
                    settings,
                    redirect_uri,
                ) && settings.open_in_browser && message == LOGIN_MESSAGE@
            } else {
                step == Err::<CredsStepView, AuthError>(AuthError::NotAuthenticated)
            }
        }),
{
}

/// A refresh that gave a token ends with that token: its refresh token is stored, its access token is
/// used, and no folder is made, as there is one already. Where the stored token was rejected, the user
/// logs in or is told to authenticate, as if there had been none.
pub proof fn law_refresh_ends_with_its_token(
    redirect_uri: Seq<char>,
    reauth: bool,
    token: OAuthToken,
)
    ensures
        step_after_refresh(redirect_uri, reauth, Some(token)) matches Ok(
            CredsStepView::Authenticated { create_folder, store, access_token },
        ) && !create_folder && store == token.refresh_token@ && access_token == token.access_token@,
        reauth ==> (step_after_refresh(redirect_uri, reauth, None) matches Ok(
            CredsStepView::Login { message, settings },
        ) && is_set_up(settings, redirect_uri) && settings.open_in_browser && message
            == LOGIN_MESSAGE@),
        !reauth ==> step_after_refresh(redirect_uri, reauth, None) == Err::<CredsStepView, AuthError>(
            AuthError::NotAuthenticated,
        ),
{
}

/// A login that gave a token ends with that token: its refresh token is stored in a folder that is made
/// where it is missing, and its access token is used. The error of one that failed is handed on.
pub proof fn law_login_ends_with_its_token(token: OAuthToken, error: OAuthError)
    ensures
        step_after_login(Ok(token)) matches Ok(
            CredsStepView::Authenticated { create_folder, store, access_token },
        ) && create_folder && store == token.refresh_token@ && access_token == token.access_token@,
        step_after_login(Err(error)) == Err::<CredsStepView, AuthError>(AuthError::OAuth(error)),
{
}

/// The client of a login is the one that is built from the client id, the redirect URI, the scopes and
/// the use of a browser that the settings name; an error of the building is handed on.
pub proof fn law_client_is_built_from_its_settings(settings: OAuthSettingsView)
    ensures
        match built_client(
            settings.client_id,
            settings.redirect_uri,
            settings.scopes,
            settings.open_in_browser,
        ) {
            Ok(client) => client_for(settings) == Ok::<OAuthClient, AuthError>(client),
            Err(error) => client_for(settings) == Err::<OAuthClient, AuthError>(
                AuthError::OAuth(error),
            ),
        },
{
}

/// The application asks to read and control the playback, to stream, to read and change playlists,
/// follows and the library, and to read what was played and is liked most, and for nothing else.
pub proof fn law_scopes_that_are_asked_for()
    ensures
        scopes().len() == 17,
        scopes().contains("user-read-playback-state"@),
        scopes().contains("user-modify-playback-state"@),
        scopes().contains("user-read-currently-playing"@),
        scopes().contains("app-remote-control"@),
        scopes().contains("streaming"@),
        scopes().contains("playlist-read-private"@),
        scopes().contains("playlist-read-collaborative"@),
        scopes().contains("playlist-modify-private"@),
        scopes().contains("playlist-modify-public"@),
        scopes().contains("user-follow-modify"@),
        scopes().contains("user-follow-read"@),
        scopes().contains("user-read-playback-position"@),
        scopes().contains("user-top-read"@),
        scopes().contains("user-read-recently-played"@),
        scopes().contains("user-library-modify"@),
        scopes().contains("user-library-read"@),
        scopes().contains("user-personalized"@),
{
    let all = scopes();
    assert(all[0] == "user-read-playback-state"@);
    assert(all[1] == "user-modify-playback-state"@);
    assert(all[2] == "user-read-currently-playing"@);
    assert(all[3] == "app-remote-control"@);
    assert(all[4] == "streaming"@);
    assert(all[5] == "playlist-read-private"@);
    assert(all[6] == "playlist-read-collaborative"@);
    assert(all[7] == "playlist-modify-private"@);
    assert(all[8] == "playlist-modify-public"@);
    assert(all[9] == "user-follow-modify"@);
    assert(all[10] == "user-follow-read"@);
    assert(all[11] == "user-read-playback-position"@);
    assert(all[12] == "user-top-read"@);
    assert(all[13] == "user-read-recently-played"@);
    assert(all[14] == "user-library-modify"@);
    assert(all[15] == "user-library-read"@);
    assert(all[16] == "user-personalized"@);
}

} // verus!
