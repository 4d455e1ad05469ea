//! What is seen of the values that go in and come out: nothing of them is left out.

use vstd::prelude::*;

use crate::auth::AuthError;
use crate::auth::creds_view;
use crate::auth::CredsStep;
use crate::auth::CredsStepView;
use crate::auth::OAuthSettings;
use crate::auth::stored_text;
use crate::auth::StoredOAuthToken;
use crate::auth::texts;
use crate::client::ClientRequest;
use crate::client::Outbox;
use crate::client::PlayerRequest;
use crate::client::RequestView;
use crate::command::ActionSubject;
use crate::error::ErrorView;
use crate::error::HandlerError;
use crate::event::keys::KeyStep;
use crate::event::keys::KeyStepView;
use crate::event::mouse::mouse_result_view;
use crate::event::mouse::MouseStep;
use crate::event::step::result_view;
use crate::event::step::Step;
use crate::event::step::StepView;
use crate::ids::ContextId;
use crate::ids::ContextIdView;
use crate::ids::PlayableId;
use crate::ids::PlayableIdView;
use crate::ids::TracksId;
use crate::key::KeySequence;
use crate::page::ContextPageType;
use crate::page::ContextPageTypeView;
use crate::page::LineInput;
use crate::page::PageState;
use crate::page::PageView;
use crate::popup::PlaylistPopupAction;
use crate::popup::PlaylistPopupView;
use crate::popup::PopupState;
use crate::popup::PopupView;
use crate::ui::PendingClientRequest;
use crate::ui::PendingView;
use crate::ui::UIState;

verus! {

/// A step and an error show which they are and what they carry.
pub proof fn law_steps_and_errors_are_seen(
    applied: bool,
    text: String,
    subject: ActionSubject,
    step: Step,
    error: HandlerError,
    mouse: MouseStep,
)
    ensures
        Step::Handled(applied)@ == StepView::Handled(applied),
        Step::CopyLink(text)@ == StepView::CopyLink(text@),
        Step::ShowActions(subject)@ == StepView::ShowActions(subject),
        Step::ReadClipboard@ == StepView::ReadClipboard,
        HandlerError::ClientClosed@ == ErrorView::ClientClosed,
        HandlerError::InvalidId@ == ErrorView::InvalidId,
        HandlerError::UnsupportedLinkType(text)@ == ErrorView::UnsupportedLinkType(text@),
        HandlerError::Clipboard(text)@ == ErrorView::Clipboard(text@),
        HandlerError::Copy(text)@ == ErrorView::Copy(text@),
        HandlerError::Window(text)@ == ErrorView::Window(text@),
        result_view(Ok(step)) == Ok::<StepView, ErrorView>(step@),
        result_view(Err(error)) == Err::<StepView, ErrorView>(error@),
        mouse_result_view(Ok(mouse)) == Ok::<MouseStep, ErrorView>(mouse),
        mouse_result_view(Err(error)) == Err::<MouseStep, ErrorView>(error@),
{
}

/// The keys that are offered, and whom to, are seen; and so are queued requests.
pub proof fn law_offers_are_seen(keys: KeySequence, to_popup: bool, pending: PendingClientRequest)
    ensures
        (KeyStep::Offer { keys, to_popup })@ == (KeyStepView::Offer { keys: keys.keys@, to_popup }),
        KeyStep::Consumed@ == KeyStepView::Consumed,
        pending matches PendingClientRequest::SearchMore { query, category } ==> pending@ == (
        PendingView::SearchMore { query: query@, category }),
{
}

/// A step of the login shows its settings, message and tokens.
pub proof fn law_login_steps_are_seen(
    settings: OAuthSettings,
    text: String,
    message: &'static str,
    create_folder: bool,
    store: StoredOAuthToken,
    step: CredsStep,
    error: AuthError,
    strs: Seq<&'static str>,
    i: int,
)
    ensures
        (CredsStep::Refresh { settings, refresh_token: text })@ == (CredsStepView::Refresh {
            settings: settings@,
            refresh_token: text@,
        }),
        (CredsStep::Login { message, settings })@ == (CredsStepView::Login {
            message: message@,
            settings: settings@,
        }),
        (CredsStep::Authenticated { create_folder, store, access_token: text })@ == (
        CredsStepView::Authenticated {
            create_folder,
            store: store.refresh_token@,
            access_token: text@,
        }),
        settings@.client_id == settings.client_id@,
        settings@.redirect_uri == settings.redirect_uri@,
        settings@.scopes == texts(settings.scopes@),
        settings@.open_in_browser == settings.open_in_browser,
        texts(strs).len() == strs.len(),
        0 <= i < strs.len() ==> texts(strs)[i] == strs[i]@,
        creds_view(Ok(step)) == Ok::<CredsStepView, AuthError>(step@),
        creds_view(Err(error)) == Err::<CredsStepView, AuthError>(error),
        stored_text(Some(store)) == Some(store.refresh_token@),
        stored_text(None) is None,
{
}

/// An id shows its kind and its text.
pub proof fn law_ids_are_seen(context: ContextId, playable: PlayableId, tracks: TracksId)
    ensures
        match context {
            ContextId::Playlist(id) => context@ == ContextIdView::Playlist(id@),
            ContextId::Album(id) => context@ == ContextIdView::Album(id@),
            ContextId::Artist(id) => context@ == ContextIdView::Artist(id@),
            ContextId::Tracks(id) => context@ == ContextIdView::Tracks(id@),
            ContextId::Show(id) => context@ == ContextIdView::Show(id@),
        },
        match playable {
            PlayableId::Track(id) => playable@ == PlayableIdView::Track(id@),
            PlayableId::Episode(id) => playable@ == PlayableIdView::Episode(id@),
        },
        tracks@.uri == tracks.uri@,
        tracks@.kind == tracks.kind@,
{
}

/// A page shows what it is and all that it holds.
pub proof fn law_pages_are_seen(page: PageState, line: LineInput, kind: ContextPageType)
    ensures
        match page {
            PageState::Library { state } => page@ == (PageView::Library { state }),
            PageState::Context { id, context_page_type, state } => page@ matches PageView::Context {
                id: shown,
                context_page_type: shown_type,
                state: shown_state,
            } && shown_state == state && shown_type == context_page_type@ && (match id {
                Some(id) => shown == Some(id@),
                None => shown is None,
            }),
            PageState::Search { line_input, current_query, state } => page@ == (PageView::Search {
                line_input: line_input@,
                current_query: current_query@,
                state,
            }),
            PageState::Lyrics { track_uri, track, artists } => page@ == (PageView::Lyrics {
                track_uri: track_uri@,
                track: track@,
                artists: artists@,
            }),
            PageState::Browse { state } => page@ == (PageView::Browse { state }),
            PageState::Queue { scroll_offset } => page@ == (PageView::Queue { scroll_offset }),
            PageState::CommandHelp { scroll_offset } => page@ == (PageView::CommandHelp {
                scroll_offset,
            }),
        },
        line@.line == line.line@,
        line@.cursor == line.cursor,
        match kind {
            ContextPageType::CurrentPlaying => kind@ == ContextPageTypeView::CurrentPlaying,
            ContextPageType::Browsing(id) => kind@ == ContextPageTypeView::Browsing(id@),
        },
{
}

/// A popup shows what it is and all that it holds.
pub proof fn law_popups_are_seen(popup: PopupState, action: PlaylistPopupAction)
    ensures
        match popup {
            PopupState::Search { query } => popup@ == (PopupView::Search { query: query@ }),
            PopupState::UserPlaylistList(action, list) => popup@ == PopupView::UserPlaylistList(
                action@,
                list,
            ),
            PopupState::UserFollowedArtistList(list) => popup@ == PopupView::UserFollowedArtistList(
                list,
            ),
            PopupState::UserSavedAlbumList(list) => popup@ == PopupView::UserSavedAlbumList(list),
            PopupState::DeviceList(list) => popup@ == PopupView::DeviceList(list),
            PopupState::ArtistList(chosen, artists, list) => popup@ == PopupView::ArtistList(
                chosen,
                artists@,
                list,
            ),
            PopupState::ThemeList(themes, list) => popup@ == PopupView::ThemeList(themes@, list),
            PopupState::ActionList(item, list) => popup@ == PopupView::ActionList(*item, list),
            PopupState::PlaylistCreate { name, desc, current_field } => popup@ == (
            PopupView::PlaylistCreate { name: name@, desc: desc@, current_field }),
        },
        match action {
            PlaylistPopupAction::Browse { folder_id, search_query } => action@ == (
            PlaylistPopupView::Browse { folder_id, search_query: search_query@ }),
            PlaylistPopupAction::AddTrack { folder_id, track_id, search_query } => action@ == (
            PlaylistPopupView::AddTrack { folder_id, track_id, search_query: search_query@ }),
            PlaylistPopupAction::AddEpisode { folder_id, episode_id, search_query } => action@ == (
            PlaylistPopupView::AddEpisode { folder_id, episode_id, search_query: search_query@ }),
        },
{
}

/// The interface shows each of its parts, with its pages and queued requests in their order.
pub proof fn law_interface_is_seen(ui: UIState, i: int)
    ensures
        ui@.is_running == ui.is_running,
        ui@.theme == ui.theme,
        ui@.keys == ui.input_key_sequence.keys@,
        ui@.orientation == ui.orientation,
        ui@.last_mouse_click == ui.last_mouse_click,
        ui@.last_mouse_position == ui.last_mouse_position,
        ui@.pending.len() == ui.pending_client_requests@.len(),
        0 <= i < ui@.pending.len() ==> ui@.pending[i] == ui.pending_client_requests@[i]@,
        ui@.history.len() == ui.history@.len(),
        0 <= i < ui@.history.len() ==> ui@.history[i] == ui.history@[i]@,
        ui.popup matches Some(popup) ==> ui@.popup == Some(popup@),
        ui.popup is None ==> ui@.popup is None,
        ui@.playback_progress_bar_rect == ui.playback_progress_bar_rect,
        ui@.search_layout == ui.search_layout,
        ui@.library_layout == ui.library_layout,
        ui@.browse_layout == ui.browse_layout,
        ui@.context_track_table_rect == ui.context_track_table_rect,
        ui@.count_prefix == ui.count_prefix,
        ui@.last_cover_image_render_info == ui.last_cover_image_render_info,
{
}

/// The outbox shows how many requests the client still takes, and each that was handed over; a request
/// that holds nothing of its own making is seen as it is.
pub proof fn law_outbox_is_seen(outbox: Outbox, i: int, request: ClientRequest)
    ensures
        outbox@.room == outbox.room,
        outbox@.sent.len() == outbox.sent@.len(),
        0 <= i < outbox@.sent.len() ==> outbox@.sent[i] == outbox.sent@[i]@,
        match request {
            ClientRequest::GetRadioTracks { .. } => true,
            ClientRequest::SearchMore { .. } => true,
            ClientRequest::DeleteTrackFromPlaylist(..) => true,
            ClientRequest::Player(PlayerRequest::SeekTrack(_)) => true,
            ClientRequest::Player(PlayerRequest::StartPlayback(..)) => true,
            _ => request@ == RequestView::Plain(request),
        },
{
}

} // verus!
