//! Links to items of Spotify.

use vstd::prelude::*;
use vstd::string::*;

use crate::client::ClientRequest;
use crate::client::Outbox;
use crate::client::OutboxView;
use crate::client::Playback;
use crate::client::PlayerRequest;
use crate::client::RequestView;
use crate::command::Action;
use crate::command::ActionContext;
use crate::error::ErrorView;
use crate::error::HandlerError;
use crate::event::action::action_outcome;
use crate::event::step::applied;
use crate::event::step::ignored;
use crate::event::step::Outcome;
use crate::event::step::result_view;
use crate::event::step::sends;
use crate::event::step::Step;
use crate::event::step::StepView;
use crate::ids::AlbumId;
use crate::ids::ArtistId;
use crate::ids::ContextId;
use crate::ids::ContextIdView;
use crate::ids::is_alnum;
use crate::ids::is_plain_id;
use crate::ids::PlayableId;
use crate::ids::PlayableIdView;
use crate::ids::PlaylistId;
use crate::ids::TrackId;
use crate::model::UserData;
use crate::page::ContextPageType;
use crate::page::PageState;
use crate::text::same_text;
use crate::ui::browsing;
use crate::ui::UIState;
use crate::ui::UIView;

verus! {

/// The pattern of a link, with the type and the id of the item that it leads to.
pub const LINK_PATTERN: &'static str =
    r"https://open.spotify.com/(?P<type>.*?)/(?P<id>[[:alnum:]]*).*";

/// The error of a pattern that does not compile; it is carried, never looked into.
#[verifier::external_type_specification]
#[verifier::external_body]
pub struct ExRegexError(regex::Error);

/// Whether the fixed beginning of a link stands at `p` in `s`. Each of its two dots stands for any
/// one character but a line feed.
pub open spec fn link_head(s: Seq<char>, p: int) -> bool {
    &&& 0 <= p && p + 25 <= s.len()
    &&& s.subrange(p, p + 12) == "https://open"@
    &&& s[p + 12] != '\n'
    &&& s.subrange(p + 13, p + 20) == "spotify"@
    &&& s[p + 20] != '\n'
    &&& s.subrange(p + 21, p + 25) == "com/"@
}

/// Whether a link starts at `p` in `s` whose type ends at `k`: at the first slash, on the same
/// line.
pub open spec fn link_at(s: Seq<char>, p: int, k: int) -> bool {
    &&& link_head(s, p)
    &&& p + 25 <= k < s.len()
    &&& s[k] == '/'
    &&& forall|j: int| p + 25 <= j < k ==> s[j] != '/' && s[j] != '\n'
}

/// Whether `e` is the end of the letters and digits that start at `b` in `s`.
pub open spec fn alnum_end(s: Seq<char>, b: int, e: int) -> bool {
    &&& b <= e <= s.len()
    &&& forall|j: int| b <= j < e ==> is_alnum(s[j])
    &&& e < s.len() ==> !is_alnum(s[e])
}

/// Whether the first link in `s` starts at `p`, its type ends at `k` and its id at `e`.
pub open spec fn first_link(s: Seq<char>, p: int, k: int, e: int) -> bool {
    &&& link_at(s, p, k)
    &&& alnum_end(s, k + 1, e)
    &&& forall|q: int, m: int| q < p ==> !link_at(s, q, m)
}

/// Whether the first link in `s` leads to the item of type `kind` with the id `id`.
pub open spec fn leads_to(s: Seq<char>, kind: Seq<char>, id: Seq<char>) -> bool {
    exists|p: int, k: int, e: int|
        #[trigger] first_link(s, p, k, e) && kind == s.subrange(p + 25, k) && id == s.subrange(
            k + 1,
            e,
        )
}

/// The type and the id of the item that the first link in `s` leads to.
pub open spec fn link_in(s: Seq<char>) -> Option<(Seq<char>, Seq<char>)> {
    if exists|kind: Seq<char>, id: Seq<char>| leads_to(s, kind, id) {
        Some(choose|link: (Seq<char>, Seq<char>)| leads_to(s, link.0, link.1))
    } else {
        None
    }
}

/// The first link leads to one item.
pub proof fn lemma_leads_to_one(s: Seq<char>, kind: Seq<char>, id: Seq<char>)
    requires
        leads_to(s, kind, id),
    ensures
        link_in(s) == Some((kind, id)),
{
    let (p, k, e) = choose|p: int, k: int, e: int|
        #[trigger] first_link(s, p, k, e) && kind == s.subrange(p + 25, k) && id == s.subrange(
            k + 1,
            e,
        );
    let pair = (kind, id);
    assert(leads_to(s, pair.0, pair.1));
    let link = choose|link: (Seq<char>, Seq<char>)| leads_to(s, link.0, link.1);
    assert(leads_to(s, link.0, link.1));
    let (q, m, f) = choose|p: int, k: int, e: int|
        #[trigger] first_link(s, p, k, e) && link.0 == s.subrange(p + 25, k) && link.1
            == s.subrange(k + 1, e);
    assert(link_at(s, p, k));
    assert(link_at(s, q, m));
    assert(p == q);
    assert(k == m) by {
        if k < m {
            assert(s[k] == '/');
        }
        if m < k {
            assert(s[m] == '/');
        }
    }
    assert(e == f) by {
        if e < f {
            assert(is_alnum(s[e]));
        }
        if f < e {
            assert(is_alnum(s[f]));
        }
    }
}

/// `regex::Regex::new` and `Regex::captures`, with the pattern of links and the names of its two
/// groups: the pattern compiles, the match is the leftmost one, the lazy group of the type ends at
/// the first slash, and the greedy group of the id takes all the letters and digits behind it.
#[verifier::external_body]
fn regex_captures(pattern: &str, kind_group: &str, id_group: &str, text: &str) -> (r: Result<
    Option<(String, String)>,
    regex::Error,
>)
    requires
        pattern@ == LINK_PATTERN@,
        kind_group@ == "type"@,
        id_group@ == "id"@,
    ensures
        r is Ok,
        r matches Ok(Some(link)) ==> leads_to(text@, link.0@, link.1@),
        r matches Ok(None) ==> forall|kind: Seq<char>, id: Seq<char>|
            !#[trigger] leads_to(text@, kind, id),
{
    let re = regex::Regex::new(pattern)?;
    Ok(re.captures(text).map(|cap| (cap[kind_group].to_string(), cap[id_group].to_string())))
}

/// The type and the id of the item that the first link in `text` leads to.
pub fn find_link(text: &str) -> (r: Option<(String, String)>)
    ensures
        match r {
            Some(link) => link_in(text@) == Some((link.0@, link.1@)),
            None => link_in(text@) is None,
        },
{
    match regex_captures(LINK_PATTERN, "type", "id", text) {
        Ok(link) => {
            proof {
                if let Some(found) = &link {
                    lemma_leads_to_one(text@, found.0@, found.1@);
                }
            }
            link
        },
        Err(_) => None,
    }
}

/// What opening a link comes to: a track is played, the page of a playlist, an artist or an album
/// opens, and anything else is an error. Without a link nothing happens.
pub open spec fn link_outcome(
    link: Option<(Seq<char>, Seq<char>)>,
    ui: UIView,
    client: OutboxView,
) -> Outcome {
    match link {
        None => applied(ui, client),
        Some((kind, id)) => if kind != "track"@ && kind != "playlist"@ && kind != "artist"@ && kind
            != "album"@ {
            Outcome { result: Err(ErrorView::UnsupportedLinkType(kind)), ui, client }
        } else if !is_plain_id(id) {
            Outcome { result: Err(ErrorView::InvalidId), ui, client }
        } else if kind == "track"@ {
            sends(ui, client, RequestView::Play(seq![PlayableIdView::Track(id)]), ui)
        } else if kind == "playlist"@ {
            applied(ui.opening(browsing(ContextIdView::Playlist(id))), client)
        } else if kind == "artist"@ {
            applied(ui.opening(browsing(ContextIdView::Artist(id))), client)
        } else {
            applied(ui.opening(browsing(ContextIdView::Album(id))), client)
        },
    }
}

/// The types of items that a link can lead to are told apart by their names.
pub proof fn lemma_kinds_differ()
    ensures
        "track"@ != "playlist"@,
        "track"@ != "artist"@,
        "track"@ != "album"@,
        "playlist"@ != "artist"@,
        "playlist"@ != "album"@,
        "artist"@ != "album"@,
{
    reveal_strlit("track");
    reveal_strlit("playlist");
    reveal_strlit("artist");
    reveal_strlit("album");
    assert("track"@[0] == 't');
    assert("playlist"@[0] == 'p');
    assert("artist"@[1] == 'r');
    assert("album"@[1] == 'l');
}

/// Opens the page on which a context is browsed.
fn browse(id: ContextId, ui: &mut UIState) -> (r: Step)
    ensures
        r@ == StepView::Handled(true),
        final(ui)@ == old(ui)@.opening(browsing(id@)),
{
    ui.new_page(
        PageState::Context {
            id: None,
            context_page_type: ContextPageType::Browsing(id),
            state: None,
        },
    );
    Step::Handled(true)
}

/// Opens the item of the given type and id, where a link was found.
pub fn open_link(
    link: Option<(String, String)>,
    client_pub: &mut Outbox,
    ui: &mut UIState,
) -> (r: Result<Step, HandlerError>)
    ensures
        ({
            let found = match link {
                Some(link) => Some((link.0@, link.1@)),
                None => None,
            };
            let o = link_outcome(found, old(ui)@, old(client_pub)@);
            result_view(r) == o.result && final(ui)@ == o.ui && final(client_pub)@ == o.client
        }),
{
    proof {
        lemma_kinds_differ();
    }
    match link {
        None => Ok(Step::Handled(true)),
        Some((kind, id)) => {
            if same_text(kind.as_str(), "track") {
                match TrackId::from_id(id.as_str()) {
                    Ok(id) => {
                        let mut ids: Vec<PlayableId> = Vec::new();
                        ids.push(PlayableId::Track(id));
                        assert(ids@.map_values(|id: PlayableId| id@) =~= seq![
                            PlayableIdView::Track(id@),
                        ]);
                        client_pub.send(
                            ClientRequest::Player(
                                PlayerRequest::StartPlayback(Playback::URIs(ids, None), None),
                            ),
                        )?;
                        Ok(Step::Handled(true))
                    },
                    Err(_) => Err(HandlerError::InvalidId),
                }
            } else if same_text(kind.as_str(), "playlist") {
                match PlaylistId::from_id(id.as_str()) {
                    Ok(id) => Ok(browse(ContextId::Playlist(id), ui)),
                    Err(_) => Err(HandlerError::InvalidId),
                }
            } else if same_text(kind.as_str(), "artist") {
                match ArtistId::from_id(id.as_str()) {
                    Ok(id) => Ok(browse(ContextId::Artist(id), ui)),
                    Err(_) => Err(HandlerError::InvalidId),
                }
            } else if same_text(kind.as_str(), "album") {
                match AlbumId::from_id(id.as_str()) {
                    Ok(id) => Ok(browse(ContextId::Album(id), ui)),
                    Err(_) => Err(HandlerError::InvalidId),
                }
            } else {
                Err(HandlerError::UnsupportedLinkType(kind))
            }
        },
    }
}

/// What opening the link in the clipboard comes to, by what the clipboard holds or the reason why it
/// could not be read.
pub open spec fn clipboard_outcome(
    content: Result<Seq<char>, Seq<char>>,
    ui: UIView,
    client: OutboxView,
) -> Outcome {
    match content {
        Ok(text) => link_outcome(link_in(text), ui, client),
        Err(reason) => Outcome { result: Err(ErrorView::Clipboard(reason)), ui, client },
    }
}

/// Opens the item that the first link in `content` leads to. `content` is what the clipboard
/// holds, or the reason why it could not be read.
pub fn open_spotify_link(
    content: Result<&str, String>,
    client_pub: &mut Outbox,
    ui: &mut UIState,
) -> (r: Result<Step, HandlerError>)
    ensures
        ({
            let o = match content {
                Ok(text) => clipboard_outcome(Ok(text@), old(ui)@, old(client_pub)@),
                Err(reason) => clipboard_outcome(Err(reason@), old(ui)@, old(client_pub)@),
            };
            result_view(r) == o.result && final(ui)@ == o.ui && final(client_pub)@ == o.client
        }),
{
    match content {
        Ok(text) => open_link(find_link(text), client_pub, ui),
        Err(reason) => Err(HandlerError::Clipboard(reason)),
    }
}

/// The id of a link is an id: a link to a track, a playlist, an artist or an album always opens.
pub proof fn law_link_ids_are_plain(s: Seq<char>)
    ensures
        link_in(s) matches Some(link) ==> is_plain_id(link.1),
{
    if link_in(s) is Some {
        let (kind, id) = choose|kind: Seq<char>, id: Seq<char>| leads_to(s, kind, id);
        lemma_leads_to_one(s, kind, id);
        let (p, k, e) = choose|p: int, k: int, e: int|
            #[trigger] first_link(s, p, k, e) && kind == s.subrange(p + 25, k) && id
                == s.subrange(k + 1, e);
        assert forall|i: int| 0 <= i < id.len() implies is_alnum(#[trigger] id[i]) by {
            assert(id[i] == s[k + 1 + i]);
        }
    }
}

/// A text that starts with a link leads to the item of that link, whatever follows the id.
pub proof fn law_link_leads_to_its_item(kind: Seq<char>, id: Seq<char>, rest: Seq<char>)
    requires
        !kind.contains('/'),
        !kind.contains('\n'),
        is_plain_id(id),
        rest.len() > 0 ==> !is_alnum(rest[0]),
    ensures
        link_in("https://open.spotify.com/"@ + kind.push('/') + id + rest) == Some((kind, id)),
{
    reveal_strlit("https://open.spotify.com/");
    reveal_strlit("https://open");
    reveal_strlit("spotify");
    reveal_strlit("com/");
    let s = "https://open.spotify.com/"@ + kind.push('/') + id + rest;
    let k = 25 + kind.len() as int;
    let e = k + 1 + id.len() as int;
    assert(s.subrange(0, 12) =~= "https://open"@);
    assert(s.subrange(13, 20) =~= "spotify"@);
    assert(s.subrange(21, 25) =~= "com/"@);
    assert forall|j: int| 25 <= j < k implies s[j] != '/' && s[j] != '\n' by {
        assert(s[j] == kind[j - 25]);
        assert(kind.contains(s[j]));
    }
    assert forall|j: int| k + 1 <= j < e implies is_alnum(s[j]) by {
        assert(s[j] == id[j - k - 1]);
    }
    assert(e < s.len() ==> s[e] == rest[0]);
    assert(s[k] == '/');
    assert(link_at(s, 0, k));
    assert(first_link(s, 0, k, e));
    assert(s.subrange(25, k) =~= kind);
    assert(s.subrange(k + 1, e) =~= id);
    assert(leads_to(s, kind, id));
    lemma_leads_to_one(s, kind, id);
}

/// Opening the copied link of a track plays that track.
pub proof fn law_copied_track_link_plays_track(id: Seq<char>, ui: UIView, client: OutboxView)
    requires
        is_plain_id(id),
    ensures
        link_outcome(link_in("https://open.spotify.com/track/"@ + id), ui, client) == sends(
            ui,
            client,
            RequestView::Play(seq![PlayableIdView::Track(id)]),
            ui,
        ),
{
    reveal_strlit("https://open.spotify.com/track/");
    reveal_strlit("https://open.spotify.com/");
    reveal_strlit("track");
    let rest = Seq::<char>::empty();
    assert("https://open.spotify.com/track/"@ + id =~= "https://open.spotify.com/"@ + "track"@.push(
        '/',
    ) + id + rest);
    law_link_leads_to_its_item("track"@, id, rest);
    lemma_kinds_differ();
}

/// Opening the copied link of an album, an artist or a playlist opens the page of that item.
pub proof fn law_copied_link_opens_page(id: Seq<char>, ui: UIView, client: OutboxView)
    requires
        is_plain_id(id),
    ensures
        link_outcome(link_in("https://open.spotify.com/album/"@ + id), ui, client) == applied(
            ui.opening(browsing(ContextIdView::Album(id))),
            client,
        ),
        link_outcome(link_in("https://open.spotify.com/artist/"@ + id), ui, client) == applied(
            ui.opening(browsing(ContextIdView::Artist(id))),
            client,
        ),
        link_outcome(link_in("https://open.spotify.com/playlist/"@ + id), ui, client) == applied(
            ui.opening(browsing(ContextIdView::Playlist(id))),
            client,
        ),
{
    reveal_strlit("https://open.spotify.com/");
    reveal_strlit("https://open.spotify.com/album/");
    reveal_strlit("https://open.spotify.com/artist/");
    reveal_strlit("https://open.spotify.com/playlist/");
    reveal_strlit("album");
    reveal_strlit("artist");
    reveal_strlit("playlist");
    let head = "https://open.spotify.com/"@;
    let rest = Seq::<char>::empty();
    assert("https://open.spotify.com/album/"@ + id =~= head + "album"@.push('/') + id + rest);
    law_link_leads_to_its_item("album"@, id, rest);
    assert("https://open.spotify.com/artist/"@ + id =~= head + "artist"@.push('/') + id + rest);
    law_link_leads_to_its_item("artist"@, id, rest);
    assert("https://open.spotify.com/playlist/"@ + id =~= head + "playlist"@.push('/') + id + rest);
    law_link_leads_to_its_item("playlist"@, id, rest);
    lemma_kinds_differ();
}

/// What opening the copied link of an item comes to: a track is played, the page of an album, an
/// artist or a playlist opens. The links of other items cannot be opened.
pub open spec fn opened_again(context: ActionContext, ui: UIView, client: OutboxView) -> Outcome {
    match context {
        ActionContext::Track(track) => sends(
            ui,
            client,
            RequestView::Play(seq![PlayableIdView::Track(track.id@)]),
            ui,
        ),
        ActionContext::Album(album) => applied(
            ui.opening(browsing(ContextIdView::Album(album.id@))),
            client,
        ),
        ActionContext::Artist(artist) => applied(
            ui.opening(browsing(ContextIdView::Artist(artist.id@))),
            client,
        ),
        ActionContext::Playlist(playlist) => applied(
            ui.opening(browsing(ContextIdView::Playlist(playlist.id@))),
            client,
        ),
        ActionContext::Show(_) => Outcome {
            result: Err(ErrorView::UnsupportedLinkType("show"@)),
            ui,
            client,
        },
        ActionContext::Episode(_) => Outcome {
            result: Err(ErrorView::UnsupportedLinkType("episode"@)),
            ui,
            client,
        },
        ActionContext::PlaylistFolder(_) => ignored(ui, client),
    }
}

/// The id of an item, where it has one.
pub open spec fn id_in(context: ActionContext) -> Option<Seq<char>> {
    match context {
        ActionContext::Track(track) => Some(track.id@),
        ActionContext::Album(album) => Some(album.id@),
        ActionContext::Artist(artist) => Some(artist.id@),
        ActionContext::Playlist(playlist) => Some(playlist.id@),
        ActionContext::Show(show) => Some(show.id@),
        ActionContext::Episode(episode) => Some(episode.id@),
        ActionContext::PlaylistFolder(_) => None,
    }
}

/// The action that copies the link of an item and the command that opens a copied link fit together:
/// what was copied leads back to the item it was copied from.
pub proof fn law_copied_link_leads_back(
    context: ActionContext,
    data: UserData,
    ui: UIView,
    client: OutboxView,
    later: UIView,
    listening: OutboxView,
)
    requires
        id_in(context) matches Some(id) && is_plain_id(id),
    ensures
        action_outcome(Action::CopyLink, context, data, ui, client).result matches Ok(
            StepView::CopyLink(text),
        ) && link_outcome(link_in(text), later, listening) == opened_again(
            context,
            later,
            listening,
        ),
{
    let id = id_in(context)->0;
    law_copied_track_link_plays_track(id, later, listening);
    law_copied_link_opens_page(id, later, listening);
    reveal_strlit("https://open.spotify.com/");
    reveal_strlit("https://open.spotify.com/show/");
    reveal_strlit("https://open.spotify.com/episode/");
    reveal_strlit("show");
    reveal_strlit("episode");
    reveal_strlit("track");
    reveal_strlit("playlist");
    reveal_strlit("artist");
    reveal_strlit("album");
    let head = "https://open.spotify.com/"@;
    let rest = Seq::<char>::empty();
    assert("https://open.spotify.com/show/"@ + id =~= head + "show"@.push('/') + id + rest);
    law_link_leads_to_its_item("show"@, id, rest);
    assert("https://open.spotify.com/episode/"@ + id =~= head + "episode"@.push('/') + id + rest);
    law_link_leads_to_its_item("episode"@, id, rest);
    assert("show"@.len() == 4 && "episode"@.len() == 7);
    assert("track"@.len() == 5 && "playlist"@.len() == 8 && "artist"@.len() == 6 && "album"@.len()
        == 5);
}

/// A link to an item of another type is refused by the name of that type, and changes and sends
/// nothing; a text without a link is no error.
pub proof fn law_other_links_are_refused(
    kind: Seq<char>,
    id: Seq<char>,
    ui: UIView,
    client: OutboxView,
)
    requires
        kind != "track"@,
        kind != "playlist"@,
        kind != "artist"@,
        kind != "album"@,
    ensures
        ({
            let o = link_outcome(Some((kind, id)), ui, client);
            &&& o.result matches Err(e) && e.text() == "unsupported Spotify type "@ + kind + "!"@
            &&& o.ui == ui
            &&& o.client == client
        }),
        link_outcome(None, ui, client) == applied(ui, client),
{
}

} // verus!
