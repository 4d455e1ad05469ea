//! What the values that the handlers share promise: texts, ids, the cache, the library and requests.

use vstd::prelude::*;

use crate::cache::Cached;
use crate::cache::deadline;
use crate::cache::live;
use crate::client::ClientRequest;
use crate::client::OutboxView;
use crate::client::Playback;
use crate::client::PlayerRequest;
use crate::client::RequestView;
use crate::error::ErrorView;
use crate::ids::album_uri;
use crate::ids::artist_uri;
use crate::ids::ContextIdView;
use crate::ids::episode_uri;
use crate::ids::PlayableId;
use crate::ids::PlayableIdView;
use crate::ids::PlaylistId;
use crate::ids::playlist_uri;
use crate::ids::show_uri;
use crate::ids::track_uri;
use crate::ids::TrackId;
use crate::ids::TracksIdView;
use crate::laws::mouse::belongs_to;
use crate::model::PlaylistFolderItem;
use crate::model::SearchResultCategory;
use crate::model::UserData;
use crate::span::in_range;
use crate::span::millis;
use crate::span::seconds;
use crate::span::Span;
use crate::span::whole_millis;
use crate::text::joined;
use crate::text::lemma_split_on_nonempty;
use crate::text::short_uri;
use crate::text::split_on;

verus! {

/// The pieces with `sep` between one and the next.
pub open spec fn glued(pieces: Seq<Seq<char>>, sep: char) -> Seq<char>
    decreases pieces.len(),
{
    if pieces.len() == 0 {
        Seq::empty()
    } else if pieces.len() == 1 {
        pieces[0]
    } else {
        glued(pieces.drop_last(), sep).push(sep) + pieces.last()
    }
}

/// Text without the separator goes on with the last piece.
proof fn lemma_split_goes_on(s: Seq<char>, tail: Seq<char>, sep: char)
    requires
        !tail.contains(sep),
    ensures
        split_on(s + tail, sep) =~= split_on(s, sep).drop_last().push(
            split_on(s, sep).last() + tail,
        ),
    decreases tail.len(),
{
    lemma_split_on_nonempty(s, sep);
    if tail.len() == 0 {
        assert(s + tail =~= s);
        assert(split_on(s, sep).last() + tail =~= split_on(s, sep).last());
    } else {
        let front = tail.drop_last();
        assert((s + tail).drop_last() =~= s + front);
        assert((s + tail).last() == tail.last());
        assert(tail[tail.len() - 1] == tail.last());
        assert forall|i: int| 0 <= i < front.len() implies front[i] != sep by {
            assert(tail[i] != sep);
        }
        lemma_split_goes_on(s, front, sep);
        assert((split_on(s, sep).last() + front).push(tail.last()) =~= split_on(s, sep).last()
            + tail);
    }
}

/// Splitting undoes the gluing: of pieces that do not hold the separator all come back, in order.
pub proof fn law_splitting_undoes_gluing(pieces: Seq<Seq<char>>, sep: char)
    requires
        pieces.len() > 0,
        forall|i: int| 0 <= i < pieces.len() ==> !(#[trigger] pieces[i]).contains(sep),
    ensures
        split_on(glued(pieces, sep), sep) =~= pieces,
    decreases pieces.len(),
{
    let none = Seq::<char>::empty();
    if pieces.len() == 1 {
        assert(!pieces[0].contains(sep));
        lemma_split_goes_on(none, pieces[0], sep);
        assert(none + pieces[0] =~= pieces[0]);
        assert(split_on(none, sep) =~= seq![none]);
    } else {
        let front = pieces.drop_last();
        assert forall|i: int| 0 <= i < front.len() implies !(#[trigger] front[i]).contains(sep) by {
            assert(!pieces[i].contains(sep));
        }
        law_splitting_undoes_gluing(front, sep);
        let s = glued(front, sep).push(sep);
        assert(s.drop_last() =~= glued(front, sep));
        assert(split_on(s, sep) =~= front.push(none));
        assert(!pieces[pieces.len() - 1].contains(sep));
        lemma_split_goes_on(s, pieces.last(), sep);
        assert(none + pieces.last() =~= pieces.last());
    }
}

/// A URI of five parts keeps its first part and its last two; one with any other number of parts stays
/// as it is.
pub proof fn law_short_uri_drops_the_owner(parts: Seq<Seq<char>>)
    requires
        parts.len() > 0,
        forall|i: int| 0 <= i < parts.len() ==> !(#[trigger] parts[i]).contains(':'),
    ensures
        parts.len() == 5 ==> short_uri(glued(parts, ':')) =~= parts[0].push(':') + parts[3].push(
            ':',
        ) + parts[4],
        parts.len() != 5 ==> short_uri(glued(parts, ':')) == glued(parts, ':'),
{
    law_splitting_undoes_gluing(parts, ':');
}

/// Names are joined in order: one name alone is itself, and the names of two lists are those of the
/// first, the separator, and those of the second.
pub proof fn law_joining_in_parts(a: Seq<String>, b: Seq<String>, sep: Seq<char>)
    requires
        a.len() > 0,
        b.len() > 0,
    ensures
        joined(a + b, sep) == joined(a, sep) + sep + joined(b, sep),
        a.len() == 1 ==> joined(a, sep) == a[0]@,
        joined(Seq::empty(), sep).len() == 0,
    decreases b.len(),
{
    assert((a + b).drop_last() =~= a + b.drop_last());
    assert((a + b).last() == b.last());
    if b.len() == 1 {
        assert(a + b.drop_last() =~= a);
    } else {
        law_joining_in_parts(a, b.drop_last(), sep);
        assert(joined(a + b, sep) =~= joined(a, sep) + sep + joined(b, sep));
    }
}

/// The URI of an item is made of its type and its id, and the URI of a context is that of the item; a
/// list of tracks has a URI of its own. Two items of one type have different URIs.
pub proof fn law_uris_tell_type_and_id(id: Seq<char>, other: Seq<char>, tracks: TracksIdView)
    ensures
        track_uri(id) == "spotify:track:"@ + id,
        album_uri(id) == "spotify:album:"@ + id,
        artist_uri(id) == "spotify:artist:"@ + id,
        playlist_uri(id) == "spotify:playlist:"@ + id,
        show_uri(id) == "spotify:show:"@ + id,
        episode_uri(id) == "spotify:episode:"@ + id,
        ContextIdView::Playlist(id).uri() == "spotify:playlist:"@ + id,
        ContextIdView::Album(id).uri() == "spotify:album:"@ + id,
        ContextIdView::Artist(id).uri() == "spotify:artist:"@ + id,
        ContextIdView::Show(id).uri() == "spotify:show:"@ + id,
        ContextIdView::Tracks(tracks).uri() == tracks.uri,
        PlayableIdView::Track(id).uri() == "spotify:track:"@ + id,
        PlayableIdView::Episode(id).uri() == "spotify:episode:"@ + id,
        ContextIdView::Playlist(id).uri() == ContextIdView::Playlist(other).uri() ==> id == other,
        ContextIdView::Album(id).uri() == ContextIdView::Album(other).uri() ==> id == other,
        ContextIdView::Artist(id).uri() == ContextIdView::Artist(other).uri() ==> id == other,
        ContextIdView::Show(id).uri() == ContextIdView::Show(other).uri() ==> id == other,
        PlayableIdView::Track(id).uri() == PlayableIdView::Track(other).uri() ==> id == other,
        PlayableIdView::Episode(id).uri() == PlayableIdView::Episode(other).uri() ==> id == other,
{
    lemma_prefix_cancels("spotify:playlist:"@, id, other);
    lemma_prefix_cancels("spotify:album:"@, id, other);
    lemma_prefix_cancels("spotify:artist:"@, id, other);
    lemma_prefix_cancels("spotify:show:"@, id, other);
    lemma_prefix_cancels("spotify:track:"@, id, other);
    lemma_prefix_cancels("spotify:episode:"@, id, other);
}

/// Texts with one beginning differ behind it.
proof fn lemma_prefix_cancels(prefix: Seq<char>, a: Seq<char>, b: Seq<char>)
    ensures
        prefix + a == prefix + b ==> a == b,
{
    if prefix + a == prefix + b {
        assert((prefix + a).skip(prefix.len() as int) =~= a);
        assert((prefix + b).skip(prefix.len() as int) =~= b);
    }
}

/// What is stored is read back until its time to live is over, at that very time still and not after;
/// what is stored under other keys does not change.
pub proof fn law_cache_gives_back_until_it_expires<V>(
    cache: Map<Seq<char>, Cached<V>>,
    key: Seq<char>,
    other: Seq<char>,
    value: V,
    now: u64,
    ttl: u64,
    later: u64,
)
    ensures
        ({
            let after = cache.insert(key, Cached { value, expires_at: deadline(now, ttl) });
            &&& later <= now + ttl ==> live(after, key, later) == Some(value)
            &&& later > now + ttl ==> live(after, key, later) is None
            &&& other != key ==> live(after, other, later) == live(cache, other, later)
            &&& live(after.remove(key), key, later) is None
        }),
        live(Map::<Seq<char>, Cached<V>>::empty(), key, later) is None,
{
}

/// A folder shows those of the user's playlists and folders that belong to it, all of them and in their
/// order.
pub proof fn law_folder_shows_what_belongs_to_it(
    data: UserData,
    folder_id: usize,
    item: PlaylistFolderItem,
)
    ensures
        data.folder(folder_id) == data.playlists@.filter(
            |item: PlaylistFolderItem| belongs_to(item, folder_id),
        ),
        data.folder(folder_id).contains(item) ==> belongs_to(item, folder_id),
        data.playlists@.contains(item) && belongs_to(item, folder_id) ==> data.folder(
            folder_id,
        ).contains(item),
{
    let pred = |item: PlaylistFolderItem| belongs_to(item, folder_id);
    assert((|item: PlaylistFolderItem| item.in_folder(folder_id)) =~= pred);
    let shown = data.playlists@.filter(pred);
    if shown.contains(item) {
        let i = shown.index_of(item);
        data.playlists@.lemma_filter_pred(pred, i);
    }
    if data.playlists@.contains(item) && belongs_to(item, folder_id) {
        let i = data.playlists@.index_of(item);
        assert(pred(data.playlists@[i]));
        data.playlists@.lemma_filter_contains(pred, i);
    }
}

/// What goes to the client is seen with all that it asks for: texts, places, lists and ids.
pub proof fn law_requests_show_what_they_ask_for(
    text: String,
    name: String,
    category: SearchResultCategory,
    offset: usize,
    playlist: PlaylistId,
    track: TrackId,
    position: Span,
    ids: Vec<PlayableId>,
    i: int,
)
    ensures
        (ClientRequest::GetRadioTracks { seed_uri: text, seed_name: name })@
            == (RequestView::RadioTracks { seed_uri: text@, seed_name: name@ }),
        (ClientRequest::SearchMore { query: text, category, offset })@ == (RequestView::SearchMore {
            query: text@,
            category,
            offset,
        }),
        (ClientRequest::DeleteTrackFromPlaylist(playlist, track))@
            == (RequestView::DeleteTrackFromPlaylist { playlist: playlist@, track }),
        (ClientRequest::Player(PlayerRequest::SeekTrack(position)))@ == RequestView::Seek(
            position@,
        ),
        (ClientRequest::Player(
            PlayerRequest::StartPlayback(Playback::URIs(ids, None), None),
        ))@ matches RequestView::Play(played) && played.len() == ids@.len() && (0 <= i
            < ids@.len() ==> played[i] == ids@[i]@),
{
}

/// Requests that are handed over together go out in order, behind the earlier ones, as far as the
/// client takes them.
pub proof fn law_requests_go_out_in_order(
    client: OutboxView,
    first: Seq<RequestView>,
    rest: Seq<RequestView>,
    request: RequestView,
)
    ensures
        first.len() + rest.len() <= client.room ==> client.with_all(first).with_all(rest)
            == client.with_all(first + rest),
        client.room > 0 ==> client.with_all(seq![request]).sent == client.sent.push(request)
            && client.with_all(seq![request]).room + 1 == client.room,
        client.room == 0 ==> client.with_all(first).sent == client.sent,
        client.with_all(Seq::empty()) == client,
{
    assert(client.with_all(first).with_all(rest).sent =~= client.with_all(first + rest).sent
        || first.len() + rest.len() > client.room);
    assert(client.with_all(Seq::empty()).sent =~= client.sent);
    assert(client.room == 0 ==> client.with_all(first).sent =~= client.sent);
}

/// What the user is told: of the client that it is closed, of an id that it is none, of a link its type,
/// and of what failed elsewhere its own reason.
pub proof fn law_messages(text: Seq<char>)
    ensures
        ErrorView::ClientClosed.text() == "sending on a closed channel"@,
        ErrorView::InvalidId.text() == "InvalidId"@,
        ErrorView::UnsupportedLinkType(text).text() == "unsupported Spotify type "@ + text + "!"@,
        ErrorView::Clipboard(text).text() == "get clipboard's content: "@ + text,
        ErrorView::Copy(text).text() == text,
        ErrorView::Window(text).text() == text,
{
}

/// A second has a thousand milliseconds and a millisecond a million nanoseconds. The whole milliseconds
/// of a span leave a rest of less than one, and those of the opposite span are their opposite.
pub proof fn law_units_of_time(n: int)
    ensures
        seconds(n) == n * 1_000_000_000,
        seconds(n) == millis(n * 1000),
        n >= 0 ==> whole_millis(n) * 1_000_000 <= n < (whole_millis(n) + 1) * 1_000_000,
        n != 0 ==> whole_millis(-n) == -whole_millis(n),
        in_range(n) <==> -9_223_372_036_854_775_807_000_000 <= n <= 9_223_372_036_854_775_807_000_000,
{
}

} // verus!
