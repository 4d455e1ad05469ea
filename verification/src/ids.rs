//! Identifiers of Spotify items and of the contexts that a page can show.

use rspotify::model::Id;
use rspotify::model::IdError;
use vstd::prelude::*;
use vstd::string::*;

use crate::text::concat;

verus! {

/// The outside error of a rejected id or URI; it is carried, never looked into.
#[verifier::external_type_specification]
#[verifier::external_body]
pub struct ExIdError(rspotify::model::IdError);

/// Whether `c` is an ASCII letter or digit.
pub open spec fn is_alnum(c: char) -> bool {
    ('0' <= c <= '9') || ('a' <= c <= 'z') || ('A' <= c <= 'Z')
}

/// Whether `s` consists of ASCII letters and digits only, as every Spotify id does.
pub open spec fn is_plain_id(s: Seq<char>) -> bool {
    forall|i: int| 0 <= i < s.len() ==> is_alnum(#[trigger] s[i])
}

/// The text `spotify{sep}{kind}{sep}{id}`.
pub open spec fn uri_with(sep: char, kind: Seq<char>, id: Seq<char>) -> Seq<char> {
    "spotify"@.push(sep) + kind.push(sep) + id
}

/// Whether `uri` names an item of the type `kind` with the id `id`, with `:` or `/` between the
/// parts.
pub open spec fn uri_names(uri: Seq<char>, kind: Seq<char>, id: Seq<char>) -> bool {
    &&& is_plain_id(id)
    &&& uri == uri_with(':', kind, id) || uri == uri_with('/', kind, id)
}

/// A URI names one id at most.
pub proof fn lemma_uri_names_one(uri: Seq<char>, kind: Seq<char>, a: Seq<char>, b: Seq<char>)
    requires
        uri_names(uri, kind, a),
        uri_names(uri, kind, b),
    ensures
        a == b,
{
    let n = "spotify"@.len() + kind.len() + 2;
    assert(uri.skip(n as int) =~= a);
    assert(uri.skip(n as int) =~= b);
}

/// `rspotify::model::TrackId::from_id`: accepts exactly the texts of ASCII letters and digits, the
/// empty one among them, and keeps the text as it is.
#[verifier::external_body]
fn rspotify_track_from_id(id: &str) -> (r: Result<String, IdError>)
    ensures
        r is Ok <==> is_plain_id(id@),
        r matches Ok(s) ==> s@ == id@,
{
    Ok(rspotify::model::TrackId::from_id(id)?.id().to_string())
}

/// `rspotify::model::AlbumId::from_id`: accepts exactly the texts of ASCII letters and digits, the
/// empty one among them, and keeps the text as it is.
#[verifier::external_body]
fn rspotify_album_from_id(id: &str) -> (r: Result<String, IdError>)
    ensures
        r is Ok <==> is_plain_id(id@),
        r matches Ok(s) ==> s@ == id@,
{
    Ok(rspotify::model::AlbumId::from_id(id)?.id().to_string())
}

/// `rspotify::model::ArtistId::from_id`: accepts exactly the texts of ASCII letters and digits, the
/// empty one among them, and keeps the text as it is.
#[verifier::external_body]
fn rspotify_artist_from_id(id: &str) -> (r: Result<String, IdError>)
    ensures
        r is Ok <==> is_plain_id(id@),
        r matches Ok(s) ==> s@ == id@,
{
    Ok(rspotify::model::ArtistId::from_id(id)?.id().to_string())
}

/// `rspotify::model::PlaylistId::from_id`: accepts exactly the texts of ASCII letters and digits, the
/// empty one among them, and keeps the text as it is.
#[verifier::external_body]
fn rspotify_playlist_from_id(id: &str) -> (r: Result<String, IdError>)
    ensures
        r is Ok <==> is_plain_id(id@),
        r matches Ok(s) ==> s@ == id@,
{
    Ok(rspotify::model::PlaylistId::from_id(id)?.id().to_string())
}

/// `rspotify::model::ShowId::from_id`: accepts exactly the texts of ASCII letters and digits, the
/// empty one among them, and keeps the text as it is.
#[verifier::external_body]
fn rspotify_show_from_id(id: &str) -> (r: Result<String, IdError>)
    ensures
        r is Ok <==> is_plain_id(id@),
        r matches Ok(s) ==> s@ == id@,
{
    Ok(rspotify::model::ShowId::from_id(id)?.id().to_string())
}

/// `rspotify::model::EpisodeId::from_id`: accepts exactly the texts of ASCII letters and digits, the
/// empty one among them, and keeps the text as it is.
#[verifier::external_body]
fn rspotify_episode_from_id(id: &str) -> (r: Result<String, IdError>)
    ensures
        r is Ok <==> is_plain_id(id@),
        r matches Ok(s) ==> s@ == id@,
{
    Ok(rspotify::model::EpisodeId::from_id(id)?.id().to_string())
}

/// `rspotify::model::AlbumId::from_uri`: accepts exactly `spotify:album:{id}` and `spotify/album/{id}`
/// with an id of ASCII letters and digits, and hands out that id.
#[verifier::external_body]
fn rspotify_album_from_uri(uri: &str) -> (r: Result<String, IdError>)
    ensures
        r matches Ok(s) ==> uri_names(uri@, "album"@, s@),
        r is Err ==> forall|id: Seq<char>| !#[trigger] uri_names(uri@, "album"@, id),
{
    Ok(rspotify::model::AlbumId::from_uri(uri)?.id().to_string())
}

/// `rspotify::model::ShowId::from_uri`: accepts exactly `spotify:show:{id}` and `spotify/show/{id}`
/// with an id of ASCII letters and digits, and hands out that id.
#[verifier::external_body]
fn rspotify_show_from_uri(uri: &str) -> (r: Result<String, IdError>)
    ensures
        r matches Ok(s) ==> uri_names(uri@, "show"@, s@),
        r is Err ==> forall|id: Seq<char>| !#[trigger] uri_names(uri@, "show"@, id),
{
    Ok(rspotify::model::ShowId::from_uri(uri)?.id().to_string())
}

/// The id of a track.
#[derive(Debug)]
pub struct TrackId {
    id: String,
}

impl View for TrackId {
    type V = Seq<char>;

    closed spec fn view(&self) -> Seq<char> {
        self.id@
    }
}

impl TrackId {
    #[verifier::type_invariant]
    spec fn plain(self) -> bool {
        is_plain_id(self.id@)
    }

    /// Checks `id` and makes it the id of a track.
    pub fn from_id(id: &str) -> (r: Result<TrackId, IdError>)
        ensures
            r is Ok <==> is_plain_id(id@),
            r matches Ok(x) ==> x@ == id@,
    {
        match rspotify_track_from_id(id) {
            Ok(id) => Ok(TrackId { id }),
            Err(e) => Err(e),
        }
    }

    /// The bare id.
    pub fn id(&self) -> (r: &str)
        ensures
            r@ == self@,
            is_plain_id(self@),
    {
        proof {
            use_type_invariant(self);
        }
        self.id.as_str()
    }

    /// The URI `spotify:track:{id}`.
    pub fn uri(&self) -> (r: String)
        ensures
            r@ == track_uri(self@),
            is_plain_id(self@),
    {
        proof {
            use_type_invariant(self);
        }
        concat("spotify:track:", self.id.as_str())
    }
}

/// The URI of a track with the given id.
pub open spec fn track_uri(id: Seq<char>) -> Seq<char> {
    "spotify:track:"@ + id
}

impl Clone for TrackId {
    fn clone(&self) -> (r: TrackId)
        ensures
            r == *self,
    {
        proof {
            use_type_invariant(self);
        }
        TrackId { id: self.id.clone() }
    }
}

impl PartialEq for TrackId {
    fn eq(&self, other: &TrackId) -> (r: bool) {
        self.id == other.id
    }
}

impl vstd::std_specs::cmp::PartialEqSpecImpl for TrackId {
    open spec fn obeys_eq_spec() -> bool {
        true
    }

    open spec fn eq_spec(&self, other: &TrackId) -> bool {
        self@ == other@
    }
}

/// The id of an album.
#[derive(Debug)]
pub struct AlbumId {
    id: String,
}

impl View for AlbumId {
    type V = Seq<char>;

    closed spec fn view(&self) -> Seq<char> {
        self.id@
    }
}

impl AlbumId {
    #[verifier::type_invariant]
    spec fn plain(self) -> bool {
        is_plain_id(self.id@)
    }

    /// Checks `id` and makes it the id of an album.
    pub fn from_id(id: &str) -> (r: Result<AlbumId, IdError>)
        ensures
            r is Ok <==> is_plain_id(id@),
            r matches Ok(x) ==> x@ == id@,
    {
        match rspotify_album_from_id(id) {
            Ok(id) => Ok(AlbumId { id }),
            Err(e) => Err(e),
        }
    }

    /// Takes the id out of the URI of an album.
    pub fn from_uri(uri: &str) -> (r: Result<AlbumId, IdError>)
        ensures
            r matches Ok(x) ==> uri_names(uri@, "album"@, x@),
            r is Err ==> forall|id: Seq<char>| !#[trigger] uri_names(uri@, "album"@, id),
    {
        match rspotify_album_from_uri(uri) {
            Ok(id) => Ok(AlbumId { id }),
            Err(e) => Err(e),
        }
    }

    /// The bare id.
    pub fn id(&self) -> (r: &str)
        ensures
            r@ == self@,
            is_plain_id(self@),
    {
        proof {
            use_type_invariant(self);
        }
        self.id.as_str()
    }

    /// The URI `spotify:album:{id}`.
    pub fn uri(&self) -> (r: String)
        ensures
            r@ == album_uri(self@),
            is_plain_id(self@),
    {
        proof {
            use_type_invariant(self);
        }
        concat("spotify:album:", self.id.as_str())
    }
}

/// The URI of an album with the given id.
pub open spec fn album_uri(id: Seq<char>) -> Seq<char> {
    "spotify:album:"@ + id
}

impl Clone for AlbumId {
    fn clone(&self) -> (r: AlbumId)
        ensures
            r == *self,
    {
        proof {
            use_type_invariant(self);
        }
        AlbumId { id: self.id.clone() }
    }
}

impl PartialEq for AlbumId {
    fn eq(&self, other: &AlbumId) -> (r: bool) {
        self.id == other.id
    }
}

impl vstd::std_specs::cmp::PartialEqSpecImpl for AlbumId {
    open spec fn obeys_eq_spec() -> bool {
        true
    }

    open spec fn eq_spec(&self, other: &AlbumId) -> bool {
        self@ == other@
    }
}

/// The id of an artist.
#[derive(Debug)]
pub struct ArtistId {
    id: String,
}

impl View for ArtistId {
    type V = Seq<char>;

    closed spec fn view(&self) -> Seq<char> {
        self.id@
    }
}

impl ArtistId {
    #[verifier::type_invariant]
    spec fn plain(self) -> bool {
        is_plain_id(self.id@)
    }

    /// Checks `id` and makes it the id of an artist.
    pub fn from_id(id: &str) -> (r: Result<ArtistId, IdError>)
        ensures
            r is Ok <==> is_plain_id(id@),
            r matches Ok(x) ==> x@ == id@,
    {
        match rspotify_artist_from_id(id) {
            Ok(id) => Ok(ArtistId { id }),
            Err(e) => Err(e),
        }
    }

    /// The bare id.
    pub fn id(&self) -> (r: &str)
        ensures
            r@ == self@,
            is_plain_id(self@),
    {
        proof {
            use_type_invariant(self);
        }
        self.id.as_str()
    }

    /// The URI `spotify:artist:{id}`.
    pub fn uri(&self) -> (r: String)
        ensures
            r@ == artist_uri(self@),
            is_plain_id(self@),
    {
        proof {
            use_type_invariant(self);
        }
        concat("spotify:artist:", self.id.as_str())
    }
}

/// The URI of an artist with the given id.
pub open spec fn artist_uri(id: Seq<char>) -> Seq<char> {
    "spotify:artist:"@ + id
}

impl Clone for ArtistId {
    fn clone(&self) -> (r: ArtistId)
        ensures
            r == *self,
    {
        proof {
            use_type_invariant(self);
        }
        ArtistId { id: self.id.clone() }
    }
}

impl PartialEq for ArtistId {
    fn eq(&self, other: &ArtistId) -> (r: bool) {
        self.id == other.id
    }
}

impl vstd::std_specs::cmp::PartialEqSpecImpl for ArtistId {
    open spec fn obeys_eq_spec() -> bool {
        true
    }

    open spec fn eq_spec(&self, other: &ArtistId) -> bool {
        self@ == other@
    }
}

/// The id of a playlist.
#[derive(Debug)]
pub struct PlaylistId {
    id: String,
}

impl View for PlaylistId {
    type V = Seq<char>;

    closed spec fn view(&self) -> Seq<char> {
        self.id@
    }
}

impl PlaylistId {
    #[verifier::type_invariant]
    spec fn plain(self) -> bool {
        is_plain_id(self.id@)
    }

    /// Checks `id` and makes it the id of a playlist.
    pub fn from_id(id: &str) -> (r: Result<PlaylistId, IdError>)
        ensures
            r is Ok <==> is_plain_id(id@),
            r matches Ok(x) ==> x@ == id@,
    {
        match rspotify_playlist_from_id(id) {
            Ok(id) => Ok(PlaylistId { id }),
            Err(e) => Err(e),
        }
    }

    /// The bare id.
    pub fn id(&self) -> (r: &str)
        ensures
            r@ == self@,
            is_plain_id(self@),
    {
        proof {
            use_type_invariant(self);
        }
        self.id.as_str()
    }

    /// The URI `spotify:playlist:{id}`.
    pub fn uri(&self) -> (r: String)
        ensures
            r@ == playlist_uri(self@),
            is_plain_id(self@),
    {
        proof {
            use_type_invariant(self);
        }
        concat("spotify:playlist:", self.id.as_str())
    }
}

/// The URI of a playlist with the given id.
pub open spec fn playlist_uri(id: Seq<char>) -> Seq<char> {
    "spotify:playlist:"@ + id
}

impl Clone for PlaylistId {
    fn clone(&self) -> (r: PlaylistId)
        ensures
            r == *self,
    {
        proof {
            use_type_invariant(self);
        }
        PlaylistId { id: self.id.clone() }
    }
}

impl PartialEq for PlaylistId {
    fn eq(&self, other: &PlaylistId) -> (r: bool) {
        self.id == other.id
    }
}

impl vstd::std_specs::cmp::PartialEqSpecImpl for PlaylistId {
    open spec fn obeys_eq_spec() -> bool {
        true
    }

    open spec fn eq_spec(&self, other: &PlaylistId) -> bool {
        self@ == other@
    }
}

/// The id of a show.
#[derive(Debug)]
pub struct ShowId {
    id: String,
}

impl View for ShowId {
    type V = Seq<char>;

    closed spec fn view(&self) -> Seq<char> {
        self.id@
    }
}

impl ShowId {
    #[verifier::type_invariant]
    spec fn plain(self) -> bool {
        is_plain_id(self.id@)
    }

    /// Checks `id` and makes it the id of a show.
    pub fn from_id(id: &str) -> (r: Result<ShowId, IdError>)
        ensures
            r is Ok <==> is_plain_id(id@),
            r matches Ok(x) ==> x@ == id@,
    {
        match rspotify_show_from_id(id) {
            Ok(id) => Ok(ShowId { id }),
            Err(e) => Err(e),
        }
    }

    /// Takes the id out of the URI of a show.
    pub fn from_uri(uri: &str) -> (r: Result<ShowId, IdError>)
        ensures
            r matches Ok(x) ==> uri_names(uri@, "show"@, x@),
            r is Err ==> forall|id: Seq<char>| !#[trigger] uri_names(uri@, "show"@, id),
    {
        match rspotify_show_from_uri(uri) {
            Ok(id) => Ok(ShowId { id }),
            Err(e) => Err(e),
        }
    }

    /// The bare id.
    pub fn id(&self) -> (r: &str)
        ensures
            r@ == self@,
            is_plain_id(self@),
    {
        proof {
            use_type_invariant(self);
        }
        self.id.as_str()
    }

    /// The URI `spotify:show:{id}`.
    pub fn uri(&self) -> (r: String)
        ensures
            r@ == show_uri(self@),
            is_plain_id(self@),
    {
        proof {
            use_type_invariant(self);
        }
        concat("spotify:show:", self.id.as_str())
    }
}

/// The URI of a show with the given id.
pub open spec fn show_uri(id: Seq<char>) -> Seq<char> {
    "spotify:show:"@ + id
}

impl Clone for ShowId {
    fn clone(&self) -> (r: ShowId)
        ensures
            r == *self,
    {
        proof {
            use_type_invariant(self);
        }
        ShowId { id: self.id.clone() }
    }
}

impl PartialEq for ShowId {
    fn eq(&self, other: &ShowId) -> (r: bool) {
        self.id == other.id
    }
}

impl vstd::std_specs::cmp::PartialEqSpecImpl for ShowId {
    open spec fn obeys_eq_spec() -> bool {
        true
    }

    open spec fn eq_spec(&self, other: &ShowId) -> bool {
        self@ == other@
    }
}

/// The id of an episode.
#[derive(Debug)]
pub struct EpisodeId {
    id: String,
}

impl View for EpisodeId {
    type V = Seq<char>;

    closed spec fn view(&self) -> Seq<char> {
        self.id@
    }
}

impl EpisodeId {
    #[verifier::type_invariant]
    spec fn plain(self) -> bool {
        is_plain_id(self.id@)
    }

    /// Checks `id` and makes it the id of an episode.
    pub fn from_id(id: &str) -> (r: Result<EpisodeId, IdError>)
        ensures
            r is Ok <==> is_plain_id(id@),
            r matches Ok(x) ==> x@ == id@,
    {
        match rspotify_episode_from_id(id) {
            Ok(id) => Ok(EpisodeId { id }),
            Err(e) => Err(e),
        }
    }

    /// The bare id.
    pub fn id(&self) -> (r: &str)
        ensures
            r@ == self@,
            is_plain_id(self@),
    {
        proof {
            use_type_invariant(self);
        }
        self.id.as_str()
    }

    /// The URI `spotify:episode:{id}`.
    pub fn uri(&self) -> (r: String)
        ensures
            r@ == episode_uri(self@),
            is_plain_id(self@),
    {
        proof {
            use_type_invariant(self);
        }
        concat("spotify:episode:", self.id.as_str())
    }
}

/// The URI of an episode with the given id.
pub open spec fn episode_uri(id: Seq<char>) -> Seq<char> {
    "spotify:episode:"@ + id
}

impl Clone for EpisodeId {
    fn clone(&self) -> (r: EpisodeId)
        ensures
            r == *self,
    {
        proof {
            use_type_invariant(self);
        }
        EpisodeId { id: self.id.clone() }
    }
}

impl PartialEq for EpisodeId {
    fn eq(&self, other: &EpisodeId) -> (r: bool) {
        self.id == other.id
    }
}

impl vstd::std_specs::cmp::PartialEqSpecImpl for EpisodeId {
    open spec fn obeys_eq_spec() -> bool {
        true
    }

    open spec fn eq_spec(&self, other: &EpisodeId) -> bool {
        self@ == other@
    }
}

/// The id of a list of tracks that Spotify knows no item for, such as a radio.
#[derive(Debug)]
pub struct TracksId {
    pub uri: String,
    pub kind: String,
}

/// The texts of a `TracksId`.
pub struct TracksIdView {
    pub uri: Seq<char>,
    pub kind: Seq<char>,
}

impl View for TracksId {
    type V = TracksIdView;

    open spec fn view(&self) -> TracksIdView {
        TracksIdView { uri: self.uri@, kind: self.kind@ }
    }
}

impl TracksId {
    pub fn new(uri: String, kind: &str) -> (r: TracksId)
        ensures
            r@ == (TracksIdView { uri: uri@, kind: kind@ }),
    {
        TracksId { uri, kind: kind.to_owned() }
    }
}

impl Clone for TracksId {
    fn clone(&self) -> (r: TracksId)
        ensures
            r == *self,
    {
        TracksId { uri: self.uri.clone(), kind: self.kind.clone() }
    }
}

/// The id of a context that a page can show.
#[derive(Debug)]
pub enum ContextId {
    Playlist(PlaylistId),
    Album(AlbumId),
    Artist(ArtistId),
    Tracks(TracksId),
    Show(ShowId),
}

/// What a `ContextId` names.
pub enum ContextIdView {
    Playlist(Seq<char>),
    Album(Seq<char>),
    Artist(Seq<char>),
    Tracks(TracksIdView),
    Show(Seq<char>),
}

impl View for ContextId {
    type V = ContextIdView;

    open spec fn view(&self) -> ContextIdView {
        match *self {
            ContextId::Playlist(id) => ContextIdView::Playlist(id@),
            ContextId::Album(id) => ContextIdView::Album(id@),
            ContextId::Artist(id) => ContextIdView::Artist(id@),
            ContextId::Tracks(id) => ContextIdView::Tracks(id@),
            ContextId::Show(id) => ContextIdView::Show(id@),
        }
    }
}

impl ContextIdView {
    /// The URI of the context.
    pub open spec fn uri(self) -> Seq<char> {
        match self {
            ContextIdView::Playlist(id) => playlist_uri(id),
            ContextIdView::Album(id) => album_uri(id),
            ContextIdView::Artist(id) => artist_uri(id),
            ContextIdView::Tracks(id) => id.uri,
            ContextIdView::Show(id) => show_uri(id),
        }
    }
}

impl ContextId {
    /// The URI of the context.
    pub fn uri(&self) -> (r: String)
        ensures
            r@ == self@.uri(),
    {
        match self {
            ContextId::Playlist(id) => id.uri(),
            ContextId::Album(id) => id.uri(),
            ContextId::Artist(id) => id.uri(),
            ContextId::Tracks(id) => id.uri.clone(),
            ContextId::Show(id) => id.uri(),
        }
    }
}

/// The id of something that can be played.
#[derive(Debug)]
pub enum PlayableId {
    Track(TrackId),
    Episode(EpisodeId),
}

/// What a `PlayableId` names.
pub enum PlayableIdView {
    Track(Seq<char>),
    Episode(Seq<char>),
}

impl View for PlayableId {
    type V = PlayableIdView;

    open spec fn view(&self) -> PlayableIdView {
        match *self {
            PlayableId::Track(id) => PlayableIdView::Track(id@),
            PlayableId::Episode(id) => PlayableIdView::Episode(id@),
        }
    }
}

impl PlayableIdView {
    /// The URI of the item.
    pub open spec fn uri(self) -> Seq<char> {
        match self {
            PlayableIdView::Track(id) => track_uri(id),
            PlayableIdView::Episode(id) => episode_uri(id),
        }
    }
}

impl PlayableId {
    /// The URI of the item.
    pub fn uri(&self) -> (r: String)
        ensures
            r@ == self@.uri(),
    {
        match self {
            PlayableId::Track(id) => id.uri(),
            PlayableId::Episode(id) => id.uri(),
        }
    }
}

/// The id of an item that a library can hold.
#[derive(Debug)]
pub enum ItemId {
    Track(TrackId),
    Album(AlbumId),
    Artist(ArtistId),
    Playlist(PlaylistId),
    Show(ShowId),
}

} // verus!
