//! Spans, ids, texts, lists and caches.

use rspotify::model::Id;
use spotify_player::cache::ExpiringCache;
use spotify_player::ids::AlbumId;
use spotify_player::ids::ArtistId;
use spotify_player::ids::ContextId;
use spotify_player::ids::EpisodeId;
use spotify_player::ids::PlayableId;
use spotify_player::ids::PlaylistId;
use spotify_player::ids::ShowId;
use spotify_player::ids::TrackId;
use spotify_player::ids::TracksId;
use spotify_player::layout::ListState;
use spotify_player::layout::Rect;
use spotify_player::span::Span;
use spotify_player::text::map_join;
use spotify_player::text::parse_uri;

#[test]
fn span_of_milliseconds() {
    assert_eq!(Span::from_millis(1_500).unwrap().parts(), (1, 500_000_000));
    assert_eq!(Span::from_millis(-1_500).unwrap().parts(), (-1, -500_000_000));
    assert_eq!(Span::from_millis(0).unwrap(), Span::zero());
    assert!(Span::from_millis(i64::MIN).is_none());
    assert_eq!(
        Span::from_millis(i64::MAX).unwrap().parts(),
        (9_223_372_036_854_775, 807_000_000)
    );
    assert_eq!(Span::from_millis(-i64::MAX).unwrap().num_milliseconds(), -i64::MAX);
}

#[test]
fn span_of_seconds() {
    assert_eq!(Span::from_secs(7).unwrap().parts(), (7, 0));
    assert_eq!(Span::from_secs(7).unwrap().num_milliseconds(), 7_000);
    assert!(Span::from_secs(9_223_372_036_854_775).is_some());
    assert!(Span::from_secs(9_223_372_036_854_776).is_none());
    assert!(Span::from_secs(-9_223_372_036_854_775).is_some());
    assert!(Span::from_secs(-9_223_372_036_854_776).is_none());
}

#[test]
fn span_sum_and_difference() {
    let a = Span::from_millis(-1_200).unwrap();
    let b = Span::from_millis(700).unwrap();
    assert_eq!(a.checked_add(b).unwrap().parts(), (0, -500_000_000));
    assert_eq!(a.checked_sub(b).unwrap().parts(), (-1, -900_000_000));
    assert_eq!(b.checked_sub(a).unwrap().parts(), (1, 900_000_000));
    assert_eq!(a.checked_add(b).unwrap().checked_sub(b).unwrap(), a);
    let longest = Span::from_millis(i64::MAX).unwrap();
    assert!(longest.checked_add(Span::from_parts(0, 1).unwrap()).is_none());
    assert!(longest.checked_sub(Span::from_parts(0, -1).unwrap()).is_none());
}

#[test]
fn span_agrees_with_chrono() {
    let spans = [
        (0i64, 0i32),
        (0, 1),
        (0, -1),
        (3, 999_999_999),
        (-3, -1),
        (86_400, 1_000_001),
        (-86_400, -999_999_999),
        (9_223_372_036_854_775, 807_000_000),
        (-9_223_372_036_854_775, -807_000_000),
    ];
    for (s, n) in spans {
        let ours = Span::from_parts(s, n).unwrap();
        let theirs = chrono::TimeDelta::seconds(s) + chrono::TimeDelta::nanoseconds(n.into());
        assert_eq!(ours.parts(), (theirs.num_seconds(), theirs.subsec_nanos()));
        assert_eq!(ours.num_milliseconds(), theirs.num_milliseconds());
        for (t, m) in spans {
            let other = Span::from_parts(t, m).unwrap();
            let their_other =
                chrono::TimeDelta::seconds(t) + chrono::TimeDelta::nanoseconds(m.into());
            let sum = theirs.checked_add(&their_other);
            assert_eq!(
                ours.checked_add(other).map(|d| d.parts()),
                sum.map(|d| (d.num_seconds(), d.subsec_nanos()))
            );
            let difference = theirs.checked_sub(&their_other);
            assert_eq!(
                ours.checked_sub(other).map(|d| d.parts()),
                difference.map(|d| (d.num_seconds(), d.subsec_nanos()))
            );
        }
    }
}

#[test]
fn span_out_of_range_has_no_parts() {
    assert!(Span::from_parts(9_223_372_036_854_775, 807_000_001).is_none());
    assert!(Span::from_parts(-9_223_372_036_854_775, -807_000_001).is_none());
}

#[test]
fn span_rounds_toward_zero() {
    assert_eq!(Span::from_parts(0, 1_999_999).unwrap().num_milliseconds(), 1);
    assert_eq!(Span::from_parts(0, -1_999_999).unwrap().num_milliseconds(), -1);
    assert_eq!(Span::from_parts(0, -999_999).unwrap().num_milliseconds(), 0);
}

#[test]
fn span_or_zero() {
    assert_eq!(Span::from_parts(0, -1).unwrap().or_zero(), Span::zero());
    assert_eq!(Span::from_parts(0, 1).unwrap().or_zero().parts(), (0, 1));
}

#[test]
fn ids_are_letters_and_digits() {
    assert_eq!(TrackId::from_id("4y4VO05kYgUTo2bzbox1an").unwrap().id(), "4y4VO05kYgUTo2bzbox1an");
    assert_eq!(TrackId::from_id("").unwrap().id(), "");
    assert!(TrackId::from_id("a-b").is_err());
    assert!(TrackId::from_id("caf\u{e9}").is_err());
    assert!(AlbumId::from_id("a b").is_err());
    assert!(ArtistId::from_id("a:b").is_err());
    assert!(PlaylistId::from_id("a/b").is_err());
    assert!(ShowId::from_id("a\n").is_err());
    assert!(EpisodeId::from_id("_").is_err());
}

#[test]
fn uris_name_type_and_id() {
    assert_eq!(TrackId::from_id("t1").unwrap().uri(), "spotify:track:t1");
    assert_eq!(AlbumId::from_id("a1").unwrap().uri(), "spotify:album:a1");
    assert_eq!(ArtistId::from_id("r1").unwrap().uri(), "spotify:artist:r1");
    assert_eq!(PlaylistId::from_id("p1").unwrap().uri(), "spotify:playlist:p1");
    assert_eq!(ShowId::from_id("s1").unwrap().uri(), "spotify:show:s1");
    assert_eq!(EpisodeId::from_id("e1").unwrap().uri(), "spotify:episode:e1");
    assert_eq!(
        PlayableId::Episode(EpisodeId::from_id("e1").unwrap()).uri(),
        "spotify:episode:e1"
    );
    assert_eq!(
        ContextId::Tracks(TracksId::new("radio:x".to_string(), "Recommendations")).uri(),
        "radio:x"
    );
}

#[test]
fn uris_agree_with_rspotify() {
    let id = "4y4VO05kYgUTo2bzbox1an";
    assert_eq!(
        TrackId::from_id(id).unwrap().uri(),
        rspotify::model::TrackId::from_id(id).unwrap().uri()
    );
    assert_eq!(
        AlbumId::from_id(id).unwrap().uri(),
        rspotify::model::AlbumId::from_id(id).unwrap().uri()
    );
    assert_eq!(
        ArtistId::from_id(id).unwrap().uri(),
        rspotify::model::ArtistId::from_id(id).unwrap().uri()
    );
    assert_eq!(
        PlaylistId::from_id(id).unwrap().uri(),
        rspotify::model::PlaylistId::from_id(id).unwrap().uri()
    );
    assert_eq!(
        ShowId::from_id(id).unwrap().uri(),
        rspotify::model::ShowId::from_id(id).unwrap().uri()
    );
    assert_eq!(
        EpisodeId::from_id(id).unwrap().uri(),
        rspotify::model::EpisodeId::from_id(id).unwrap().uri()
    );
}

#[test]
fn ids_from_uris() {
    assert_eq!(AlbumId::from_uri("spotify:album:a1").unwrap().id(), "a1");
    assert_eq!(AlbumId::from_uri("spotify/album/a1").unwrap().id(), "a1");
    assert!(AlbumId::from_uri("spotify:track:a1").is_err());
    assert!(AlbumId::from_uri("spotify:album/a1").is_err());
    assert!(AlbumId::from_uri("a1").is_err());
    assert!(AlbumId::from_uri("spotify:album:a-1").is_err());
    assert_eq!(ShowId::from_uri("spotify:show:s1").unwrap().id(), "s1");
    assert_eq!(ShowId::from_uri("spotify/show/s1").unwrap().id(), "s1");
    assert!(ShowId::from_uri("spotify:album:s1").is_err());
}

#[test]
fn long_uris_are_shortened() {
    assert_eq!(parse_uri("spotify:user:me:playlist:p1"), "spotify:playlist:p1");
    assert_eq!(parse_uri("spotify:album:a1"), "spotify:album:a1");
    assert_eq!(parse_uri(""), "");
}

#[test]
fn names_are_joined() {
    let names = vec!["A".to_string(), "B".to_string(), "C".to_string()];
    assert_eq!(map_join(&names, ", "), "A, B, C");
    assert_eq!(map_join(&Vec::new(), ", "), "");
    assert_eq!(map_join(&vec!["A".to_string()], ", "), "A");
}

#[test]
fn area_holds_its_cells() {
    let area = Rect { x: 2, y: 3, width: 4, height: 2 };
    assert!(area.contains(2, 3));
    assert!(area.contains(5, 4));
    assert!(!area.contains(6, 4));
    assert!(!area.contains(5, 5));
    assert!(!area.contains(1, 3));
    assert!(!Rect::default().contains(0, 0));
    let edge = Rect { x: 65_530, y: 0, width: 100, height: 1 };
    assert!(edge.contains(65_534, 0));
    assert!(!edge.contains(65_535, 0));
}

#[test]
fn click_selects_item_under_cursor() {
    let area = Rect { x: 0, y: 10, width: 20, height: 5 };
    let mut list = ListState { offset: 7, selected: None };
    list.click(area, 3, 12, 100);
    assert_eq!(list, ListState { offset: 7, selected: Some(9) });
    list.click(area, 3, 12, 100);
    assert_eq!(list, ListState { offset: 7, selected: Some(9) });
}

#[test]
fn click_below_items_selects_last() {
    let area = Rect { x: 0, y: 10, width: 20, height: 5 };
    let mut list = ListState { offset: 0, selected: Some(1) };
    list.click(area, 3, 14, 3);
    assert_eq!(list, ListState { offset: 0, selected: Some(2) });
    let mut scrolled = ListState { offset: 50, selected: None };
    scrolled.click(area, 3, 10, 3);
    assert_eq!(scrolled, ListState { offset: 2, selected: Some(2) });
}

#[test]
fn click_elsewhere_or_on_empty_list_selects_nothing() {
    let area = Rect { x: 0, y: 10, width: 20, height: 5 };
    let mut list = ListState { offset: 4, selected: Some(4) };
    list.click(area, 3, 9, 10);
    list.click(area, 20, 12, 10);
    list.click(area, 3, 12, 0);
    assert_eq!(list, ListState { offset: 4, selected: Some(4) });
}

#[test]
fn list_state_agrees_with_ratatui() {
    let mut ours = ListState::default();
    let mut theirs = ratatui::widgets::ListState::default();
    assert_eq!((ours.offset, ours.selected), (theirs.offset(), theirs.selected()));
    ours.offset = 9;
    *theirs.offset_mut() = 9;
    ours.select(Some(3));
    theirs.select(Some(3));
    assert_eq!((ours.offset, ours.selected), (theirs.offset(), theirs.selected()));
    ours.select(None);
    theirs.select(None);
    assert_eq!((ours.offset, ours.selected), (theirs.offset(), theirs.selected()));
}

#[test]
fn cache_keeps_values_until_they_expire() {
    let mut cache: ExpiringCache<u8> = ExpiringCache::new();
    assert_eq!(cache.get("a", 0), None);
    cache.insert("a".to_string(), 1, 100, 10);
    assert_eq!(cache.get("a", 110), Some(&1));
    assert_eq!(cache.get("a", 111), None);
    assert_eq!(cache.get("b", 10), None);
    cache.insert("a".to_string(), 2, 100, 20);
    assert_eq!(cache.get("a", 20), Some(&2));
    cache.insert("z".to_string(), 3, u64::MAX, 20);
    assert_eq!(cache.get("z", u64::MAX), Some(&3));
}

#[test]
fn cache_gives_up_what_is_removed() {
    let mut cache: ExpiringCache<u8> = ExpiringCache::new();
    cache.insert("a".to_string(), 1, 100, 0);
    cache.insert("b".to_string(), 2, 100, 0);
    assert_eq!(cache.remove("a", 50), Some(1));
    assert_eq!(cache.remove("a", 50), None);
    assert_eq!(cache.get("b", 50), Some(&2));
    assert_eq!(cache.remove("b", 101), None);
}
