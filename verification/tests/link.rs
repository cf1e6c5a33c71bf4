use std::sync::Arc;
use webapi::cache::Cached;
use webapi::data::{
    Album, AlbumLink, AlbumType, Artist, ArtistLink, Nav, Playlist, PlaylistLink, SpotifyUrl, Track,
};
use webapi::link::{LinkCall, LinkTarget, TRACK_WITHOUT_ALBUM};
use webapi::{Error, WebApi};

fn bound() -> WebApi {
    WebApi::new(Ok("tok".to_string()))
}

#[test]
fn links_load_through_the_endpoint_of_their_kind() {
    let api = bound();
    assert_eq!(
        api.load_spotify_link(&SpotifyUrl::Playlist("p".to_string())),
        Ok(LinkCall::Playlist(api.get_playlist("p").unwrap()))
    );
    assert_eq!(
        api.load_spotify_link(&SpotifyUrl::Artist("a".to_string())),
        Ok(LinkCall::Artist(api.get_artist("a").unwrap()))
    );
    assert_eq!(
        api.load_spotify_link(&SpotifyUrl::Album("b".to_string())),
        Ok(LinkCall::Album(api.get_album("b").unwrap()))
    );
    assert_eq!(
        api.load_spotify_link(&SpotifyUrl::Track("t".to_string())),
        Ok(LinkCall::Track(api.get_track("t").unwrap()))
    );
    assert_ne!(
        api.load_spotify_link(&SpotifyUrl::Album("x".to_string())),
        api.load_spotify_link(&SpotifyUrl::Artist("x".to_string()))
    );
}

#[test]
fn links_fail_without_a_token() {
    let api = WebApi::new(Err("expired".to_string()));
    assert_eq!(
        api.load_spotify_link(&SpotifyUrl::Track("t".to_string())),
        Err(Error::WebApiError("expired".to_string()))
    );
}

#[test]
fn playlist_artist_and_album_lead_to_their_own_detail() {
    let playlist = Playlist { id: "p".to_string(), name: "Mix".to_string() };
    assert_eq!(
        WebApi::spotify_link_nav(&LinkTarget::Playlist(playlist)),
        Ok(Nav::PlaylistDetail(PlaylistLink { id: "p".to_string(), name: "Mix".to_string() }))
    );
    let artist = Artist { id: "a".to_string(), name: "Band".to_string() };
    assert_eq!(
        WebApi::spotify_link_nav(&LinkTarget::Artist(artist)),
        Ok(Nav::ArtistDetail(ArtistLink { id: "a".to_string(), name: "Band".to_string() }))
    );
    let album = Arc::new(Album {
        id: "b".to_string(),
        name: "Record".to_string(),
        album_type: AlbumType::Album,
    });
    assert_eq!(
        WebApi::spotify_link_nav(&LinkTarget::Album(Cached::fresh(album))),
        Ok(Nav::AlbumDetail(AlbumLink { id: "b".to_string(), name: "Record".to_string() }))
    );
}

#[test]
fn track_leads_to_its_album() {
    let track = Arc::new(Track {
        id: "t".to_string(),
        name: "Song".to_string(),
        album: Some(AlbumLink { id: "b".to_string(), name: "Record".to_string() }),
    });
    assert_eq!(
        WebApi::spotify_link_nav(&LinkTarget::Track(track)),
        Ok(Nav::AlbumDetail(AlbumLink { id: "b".to_string(), name: "Record".to_string() }))
    );
}

#[test]
fn track_without_album_fails_to_resolve() {
    let track = Arc::new(Track { id: "t".to_string(), name: "Song".to_string(), album: None });
    assert_eq!(
        WebApi::spotify_link_nav(&LinkTarget::Track(track)),
        Err(Error::WebApiError("Track was found but has no album".to_string()))
    );
    assert_eq!(TRACK_WITHOUT_ALBUM, "Track was found but has no album");
}
