use webapi::request::AuthenticatedRequest;
use webapi::{Error, Load, LoadAllPages, LoadCached, SendEmptyJson, WebApi};

fn client() -> WebApi {
    WebApi::new(Ok("tok".to_string()))
}

fn get_request(path: &str) -> AuthenticatedRequest {
    AuthenticatedRequest::build("GET", path, "tok")
}

fn single(request: AuthenticatedRequest) -> Result<Load, Error> {
    Ok(Load { request })
}

fn paged(request: AuthenticatedRequest) -> Result<LoadAllPages, Error> {
    Ok(LoadAllPages { request })
}

fn cached(request: AuthenticatedRequest, bucket: &str, key: &str) -> Result<LoadCached, Error> {
    Ok(LoadCached { request, bucket: bucket.to_string(), key: key.to_string() })
}

fn emptied(method: &str, path: &str, id: &str) -> Result<SendEmptyJson, Error> {
    Ok(SendEmptyJson { request: AuthenticatedRequest::build(method, path, "tok").query("ids", id) })
}

#[test]
fn user_profile_is_a_single_load() {
    assert_eq!(client().get_user_profile(), single(get_request("v1/me")));
}

#[test]
fn artist_is_cached_under_its_id() {
    assert_eq!(
        client().get_artist("4Z8W4fKeB5YxbusRsdQVPb"),
        cached(
            get_request("v1/artists/4Z8W4fKeB5YxbusRsdQVPb"),
            "artist",
            "4Z8W4fKeB5YxbusRsdQVPb"
        )
    );
}

#[test]
fn artist_albums_are_paged_for_the_token_market() {
    assert_eq!(
        client().get_artist_albums("a1"),
        paged(get_request("v1/artists/a1/albums").query("market", "from_token"))
    );
}

#[test]
fn artist_top_tracks_are_a_single_load() {
    assert_eq!(
        client().get_artist_top_tracks("a1"),
        single(get_request("v1/artists/a1/top-tracks").query("market", "from_token"))
    );
}

#[test]
fn related_artists_are_cached_in_their_own_bucket() {
    assert_eq!(
        client().get_related_artists("a1"),
        cached(get_request("v1/artists/a1/related-artists"), "related-artists", "a1")
    );
}

#[test]
fn album_is_cached_for_the_token_market() {
    assert_eq!(
        client().get_album("b2"),
        cached(get_request("v1/albums/b2").query("market", "from_token"), "album", "b2")
    );
}

#[test]
fn track_is_a_single_load_for_the_token_market() {
    assert_eq!(
        client().get_track("c3"),
        single(get_request("v1/tracks/c3").query("market", "from_token"))
    );
}

#[test]
fn audio_analysis_is_cached_under_the_track_id() {
    assert_eq!(
        client()._get_audio_analysis("c3"),
        cached(get_request("v1/audio-analysis/c3"), "audio-analysis", "c3")
    );
}

#[test]
fn saved_albums_and_tracks_are_paged() {
    assert_eq!(
        client().get_saved_albums(),
        paged(get_request("v1/me/albums").query("market", "from_token"))
    );
    assert_eq!(
        client().get_saved_tracks(),
        paged(get_request("v1/me/tracks").query("market", "from_token"))
    );
}

#[test]
fn saving_puts_and_unsaving_deletes_with_an_empty_body() {
    assert_eq!(client().save_album("b2"), emptied("PUT", "v1/me/albums", "b2"));
    assert_eq!(client().unsave_album("b2"), emptied("DELETE", "v1/me/albums", "b2"));
    assert_eq!(client().save_track("c3"), emptied("PUT", "v1/me/tracks", "c3"));
    assert_eq!(client().unsave_track("c3"), emptied("DELETE", "v1/me/tracks", "c3"));
}

#[test]
fn made_for_you_asks_for_the_first_twenty_playlists() {
    assert_eq!(
        client().get_made_for_you(),
        single(
            get_request("v1/views/made-for-x")
                .query("types", "playlist")
                .query("limit", "20")
                .query("offset", "0")
        )
    );
}

#[test]
fn playlists_are_paged_and_one_playlist_is_a_single_load() {
    assert_eq!(client().get_playlists(), paged(get_request("v1/me/playlists")));
    assert_eq!(client().get_playlist("p4"), single(get_request("v1/playlists/p4")));
}

#[test]
fn playlist_tracks_are_paged_with_their_two_parameters() {
    assert_eq!(
        client().get_playlist_tracks("p4"),
        paged(
            get_request("v1/playlists/p4/tracks")
                .query("marker", "from_token")
                .query("additional_types", "track")
        )
    );
}

#[test]
fn search_asks_for_all_four_kinds() {
    assert_eq!(
        client().search("dark side"),
        single(
            get_request("v1/search")
                .query("q", "dark side")
                .query("type", "artist,album,track,playlist")
                .query("marker", "from_token")
        )
    );
}

#[test]
fn identifiers_go_into_the_path_as_they_are() {
    assert_eq!(client().get_playlist(""), single(get_request("v1/playlists/")));
    assert_eq!(
        client().get_track("a/b?c"),
        single(get_request("v1/tracks/a/b?c").query("market", "from_token"))
    );
}

fn refused<T>(result: Result<T, Error>) -> bool {
    matches!(result, Err(Error::WebApiError(text)) if text == "token refresh failed")
}

#[test]
fn every_endpoint_fails_with_the_credential_text() {
    let api = WebApi::new(Err("token refresh failed".to_string()));
    assert!(refused(api.get_user_profile()));
    assert!(refused(api.get_artist("x")));
    assert!(refused(api.get_artist_albums("x")));
    assert!(refused(api.get_artist_top_tracks("x")));
    assert!(refused(api.get_related_artists("x")));
    assert!(refused(api.get_album("x")));
    assert!(refused(api.get_track("x")));
    assert!(refused(api._get_audio_analysis("x")));
    assert!(refused(api.get_saved_albums()));
    assert!(refused(api.save_album("x")));
    assert!(refused(api.unsave_album("x")));
    assert!(refused(api.get_saved_tracks()));
    assert!(refused(api.save_track("x")));
    assert!(refused(api.unsave_track("x")));
    assert!(refused(api.get_made_for_you()));
    assert!(refused(api.get_playlists()));
    assert!(refused(api.get_playlist("x")));
    assert!(refused(api.get_playlist_tracks("x")));
    assert!(refused(api.search("x")));
    assert!(!refused(WebApi::new(Ok("tok".to_string())).search("x")));
}
