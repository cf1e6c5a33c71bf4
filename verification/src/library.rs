use crate::api::{Load, LoadAllPages, SendEmptyJson, WebApi};
use crate::data::{Album, Playlist, Track};
use crate::error::Error;
use crate::pages::Page;
use std::sync::Arc;
use vstd::prelude::*;

verus! {

/// One saved album, in the envelope in which the library lists it.
#[derive(Debug, PartialEq, Eq)]
pub struct SavedAlbum {
    pub album: Arc<Album>,
}

/// One saved track, in the envelope in which the library lists it.
#[derive(Debug, PartialEq, Eq)]
pub struct SavedTrack {
    pub track: Arc<Track>,
}

/// The envelope around the playlists that were made for the current user.
#[derive(Debug, PartialEq, Eq)]
pub struct MadeForYou {
    pub content: Page<Playlist>,
}

/// Other endpoints.
impl WebApi {
    /// The call that loads the profile of the current user.
    pub fn get_user_profile(&self) -> (result: Result<Load, Error>)
        ensures
            self.yields(result),
            result is Ok ==> result->Ok_0@ == self.plain("GET"@, "v1/me"@),
    {
        match self.get("v1/me") {
            Ok(request) => Ok(Load { request }),
            Err(err) => Err(err),
        }
    }
}

/// Library endpoints.
impl WebApi {
    /// The call that lists the saved albums of the current user, page by
    /// page.
    pub fn get_saved_albums(&self) -> (result: Result<LoadAllPages, Error>)
        ensures
            self.yields(result),
            result is Ok ==> result->Ok_0@ == self.plain("GET"@, "v1/me/albums"@).query(
                "market"@,
                "from_token"@,
            ),
    {
        match self.get("v1/me/albums") {
            Ok(request) => Ok(LoadAllPages { request: request.query("market", "from_token") }),
            Err(err) => Err(err),
        }
    }

    /// The saved albums, each out of its envelope, in the order listed.
    pub fn saved_albums(items: Vec<SavedAlbum>) -> (albums: Vec<Arc<Album>>)
        ensures
            albums@ == items@.map_values(|item: SavedAlbum| item.album),
    {
        let mut albums: Vec<Arc<Album>> = Vec::new();
        let mut i: usize = 0;
        while i < items.len()
            invariant
                i <= items.len(),
                albums@ == items@.take(i as int).map_values(|item: SavedAlbum| item.album),
            decreases items.len() - i,
        {
            albums.push(items[i].album.clone());
            assert(albums@ =~= items@.take(i + 1).map_values(|item: SavedAlbum| item.album));
            i = i + 1;
        }
        assert(items@.take(i as int) =~= items@);
        albums
    }

    /// The call that saves the album `id` to the library of the current
    /// user.
    pub fn save_album(&self, id: &str) -> (result: Result<SendEmptyJson, Error>)
        ensures
            self.yields(result),
            result is Ok ==> result->Ok_0@ == self.plain("PUT"@, "v1/me/albums"@).query(
                "ids"@,
                id@,
            ),
    {
        match self.put("v1/me/albums") {
            Ok(request) => Ok(SendEmptyJson { request: request.query("ids", id) }),
            Err(err) => Err(err),
        }
    }

    /// The call that removes the album `id` from the library of the current
    /// user.
    pub fn unsave_album(&self, id: &str) -> (result: Result<SendEmptyJson, Error>)
        ensures
            self.yields(result),
            result is Ok ==> result->Ok_0@ == self.plain("DELETE"@, "v1/me/albums"@).query(
                "ids"@,
                id@,
            ),
    {
        match self.delete("v1/me/albums") {
            Ok(request) => Ok(SendEmptyJson { request: request.query("ids", id) }),
            Err(err) => Err(err),
        }
    }

    /// The call that lists the saved tracks of the current user, page by
    /// page.
    pub fn get_saved_tracks(&self) -> (result: Result<LoadAllPages, Error>)
        ensures
            self.yields(result),
            result is Ok ==> result->Ok_0@ == self.plain("GET"@, "v1/me/tracks"@).query(
                "market"@,
                "from_token"@,
            ),
    {
        match self.get("v1/me/tracks") {
            Ok(request) => Ok(LoadAllPages { request: request.query("market", "from_token") }),
            Err(err) => Err(err),
        }
    }

    /// The saved tracks, each out of its envelope, in the order listed.
    pub fn saved_tracks(items: Vec<SavedTrack>) -> (tracks: Vec<Arc<Track>>)
        ensures
            tracks@ == items@.map_values(|item: SavedTrack| item.track),
    {
        let mut tracks: Vec<Arc<Track>> = Vec::new();
        let mut i: usize = 0;
        while i < items.len()
            invariant
                i <= items.len(),
                tracks@ == items@.take(i as int).map_values(|item: SavedTrack| item.track),
            decreases items.len() - i,
        {
            tracks.push(items[i].track.clone());
            assert(tracks@ =~= items@.take(i + 1).map_values(|item: SavedTrack| item.track));
            i = i + 1;
        }
        assert(items@.take(i as int) =~= items@);
        tracks
    }

    /// The call that saves the track `id` to the library of the current
    /// user.
    pub fn save_track(&self, id: &str) -> (result: Result<SendEmptyJson, Error>)
        ensures
            self.yields(result),
            result is Ok ==> result->Ok_0@ == self.plain("PUT"@, "v1/me/tracks"@).query(
                "ids"@,
                id@,
            ),
    {
        match self.put("v1/me/tracks") {
            Ok(request) => Ok(SendEmptyJson { request: request.query("ids", id) }),
            Err(err) => Err(err),
        }
    }

    /// The call that removes the track `id` from the library of the current
    /// user.
    pub fn unsave_track(&self, id: &str) -> (result: Result<SendEmptyJson, Error>)
        ensures
            self.yields(result),
            result is Ok ==> result->Ok_0@ == self.plain("DELETE"@, "v1/me/tracks"@).query(
                "ids"@,
                id@,
            ),
    {
        match self.delete("v1/me/tracks") {
            Ok(request) => Ok(SendEmptyJson { request: request.query("ids", id) }),
            Err(err) => Err(err),
        }
    }
}

/// View endpoints.
impl WebApi {
    /// The call that loads the playlists that were made for the current
    /// user: the first twenty.
    pub fn get_made_for_you(&self) -> (result: Result<Load, Error>)
        ensures
            self.yields(result),
            result is Ok ==> result->Ok_0@ == self.plain("GET"@, "v1/views/made-for-x"@).query(
                "types"@,
                "playlist"@,
            ).query("limit"@, "20"@).query("offset"@, "0"@),
    {
        match self.get("v1/views/made-for-x") {
            Ok(request) => Ok(
                Load {
                    request: request.query("types", "playlist").query("limit", "20").query(
                        "offset",
                        "0",
                    ),
                },
            ),
            Err(err) => Err(err),
        }
    }

    /// The playlists that were made for the current user, out of their
    /// envelope and their page.
    pub fn made_for_you(result: MadeForYou) -> (playlists: Vec<Playlist>)
        ensures
            playlists == result.content.items,
    {
        result.content.items
    }
}

} // verus!
