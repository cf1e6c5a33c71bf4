use crate::api::{Load, LoadAllPages, WebApi};
use crate::data::Track;
use crate::error::Error;
use crate::request::RequestView;
use crate::text::{concat, concat3};
use std::sync::Arc;
use vstd::prelude::*;

verus! {

/// `serde_json::Value`: a decoded JSON value of any shape.  Nothing is
/// claimed of what it holds; it is only carried.
#[verifier::external_type_specification]
#[verifier::external_body]
pub struct ExValue(serde_json::Value);

/// What stands in the place of a track in a playlist: a track that decoded
/// as one, or whatever JSON was there instead.
#[derive(Debug, PartialEq)]
pub enum OptionalTrack {
    Track(Arc<Track>),
    Json(serde_json::Value),
}

/// One entry of a playlist, as the service lists it.
#[derive(Debug, PartialEq)]
pub struct PlaylistItem {
    pub is_local: bool,
    pub track: OptionalTrack,
}

/// The track of a playlist entry that is kept: the entry is not a local
/// file and a track decoded in its place.
pub open spec fn playable(item: PlaylistItem) -> Option<Arc<Track>> {
    match item {
        PlaylistItem { is_local: false, track: OptionalTrack::Track(track) } => Some(track),
        _ => None,
    }
}

/// The tracks of the entries that are kept, in the order of the entries.
pub open spec fn playable_tracks(items: Seq<PlaylistItem>) -> Seq<Arc<Track>> {
    items.filter_map(|item: PlaylistItem| playable(item))
}

/// The call that loads the playlist `id`, for a client that holds `token`.
pub open spec fn playlist_call(token: Seq<char>, id: Seq<char>) -> RequestView {
    RequestView::build("GET"@, "v1/playlists/"@ + id, token)
}

/// Playlist endpoints.
impl WebApi {
    /// The call that lists the playlists of the current user, page by page.
    pub fn get_playlists(&self) -> (result: Result<LoadAllPages, Error>)
        ensures
            self.yields(result),
            result is Ok ==> result->Ok_0@ == self.plain("GET"@, "v1/me/playlists"@),
    {
        match self.get("v1/me/playlists") {
            Ok(request) => Ok(LoadAllPages { request }),
            Err(err) => Err(err),
        }
    }

    /// The call that loads the playlist `id`.
    pub fn get_playlist(&self, id: &str) -> (result: Result<Load, Error>)
        ensures
            self.yields(result),
            result is Ok ==> result->Ok_0@ == playlist_call(self.token(), id@),
    {
        let path = concat("v1/playlists/", id);
        match self.get(path.as_str()) {
            Ok(request) => Ok(Load { request }),
            Err(err) => Err(err),
        }
    }

    /// The call that lists the entries of the playlist `id`, page by page.
    pub fn get_playlist_tracks(&self, id: &str) -> (result: Result<LoadAllPages, Error>)
        ensures
            self.yields(result),
            result is Ok ==> result->Ok_0@ == self.plain(
                "GET"@,
                "v1/playlists/"@ + id@ + "/tracks"@,
            ).query("marker"@, "from_token"@).query("additional_types"@, "track"@),
    {
        let path = concat3("v1/playlists/", id, "/tracks");
        match self.get(path.as_str()) {
            Ok(request) => Ok(
                LoadAllPages {
                    request: request.query("marker", "from_token").query(
                        "additional_types",
                        "track",
                    ),
                },
            ),
            Err(err) => Err(err),
        }
    }

    /// The tracks of a playlist, from its entries: entries that are local
    /// files are left out, and so are entries whose track did not decode as
    /// one; the rest keep their order.
    pub fn playlist_tracks(items: Vec<PlaylistItem>) -> (tracks: Vec<Arc<Track>>)
        ensures
            tracks@ == playable_tracks(items@),
    {
        let mut tracks: Vec<Arc<Track>> = Vec::new();
        let mut i: usize = 0;
        while i < items.len()
            invariant
                i <= items.len(),
                tracks@ == playable_tracks(items@.take(i as int)),
            decreases items.len() - i,
        {
            proof {
                items@.lemma_filter_map_take_succ(|item: PlaylistItem| playable(item), i as int);
            }
            match &items[i] {
                PlaylistItem { is_local: false, track: OptionalTrack::Track(track) } => {
                    tracks.push(track.clone());
                },
                _ => {},
            }
            i = i + 1;
        }
        assert(items@.take(i as int) =~= items@);
        tracks
    }
}

} // verus!
