use crate::api::{Load, LoadCached, LoadCachedView, WebApi};
use crate::error::Error;
use crate::request::RequestView;
use crate::text::concat;
use vstd::prelude::*;

verus! {

/// The call that loads the album `id`, for a client that holds `token`.
pub open spec fn album_call(token: Seq<char>, id: Seq<char>) -> LoadCachedView {
    LoadCachedView {
        request: RequestView::build("GET"@, "v1/albums/"@ + id, token).query(
            "market"@,
            "from_token"@,
        ),
        bucket: "album"@,
        key: id,
    }
}

/// The call that loads the track `id`, for a client that holds `token`.
pub open spec fn track_call(token: Seq<char>, id: Seq<char>) -> RequestView {
    RequestView::build("GET"@, "v1/tracks/"@ + id, token).query("market"@, "from_token"@)
}

/// Album endpoints.
impl WebApi {
    /// The call that loads the album `id`, for the market of the token: from
    /// the cache bucket `album` under the album's identifier, or else from
    /// the service.
    pub fn get_album(&self, id: &str) -> (result: Result<LoadCached, Error>)
        ensures
            self.yields(result),
            result is Ok ==> result->Ok_0@ == album_call(self.token(), id@),
    {
        let path = concat("v1/albums/", id);
        match self.get(path.as_str()) {
            Ok(request) => Ok(
                LoadCached {
                    request: request.query("market", "from_token"),
                    bucket: String::from_str("album"),
                    key: String::from_str(id),
                },
            ),
            Err(err) => Err(err),
        }
    }
}

/// Track endpoints.
impl WebApi {
    /// The call that loads the track `id`, for the market of the token.
    pub fn get_track(&self, id: &str) -> (result: Result<Load, Error>)
        ensures
            self.yields(result),
            result is Ok ==> result->Ok_0@ == track_call(self.token(), id@),
    {
        let path = concat("v1/tracks/", id);
        match self.get(path.as_str()) {
            Ok(request) => Ok(Load { request: request.query("market", "from_token") }),
            Err(err) => Err(err),
        }
    }

    /// The call that loads the audio analysis of the track `track_id`: from
    /// the cache bucket `audio-analysis` under the track's identifier, or
    /// else from the service.
    pub fn _get_audio_analysis(&self, track_id: &str) -> (result: Result<LoadCached, Error>)
        ensures
            self.yields(result),
            result is Ok ==> result->Ok_0@ == (LoadCachedView {
                request: self.plain("GET"@, "v1/audio-analysis/"@ + track_id@),
                bucket: "audio-analysis"@,
                key: track_id@,
            }),
    {
        let path = concat("v1/audio-analysis/", track_id);
        match self.get(path.as_str()) {
            Ok(request) => Ok(
                LoadCached {
                    request,
                    bucket: String::from_str("audio-analysis"),
                    key: String::from_str(track_id),
                },
            ),
            Err(err) => Err(err),
        }
    }
}

} // verus!
