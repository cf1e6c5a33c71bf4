use crate::api::{Load, WebApi};
use crate::data::{Album, Artist, Playlist, SearchResults, Track};
use crate::error::Error;
use crate::pages::Page;
use std::sync::Arc;
use vstd::prelude::*;

verus! {

/// What the service returns for a search: one page for each kind of
/// result, and any of them may be missing.
#[derive(Debug, PartialEq, Eq)]
pub struct ApiSearchResults {
    pub artists: Option<Page<Artist>>,
    pub albums: Option<Page<Arc<Album>>>,
    pub tracks: Option<Page<Arc<Track>>>,
    pub playlists: Option<Page<Playlist>>,
}

/// The items of one section of a search response: those of its page, or
/// none where the section is missing.
pub open spec fn section<T>(page: Option<Page<T>>) -> Seq<T> {
    match page {
        Some(page) => page.items@,
        None => Seq::empty(),
    }
}

fn section_items<T>(page: Option<Page<T>>) -> (items: Vec<T>)
    ensures
        items@ == section(page),
{
    match page {
        Some(page) => page.items,
        None => Vec::new(),
    }
}

/// Search endpoints.
impl WebApi {
    /// The call that searches the catalog for `query` among artists,
    /// albums, tracks and playlists.
    pub fn search(&self, query: &str) -> (result: Result<Load, Error>)
        ensures
            self.yields(result),
            result is Ok ==> result->Ok_0@ == self.plain("GET"@, "v1/search"@).query(
                "q"@,
                query@,
            ).query("type"@, "artist,album,track,playlist"@).query("marker"@, "from_token"@),
    {
        match self.get("v1/search") {
            Ok(request) => Ok(
                Load {
                    request: request.query("q", query).query(
                        "type",
                        "artist,album,track,playlist",
                    ).query("marker", "from_token"),
                },
            ),
            Err(err) => Err(err),
        }
    }

    /// What a search for `query` found, from the service's response: each
    /// section holds the items of its page, and a section that the service
    /// left out is empty.
    pub fn search_results(query: &str, result: ApiSearchResults) -> (results: SearchResults)
        ensures
            results.query@ == query@,
            results.artists@ == section(result.artists),
            results.albums@ == section(result.albums),
            results.tracks@ == section(result.tracks),
            results.playlists@ == section(result.playlists),
    {
        let artists = section_items(result.artists);
        let albums = section_items(result.albums);
        let tracks = section_items(result.tracks);
        let playlists = section_items(result.playlists);
        SearchResults { query: String::from_str(query), artists, albums, tracks, playlists }
    }
}

} // verus!
