use crate::api::{Load, LoadAllPages, LoadCached, LoadCachedView, WebApi};
use crate::cache::Cached;
use crate::data::{Album, AlbumType, Artist, ArtistAlbums, Track};
use crate::error::Error;
use crate::request::RequestView;
use crate::text::{concat, concat3};
use std::sync::Arc;
use vstd::prelude::*;

verus! {

/// The envelope around the top tracks of an artist.
#[derive(Debug, PartialEq, Eq)]
pub struct Tracks {
    pub tracks: Vec<Arc<Track>>,
}

/// The envelope around the artists related to an artist.
#[derive(Debug, PartialEq, Eq)]
pub struct Artists {
    pub artists: Vec<Artist>,
}

/// The albums of `albums` that the catalog tags as `kind`, in their order.
pub open spec fn of_type(albums: Seq<Arc<Album>>, kind: AlbumType) -> Seq<Arc<Album>> {
    albums.filter(|album: Arc<Album>| album.album_type == kind)
}

/// The call that loads the artist `id`, for a client that holds `token`.
pub open spec fn artist_call(token: Seq<char>, id: Seq<char>) -> LoadCachedView {
    LoadCachedView {
        request: RequestView::build("GET"@, "v1/artists/"@ + id, token),
        bucket: "artist"@,
        key: id,
    }
}

/// Artist endpoints.
impl WebApi {
    /// The call that loads the artist `id`: from the cache bucket `artist`
    /// under the artist's identifier, or else from the service.
    pub fn get_artist(&self, id: &str) -> (result: Result<LoadCached, Error>)
        ensures
            self.yields(result),
            result is Ok ==> result->Ok_0@ == artist_call(self.token(), id@),
    {
        let path = concat("v1/artists/", id);
        match self.get(path.as_str()) {
            Ok(request) => Ok(
                LoadCached {
                    request,
                    bucket: String::from_str("artist"),
                    key: String::from_str(id),
                },
            ),
            Err(err) => Err(err),
        }
    }

    /// The call that lists the albums of the artist `id`, page by page.
    pub fn get_artist_albums(&self, id: &str) -> (result: Result<LoadAllPages, Error>)
        ensures
            self.yields(result),
            result is Ok ==> result->Ok_0@ == self.plain(
                "GET"@,
                "v1/artists/"@ + id@ + "/albums"@,
            ).query("market"@, "from_token"@),
    {
        let path = concat3("v1/artists/", id, "/albums");
        match self.get(path.as_str()) {
            Ok(request) => Ok(LoadAllPages { request: request.query("market", "from_token") }),
            Err(err) => Err(err),
        }
    }

    /// The albums of an artist sorted by kind of release.  Every album goes
    /// to the one bucket of its kind, and each bucket keeps the order in
    /// which its albums were listed.
    pub fn artist_albums(result: Vec<Arc<Album>>) -> (sorted: ArtistAlbums)
        ensures
            sorted.albums@ == of_type(result@, AlbumType::Album),
            sorted.singles@ == of_type(result@, AlbumType::Single),
            sorted.compilations@ == of_type(result@, AlbumType::Compilation),
            sorted.appears_on@ == of_type(result@, AlbumType::AppearsOn),
    {
        let mut albums: Vec<Arc<Album>> = Vec::new();
        let mut singles: Vec<Arc<Album>> = Vec::new();
        let mut compilations: Vec<Arc<Album>> = Vec::new();
        let mut appears_on: Vec<Arc<Album>> = Vec::new();
        let mut i: usize = 0;
        while i < result.len()
            invariant
                i <= result.len(),
                albums@ == of_type(result@.take(i as int), AlbumType::Album),
                singles@ == of_type(result@.take(i as int), AlbumType::Single),
                compilations@ == of_type(result@.take(i as int), AlbumType::Compilation),
                appears_on@ == of_type(result@.take(i as int), AlbumType::AppearsOn),
            decreases result.len() - i,
        {
            let album = result[i].clone();
            proof {
                let seen = result@.take(i as int);
                assert(result@.take(i + 1) =~= seen.push(album));
                seen.lemma_filter_push(album, |a: Arc<Album>| a.album_type == AlbumType::Album);
                seen.lemma_filter_push(album, |a: Arc<Album>| a.album_type == AlbumType::Single);
                seen.lemma_filter_push(
                    album,
                    |a: Arc<Album>| a.album_type == AlbumType::Compilation,
                );
                seen.lemma_filter_push(
                    album,
                    |a: Arc<Album>| a.album_type == AlbumType::AppearsOn,
                );
            }
            match album.album_type {
                AlbumType::Album => albums.push(album),
                AlbumType::Single => singles.push(album),
                AlbumType::Compilation => compilations.push(album),
                AlbumType::AppearsOn => appears_on.push(album),
            }
            i = i + 1;
        }
        assert(result@.take(i as int) =~= result@);
        ArtistAlbums { albums, singles, compilations, appears_on }
    }

    /// The call that loads the top tracks of the artist `id`.
    pub fn get_artist_top_tracks(&self, id: &str) -> (result: Result<Load, Error>)
        ensures
            self.yields(result),
            result is Ok ==> result->Ok_0@ == self.plain(
                "GET"@,
                "v1/artists/"@ + id@ + "/top-tracks"@,
            ).query("market"@, "from_token"@),
    {
        let path = concat3("v1/artists/", id, "/top-tracks");
        match self.get(path.as_str()) {
            Ok(request) => Ok(Load { request: request.query("market", "from_token") }),
            Err(err) => Err(err),
        }
    }

    /// The top tracks of an artist, out of their envelope.
    pub fn artist_top_tracks(result: Tracks) -> (tracks: Vec<Arc<Track>>)
        ensures
            tracks == result.tracks,
    {
        result.tracks
    }

    /// The call that loads the artists related to the artist `id`: from the
    /// cache bucket `related-artists` under the artist's identifier, or else
    /// from the service.
    pub fn get_related_artists(&self, id: &str) -> (result: Result<LoadCached, Error>)
        ensures
            self.yields(result),
            result is Ok ==> result->Ok_0@ == (LoadCachedView {
                request: self.plain("GET"@, "v1/artists/"@ + id@ + "/related-artists"@),
                bucket: "related-artists"@,
                key: id@,
            }),
    {
        let path = concat3("v1/artists/", id, "/related-artists");
        match self.get(path.as_str()) {
            Ok(request) => Ok(
                LoadCached {
                    request,
                    bucket: String::from_str("related-artists"),
                    key: String::from_str(id),
                },
            ),
            Err(err) => Err(err),
        }
    }

    /// The artists related to an artist, out of their envelope; where they
    /// came from stays as it was.
    pub fn related_artists(result: Cached<Artists>) -> (artists: Cached<Vec<Artist>>)
        ensures
            artists == (Cached { data: result.data.artists, cached_at: result.cached_at }),
    {
        Cached { data: result.data.artists, cached_at: result.cached_at }
    }
}

/// The four buckets part the albums of an artist: a bucket holds only albums
/// of its own kind, so none is in two buckets; every album is in the bucket
/// of its kind; and the buckets together hold as many albums as were listed.
pub proof fn lemma_buckets_part_the_albums(albums: Seq<Arc<Album>>)
    ensures
        forall|kind: AlbumType, i: int|
            0 <= i < of_type(albums, kind).len() ==> (#[trigger] of_type(
                albums,
                kind,
            )[i]).album_type == kind,
        forall|i: int|
            0 <= i < albums.len() ==> of_type(albums, (#[trigger] albums[i]).album_type).contains(
                albums[i],
            ),
        of_type(albums, AlbumType::Album).len() + of_type(albums, AlbumType::Single).len()
            + of_type(albums, AlbumType::Compilation).len() + of_type(
            albums,
            AlbumType::AppearsOn,
        ).len() == albums.len(),
    decreases albums.len(),
{
    assert forall|kind: AlbumType, i: int| 0 <= i < of_type(albums, kind).len() implies (
    #[trigger] of_type(albums, kind)[i]).album_type == kind by {
        albums.lemma_filter_pred(|album: Arc<Album>| album.album_type == kind, i);
    }
    assert forall|i: int| 0 <= i < albums.len() implies of_type(
        albums,
        (#[trigger] albums[i]).album_type,
    ).contains(albums[i]) by {
        let kind = albums[i].album_type;
        albums.lemma_filter_contains(|album: Arc<Album>| album.album_type == kind, i);
    }
    if albums.len() > 0 {
        let rest = albums.drop_last();
        let last = albums.last();
        lemma_buckets_part_the_albums(rest);
        assert(albums =~= rest.push(last));
        rest.lemma_filter_push(last, |a: Arc<Album>| a.album_type == AlbumType::Album);
        rest.lemma_filter_push(last, |a: Arc<Album>| a.album_type == AlbumType::Single);
        rest.lemma_filter_push(last, |a: Arc<Album>| a.album_type == AlbumType::Compilation);
        rest.lemma_filter_push(last, |a: Arc<Album>| a.album_type == AlbumType::AppearsOn);
    } else {
        reveal(Seq::filter);
    }
}

} // verus!
