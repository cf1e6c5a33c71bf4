use std::sync::Arc;
use vstd::prelude::*;

verus! {

/// The kind of release that an album is, as the catalog tags it.
#[derive(Clone, Copy, Debug, PartialEq, Eq)]
pub enum AlbumType {
    Album,
    Single,
    Compilation,
    AppearsOn,
}

/// A reference to an artist.
#[derive(Clone, Debug, PartialEq, Eq)]
pub struct ArtistLink {
    pub id: String,
    pub name: String,
}

/// A reference to an album.
#[derive(Clone, Debug, PartialEq, Eq)]
pub struct AlbumLink {
    pub id: String,
    pub name: String,
}

/// A reference to a playlist.
#[derive(Clone, Debug, PartialEq, Eq)]
pub struct PlaylistLink {
    pub id: String,
    pub name: String,
}

/// An artist of the catalog.
#[derive(Clone, Debug, PartialEq, Eq)]
pub struct Artist {
    pub id: String,
    pub name: String,
}

/// An album of the catalog.
#[derive(Clone, Debug, PartialEq, Eq)]
pub struct Album {
    pub id: String,
    pub name: String,
    pub album_type: AlbumType,
}

/// A track of the catalog, with the album it belongs to where that is known.
#[derive(Clone, Debug, PartialEq, Eq)]
pub struct Track {
    pub id: String,
    pub name: String,
    pub album: Option<AlbumLink>,
}

/// A playlist of the catalog.
#[derive(Clone, Debug, PartialEq, Eq)]
pub struct Playlist {
    pub id: String,
    pub name: String,
}

impl AlbumLink {
    /// A second link to the same album.
    pub fn duplicate(&self) -> (link: AlbumLink)
        ensures
            link == *self,
    {
        AlbumLink { id: self.id.clone(), name: self.name.clone() }
    }
}

impl Artist {
    /// The reference to this artist.
    pub open spec fn link_spec(&self) -> ArtistLink {
        ArtistLink { id: self.id, name: self.name }
    }

    /// The reference to this artist.
    pub fn link(&self) -> (link: ArtistLink)
        ensures
            link == self.link_spec(),
    {
        ArtistLink { id: self.id.clone(), name: self.name.clone() }
    }
}

impl Album {
    /// The reference to this album.
    pub open spec fn link_spec(&self) -> AlbumLink {
        AlbumLink { id: self.id, name: self.name }
    }

    /// The reference to this album.
    pub fn link(&self) -> (link: AlbumLink)
        ensures
            link == self.link_spec(),
    {
        AlbumLink { id: self.id.clone(), name: self.name.clone() }
    }
}

impl Playlist {
    /// The reference to this playlist.
    pub open spec fn link_spec(&self) -> PlaylistLink {
        PlaylistLink { id: self.id, name: self.name }
    }

    /// The reference to this playlist.
    pub fn link(&self) -> (link: PlaylistLink)
        ensures
            link == self.link_spec(),
    {
        PlaylistLink { id: self.id.clone(), name: self.name.clone() }
    }
}

/// The albums of one artist, sorted by kind of release.
#[derive(Clone, Debug, PartialEq, Eq)]
pub struct ArtistAlbums {
    pub albums: Vec<Arc<Album>>,
    pub singles: Vec<Arc<Album>>,
    pub compilations: Vec<Arc<Album>>,
    pub appears_on: Vec<Arc<Album>>,
}

/// What a search found, with an empty sequence for each section that the
/// service left out.
#[derive(Clone, Debug, PartialEq, Eq)]
pub struct SearchResults {
    pub query: String,
    pub artists: Vec<Artist>,
    pub albums: Vec<Arc<Album>>,
    pub tracks: Vec<Arc<Track>>,
    pub playlists: Vec<Playlist>,
}

/// A group of up to three bounds on one tuning parameter.
#[derive(Clone, Debug, PartialEq, Eq)]
pub struct Range<V> {
    pub min: Option<V>,
    pub max: Option<V>,
    pub target: Option<V>,
}

/// The tuning parameters of a recommendations request.  Each bound is held
/// as the text that goes on the wire.
#[derive(Clone, Debug, PartialEq, Eq)]
pub struct RecommendationsParams {
    pub duration_ms: Range<String>,
    pub popularity: Range<String>,
    pub key: Range<String>,
    pub mode: Range<String>,
    pub tempo: Range<String>,
    pub time_signature: Range<String>,
    pub acousticness: Range<String>,
    pub danceability: Range<String>,
    pub energy: Range<String>,
    pub instrumentalness: Range<String>,
    pub liveness: Range<String>,
    pub loudness: Range<String>,
    pub speechiness: Range<String>,
    pub valence: Range<String>,
}

/// What recommendations are asked for: seeds and tuning parameters.  Each
/// seed track is held as its identifier in the form that goes on the wire.
#[derive(Clone, Debug, PartialEq, Eq)]
pub struct RecommendationsRequest {
    pub seed_artists: Vec<ArtistLink>,
    pub seed_tracks: Vec<String>,
    pub params: RecommendationsParams,
}

/// Recommended tracks, together with the request that they answer, in
/// whatever form the caller holds it.
#[derive(Clone, Debug, PartialEq, Eq)]
pub struct Recommendations<R> {
    pub request: Arc<R>,
    pub tracks: Vec<Arc<Track>>,
}

/// A link from outside the application to one catalog resource.
#[derive(Clone, Debug, PartialEq, Eq)]
pub enum SpotifyUrl {
    Playlist(String),
    Artist(String),
    Album(String),
    Track(String),
}

/// A place in the application that a link can lead to.
#[derive(Clone, Debug, PartialEq, Eq)]
pub enum Nav {
    PlaylistDetail(PlaylistLink),
    ArtistDetail(ArtistLink),
    AlbumDetail(AlbumLink),
}

} // verus!
