use crate::album::{album_call, track_call};
use crate::api::{Load, LoadCached, LoadCachedView, WebApi};
use crate::artist::artist_call;
use crate::cache::Cached;
use crate::data::{Album, Artist, Nav, Playlist, SpotifyUrl, Track};
use crate::error::Error;
use crate::playlist::playlist_call;
use crate::request::RequestView;
use std::sync::Arc;
use vstd::prelude::*;

verus! {

/// What a track link fails with where the track names no album.
pub const TRACK_WITHOUT_ALBUM: &'static str = "Track was found but has no album";

/// The call that loads what a link points to, by the kind of resource.
#[derive(Debug, PartialEq, Eq)]
pub enum LinkCall {
    Playlist(Load),
    Artist(LoadCached),
    Album(LoadCached),
    Track(Load),
}

/// What a [`LinkCall`] holds, as plain sequences.
pub enum LinkCallView {
    Playlist(RequestView),
    Artist(LoadCachedView),
    Album(LoadCachedView),
    Track(RequestView),
}

impl View for LinkCall {
    type V = LinkCallView;

    open spec fn view(&self) -> LinkCallView {
        match self {
            LinkCall::Playlist(call) => LinkCallView::Playlist(call@),
            LinkCall::Artist(call) => LinkCallView::Artist(call@),
            LinkCall::Album(call) => LinkCallView::Album(call@),
            LinkCall::Track(call) => LinkCallView::Track(call@),
        }
    }
}

/// The call that loads what `link` points to, for a client that holds
/// `token`: the call of the endpoint for that kind of resource.
pub open spec fn link_call(token: Seq<char>, link: SpotifyUrl) -> LinkCallView {
    match link {
        SpotifyUrl::Playlist(id) => LinkCallView::Playlist(playlist_call(token, id@)),
        SpotifyUrl::Artist(id) => LinkCallView::Artist(artist_call(token, id@)),
        SpotifyUrl::Album(id) => LinkCallView::Album(album_call(token, id@)),
        SpotifyUrl::Track(id) => LinkCallView::Track(track_call(token, id@)),
    }
}

/// The catalog resource that a link led to, as it was loaded.
#[derive(Debug, PartialEq, Eq)]
pub enum LinkTarget {
    Playlist(Playlist),
    Artist(Artist),
    Album(Cached<Arc<Album>>),
    Track(Arc<Track>),
}

/// The place that a loaded link target leads to, or the text of what is
/// wrong with it.  A track leads to the album that it belongs to.
pub open spec fn link_nav(target: LinkTarget) -> Result<Nav, Seq<char>> {
    match target {
        LinkTarget::Playlist(playlist) => Ok(Nav::PlaylistDetail(playlist.link_spec())),
        LinkTarget::Artist(artist) => Ok(Nav::ArtistDetail(artist.link_spec())),
        LinkTarget::Album(album) => Ok(Nav::AlbumDetail(album.data.link_spec())),
        LinkTarget::Track(track) => match track.album {
            Some(album) => Ok(Nav::AlbumDetail(album)),
            None => Err(TRACK_WITHOUT_ALBUM@),
        },
    }
}

/// Link resolution.
impl WebApi {
    /// The call that loads what `link` points to: the call of the endpoint
    /// for that kind of resource.
    pub fn load_spotify_link(&self, link: &SpotifyUrl) -> (result: Result<LinkCall, Error>)
        ensures
            self.yields(result),
            result is Ok ==> result->Ok_0@ == link_call(self.token(), *link),
    {
        match link {
            SpotifyUrl::Playlist(id) => match self.get_playlist(id.as_str()) {
                Ok(call) => Ok(LinkCall::Playlist(call)),
                Err(err) => Err(err),
            },
            SpotifyUrl::Artist(id) => match self.get_artist(id.as_str()) {
                Ok(call) => Ok(LinkCall::Artist(call)),
                Err(err) => Err(err),
            },
            SpotifyUrl::Album(id) => match self.get_album(id.as_str()) {
                Ok(call) => Ok(LinkCall::Album(call)),
                Err(err) => Err(err),
            },
            SpotifyUrl::Track(id) => match self.get_track(id.as_str()) {
                Ok(call) => Ok(LinkCall::Track(call)),
                Err(err) => Err(err),
            },
        }
    }

    /// The place that a loaded link target leads to.
    ///
    /// A playlist, an artist and an album lead to their own detail; a track
    /// leads to the detail of its album, and fails with
    /// [`TRACK_WITHOUT_ALBUM`] where it names none.
    pub fn spotify_link_nav(target: &LinkTarget) -> (result: Result<Nav, Error>)
        ensures
            match link_nav(*target) {
                Ok(nav) => result == Ok::<Nav, Error>(nav),
                Err(text) => result is Err && result->Err_0.message() == text,
            },
    {
        match target {
            LinkTarget::Playlist(playlist) => Ok(Nav::PlaylistDetail(playlist.link())),
            LinkTarget::Artist(artist) => Ok(Nav::ArtistDetail(artist.link())),
            LinkTarget::Album(album) => Ok(Nav::AlbumDetail(album.data.link())),
            LinkTarget::Track(track) => match &track.album {
                Some(album) => Ok(Nav::AlbumDetail(album.duplicate())),
                None => Err(Error::new(TRACK_WITHOUT_ALBUM)),
            },
        }
    }
}

} // verus!
