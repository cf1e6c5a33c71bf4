use crate::api::{Load, WebApi};
use crate::data::{
    ArtistLink, Range, Recommendations, RecommendationsParams, RecommendationsRequest, Track,
};
use crate::error::Error;
use crate::request::{AuthenticatedRequest, RequestView};
use crate::text::{concat, join, joined, texts};
use std::sync::Arc;
use vstd::prelude::*;

verus! {

/// The query parameter for one bound of a range, if the bound is there.
pub open spec fn bound_param(prefix: Seq<char>, bound: Option<String>, name: Seq<char>) -> Seq<
    (Seq<char>, Seq<char>),
> {
    match bound {
        Some(value) => seq![(prefix + name, value@)],
        None => Seq::empty(),
    }
}

/// The query parameters for the range of the tuning parameter `name`:
/// `min_`, `max_` and `target_` before the name, in that order, each only
/// where the range holds that bound.
pub open spec fn range_params(range: Range<String>, name: Seq<char>) -> Seq<
    (Seq<char>, Seq<char>),
> {
    bound_param("min_"@, range.min, name) + bound_param("max_"@, range.max, name) + bound_param(
        "target_"@,
        range.target,
        name,
    )
}

/// `request` with the query parameters of every tuning parameter added, one
/// range after the other.
pub open spec fn tuned(request: RequestView, params: RecommendationsParams) -> RequestView {
    request.queries(range_params(params.duration_ms, "duration_ms"@)).queries(
        range_params(params.popularity, "popularity"@),
    ).queries(range_params(params.key, "key"@)).queries(range_params(params.mode, "mode"@)).queries(
        range_params(params.tempo, "tempo"@),
    ).queries(range_params(params.time_signature, "time_signature"@)).queries(
        range_params(params.acousticness, "acousticness"@),
    ).queries(range_params(params.danceability, "danceability"@)).queries(
        range_params(params.energy, "energy"@),
    ).queries(range_params(params.instrumentalness, "instrumentalness"@)).queries(
        range_params(params.liveness, "liveness"@),
    ).queries(range_params(params.loudness, "loudness"@)).queries(
        range_params(params.speechiness, "speechiness"@),
    ).queries(range_params(params.valence, "valence"@))
}

/// The identifiers of the artists that `links` refer to.
pub open spec fn artist_ids(links: Seq<ArtistLink>) -> Seq<Seq<char>> {
    links.map_values(|link: ArtistLink| link.id@)
}

/// The request for recommendations on `data`, for a client that holds `token`.
pub open spec fn recommendations_request(
    token: Seq<char>,
    data: RecommendationsRequest,
) -> RequestView {
    tuned(
        RequestView::build("GET"@, "v1/recommendations"@, token).query(
            "marker"@,
            "from_token"@,
        ).query("limit"@, "100"@).query(
            "seed_artists"@,
            joined(artist_ids(data.seed_artists@), ", "@),
        ).query("seed_tracks"@, joined(texts(data.seed_tracks@), ", "@)),
        data.params,
    )
}

fn add_bound_param(
    request: AuthenticatedRequest,
    prefix: &str,
    bound: &Option<String>,
    name: &str,
) -> (tuned: AuthenticatedRequest)
    ensures
        tuned@ == request@.queries(bound_param(prefix@, *bound, name@)),
{
    match bound {
        Some(value) => {
            let key = concat(prefix, name);
            let tuned = request.query(key.as_str(), value.as_str());
            assert(tuned@.query =~= request@.query + bound_param(prefix@, *bound, name@));
            tuned
        },
        None => {
            assert(request@.query =~= request@.query + bound_param(prefix@, *bound, name@));
            request
        },
    }
}

/// Adds to `request` the query parameters for the range of the tuning
/// parameter `name`.
pub fn add_range_param(
    request: AuthenticatedRequest,
    range: &Range<String>,
    name: &str,
) -> (tuned: AuthenticatedRequest)
    ensures
        tuned@ == request@.queries(range_params(*range, name@)),
{
    let ghost before = request@;
    let tuned = add_bound_param(request, "min_", &range.min, name);
    let tuned = add_bound_param(tuned, "max_", &range.max, name);
    let tuned = add_bound_param(tuned, "target_", &range.target, name);
    assert(tuned@.query =~= before.query + range_params(*range, name@));
    tuned
}

fn seed_artist_ids(links: &Vec<ArtistLink>) -> (ids: Vec<String>)
    ensures
        texts(ids@) == artist_ids(links@),
{
    let mut ids: Vec<String> = Vec::new();
    let mut i: usize = 0;
    while i < links.len()
        invariant
            i <= links.len(),
            texts(ids@) == artist_ids(links@.take(i as int)),
        decreases links.len() - i,
    {
        let ghost before = ids@;
        ids.push(links[i].id.clone());
        assert(texts(ids@) =~= texts(before).push(links@[i as int].id@));
        assert(artist_ids(links@.take(i + 1)) =~= artist_ids(links@.take(i as int)).push(
            links@[i as int].id@,
        ));
        i = i + 1;
    }
    assert(links@.take(i as int) =~= links@);
    ids
}

/// Recommendation endpoints.
impl WebApi {
    /// The call that asks for recommendations on `data`: a single load of at
    /// most a hundred tracks, seeded with the artists and tracks of `data`,
    /// each seed list joined by a comma and a space, and tuned by each bound
    /// that `data` holds.
    pub fn get_recommendations(&self, data: &RecommendationsRequest) -> (result: Result<
        Load,
        Error,
    >)
        ensures
            self.yields(result),
            result is Ok ==> result->Ok_0@ == recommendations_request(self.token(), *data),
    {
        let request = match self.get("v1/recommendations") {
            Ok(request) => request,
            Err(err) => {
                return Err(err);
            },
        };
        let artist_ids = seed_artist_ids(&data.seed_artists);
        let seed_artists = join(&artist_ids, ", ");
        let seed_tracks = join(&data.seed_tracks, ", ");
        let request = request.query("marker", "from_token").query("limit", "100").query(
            "seed_artists",
            seed_artists.as_str(),
        ).query("seed_tracks", seed_tracks.as_str());
        let request = add_range_param(request, &data.params.duration_ms, "duration_ms");
        let request = add_range_param(request, &data.params.popularity, "popularity");
        let request = add_range_param(request, &data.params.key, "key");
        let request = add_range_param(request, &data.params.mode, "mode");
        let request = add_range_param(request, &data.params.tempo, "tempo");
        let request = add_range_param(request, &data.params.time_signature, "time_signature");
        let request = add_range_param(request, &data.params.acousticness, "acousticness");
        let request = add_range_param(request, &data.params.danceability, "danceability");
        let request = add_range_param(request, &data.params.energy, "energy");
        let request = add_range_param(request, &data.params.instrumentalness, "instrumentalness");
        let request = add_range_param(request, &data.params.liveness, "liveness");
        let request = add_range_param(request, &data.params.loudness, "loudness");
        let request = add_range_param(request, &data.params.speechiness, "speechiness");
        let request = add_range_param(request, &data.params.valence, "valence");
        Ok(Load { request })
    }

    /// The recommendations that answer `data`: the tracks that the service
    /// returned, with the caller's own request attached, which the service
    /// does not send back.
    pub fn recommendations<R>(tracks: Vec<Arc<Track>>, data: Arc<R>) -> (result: Recommendations<R>)
        ensures
            result.request == data,
            result.tracks == tracks,
    {
        Recommendations { request: data, tracks }
    }
}

} // verus!
