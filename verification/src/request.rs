use crate::text::concat;
use vstd::prelude::*;

verus! {

/// Where every path of the catalog API starts.
pub const API_BASE: &'static str = "https://api.spotify.com/";

/// The name of the header that carries the authorization.
pub const AUTHORIZATION: &'static str = "Authorization";

/// What leads the bearer token in the authorization header.
pub const BEARER: &'static str = "Bearer ";

/// What an [`AuthenticatedRequest`] holds, as plain sequences.
pub struct RequestView {
    pub method: Seq<char>,
    pub url: Seq<char>,
    pub token: Seq<char>,
    pub query: Seq<(Seq<char>, Seq<char>)>,
}

impl RequestView {
    /// The request for `path` under the API base, with no query parameter yet.
    pub open spec fn build(method: Seq<char>, path: Seq<char>, token: Seq<char>) -> RequestView {
        RequestView { method, url: API_BASE@ + path, token, query: Seq::empty() }
    }

    /// The same request with one more query parameter at the end.
    pub open spec fn query(self, key: Seq<char>, value: Seq<char>) -> RequestView {
        RequestView { query: self.query.push((key, value)), ..self }
    }

    /// The same request with `params` after its own query parameters.
    pub open spec fn queries(self, params: Seq<(Seq<char>, Seq<char>)>) -> RequestView {
        RequestView { query: self.query + params, ..self }
    }

    /// The value of the `Authorization` header.
    pub open spec fn authorization(self) -> Seq<char> {
        BEARER@ + self.token
    }
}

/// What each query parameter holds.
pub open spec fn param_texts(params: Seq<(String, String)>) -> Seq<(Seq<char>, Seq<char>)> {
    params.map_values(|param: (String, String)| (param.0@, param.1@))
}

/// A request against the catalog API that carries a bearer token.
///
/// The method, the URL and the token are fixed when the request is built;
/// query parameters can only be added at the end.
#[derive(Debug, PartialEq, Eq)]
pub struct AuthenticatedRequest {
    method: String,
    url: String,
    token: String,
    query: Vec<(String, String)>,
}

impl View for AuthenticatedRequest {
    type V = RequestView;

    closed spec fn view(&self) -> RequestView {
        RequestView {
            method: self.method@,
            url: self.url@,
            token: self.token@,
            query: param_texts(self.query@),
        }
    }
}

impl AuthenticatedRequest {
    /// Builds the request for `path` under the API base, authorized by `token`.
    pub fn build(method: &str, path: &str, token: &str) -> (request: AuthenticatedRequest)
        ensures
            request@ == RequestView::build(method@, path@, token@),
    {
        let request = AuthenticatedRequest {
            method: String::from_str(method),
            url: concat(API_BASE, path),
            token: String::from_str(token),
            query: Vec::new(),
        };
        assert(param_texts(request.query@) =~= Seq::empty());
        request
    }

    /// Adds the query parameter `key=value` after those already there.
    pub fn query(self, key: &str, value: &str) -> (request: AuthenticatedRequest)
        ensures
            request@ == self@.query(key@, value@),
    {
        let mut request = self;
        let ghost before = request.query@;
        request.query.push((String::from_str(key), String::from_str(value)));
        assert(param_texts(request.query@) =~= param_texts(before).push((key@, value@)));
        request
    }

    /// The HTTP method.
    pub fn method(&self) -> (method: &str)
        ensures
            method@ == self@.method,
    {
        self.method.as_str()
    }

    /// The full URL, without the query parameters.
    pub fn url(&self) -> (url: &str)
        ensures
            url@ == self@.url,
    {
        self.url.as_str()
    }

    /// The bearer token.
    pub fn token(&self) -> (token: &str)
        ensures
            token@ == self@.token,
    {
        self.token.as_str()
    }

    /// The value of the [`AUTHORIZATION`] header: the bearer scheme, then the
    /// token.
    pub fn authorization(&self) -> (header: String)
        ensures
            header@ == self@.authorization(),
    {
        concat(BEARER, self.token.as_str())
    }

    /// The query parameters, in the order in which they were added.
    pub fn params(&self) -> (params: &Vec<(String, String)>)
        ensures
            param_texts(params@) == self@.query,
    {
        &self.query
    }
}

impl Clone for AuthenticatedRequest {
    /// A second request that holds the same as this one.
    fn clone(&self) -> (request: AuthenticatedRequest)
        ensures
            request@ == self@,
    {
        let mut query: Vec<(String, String)> = Vec::new();
        let mut i: usize = 0;
        while i < self.query.len()
            invariant
                i <= self.query.len(),
                param_texts(query@) == param_texts(self.query@.take(i as int)),
            decreases self.query.len() - i,
        {
            let ghost before = query@;
            query.push((self.query[i].0.clone(), self.query[i].1.clone()));
            assert(param_texts(query@) =~= param_texts(before).push(
                (self.query@[i as int].0@, self.query@[i as int].1@),
            ));
            assert(param_texts(self.query@.take(i + 1)) =~= param_texts(
                self.query@.take(i as int),
            ).push((self.query@[i as int].0@, self.query@[i as int].1@)));
            i = i + 1;
        }
        assert(self.query@.take(i as int) =~= self.query@);
        AuthenticatedRequest {
            method: self.method.clone(),
            url: self.url.clone(),
            token: self.token.clone(),
            query,
        }
    }
}

} // verus!
