use crate::error::Error;
use crate::request::{AuthenticatedRequest, RequestView};
use crate::retry::{is_error_status, status_text, Response};
use vstd::prelude::*;

verus! {

/// A request to send once, retrying while rate limited, whose JSON body is
/// then decoded.
#[derive(Debug, PartialEq, Eq)]
pub struct Load {
    pub request: AuthenticatedRequest,
}

/// What a [`LoadCached`] holds, as plain sequences.
pub struct LoadCachedView {
    pub request: RequestView,
    pub bucket: Seq<char>,
    pub key: Seq<char>,
}

/// A request whose answer is cached under a bucket and key: what the cache
/// holds there is decoded; only if it holds nothing, the request is sent as
/// for a [`Load`] and the body stored there.
#[derive(Debug, PartialEq, Eq)]
pub struct LoadCached {
    pub request: AuthenticatedRequest,
    pub bucket: String,
    pub key: String,
}

/// A request to send once per page, with `limit` and `offset` added, whose
/// pages are collected into one result set.
#[derive(Debug, PartialEq, Eq)]
pub struct LoadAllPages {
    pub request: AuthenticatedRequest,
}

/// A request to send with the body [`EMPTY_JSON`], whose response body is
/// thrown away.
#[derive(Debug, PartialEq, Eq)]
pub struct SendEmptyJson {
    pub request: AuthenticatedRequest,
}

/// The body that goes out with a [`SendEmptyJson`].
pub const EMPTY_JSON: &'static str = "{}";

impl View for Load {
    type V = RequestView;

    open spec fn view(&self) -> RequestView {
        self.request@
    }
}

impl View for LoadCached {
    type V = LoadCachedView;

    open spec fn view(&self) -> LoadCachedView {
        LoadCachedView { request: self.request@, bucket: self.bucket@, key: self.key@ }
    }
}

impl View for LoadAllPages {
    type V = RequestView;

    open spec fn view(&self) -> RequestView {
        self.request@
    }
}

impl View for SendEmptyJson {
    type V = RequestView;

    open spec fn view(&self) -> RequestView {
        self.request@
    }
}

/// The core of a web API client, bound to what the credential source
/// answered when it was asked for a bearer token: the token, or the text of
/// its failure.
///
/// Every call that the client plans carries that token; where there is none,
/// every call fails with the credential source's text.
#[derive(Debug)]
pub struct WebApi {
    credential: Result<String, String>,
}

impl WebApi {
    /// What the credential source answered.
    pub closed spec fn credential(&self) -> Result<Seq<char>, Seq<char>> {
        match self.credential {
            Ok(token) => Ok(token@),
            Err(text) => Err(text@),
        }
    }

    /// The bearer token, where the credential source supplied one.
    pub open spec fn token(&self) -> Seq<char> {
        self.credential()->Ok_0
    }

    /// Tells whether `result` succeeds exactly if there is a token, and
    /// otherwise fails with the credential source's text.
    pub open spec fn yields<T>(&self, result: Result<T, Error>) -> bool {
        match self.credential() {
            Ok(_) => result is Ok,
            Err(text) => result is Err && result->Err_0.message() == text,
        }
    }

    /// The request that this client builds for `method` and `path`.
    pub open spec fn plain(&self, method: Seq<char>, path: Seq<char>) -> RequestView {
        RequestView::build(method, path, self.token())
    }

    /// A client bound to the credential source's answer.
    pub fn new(credential: Result<String, String>) -> (api: WebApi)
        ensures
            api.credential() == match credential {
                Ok(token) => Ok::<Seq<char>, Seq<char>>(token@),
                Err(text) => Err::<Seq<char>, Seq<char>>(text@),
            },
    {
        WebApi { credential }
    }

    /// The bearer token, or the credential source's failure as an error.
    pub fn access_token(&self) -> (result: Result<String, Error>)
        ensures
            self.yields(result),
            result is Ok ==> result->Ok_0@ == self.token(),
    {
        match &self.credential {
            Ok(token) => Ok(token.clone()),
            Err(text) => Err(Error::WebApiError(text.clone())),
        }
    }

    /// The authenticated request for `method` and `path`.
    pub fn request(&self, method: &str, path: &str) -> (result: Result<AuthenticatedRequest, Error>)
        ensures
            self.yields(result),
            result is Ok ==> result->Ok_0@ == self.plain(method@, path@),
    {
        match self.access_token() {
            Ok(token) => Ok(AuthenticatedRequest::build(method, path, token.as_str())),
            Err(err) => Err(err),
        }
    }

    /// Completes a single load: `body` is what came of sending the request
    /// and reading the response, the bytes or the failure, and `decode`
    /// gives the value that bytes hold or the text of its failure.
    ///
    /// A failure to send or to read is passed on unchanged, and nothing is
    /// decoded.  A body that does not decode fails the load with the text of
    /// the decoder.
    pub fn load<T, D: FnOnce(&Vec<u8>) -> Result<T, String>>(
        body: Result<Vec<u8>, Error>,
        decode: D,
    ) -> (result: Result<T, Error>)
        requires
            body is Ok ==> decode.requires((&body->Ok_0,)),
        ensures
            match body {
                Ok(bytes) => match result {
                    Ok(value) => decode.ensures((&bytes,), Ok(value)),
                    Err(err) => exists|text: String|
                        decode.ensures((&bytes,), Err(text)) && err == Error::WebApiError(text),
                },
                Err(err) => result == Err::<T, Error>(err),
            },
    {
        match body {
            Ok(bytes) => match decode(&bytes) {
                Ok(value) => Ok(value),
                Err(text) => Err(Error::WebApiError(text)),
            },
            Err(err) => Err(err),
        }
    }

    /// Completes a [`SendEmptyJson`]: whatever body the response held is
    /// thrown away.  Only a failure surfaces: that of the attempt, unchanged,
    /// or a status that reports one.
    pub fn send_empty_json<B>(outcome: Result<Response<B>, Error>) -> (result: Result<(), Error>)
        ensures
            match outcome {
                Ok(response) => if is_error_status(response.status) {
                    result is Err && result->Err_0.message() == status_text(response.status)
                } else {
                    result == Ok::<(), Error>(())
                },
                Err(err) => result == Err::<(), Error>(err),
            },
    {
        match outcome {
            Ok(response) => {
                if response.is_error() {
                    Err(response.status_error())
                } else {
                    Ok(())
                }
            },
            Err(err) => Err(err),
        }
    }

    /// The authenticated `GET` request for `path`.
    pub fn get(&self, path: &str) -> (result: Result<AuthenticatedRequest, Error>)
        ensures
            self.yields(result),
            result is Ok ==> result->Ok_0@ == self.plain("GET"@, path@),
    {
        self.request("GET", path)
    }

    /// The authenticated `PUT` request for `path`.
    pub fn put(&self, path: &str) -> (result: Result<AuthenticatedRequest, Error>)
        ensures
            self.yields(result),
            result is Ok ==> result->Ok_0@ == self.plain("PUT"@, path@),
    {
        self.request("PUT", path)
    }

    /// The authenticated `DELETE` request for `path`.
    pub fn delete(&self, path: &str) -> (result: Result<AuthenticatedRequest, Error>)
        ensures
            self.yields(result),
            result is Ok ==> result->Ok_0@ == self.plain("DELETE"@, path@),
    {
        self.request("DELETE", path)
    }
}

} // verus!
