use crate::api::{LoadCached, WebApi};
use crate::error::Error;
use std::time::SystemTime;
use vstd::prelude::*;

verus! {

/// `std::time::SystemTime`: a point in time.  Nothing is claimed of it; it
/// is only carried.
#[verifier::external_type_specification]
#[verifier::external_body]
pub struct ExSystemTime(SystemTime);

/// A decoded value together with where it came from: `cached_at` holds the
/// time at which the cache stored it, or nothing where it was fetched just
/// now.  The time is for the caller to look at; it never invalidates a value.
#[derive(Debug, PartialEq, Eq)]
pub struct Cached<T> {
    pub data: T,
    pub cached_at: Option<SystemTime>,
}

impl<T> Cached<T> {
    /// A value that was fetched just now.
    pub fn fresh(data: T) -> (value: Cached<T>)
        ensures
            value == (Cached { data, cached_at: None }),
    {
        Cached { data, cached_at: None }
    }

    /// A value that the cache stored at `cached_at`.
    pub fn cached(data: T, cached_at: SystemTime) -> (value: Cached<T>)
        ensures
            value == (Cached { data, cached_at: Some(cached_at) }),
    {
        Cached { data, cached_at: Some(cached_at) }
    }

    /// Tells whether the value came from the cache.
    pub fn is_cached(&self) -> (cached: bool)
        ensures
            cached == self.cached_at is Some,
    {
        self.cached_at.is_some()
    }
}

/// What the cache store holds under one bucket and key: the bytes, and when
/// they were last modified.
#[derive(Debug, PartialEq, Eq)]
pub struct CacheEntry {
    pub bytes: Vec<u8>,
    pub modified: SystemTime,
}

/// Where the bytes of a cached load come from.
#[derive(Debug, PartialEq, Eq)]
pub enum CachedSource {
    /// From the cache: decode these bytes.  Nothing is sent.
    Stored(CacheEntry),
    /// From the service: send the request, decode the body, and store the
    /// body under the bucket and key.
    Remote(LoadCached),
}

/// Bytes to put into the cache store under a bucket and key.  The store may
/// fail to take them; that failure is not the caller's.
#[derive(Debug, PartialEq, Eq)]
pub struct CacheWrite {
    pub bucket: String,
    pub key: String,
    pub bytes: Vec<u8>,
}

/// The source of a cached load, given what the cache store reported.
pub open spec fn cached_source(call: LoadCached, lookup: Option<CacheEntry>) -> CachedSource {
    match lookup {
        Some(entry) => CachedSource::Stored(entry),
        None => CachedSource::Remote(call),
    }
}

/// The write that goes with a body fetched for `call`: exactly the bytes of
/// the body, under the bucket and key of the call.
pub open spec fn cache_write(call: LoadCached, body: Vec<u8>) -> CacheWrite {
    CacheWrite { bucket: call.bucket, key: call.key, bytes: body }
}

/// Cache-first loading.
impl WebApi {
    /// Decides where the bytes of a cached load come from.
    ///
    /// Where the cache store reported an entry, its bytes are the ones to
    /// decode, however old they are, and no request goes out.  Only where it
    /// reported none is the request of `call` to be sent.
    pub fn load_cached(call: LoadCached, lookup: Option<CacheEntry>) -> (source: CachedSource)
        ensures
            source == cached_source(call, lookup),
            lookup is Some ==> !(source is Remote),
    {
        match lookup {
            Some(entry) => CachedSource::Stored(entry),
            None => CachedSource::Remote(call),
        }
    }

    /// Completes a cached load from the cache: decodes the bytes of `entry`
    /// by `decode`, which gives the value or the text of its failure.
    ///
    /// The value is marked as cached at the time at which the entry was
    /// last modified.  Bytes that do not decode fail the load.
    pub fn load_stored<T, D: FnOnce(&Vec<u8>) -> Result<T, String>>(
        entry: CacheEntry,
        decode: D,
    ) -> (result: Result<Cached<T>, Error>)
        requires
            decode.requires((&entry.bytes,)),
        ensures
            match result {
                Ok(value) => decode.ensures((&entry.bytes,), Ok(value.data)) && value.cached_at
                    == Some(entry.modified),
                Err(err) => exists|text: String|
                    decode.ensures((&entry.bytes,), Err(text)) && err == Error::WebApiError(text),
            },
    {
        match decode(&entry.bytes) {
            Ok(data) => Ok(Cached::cached(data, entry.modified)),
            Err(text) => Err(Error::WebApiError(text)),
        }
    }

    /// Completes a cached load from the service: `body` is what came of
    /// sending the request of `call` and reading the response, the bytes or
    /// the failure, and `decode` gives the value that bytes hold or the text
    /// of its failure.
    ///
    /// A failure to send or to read is passed on unchanged; nothing is
    /// decoded and nothing written.  A value is marked as fresh and comes
    /// with the write of exactly the bytes that were decoded, under the
    /// bucket and key of `call`.  A body that does not decode fails the load
    /// and is not written.
    pub fn load_remote<T, D: FnOnce(&Vec<u8>) -> Result<T, String>>(
        call: LoadCached,
        body: Result<Vec<u8>, Error>,
        decode: D,
    ) -> (result: Result<(Cached<T>, CacheWrite), Error>)
        requires
            body is Ok ==> decode.requires((&body->Ok_0,)),
        ensures
            match body {
                Ok(bytes) => match result {
                    Ok((value, write)) => decode.ensures((&bytes,), Ok(value.data))
                        && value.cached_at is None && write == cache_write(call, bytes),
                    Err(err) => exists|text: String|
                        decode.ensures((&bytes,), Err(text)) && err == Error::WebApiError(text),
                },
                Err(err) => result == Err::<(Cached<T>, CacheWrite), Error>(err),
            },
    {
        let bytes = match body {
            Ok(bytes) => bytes,
            Err(err) => {
                return Err(err);
            },
        };
        match decode(&bytes) {
            Ok(data) => Ok(
                (Cached::fresh(data), CacheWrite { bucket: call.bucket, key: call.key, bytes }),
            ),
            Err(text) => Err(Error::WebApiError(text)),
        }
    }
}

/// What a cache store holds: bytes under a bucket and key.
pub type Store = Map<(Seq<char>, Seq<char>), Seq<u8>>;

/// The store after it took `write`.
pub open spec fn store_after(store: Store, write: CacheWrite) -> Store {
    store.insert((write.bucket@, write.key@), write.bytes@)
}

/// Tells whether `lookup` is what `store` reports for `bucket` and `key`:
/// the bytes it holds there, or nothing.
pub open spec fn reports(
    store: Store,
    bucket: Seq<char>,
    key: Seq<char>,
    lookup: Option<CacheEntry>,
) -> bool {
    if store.dom().contains((bucket, key)) {
        lookup is Some && lookup->0.bytes@ == store[(bucket, key)]
    } else {
        lookup is None
    }
}

/// What a cached load wrote on a miss is what the next load of the same
/// bucket and key decodes, without a request: if the store took the write
/// that came with the decoded body, then whatever it reports next for that
/// bucket and key makes the source of the next load the store, with exactly
/// the bytes of that body.
pub proof fn lemma_written_body_is_served_next(
    call: LoadCached,
    body: Vec<u8>,
    store: Store,
    next_call: LoadCached,
    next_lookup: Option<CacheEntry>,
)
    requires
        next_call.bucket@ == call.bucket@,
        next_call.key@ == call.key@,
        reports(
            store_after(store, cache_write(call, body)),
            next_call.bucket@,
            next_call.key@,
            next_lookup,
        ),
    ensures
        cached_source(next_call, next_lookup) is Stored,
        cached_source(next_call, next_lookup)->Stored_0.bytes@ == body@,
{
}

} // verus!
