use std::collections::HashMap;
use std::time::{Duration, SystemTime};
use webapi::cache::{CacheEntry, CacheWrite, Cached, CachedSource};
use webapi::request::AuthenticatedRequest;
use webapi::{Error, LoadCached, WebApi};

fn artist_call() -> LoadCached {
    LoadCached {
        request: AuthenticatedRequest::build("GET", "v1/artists/42", "tok"),
        bucket: "artist".to_string(),
        key: "42".to_string(),
    }
}

fn moment(secs: u64) -> SystemTime {
    SystemTime::UNIX_EPOCH + Duration::from_secs(secs)
}

#[test]
fn cache_hit_never_asks_for_the_network() {
    let stale = CacheEntry { bytes: b"not even json".to_vec(), modified: moment(1) };
    let source = WebApi::load_cached(artist_call(), Some(stale));
    assert_eq!(
        source,
        CachedSource::Stored(CacheEntry { bytes: b"not even json".to_vec(), modified: moment(1) })
    );
    let empty = CacheEntry { bytes: Vec::new(), modified: moment(0) };
    let source = WebApi::load_cached(artist_call(), Some(empty));
    assert!(matches!(source, CachedSource::Stored(_)));
}

#[test]
fn cache_miss_asks_for_the_request_as_it_was() {
    let source = WebApi::load_cached(artist_call(), None);
    assert_eq!(source, CachedSource::Remote(artist_call()));
}

fn number(bytes: &Vec<u8>) -> Result<u32, String> {
    std::str::from_utf8(bytes)
        .map_err(|err| err.to_string())?
        .trim()
        .parse()
        .map_err(|_| format!("not a number: {:?}", bytes))
}

#[test]
fn stored_value_carries_the_time_of_the_entry() {
    let entry = CacheEntry { bytes: b"7".to_vec(), modified: moment(1_600_000_000) };
    let value = WebApi::load_stored(entry, number);
    assert_eq!(value, Ok(Cached { data: 7, cached_at: Some(moment(1_600_000_000)) }));
    assert!(value.unwrap().is_cached());
}

#[test]
fn stored_bytes_that_do_not_decode_fail_the_load() {
    let entry = CacheEntry { bytes: b"oops".to_vec(), modified: moment(5) };
    assert_eq!(
        WebApi::load_stored(entry, number),
        Err(Error::WebApiError("not a number: [111, 111, 112, 115]".to_string()))
    );
}

#[test]
fn remote_value_is_fresh_and_writes_the_exact_body() {
    let body = b" 42  ".to_vec();
    let (value, write) = WebApi::load_remote(artist_call(), Ok(body.clone()), number).unwrap();
    assert_eq!(value, Cached { data: 42, cached_at: None });
    assert!(!value.is_cached());
    assert_eq!(
        write,
        CacheWrite { bucket: "artist".to_string(), key: "42".to_string(), bytes: body }
    );
}

#[test]
fn remote_body_is_decoded_once_and_as_it_came() {
    let seen = std::cell::RefCell::new(Vec::new());
    let result = WebApi::load_remote(artist_call(), Ok(b"{\"id\":1}".to_vec()), |bytes: &Vec<u8>| {
        seen.borrow_mut().push(bytes.clone());
        Ok::<usize, String>(bytes.len())
    });
    let (value, write) = result.unwrap();
    assert_eq!(value.data, 8);
    assert_eq!(seen.into_inner(), vec![write.bytes]);
}

#[test]
fn remote_body_that_does_not_decode_is_not_written() {
    let result = WebApi::load_remote(artist_call(), Ok(b"{}".to_vec()), number);
    assert_eq!(result, Err(Error::WebApiError("not a number: [123, 125]".to_string())));
}

#[test]
fn remote_failure_is_passed_on_and_nothing_is_decoded_or_written() {
    let decoded = std::cell::Cell::new(false);
    let result = WebApi::load_remote(
        artist_call(),
        Err(Error::WebApiError("connection refused".to_string())),
        |_bytes: &Vec<u8>| {
            decoded.set(true);
            Ok::<u32, String>(0)
        },
    );
    assert_eq!(result, Err(Error::WebApiError("connection refused".to_string())));
    assert!(!decoded.get());
}

#[test]
fn written_body_is_served_by_the_next_load_without_a_request() {
    let mut store: HashMap<(String, String), Vec<u8>> = HashMap::new();
    let mut requests_sent = 0;
    let body = b"123".to_vec();
    for round in 0..2 {
        let lookup = store
            .get(&("album".to_string(), "9".to_string()))
            .map(|bytes| CacheEntry { bytes: bytes.clone(), modified: moment(10) });
        let call = WebApi::new(Ok("tok".to_string())).get_album("9").unwrap();
        match WebApi::load_cached(call, lookup) {
            CachedSource::Stored(entry) => {
                assert_eq!(round, 1);
                assert_eq!(entry.bytes, body);
                let value = WebApi::load_stored(entry, number).unwrap();
                assert_eq!(value, Cached { data: 123, cached_at: Some(moment(10)) });
            }
            CachedSource::Remote(call) => {
                assert_eq!(round, 0);
                requests_sent += 1;
                let (value, write) = WebApi::load_remote(call, Ok(body.clone()), number).unwrap();
                assert_eq!(value, Cached { data: 123, cached_at: None });
                store.insert((write.bucket, write.key), write.bytes);
            }
        }
    }
    assert_eq!(requests_sent, 1);
}

#[test]
fn cached_constructors_record_the_origin() {
    assert_eq!(Cached::fresh(1u8), Cached { data: 1u8, cached_at: None });
    assert_eq!(Cached::cached(1u8, moment(3)), Cached { data: 1u8, cached_at: Some(moment(3)) });
}
