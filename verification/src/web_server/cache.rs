//! The server's file cache: file paths mapped to file contents, shared between the
//! worker threads that read it and the cache threads that fill it.
use vstd::prelude::*;

use concurrent_hashmap::ConcHashMap;

verus! {

/// The concurrent map of `concurrent_hashmap`, known to proofs only by name.
#[verifier::external_type_specification]
#[verifier::external_body]
#[verifier::reject_recursive_types(K)]
#[verifier::reject_recursive_types(V)]
#[verifier::reject_recursive_types(H)]
pub struct ExConcHashMap<K: Send + Sync, V: Send + Sync, H>(ConcHashMap<K, V, H>);

/// A cache entry: the contents of a file.
#[derive(Clone, Debug)]
pub struct Cache {
    pub data: Vec<u8>,
}

/// `ConcHashMap::find` for `key`, handing out a copy of the bytes found. The map is
/// shared with other threads that may change it at any time, so nothing is stated
/// of the result.
#[verifier::external_body]
pub(crate) fn cache_find(cache: &ConcHashMap<String, Cache>, key: &String) -> Option<Vec<u8>> {
    match cache.find(key) {
        Some(entry) => Some(entry.get().data.clone()),
        None => None,
    }
}

/// `ConcHashMap::insert` of `key` and `entry`; the previous entry is discarded. The
/// map is shared with other threads, so nothing is stated of its contents after.
#[verifier::external_body]
fn cache_insert(cache: &ConcHashMap<String, Cache>, key: String, entry: Cache) {
    cache.insert(key, entry);
}

/// Carries out a caching request: inserts the contents `request.1` for the file at
/// `request.0`, replacing what the cache held for it.
pub fn store(cache: &ConcHashMap<String, Cache>, request: (String, Cache)) {
    let (path, entry) = request;
    cache_insert(cache, path, entry);
}

} // verus!
