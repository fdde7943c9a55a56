//! Loading a registry value that must be present.
//!
//! `should_load` shortens an optional lookup to a result with a precise
//! error, for callers that treat a missing key as a failure of its own kind.

use vstd::prelude::*;
use vstd::hash_map::StringHashMap;
use vstd::string::StrSliceExecFns;
use vstd::string::StringSliceAdditionalSpecFns;

verus! {

/// Why a required lookup failed.
#[derive(Debug, PartialEq, Eq)]
pub enum Error {
    /// The key is not present in the map.
    KeyNotPresentInMap { key: Vec<u8> },
    /// The key is present but holds no value.
    EmptyValue { key: Vec<u8> },
}

/// A keyed lookup that reports a missing key as an error.
pub trait MapShouldLoad<K, T, E>: Sized {
    /// Whether `key` is present.
    spec fn sl_key_present(&self, key: K) -> bool;

    /// The value stored at `key`, when present.
    spec fn sl_value(&self, key: K) -> T;

    /// What the reported error says about the missing `key`.
    spec fn sl_error_names(&self, key: K, e: E) -> bool;

    /// The value at `key`, or an error naming the missing key.
    fn should_load(&self, key: K) -> (r: Result<T, E>)
        ensures
            match r {
                Ok(v) => self.sl_key_present(key) && v == self.sl_value(key),
                Err(e) => !self.sl_key_present(key) && self.sl_error_names(key, e),
            },
    ;
}

impl<'a> MapShouldLoad<&'a str, String, Error> for StringHashMap<String> {
    open spec fn sl_key_present(&self, key: &'a str) -> bool {
        self@.contains_key(key@)
    }

    open spec fn sl_value(&self, key: &'a str) -> String {
        self@[key@]
    }

    open spec fn sl_error_names(&self, key: &'a str, e: Error) -> bool {
        e matches Error::KeyNotPresentInMap { key: k } && k@ == key.spec_bytes()
    }

    fn should_load(&self, key: &'a str) -> (r: Result<String, Error>) {
        match self.get(key) {
            Some(v) => Ok(v.clone()),
            None => Err(Error::KeyNotPresentInMap { key: key.as_bytes_vec() }),
        }
    }
}

impl<'a> MapShouldLoad<&'a str, u32, Error> for StringHashMap<u32> {
    open spec fn sl_key_present(&self, key: &'a str) -> bool {
        self@.contains_key(key@)
    }

    open spec fn sl_value(&self, key: &'a str) -> u32 {
        self@[key@]
    }

    open spec fn sl_error_names(&self, key: &'a str, e: Error) -> bool {
        e matches Error::KeyNotPresentInMap { key: k } && k@ == key.spec_bytes()
    }

    fn should_load(&self, key: &'a str) -> (r: Result<u32, Error>) {
        match self.get(key) {
            Some(v) => Ok(*v),
            None => Err(Error::KeyNotPresentInMap { key: key.as_bytes_vec() }),
        }
    }
}

} // verus!
