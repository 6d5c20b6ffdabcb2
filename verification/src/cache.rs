//! The keys and lifetimes under which the key/value cache holds its entries.

use crate::text::join_text;
use vstd::prelude::*;
use vstd::string::StringExecFns;

verus! {

/// How long a cached user lives, in seconds.
pub const USER_CACHE_TTL: u64 = 300;

/// How long a cached token validation lives, in seconds.
pub const JWT_CACHE_TTL: u64 = 3600;

/// How long a cached diary entry lives, in seconds.
pub const DIARY_CACHE_TTL: u64 = 60;

/// How long the cached node list lives, in seconds.
pub const NODES_CACHE_TTL: u64 = 600;

/// The key of the cached node list.
pub const NODES_KEY: &'static str = "robot:nodes";

/// The naming scheme of the cache.
pub struct CacheService;

impl CacheService {
    /// The key of a cached user.
    pub fn user_key(user_id: &str) -> (key: String)
        ensures
            key@ == "user:"@ + user_id@,
    {
        join_text("user:", user_id)
    }

    /// The key of a cached token validation.
    pub fn jwt_key(token_hash: &str) -> (key: String)
        ensures
            key@ == "jwt:"@ + token_hash@,
    {
        join_text("jwt:", token_hash)
    }

    /// The key of the set of token hashes cached for a user.
    pub fn user_jwts_key(user_id: &str) -> (key: String)
        ensures
            key@ == "user_jwts:"@ + user_id@,
    {
        join_text("user_jwts:", user_id)
    }

    /// The key of a cached diary entry.
    pub fn diary_key(diary_id: &str) -> (key: String)
        ensures
            key@ == "diary:"@ + diary_id@,
    {
        join_text("diary:", diary_id)
    }

    /// The pattern that matches the keys of all cached diary entries of a user.
    pub fn user_diaries_pattern(user_id: &str) -> (pattern: String)
        ensures
            pattern@ == "diary:user:"@ + user_id@ + ":*"@,
    {
        let mut pattern = join_text("diary:user:", user_id);
        pattern.append(":*");
        pattern
    }

    /// The key of the cached node list.
    pub fn nodes_key() -> (key: &'static str)
        ensures
            key@ == "robot:nodes"@,
    {
        NODES_KEY
    }
}

} // verus!
