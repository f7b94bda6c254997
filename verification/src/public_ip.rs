//! Public IP lookup support: the cache and the private-address test.
//!
//! The lookup itself is an outside, best-effort HTTP call owned by the
//! collaborator boundary; the engine only ever consults an injectable,
//! time-to-live-bounded cache so a miss never stalls a tick. The
//! collaborator performs the fetch in the background and stores the answer
//! with `set`.

use vstd::prelude::*;
use crate::interface::IpAddress;

verus! {

/// Cache time-to-live in milliseconds: five minutes.
pub const CACHE_DURATION_MILLIS: u64 = 300000;

/// A single-slot, time-to-live-bounded cache for the host's public IP.
#[derive(Debug, Clone, PartialEq, Eq)]
pub struct PublicIpCache {
    /// The cached address text, if any was ever stored.
    pub ip: Option<String>,
    /// When the address was stored, in monotonic milliseconds.
    pub last_updated: Option<u64>,
    /// How long a stored address stays valid, in milliseconds.
    pub cache_duration: u64,
}

impl PublicIpCache {
    /// The cache holds a value stored less than its time-to-live before
    /// `now`.
    pub open spec fn valid_at(&self, now: u64) -> bool {
        match self.last_updated {
            Some(t) => now < t + self.cache_duration,
            None => false,
        }
    }

    /// An empty cache with the default five-minute time-to-live.
    pub fn new() -> (result: Self)
        ensures
            result.ip is None,
            result.last_updated is None,
            result.cache_duration == CACHE_DURATION_MILLIS,
    {
        PublicIpCache { ip: None, last_updated: None, cache_duration: CACHE_DURATION_MILLIS }
    }

    /// Whether the cached value is still within its time-to-live at `now`.
    pub fn is_valid(&self, now: u64) -> (result: bool)
        ensures
            result == self.valid_at(now),
    {
        match self.last_updated {
            Some(t) => {
                if now >= t {
                    now - t < self.cache_duration
                } else {
                    true
                }
            },
            None => false,
        }
    }

    /// The cached address while it is valid, and nothing once it expired.
    pub fn get(&self, now: u64) -> (result: Option<String>)
        ensures
            self.valid_at(now) ==> result == self.ip,
            !self.valid_at(now) ==> result is None,
    {
        if self.is_valid(now) {
            match &self.ip {
                Some(ip) => Some(ip.clone()),
                None => None,
            }
        } else {
            None
        }
    }

    /// Stores a freshly fetched address at `now`, restarting the
    /// time-to-live.
    pub fn set(&mut self, ip: String, now: u64)
        ensures
            final(self).ip == Some(ip),
            final(self).last_updated == Some(now),
            final(self).cache_duration == old(self).cache_duration,
    {
        self.ip = Some(ip);
        self.last_updated = Some(now);
    }
}

/// The cached public IP, if a valid one is at hand; nothing otherwise. A
/// miss is not fetched here: the collaborator refreshes the cache in the
/// background, so a tick is never stalled by the lookup.
pub fn get_public_ip(cache: &PublicIpCache, now: u64) -> (result: Option<String>)
    ensures
        cache.valid_at(now) ==> result == cache.ip,
        !cache.valid_at(now) ==> result is None,
{
    cache.get(now)
}

/// Forgets the cached address and its timestamp, forcing the next lookup to
/// miss.
pub fn invalidate_cache(cache: &mut PublicIpCache)
    ensures
        final(cache).ip is None,
        final(cache).last_updated is None,
        final(cache).cache_duration == old(cache).cache_duration,
{
    cache.ip = None;
    cache.last_updated = None;
}

/// A private or local address: the RFC 1918 ranges and loopback for IPv4;
/// loopback, unspecified, unique-local and link-local for IPv6.
pub open spec fn spec_is_private_ip(ip: IpAddress) -> bool {
    match ip {
        IpAddress::V4(a, b, _c, _d) => {
            ||| a == 10
            ||| (a == 172 && 16 <= b && b <= 31)
            ||| (a == 192 && b == 168)
            ||| a == 127
        },
        IpAddress::V6(segments) => {
            ||| (segments[0] == 0 && segments[1] == 0 && segments[2] == 0 && segments[3] == 0
                && segments[4] == 0 && segments[5] == 0 && segments[6] == 0 && segments[7] == 1)
            ||| (segments[0] == 0 && segments[1] == 0 && segments[2] == 0 && segments[3] == 0
                && segments[4] == 0 && segments[5] == 0 && segments[6] == 0 && segments[7] == 0)
            ||| segments[0] & 0xfe00 == 0xfc00
            ||| segments[0] & 0xffc0 == 0xfe80
        },
    }
}

/// Whether an address is private or local rather than publicly routable.
pub fn is_private_ip(ip: &IpAddress) -> (result: bool)
    ensures
        result == spec_is_private_ip(*ip),
{
    match ip {
        IpAddress::V4(a, b, _c, _d) => {
            *a == 10 || (*a == 172 && 16 <= *b && *b <= 31) || (*a == 192 && *b == 168) || *a
                == 127
        },
        IpAddress::V6(segments) => {
            let head = segments[0];
            let loopback = segments[0] == 0 && segments[1] == 0 && segments[2] == 0
                && segments[3] == 0 && segments[4] == 0 && segments[5] == 0 && segments[6] == 0
                && segments[7] == 1;
            let unspecified = segments[0] == 0 && segments[1] == 0 && segments[2] == 0
                && segments[3] == 0 && segments[4] == 0 && segments[5] == 0 && segments[6] == 0
                && segments[7] == 0;
            loopback || unspecified || head & 0xfe00 == 0xfc00 || head & 0xffc0 == 0xfe80
        },
    }
}

} // verus!
