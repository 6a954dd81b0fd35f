//! A timeout that is restarted whenever the client shows signs of life.
use std::time::SystemTime;
use vstd::prelude::*;

use crate::external::nanos_since;

verus! {

/// A timeout of `value` whole seconds, counted from `begin`.
pub struct TimeOut {
    /// The length of the timeout in seconds.
    pub value: u64,
    pub begin: SystemTime,
}

/// Whether a timeout of `value` seconds has passed after `elapsed`
/// nanoseconds; an unknown elapsed time (the clock went back) never expires.
pub open spec fn is_expired(value: u64, elapsed_nanos: Option<u128>) -> bool {
    match elapsed_nanos {
        Some(n) => n > value * 1_000_000_000,
        None => false,
    }
}

impl TimeOut {
    /// A timeout of `timeout_s` seconds from the clock reading `now`.
    pub fn new(timeout_s: u64, now: SystemTime) -> (res: TimeOut)
        ensures
            res.value == timeout_s,
            res.begin == now,
    {
        TimeOut { value: timeout_s, begin: now }
    }

    /// Counts the timeout again from the clock reading `now`.
    pub fn refresh(&mut self, now: SystemTime)
        ensures
            final(self).value == old(self).value,
            final(self).begin == now,
    {
        self.begin = now;
    }

    /// Changes the length; the start stays.
    pub fn set_value_in_s(&mut self, timeout_s: u64)
        ensures
            final(self).value == timeout_s,
            final(self).begin == old(self).begin,
    {
        self.value = timeout_s;
    }

    /// Whether the timeout has passed after `elapsed_nanos` nanoseconds.
    pub fn expired(&self, elapsed_nanos: Option<u128>) -> (res: bool)
        ensures
            res == is_expired(self.value, elapsed_nanos),
    {
        match elapsed_nanos {
            Some(n) => n > (self.value as u128) * 1_000_000_000,
            None => false,
        }
    }

    /// Whether the timeout has passed by the clock now.
    pub fn check(&mut self) -> (res: bool)
        ensures
            *final(self) == *old(self),
    {
        let elapsed = nanos_since(&self.begin);
        self.expired(elapsed)
    }
}

} // verus!
