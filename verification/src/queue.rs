//! The payment queue and the server that keeps it.

use vstd::prelude::*;

verus! {

/// The queue that payments are taken from.
pub const PAYMENT_QUEUE: &'static str = "payment_queue";

/// The server of the queue, where no other is configured.
pub const DEFAULT_REDIS_URL: &'static str = "redis://localhost:6379";

/// The server of the queue: the configured one, if there is one.
pub fn redis_url(configured: Option<String>) -> (url: String)
    ensures
        url@ == match configured {
            Some(configured) => configured@,
            None => DEFAULT_REDIS_URL@,
        },
{
    match configured {
        Some(url) => url,
        None => DEFAULT_REDIS_URL.to_owned(),
    }
}

} // verus!
