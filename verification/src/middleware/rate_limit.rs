//! Per-address rate limiting: within one window an address may make at most a
//! fixed number of requests; the count of each address lives in a cache whose
//! entries expire with the window.
use crate::handlers::STATUS_TOO_MANY_REQUESTS;
use vstd::prelude::*;

verus! {

pub const MAX_REQUESTS_PER_SEC: u32 = 10;

/// Text of the answer to a request over the limit.
pub const TOO_MANY_REQUESTS_TEXT: &'static str = "Too many requests";

/// The limit on requests per address and window.
pub struct RateLimiter {
    max_requests: u32,
}

/// The count an address has after one more request, if the request is
/// admitted.
pub open spec fn admitted_count(max_requests: u32, count: u32) -> Option<u32> {
    if count < max_requests {
        Some((count + 1) as u32)
    } else {
        None
    }
}

/// Starting from `count` in a window, how many of `n` further requests are
/// admitted, and the count the address has afterwards.
pub open spec fn run(max_requests: u32, count: u32, n: nat) -> (nat, u32)
    decreases n,
{
    if n == 0 {
        (0, count)
    } else {
        match admitted_count(max_requests, count) {
            Some(c) => {
                let (a, f) = run(max_requests, c, (n - 1) as nat);
                ((a + 1) as nat, f)
            },
            None => run(max_requests, count, (n - 1) as nat),
        }
    }
}

/// What the limiter decides for one request.
#[derive(Clone, Copy, Debug, PartialEq, Eq, Structural)]
pub enum RateDecision {
    /// The request's address could not be read: it is not limited and no
    /// count changes.
    Unlimited,
    /// Admitted; the address's count becomes this.
    Admit(u32),
    /// Over the limit: answered with "too many requests".
    Refuse,
}

/// The decision for a request whose address has made `count` requests in the
/// current window (`None` when the address could not be read).
pub open spec fn decision(max_requests: u32, count: Option<u32>) -> RateDecision {
    match count {
        None => RateDecision::Unlimited,
        Some(c) => match admitted_count(max_requests, c) {
            Some(n) => RateDecision::Admit(n),
            None => RateDecision::Refuse,
        },
    }
}

/// Requests in one window, each `true` when its address (always the same one)
/// could be read: how many pass (admitted or unlimited), how many of those
/// were counted, and the address's count afterwards.
pub open spec fn run_mixed(max_requests: u32, count: u32, reqs: Seq<bool>) -> (nat, nat, u32)
    decreases reqs.len(),
{
    if reqs.len() == 0 {
        (0, 0, count)
    } else {
        let rest = reqs.drop_last();
        let (passed, counted, c) = run_mixed(max_requests, count, rest);
        match decision(max_requests, if reqs.last() { Some(c) } else { None }) {
            RateDecision::Unlimited => ((passed + 1) as nat, counted, c),
            RateDecision::Admit(n) => ((passed + 1) as nat, (counted + 1) as nat, n),
            RateDecision::Refuse => (passed, counted, c),
        }
    }
}

/// How many requests of `reqs` have a readable address.
pub open spec fn readable(reqs: Seq<bool>) -> nat
    decreases reqs.len(),
{
    if reqs.len() == 0 {
        0
    } else {
        (readable(reqs.drop_last()) + if reqs.last() { 1nat } else { 0nat }) as nat
    }
}

impl RateLimiter {
    pub closed spec fn max(&self) -> u32 {
        self.max_requests
    }

    pub fn new(max_requests: u32) -> (r: RateLimiter)
        ensures
            r.max() == max_requests,
    {
        RateLimiter { max_requests }
    }

    pub fn max_requests(&self) -> (r: u32)
        ensures
            r == self.max(),
    {
        self.max_requests
    }

    /// Decides on one request from an address that has made `count` requests
    /// in the current window: below the limit it is admitted and the new count
    /// is returned; at the limit it is refused (`None`) and the count stays.
    pub fn check_request(&self, count: u32) -> (res: Option<u32>)
        ensures
            res == admitted_count(self.max(), count),
    {
        if count < self.max_requests {
            Some(count + 1)
        } else {
            None
        }
    }

    /// Decides on one request: `count` is what the address has made in the
    /// current window, or `None` when the address could not be read (such a
    /// request is not limited).
    pub fn decide(&self, count: Option<u32>) -> (res: RateDecision)
        ensures
            res == decision(self.max(), count),
    {
        match count {
            None => RateDecision::Unlimited,
            Some(c) => match self.check_request(c) {
                Some(n) => RateDecision::Admit(n),
                None => RateDecision::Refuse,
            },
        }
    }

    /// The status and text of the answer to a refused request.
    pub fn refusal(&self) -> (r: (u16, &'static str))
        ensures
            r.0 == STATUS_TOO_MANY_REQUESTS,
            r.1@ == TOO_MANY_REQUESTS_TEXT@,
    {
        (STATUS_TOO_MANY_REQUESTS, TOO_MANY_REQUESTS_TEXT)
    }
}

/// Within one window, of `n` requests from an address that has made `count`
/// (at most the limit) so far, exactly `min(n, limit - count)` are admitted,
/// and the address ends with `count` plus that many.
pub proof fn lemma_window_admits_up_to_limit(max_requests: u32, count: u32, n: nat)
    requires
        count <= max_requests,
    ensures
        run(max_requests, count, n).0 == (if n <= max_requests - count {
            n as int
        } else {
            max_requests - count
        }),
        run(max_requests, count, n).1 == count + run(max_requests, count, n).0,
    decreases n,
{
    if n > 0 {
        if count < max_requests {
            lemma_window_admits_up_to_limit(max_requests, (count + 1) as u32, (n - 1) as nat);
        } else {
            lemma_window_admits_up_to_limit(max_requests, count, (n - 1) as nat);
        }
    }
}


/// Within one window, of requests that start from `count` (at most the limit),
/// every request whose address cannot be read passes, and of those whose
/// address can be read exactly `min(readable, limit - count)` pass; the address
/// ends with `count` plus that many.
pub proof fn lemma_window_with_unreadable_addresses(max_requests: u32, count: u32, reqs: Seq<bool>)
    requires
        count <= max_requests,
    ensures
        run_mixed(max_requests, count, reqs).1 == (if readable(reqs) <= max_requests - count {
            readable(reqs) as int
        } else {
            max_requests - count
        }),
        run_mixed(max_requests, count, reqs).0 == run_mixed(max_requests, count, reqs).1 + (reqs.len() - readable(
            reqs,
        )),
        run_mixed(max_requests, count, reqs).2 == count + run_mixed(max_requests, count, reqs).1,
    decreases reqs.len(),
{
    if reqs.len() > 0 {
        lemma_window_with_unreadable_addresses(max_requests, count, reqs.drop_last());
    }
}

} // verus!
