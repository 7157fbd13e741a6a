//! The recent-requests log: a bounded, newest-first view of what the
//! gateway served, for observability only.

use vstd::prelude::*;
use vstd::string::StrSliceExecFns;

use crate::text::{str_eq, str_starts_with, trim_of, trim_string};

verus! {

/// One served request.
#[derive(Debug)]
pub struct RecentRequestEntry {
    /// Unix timestamp in milliseconds.
    pub ts_ms: u64,
    /// Best-effort client address (usually from X-Forwarded-For behind a
    /// reverse proxy).
    pub client_addr: String,
    /// HTTP method (e.g. GET).
    pub method: String,
    /// Request path (no query string).
    pub path: String,
    /// HTTP status code returned by the gateway.
    pub status: u16,
    /// Convenience boolean: true when status < 400.
    pub ok: bool,
}

impl Clone for RecentRequestEntry {
    /// An exact copy.
    fn clone(&self) -> (r: Self)
        ensures
            r == *self,
    {
        RecentRequestEntry {
            ts_ms: self.ts_ms,
            client_addr: self.client_addr.clone(),
            method: self.method.clone(),
            path: self.path.clone(),
            status: self.status,
            ok: self.ok,
        }
    }
}

/// How many entries the log keeps.
pub const RECENT_REQUEST_CAP: usize = 100;

/// A bounded first-in-first-out log of recent requests, oldest first.
pub struct RecentRequestLog {
    entries: Vec<RecentRequestEntry>,
}

impl View for RecentRequestLog {
    type V = Seq<RecentRequestEntry>;

    closed spec fn view(&self) -> Seq<RecentRequestEntry> {
        self.entries@
    }
}

/// What the log holds after recording `e` into `log`: the entry appended,
/// then the oldest entries dropped down to the cap.
pub open spec fn spec_recorded(
    log: Seq<RecentRequestEntry>,
    e: RecentRequestEntry,
) -> Seq<RecentRequestEntry> {
    let grown = log.push(e);
    if grown.len() <= RECENT_REQUEST_CAP {
        grown
    } else {
        grown.skip(grown.len() - RECENT_REQUEST_CAP)
    }
}

/// The entry count a limit parameter asks for: 15 when absent, clamped to
/// 1..=50.
pub open spec fn spec_effective_limit(limit: Option<usize>) -> usize {
    let l = match limit {
        Some(l) => l,
        None => 15usize,
    };
    if l < 1 {
        1usize
    } else if l > 50 {
        50usize
    } else {
        l
    }
}

impl RecentRequestLog {
    /// An empty log.
    pub fn new() -> (r: RecentRequestLog)
        ensures
            r@ == Seq::<RecentRequestEntry>::empty(),
    {
        let r = RecentRequestLog { entries: Vec::new() };
        proof {
            assert(r@ =~= Seq::<RecentRequestEntry>::empty());
        }
        r
    }

    /// Appends an entry, dropping the oldest ones beyond the cap.
    pub fn record(&mut self, e: RecentRequestEntry)
        ensures
            final(self)@ == spec_recorded(old(self)@, e),
    {
        let ghost grown = old(self)@.push(e);
        self.entries.push(e);
        while self.entries.len() > RECENT_REQUEST_CAP
            invariant
                self.entries@.len() <= grown.len(),
                self.entries@.len() >= RECENT_REQUEST_CAP || self.entries@.len() == grown.len(),
                self.entries@ == grown.skip(grown.len() - self.entries@.len()),
            decreases self.entries@.len(),
        {
            self.entries.remove(0);
            proof {
                assert(self.entries@ =~= grown.skip(grown.len() - self.entries@.len()));
            }
        }
        proof {
            if grown.len() <= RECENT_REQUEST_CAP {
                assert(self.entries@ =~= grown);
            }
        }
    }

    /// Empties the log.
    pub fn clear(&mut self)
        ensures
            final(self)@ == Seq::<RecentRequestEntry>::empty(),
    {
        self.entries.clear();
        proof {
            assert(self@ =~= Seq::<RecentRequestEntry>::empty());
        }
    }

    /// The newest entries, newest first: at most the limit the query asks
    /// for.
    pub fn recent(&self, query: &RecentRequestsQuery) -> (r: Vec<RecentRequestEntry>)
        ensures
            r@.len() == vstd::math::min(
                spec_effective_limit(query.limit) as int,
                self@.len() as int,
            ),
            forall|i: int| 0 <= i < r@.len() ==> r@[i] == self@[self@.len() - 1 - i],
    {
        let mut l: usize = match query.limit {
            Some(l) => l,
            None => 15,
        };
        if l < 1 {
            l = 1;
        }
        if l > 50 {
            l = 50;
        }
        let k = if l < self.entries.len() {
            l
        } else {
            self.entries.len()
        };
        let mut r: Vec<RecentRequestEntry> = Vec::new();
        for i in 0..k
            invariant
                k <= self.entries@.len(),
                r@.len() == i,
                forall|j: int| 0 <= j < i ==> r@[j] == self.entries@[self.entries@.len() - 1 - j],
        {
            r.push(self.entries[self.entries.len() - 1 - i].clone());
        }
        r
    }
}

/// The query parameters of the recent-requests listing.
#[derive(Debug)]
pub struct RecentRequestsQuery {
    /// Maximum number of entries returned (default 15, at most 50).
    pub limit: Option<usize>,
}

/// Whether a path belongs in the log: polling and documentation endpoints
/// are kept out.
pub open spec fn spec_should_log_path(path: Seq<char>) -> bool {
    !(path == "/health"@ || path == "/recent-requests"@ || ("/swagger-ui"@.len() <= path.len()
        && path.subrange(0, "/swagger-ui"@.len() as int) == "/swagger-ui"@) || (
    "/api-doc/"@.len() <= path.len() && path.subrange(0, "/api-doc/"@.len() as int)
        == "/api-doc/"@))
}

/// Decides whether a served path is recorded.
pub fn should_log_path(path: &str) -> (r: bool)
    ensures
        r == spec_should_log_path(path@),
{
    !(str_eq(path, "/health") || str_eq(path, "/recent-requests") || str_starts_with(
        path,
        "/swagger-ui",
    ) || str_starts_with(path, "/api-doc/"))
}

/// The part of a header value before its first comma (the whole value
/// when it has none).
pub open spec fn spec_first_segment(s: Seq<char>) -> Seq<char> {
    match s.index_of_first(',') {
        Some(i) => s.take(i),
        None => s,
    }
}

/// Cuts a forwarded-for list down to its first element.
fn first_segment(s: &str) -> (r: String)
    ensures
        r@ == spec_first_segment(s@),
{
    let n = s.unicode_len();
    for i in 0..n
        invariant
            n == s@.len(),
            forall|j: int| 0 <= j < i ==> s@[j] != ',',
    {
        if s.get_char(i) == ',' {
            proof {
                s@.index_of_first_ensures(',');
                let found = s@.index_of_first(',');
                assert(found matches Some(idx) && idx == i as int);
            }
            return s.substring_char(0, i).to_owned();
        }
    }
    proof {
        s@.index_of_first_ensures(',');
        assert(s@.index_of_first(',') is None);
    }
    s.to_owned()
}

/// What the best-effort client address is: the trimmed first entry of
/// X-Forwarded-For when non-empty, else the trimmed X-Real-IP when
/// non-empty, else the socket address, else "unknown".
pub open spec fn spec_client_addr(
    xff: Option<String>,
    xreal: Option<String>,
    connect: Option<String>,
) -> Seq<char> {
    if xff matches Some(v) && trim_of(spec_first_segment(v@)).len() > 0 {
        trim_of(spec_first_segment(xff->Some_0@))
    } else if xreal matches Some(v) && trim_of(v@).len() > 0 {
        trim_of(xreal->Some_0@)
    } else if connect matches Some(c) {
        connect->Some_0@
    } else {
        "unknown"@
    }
}

/// Picks the best-effort client address from the proxy headers and the
/// socket address.
pub fn extract_client_addr(
    xff: Option<String>,
    xreal: Option<String>,
    connect: Option<String>,
) -> (r: String)
    ensures
        r@ == spec_client_addr(xff, xreal, connect),
{
    match &xff {
        Some(v) => {
            let head = first_segment(v.as_str());
            let t = trim_string(head.as_str());
            if !t.as_str().is_empty() {
                return t;
            }
        },
        None => {},
    }
    match &xreal {
        Some(v) => {
            let t = trim_string(v.as_str());
            if !t.as_str().is_empty() {
                return t;
            }
        },
        None => {},
    }
    match connect {
        Some(c) => c,
        None => "unknown".to_owned(),
    }
}

} // verus!
