//! The metadata mirror: a local read-only cache of a catalog database that
//! lives in remote object storage, refreshed through a conditional fetch
//! ("only if modified since the last successful fetch"). The refresh
//! decision — what the request carries, and what every possible reply does
//! to the mirror's state — is verified here; the network transfer, the
//! serialization of callers, and opening the database handle are the
//! surrounding binary's job.

use vstd::prelude::*;

use crate::text::{find_char, has_prefix, str_has_prefix};

verus! {

/// Source of read-only catalog connections backed by a plain local file:
/// no network, no freshness state, the same file on every call.
pub struct LocalDBConnector {
    dbpath: String,
}

impl LocalDBConnector {
    /// The configured database path.
    pub closed spec fn spec_dbpath(&self) -> Seq<char> {
        self.dbpath@
    }

    pub fn new(dbpath: &String) -> (c: Self)
        ensures
            c.spec_dbpath() == dbpath@,
    {
        LocalDBConnector { dbpath: dbpath.clone() }
    }

    /// The path every connection is opened from.
    pub fn dbpath(&self) -> (p: &String)
        ensures
            p@ == self.spec_dbpath(),
    {
        &self.dbpath
    }
}

/// A well-formed object-store location: the `s3://` scheme followed by a
/// non-empty bucket name.
pub open spec fn s3_uri_ok(uri: Seq<char>) -> bool {
    &&& str_has_prefix(uri, "s3://"@)
    &&& uri.len() > 5
    &&& uri[5] != '/'
}

/// `s` with every leading `/` removed.
pub open spec fn strip_leading_slashes(s: Seq<char>) -> Seq<char>
    decreases s.len(),
{
    if s.len() > 0 && s[0] == '/' {
        strip_leading_slashes(s.subrange(1, s.len() as int))
    } else {
        s
    }
}

/// Splits `s3://bucket/key` into the bucket (the host: everything up to
/// the first separator after the scheme) and the key (the remainder with
/// its leading separators removed, as a path is read). `None` exactly on a
/// location that does not carry the scheme and a non-empty bucket.
pub fn parse_s3_uri(dburi: &str) -> (r: Option<(String, String)>)
    ensures
        r is Some <==> s3_uri_ok(dburi@),
        match r {
            Some((bucket, key)) => {
                &&& 5 + bucket@.len() <= dburi@.len()
                &&& bucket@ == dburi@.subrange(5, 5 + bucket@.len() as int)
                &&& forall|k: int| 0 <= k < bucket@.len() ==> bucket@[k] != '/'
                &&& (5 + bucket@.len() == dburi@.len() || dburi@[5 + bucket@.len() as int] == '/')
                &&& key@ == strip_leading_slashes(
                    dburi@.subrange(5 + bucket@.len() as int, dburi@.len() as int),
                )
            },
            None => true,
        },
{
    proof {
        reveal_strlit("s3://");
    }
    if !has_prefix(dburi, "s3://") {
        return None;
    }
    let n = dburi.unicode_len();
    if n == 5 {
        return None;
    }
    if dburi.get_char(5) == '/' {
        return None;
    }
    let host_end: usize = match find_char(dburi, '/', 5) {
        Some(i) => i,
        None => n,
    };
    let bucket = String::from_str(dburi.substring_char(5, host_end));
    let mut j: usize = host_end;
    let mut scanning = true;
    while scanning && j < n
        invariant
            host_end <= j <= n,
            n == dburi@.len(),
            strip_leading_slashes(dburi@.subrange(host_end as int, n as int))
                == strip_leading_slashes(dburi@.subrange(j as int, n as int)),
            !scanning ==> j < n && dburi@[j as int] != '/',
        decreases n - j, (if scanning { 1int } else { 0int }),
    {
        if dburi.get_char(j) == '/' {
            proof {
                let cur = dburi@.subrange(j as int, n as int);
                assert(cur[0] == dburi@[j as int]);
                assert(cur.subrange(1, cur.len() as int) =~= dburi@.subrange(
                    j + 1 as int,
                    n as int,
                ));
            }
            j += 1;
        } else {
            scanning = false;
        }
    }
    let key = String::from_str(dburi.substring_char(j, n));
    proof {
        let tail = dburi@.subrange(j as int, n as int);
        if j < n {
            assert(tail[0] == dburi@[j as int]);
        }
        assert(strip_leading_slashes(tail) == tail);
    }
    Some((bucket, key))
}

/// Source of read-only catalog connections backed by an object in remote
/// storage, mirrored to a local cache file. `last_update` is the timestamp
/// of the last successful fetch; the whole value must be driven inside one
/// critical section per connection request (the surrounding binary holds
/// the lock), so that the fetch decision, the file write and the timestamp
/// update are one atomic unit.
pub struct S3DBConnector {
    pub s3_region: String,
    pub s3_bucket: String,
    pub s3_key: String,
    pub local_dbpath: String,
    pub last_update: Option<String>,
}

/// What the conditional fetch asks the remote store for.
pub struct FetchRequest {
    pub bucket: String,
    pub key: String,
    /// Fetch only if the object changed since this timestamp; `None` on
    /// the first ever fetch.
    pub if_modified_since: Option<String>,
}

/// The remote store's reply to a conditional fetch, as observed by the
/// surrounding binary. On `Success` it has already streamed the body to
/// the local cache path (write-to-temp-then-publish, so readers never see
/// a half-written file) and reports the timestamp the remote returned.
pub enum FetchResponse {
    /// The remote confirmed the cached copy is current; nothing was
    /// downloaded.
    NotModified,
    /// A fresh body was downloaded and published to the local cache file.
    Success { last_modified: Option<String> },
    /// The configured key does not exist: a fatal configuration error.
    NoSuchKey { key: String },
    /// Authentication was rejected: a fatal configuration error.
    CredentialsError { detail: String },
    /// An ambiguous transport error that cannot be told apart from a
    /// "not modified" reply.
    UnknownError { detail: String },
    /// Any other transport error: fatal.
    OtherError { detail: String },
}

/// Failure of a connection request against the mirror. Mirror-fatal:
/// surfaced to whatever initiated the request, never silently retried.
pub enum MirrorError {
    NoSuchKey { key: String },
    CredentialsError { detail: String },
    TransportError { detail: String },
}

impl MirrorError {
    /// The diagnostic line for this failure.
    pub open spec fn message_spec(self) -> Seq<char> {
        match self {
            MirrorError::NoSuchKey { key } => "No such key: "@ + key@,
            MirrorError::CredentialsError { detail } => "credential"@,
            MirrorError::TransportError { detail } => "Other error "@ + detail@,
        }
    }

    /// Renders the diagnostic line for this failure.
    pub fn message(&self) -> (r: String)
        ensures
            r@ == self.message_spec(),
    {
        match self {
            MirrorError::NoSuchKey { key } => String::from_str("No such key: ").concat(
                key.as_str(),
            ),
            MirrorError::CredentialsError { detail } => String::from_str("credential"),
            MirrorError::TransportError { detail } => String::from_str("Other error ").concat(
                detail.as_str(),
            ),
        }
    }
}

/// How one connection request ended after the refresh decision.
pub enum RefreshOutcome {
    /// The local cache file now holds a freshly downloaded body.
    Refreshed,
    /// The existing local cache file is used as-is.
    UsedExistingCache,
}

/// The mirror's state after a reply: only a successful download moves the
/// freshness timestamp, and it moves it to exactly the timestamp the
/// remote returned — together with the file write that the reply already
/// performed, keeping the two in step. Every other reply leaves the state
/// untouched.
pub open spec fn mirror_after(s: S3DBConnector, resp: FetchResponse) -> S3DBConnector {
    match resp {
        FetchResponse::Success { last_modified } => S3DBConnector {
            last_update: last_modified,
            ..s
        },
        _ => s,
    }
}

/// The outcome of a reply: a fresh body was published, or the existing
/// cache is used (also on an ambiguous transport error — a deliberate
/// availability-over-freshness choice: stale data is preferred to an
/// outage), or the request fails with a mirror-fatal error.
pub open spec fn mirror_result(resp: FetchResponse) -> Result<RefreshOutcome, MirrorError> {
    match resp {
        FetchResponse::NotModified => Ok(RefreshOutcome::UsedExistingCache),
        FetchResponse::Success { last_modified } => Ok(RefreshOutcome::Refreshed),
        FetchResponse::NoSuchKey { key } => Err(MirrorError::NoSuchKey { key }),
        FetchResponse::CredentialsError { detail } => Err(
            MirrorError::CredentialsError { detail },
        ),
        FetchResponse::UnknownError { detail } => Ok(RefreshOutcome::UsedExistingCache),
        FetchResponse::OtherError { detail } => Err(MirrorError::TransportError { detail }),
    }
}

impl S3DBConnector {
    /// A mirror for the object at `dburi` (an `s3://bucket/key` location)
    /// in `region`, cached at the fixed local path, with no fetch recorded
    /// yet. `None` exactly on a malformed location.
    pub fn new(dburi: &String, region: &String) -> (r: Option<S3DBConnector>)
        ensures
            r is Some <==> s3_uri_ok(dburi@),
            match r {
                Some(c) => {
                    &&& c.s3_region@ == region@
                    &&& c.local_dbpath@ == "/tmp/cached_metadata.db"@
                    &&& c.last_update is None
                    &&& 5 + c.s3_bucket@.len() <= dburi@.len()
                    &&& c.s3_bucket@ == dburi@.subrange(5, 5 + c.s3_bucket@.len() as int)
                    &&& forall|k: int| 0 <= k < c.s3_bucket@.len() ==> c.s3_bucket@[k] != '/'
                    &&& (5 + c.s3_bucket@.len() == dburi@.len() || dburi@[5 + c.s3_bucket@.len() as int]
                        == '/')
                    &&& c.s3_key@ == strip_leading_slashes(
                        dburi@.subrange(5 + c.s3_bucket@.len() as int, dburi@.len() as int),
                    )
                },
                None => true,
            },
    {
        match parse_s3_uri(dburi.as_str()) {
            None => None,
            Some((bucket, key)) => Some(
                S3DBConnector {
                    s3_bucket: bucket,
                    s3_key: key,
                    s3_region: region.clone(),
                    local_dbpath: String::from_str("/tmp/cached_metadata.db"),
                    last_update: None,
                },
            ),
        }
    }

    /// The conditional fetch this mirror issues next: its own bucket and
    /// key, guarded by the timestamp of the last successful fetch.
    pub fn build_fetch_request(&self) -> (r: FetchRequest)
        ensures
            r.bucket == self.s3_bucket,
            r.key == self.s3_key,
            r.if_modified_since == self.last_update,
    {
        FetchRequest {
            bucket: self.s3_bucket.clone(),
            key: self.s3_key.clone(),
            if_modified_since: match &self.last_update {
                Some(t) => Some(t.clone()),
                None => None,
            },
        }
    }

    /// Applies the remote's reply to the mirror's state and decides how
    /// the connection request proceeds; must run under the same exclusive
    /// access as the fetch itself.
    pub fn apply_fetch_response(&mut self, resp: FetchResponse) -> (r: Result<
        RefreshOutcome,
        MirrorError,
    >)
        ensures
            *final(self) == mirror_after(*old(self), resp),
            r == mirror_result(resp),
    {
        match resp {
            FetchResponse::NotModified => Ok(RefreshOutcome::UsedExistingCache),
            FetchResponse::Success { last_modified } => {
                self.last_update = last_modified;
                Ok(RefreshOutcome::Refreshed)
            },
            FetchResponse::NoSuchKey { key } => Err(MirrorError::NoSuchKey { key }),
            FetchResponse::CredentialsError { detail } => Err(
                MirrorError::CredentialsError { detail },
            ),
            FetchResponse::UnknownError { detail } => Ok(RefreshOutcome::UsedExistingCache),
            FetchResponse::OtherError { detail } => Err(MirrorError::TransportError { detail }),
        }
    }
}

/// Conditional-fetch caching law: once a fetch succeeds with timestamp
/// `t1`, the mirror's next request carries `if modified since t1`, and a
/// `NotModified` reply to it downloads nothing — the state is left exactly
/// as it was and the existing local cache file is used.
pub proof fn lemma_conditional_fetch_caches(s: S3DBConnector, t1: String)
    ensures
        ({
            let s1 = mirror_after(s, FetchResponse::Success { last_modified: Some(t1) });
            &&& s1.last_update == Some(t1)
            &&& s1.local_dbpath == s.local_dbpath
            &&& mirror_after(s1, FetchResponse::NotModified) == s1
            &&& mirror_result(FetchResponse::NotModified) == Ok::<RefreshOutcome, MirrorError>(
                RefreshOutcome::UsedExistingCache,
            )
        }),
{
}

/// Fetch-failure degradation law: an ambiguous transport error during a
/// refresh is absorbed — the connection request still succeeds, against
/// the previously cached file, and neither the timestamp nor any other
/// part of the mirror's state changes. Documented-but-suspect behavior: a
/// genuine fetch failure silently degrades to stale data.
pub proof fn lemma_fetch_failure_degrades(s: S3DBConnector, detail: String)
    ensures
        mirror_after(s, FetchResponse::UnknownError { detail }) == s,
        mirror_result(FetchResponse::UnknownError { detail }) == Ok::<
            RefreshOutcome,
            MirrorError,
        >(RefreshOutcome::UsedExistingCache),
{
}

} // verus!
