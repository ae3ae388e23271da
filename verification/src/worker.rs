//! Orchestration of one invocation's fetch tasks.
//!
//! An invocation is an isolated execution with no process memory shared
//! with any other; it coordinates solely through the durable store. The
//! host performs the actual network transfer, so each fetch task splits
//! in two: a beginning that consults the cache and claims the lock
//! guarding the critical section, and a completion that judges the
//! transport's outcome, parses, caches and builds the submission.
//! Nothing partial is ever cached, and every error is terminal to this
//! invocation alone.

use vstd::prelude::*;

use crate::cache::lock_held;
use crate::cache::stamp_for;
use crate::cache::CacheKey;
use crate::cache::DurableStore;
use crate::cache::Moment;
use crate::crypto::SigningIdentity;
use crate::errors::NetworkError;
use crate::errors::ParseError;
use crate::errors::SigningError;
use crate::errors::ValidationError;
use crate::errors::WorkerError;
use crate::extract::metadata_fields;
use crate::extract::parse_metadata_document;
use crate::extract::parse_price_document;
use crate::extract::price_fields;
use crate::extract::GithubInfo;
use crate::fetcher::build_request;
use crate::fetcher::classify_response;
use crate::fetcher::Endpoint;
use crate::fetcher::FetchOutcome;
use crate::fetcher::HttpRequest;
use crate::gateway::build_price_signed_payload_submission;
use crate::gateway::expected_decision;
use crate::gateway::valid_tx;
use crate::gateway::Call;
use crate::gateway::CallTag;
use crate::gateway::ValidTransaction;
use crate::parser::frac_value;
use crate::parser::int_value;
use crate::parser::parse;
use crate::parser::valid_price_str;
use crate::parser::PricePoint;

verus! {

/// Deadline of a single fetch, in milliseconds.
pub const FETCH_DEADLINE_MS: u64 = 3000;

/// Wall-clock expiry of the fetch lock: one second beyond the fetch
/// deadline.
pub const LOCK_TIME_TTL_MS: u64 = FETCH_DEADLINE_MS + 1000;

/// Block-count expiry of the fetch lock.
pub const LOCK_BLOCK_TTL: u64 = 3;

/// The fixed constants of the worker, constructed once at startup and
/// handed to every invocation.
#[derive(Clone, Copy, PartialEq, Eq, Structural, Debug)]
pub struct Config {
    /// How long a single fetch may take.
    pub fetch_deadline_ms: u64,
    /// Blocks until a fetch lock expires.
    pub lock_block_ttl: u64,
    /// Milliseconds until a fetch lock expires.
    pub lock_time_ttl_ms: u64,
}

impl Config {
    /// The standard configuration: a 3000 ms fetch deadline, the lock
    /// released after 3 blocks and 4000 ms.
    pub fn standard() -> (c: Config)
        ensures
            c == (Config {
                fetch_deadline_ms: FETCH_DEADLINE_MS,
                lock_block_ttl: LOCK_BLOCK_TTL,
                lock_time_ttl_ms: LOCK_TIME_TTL_MS,
            }),
    {
        Config {
            fetch_deadline_ms: FETCH_DEADLINE_MS,
            lock_block_ttl: LOCK_BLOCK_TTL,
            lock_time_ttl_ms: LOCK_TIME_TTL_MS,
        }
    }
}

/// What a fetch task asks of the host after its beginning ran.
pub enum FetchPlan {
    /// A cached document made the fetch unnecessary.
    UseCached(Vec<u8>),
    /// Another invocation may still be fetching this key: do nothing
    /// this tick.
    SkipLocked,
    /// The lock is claimed: perform this request and hand the outcome to
    /// the task's completion.
    Fetch(HttpRequest),
}

/// Begin the metadata task: use the cached document when one exists;
/// otherwise claim the lock that serializes the fetch across
/// invocations, and only when that succeeds ask for the fetch.
pub fn begin_metadata_task(store: &mut DurableStore, now: Moment, cfg: &Config) -> (p: FetchPlan)
    ensures
        match p {
            FetchPlan::UseCached(doc) => {
                &&& old(store).cached(CacheKey::Metadata) == Some(doc@)
                &&& *final(store) == *old(store)
            },
            FetchPlan::SkipLocked => {
                &&& old(store).cached(CacheKey::Metadata) is None
                &&& lock_held(old(store).lock_of(CacheKey::Metadata), now)
                &&& *final(store) == *old(store)
            },
            FetchPlan::Fetch(req) => {
                &&& old(store).cached(CacheKey::Metadata) is None
                &&& !lock_held(old(store).lock_of(CacheKey::Metadata), now)
                &&& final(store).lock_of(CacheKey::Metadata) == Some(
                    stamp_for(now, cfg.lock_block_ttl, cfg.lock_time_ttl_ms),
                )
                &&& final(store).cached(CacheKey::Metadata) is None
                &&& DurableStore::agrees_except(*old(store), *final(store), CacheKey::Metadata)
                &&& req == (HttpRequest {
                    endpoint: Endpoint::Metadata,
                    deadline_ms: cfg.fetch_deadline_ms,
                })
            },
        },
{
    match store.get(CacheKey::Metadata) {
        Some(doc) => FetchPlan::UseCached(doc),
        None => {
            match store.acquire(CacheKey::Metadata, now, cfg.lock_block_ttl, cfg.lock_time_ttl_ms) {
                Ok(_) => FetchPlan::Fetch(build_request(Endpoint::Metadata, cfg.fetch_deadline_ms)),
                Err(_) => FetchPlan::SkipLocked,
            }
        },
    }
}

/// Complete the metadata task: judge the transport's outcome, read the
/// document, and cache the raw bytes — only a fully fetched,
/// well-shaped document is ever cached.
pub fn complete_metadata_task(store: &mut DurableStore, outcome: FetchOutcome) -> (r: Result<
    GithubInfo,
    WorkerError,
>)
    ensures
        match r {
            Ok(info) => {
                &&& outcome matches FetchOutcome::Responded { status, body } && (status == 200
                    && (metadata_fields(body@) matches Some(f) && (info.login@ == f.0 && info.blog@
                    == f.1 && info.public_repos == f.2 && final(store).cached(CacheKey::Metadata)
                    == Some(body@))))
                &&& final(store).lock_of(CacheKey::Metadata) == old(store).lock_of(
                    CacheKey::Metadata,
                )
                &&& DurableStore::agrees_except(*old(store), *final(store), CacheKey::Metadata)
            },
            Err(e) => {
                &&& *final(store) == *old(store)
                &&& match outcome {
                    FetchOutcome::TimedOut => e == WorkerError::Network(NetworkError::Timeout),
                    FetchOutcome::TransportFailed => e == WorkerError::Network(
                        NetworkError::Transport,
                    ),
                    FetchOutcome::Responded { status, body } => if status != 200 {
                        e == WorkerError::Network(NetworkError::UnexpectedStatus)
                    } else {
                        e == WorkerError::Parse(ParseError::Malformed) && metadata_fields(body@)
                            is None
                    },
                }
            },
        },
{
    let body = match classify_response(outcome) {
        Ok(b) => b,
        Err(e) => {
            return Err(WorkerError::Network(e));
        },
    };
    let info = match parse_metadata_document(&body) {
        Ok(i) => i,
        Err(e) => {
            return Err(WorkerError::Parse(e));
        },
    };
    store.set(CacheKey::Metadata, body);
    Ok(info)
}

/// Begin the price task: a fresh price is always wanted, so there is no
/// cached short-cut; the lock still guards the fetch across invocations.
pub fn begin_price_task(store: &mut DurableStore, now: Moment, cfg: &Config) -> (p: FetchPlan)
    ensures
        match p {
            FetchPlan::UseCached(_) => false,
            FetchPlan::SkipLocked => {
                &&& lock_held(old(store).lock_of(CacheKey::Price), now)
                &&& *final(store) == *old(store)
            },
            FetchPlan::Fetch(req) => {
                &&& !lock_held(old(store).lock_of(CacheKey::Price), now)
                &&& final(store).lock_of(CacheKey::Price) == Some(
                    stamp_for(now, cfg.lock_block_ttl, cfg.lock_time_ttl_ms),
                )
                &&& final(store).cached(CacheKey::Price) == old(store).cached(CacheKey::Price)
                &&& DurableStore::agrees_except(*old(store), *final(store), CacheKey::Price)
                &&& req == (HttpRequest {
                    endpoint: Endpoint::Price,
                    deadline_ms: cfg.fetch_deadline_ms,
                })
            },
        },
{
    match store.acquire(CacheKey::Price, now, cfg.lock_block_ttl, cfg.lock_time_ttl_ms) {
        Ok(_) => FetchPlan::Fetch(build_request(Endpoint::Price, cfg.fetch_deadline_ms)),
        Err(_) => FetchPlan::SkipLocked,
    }
}

/// Turn a price document into a fixed-point price: extract the
/// `data.priceUsd` string and parse it, with no side effect.
pub fn process_price_response(body: &Vec<u8>) -> (r: Result<PricePoint, ParseError>)
    ensures
        match r {
            Ok(p) => {
                &&& price_fields(body@) matches Some(f) && valid_price_str(f.1) && p.integer
                    == int_value(f.1) && p.fraction == frac_value(f.1)
                &&& p.wf()
            },
            Err(e) => {
                &&& e == ParseError::Malformed
                &&& match price_fields(body@) {
                    Some(f) => !valid_price_str(f.1),
                    None => true,
                }
            },
        },
{
    let info = match parse_price_document(body) {
        Ok(i) => i,
        Err(e) => {
            return Err(e);
        },
    };
    parse(info.usd.as_slice())
}

/// Complete the price task: judge the transport's outcome, parse the
/// price, build the unsigned-with-signed-payload submission — the
/// strategy that attributes authorship at no cost to the submitter —
/// and cache the raw document. On every error the store is left
/// untouched: nothing partial is ever cached.
pub fn complete_price_task(
    store: &mut DurableStore,
    outcome: FetchOutcome,
    id: Option<&SigningIdentity>,
) -> (r: Result<Call, WorkerError>)
    requires
        id matches Some(i) ==> i.wf(),
    ensures
        match r {
            Ok(c) => {
                &&& outcome matches FetchOutcome::Responded { status, body } && (status == 200
                    && (price_fields(body@) matches Some(f) && (valid_price_str(f.1)
                    && (c matches Call::SubmitPriceUnsignedWithSignedPayload { payload, .. }
                    && (payload.price.integer == int_value(f.1) && payload.price.fraction
                    == frac_value(f.1) && final(store).cached(CacheKey::Price) == Some(body@))))))
                &&& expected_decision(c) == Ok::<ValidTransaction, ValidationError>(
                    valid_tx(CallTag::PriceSignedPayload),
                )
                &&& id is Some
                &&& final(store).lock_of(CacheKey::Price) == old(store).lock_of(CacheKey::Price)
                &&& DurableStore::agrees_except(*old(store), *final(store), CacheKey::Price)
            },
            Err(e) => {
                &&& *final(store) == *old(store)
                &&& match outcome {
                    FetchOutcome::TimedOut => e == WorkerError::Network(NetworkError::Timeout),
                    FetchOutcome::TransportFailed => e == WorkerError::Network(
                        NetworkError::Transport,
                    ),
                    FetchOutcome::Responded { status, body } => if status != 200 {
                        e == WorkerError::Network(NetworkError::UnexpectedStatus)
                    } else {
                        match price_fields(body@) {
                            Some(f) => if !valid_price_str(f.1) {
                                e == WorkerError::Parse(ParseError::Malformed)
                            } else {
                                e == WorkerError::Signing(SigningError::NoLocalIdentity) && id
                                    is None
                            },
                            None => e == WorkerError::Parse(ParseError::Malformed),
                        }
                    },
                }
            },
        },
{
    let body = match classify_response(outcome) {
        Ok(b) => b,
        Err(e) => {
            return Err(WorkerError::Network(e));
        },
    };
    let price = match process_price_response(&body) {
        Ok(p) => p,
        Err(e) => {
            return Err(WorkerError::Parse(e));
        },
    };
    let call = match build_price_signed_payload_submission(id, price) {
        Ok(c) => c,
        Err(e) => {
            return Err(WorkerError::Signing(e));
        },
    };
    store.set(CacheKey::Price, body);
    Ok(call)
}

} // verus!
