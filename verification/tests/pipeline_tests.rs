use ocw_worker::cache::CacheKey;
use ocw_worker::cache::DurableStore;
use ocw_worker::cache::Moment;
use ocw_worker::crypto::SigningIdentity;
use ocw_worker::errors::NetworkError;
use ocw_worker::errors::ParseError;
use ocw_worker::errors::WorkerError;
use ocw_worker::fetcher::Endpoint;
use ocw_worker::fetcher::FetchOutcome;
use ocw_worker::gateway::validate_unsigned;
use ocw_worker::gateway::Call;
use ocw_worker::gateway::CallTag;
use ocw_worker::ledger::Event;
use ocw_worker::ledger::Ledger;
use ocw_worker::parser::PricePoint;
use ocw_worker::worker::begin_metadata_task;
use ocw_worker::worker::begin_price_task;
use ocw_worker::worker::complete_metadata_task;
use ocw_worker::worker::complete_price_task;
use ocw_worker::worker::process_price_response;
use ocw_worker::worker::Config;
use ocw_worker::worker::FetchPlan;

fn price_body() -> Vec<u8> {
    br#"{"data":{"name":"Polkadot","priceUsd":"6.123456789"}}"#.to_vec()
}

fn metadata_body() -> Vec<u8> {
    br#"{"login":"substrate-developer-hub","blog":"https://substrate.dev","public_repos":34}"#
        .to_vec()
}

#[test]
fn price_document_yields_the_truncated_price() {
    assert_eq!(
        process_price_response(&price_body()),
        Ok(PricePoint { integer: 6, fraction: 123456 })
    );
}

#[test]
fn end_to_end_price_pipeline() {
    let mut store = DurableStore::new();
    let cfg = Config::standard();
    let id = SigningIdentity::from_seed(vec![7u8; 32]).unwrap();
    let mut ledger = Ledger::new();

    // The invocation claims the lock and is told what to fetch.
    let plan = begin_price_task(&mut store, Moment { block: 5, time_ms: 0 }, &cfg);
    let request = match plan {
        FetchPlan::Fetch(req) => req,
        _ => panic!("expected a fetch"),
    };
    assert_eq!(request.endpoint, Endpoint::Price);
    assert_eq!(request.deadline_ms, 3000);

    // The transport answers; the worker parses, caches and builds the
    // unsigned-with-signed-payload submission.
    let outcome = FetchOutcome::Responded { status: 200, body: price_body() };
    let call = complete_price_task(&mut store, outcome, Some(&id)).unwrap();
    assert_eq!(store.get(CacheKey::Price), Some(price_body()));

    // The admission predicate accepts it, tagged as a price payload.
    let decision = validate_unsigned(&call).unwrap();
    assert_eq!(decision.provides, CallTag::PriceSignedPayload);

    // The ledger entry point appends the price and deposits the event.
    let payload = match call {
        Call::SubmitPriceUnsignedWithSignedPayload { payload, .. } => payload,
        _ => panic!("wrong call shape"),
    };
    assert_eq!(payload.price, PricePoint { integer: 6, fraction: 123456 });
    ledger.submit_price_unsigned_with_signed_payload(payload);
    assert_eq!(ledger.prices_len(), 1);
    assert_eq!(ledger.price_at(0), PricePoint { integer: 6, fraction: 123456 });
    assert_eq!(ledger.events_len(), 1);
    match ledger.event_at(0) {
        Event::NewPrice(None, p) => {
            assert_eq!(*p, PricePoint { integer: 6, fraction: 123456 });
        }
        _ => panic!("expected an anonymous NewPrice event"),
    }
}

#[test]
fn malformed_price_string_mutates_nothing() {
    let mut store = DurableStore::new();
    let id = SigningIdentity::from_seed(vec![7u8; 32]).unwrap();
    let body = br#"{"data":{"name":"Polkadot","priceUsd":"abc"}}"#.to_vec();
    assert_eq!(process_price_response(&body), Err(ParseError::Malformed));
    let outcome = FetchOutcome::Responded { status: 200, body };
    match complete_price_task(&mut store, outcome, Some(&id)) {
        Err(WorkerError::Parse(ParseError::Malformed)) => {}
        _ => panic!("expected a parse failure"),
    }
    // Nothing was cached and no submission was built.
    assert_eq!(store.get(CacheKey::Price), None);
}

#[test]
fn price_task_without_identity_caches_nothing() {
    let mut store = DurableStore::new();
    let outcome = FetchOutcome::Responded { status: 200, body: price_body() };
    match complete_price_task(&mut store, outcome, None) {
        Err(WorkerError::Signing(_)) => {}
        _ => panic!("expected a signing failure"),
    }
    assert_eq!(store.get(CacheKey::Price), None);
}

#[test]
fn transport_failures_map_to_their_errors() {
    let mut store = DurableStore::new();
    let id = SigningIdentity::from_seed(vec![7u8; 32]).unwrap();
    match complete_price_task(&mut store, FetchOutcome::TimedOut, Some(&id)) {
        Err(WorkerError::Network(NetworkError::Timeout)) => {}
        _ => panic!("expected a timeout"),
    }
    match complete_price_task(&mut store, FetchOutcome::TransportFailed, Some(&id)) {
        Err(WorkerError::Network(NetworkError::Transport)) => {}
        _ => panic!("expected a transport failure"),
    }
    let outcome = FetchOutcome::Responded { status: 404, body: price_body() };
    match complete_price_task(&mut store, outcome, Some(&id)) {
        Err(WorkerError::Network(NetworkError::UnexpectedStatus)) => {}
        _ => panic!("expected an unexpected status"),
    }
    assert_eq!(store.get(CacheKey::Price), None);
}

#[test]
fn metadata_task_fetches_once_then_uses_the_cache() {
    let mut store = DurableStore::new();
    let cfg = Config::standard();
    let now = Moment { block: 4, time_ms: 0 };

    let plan = begin_metadata_task(&mut store, now, &cfg);
    let request = match plan {
        FetchPlan::Fetch(req) => req,
        _ => panic!("expected a fetch"),
    };
    assert_eq!(request.endpoint, Endpoint::Metadata);

    let outcome = FetchOutcome::Responded { status: 200, body: metadata_body() };
    let info = complete_metadata_task(&mut store, outcome).unwrap();
    assert_eq!(info.login, b"substrate-developer-hub".to_vec());
    assert_eq!(info.blog, b"https://substrate.dev".to_vec());
    assert_eq!(info.public_repos, 34);

    // A later invocation finds the cached document and skips the fetch.
    let later = Moment { block: 9, time_ms: 60_000 };
    match begin_metadata_task(&mut store, later, &cfg) {
        FetchPlan::UseCached(doc) => assert_eq!(doc, metadata_body()),
        _ => panic!("expected the cached document"),
    }
}

#[test]
fn concurrent_metadata_invocation_skips_while_locked() {
    let mut store = DurableStore::new();
    let cfg = Config::standard();
    let now = Moment { block: 4, time_ms: 0 };
    match begin_metadata_task(&mut store, now, &cfg) {
        FetchPlan::Fetch(_) => {}
        _ => panic!("expected a fetch"),
    }
    // Before either expiry (4 + 3 blocks, 0 + 4000 ms) a second
    // invocation must not fetch the same key.
    let soon = Moment { block: 5, time_ms: 1000 };
    match begin_metadata_task(&mut store, soon, &cfg) {
        FetchPlan::SkipLocked => {}
        _ => panic!("expected to skip while locked"),
    }
}

#[test]
fn malformed_metadata_document_is_not_cached() {
    let mut store = DurableStore::new();
    let outcome =
        FetchOutcome::Responded { status: 200, body: br#"{"login":42}"#.to_vec() };
    match complete_metadata_task(&mut store, outcome) {
        Err(WorkerError::Parse(ParseError::Malformed)) => {}
        _ => panic!("expected a parse failure"),
    }
    assert_eq!(store.get(CacheKey::Metadata), None);
}
