use lead_oxide::errors::ApiError;
use lead_oxide::fetcher::{Fetcher, Step};
use lead_oxide::opts::Opts;
use lead_oxide::pacing::{Access, SharedClock, DELAY_MS};
use lead_oxide::proxy::{Proxy, Socket, Supports, Timestamp};
use lead_oxide::types::{Countries, Country, Level, Protocol};

const FREE_LIMIT: usize = 5;
const PREMIUM_LIMIT: usize = 20;
/// How long one simulated request takes, in milliseconds.
const REQUEST_MS: u64 = 10;

/// A session simulated on a time line of milliseconds, answering every request with a full page.
struct Sim {
    now: u64,
    clock: SharedClock,
    paced_starts: Vec<u64>,
    premium_starts: Vec<u64>,
    fetched: usize,
}

impl Sim {
    fn new() -> Sim {
        Sim {
            now: 0,
            clock: SharedClock::new(),
            paced_starts: Vec::new(),
            premium_starts: Vec::new(),
            fetched: 0,
        }
    }
}

fn sample(n: usize) -> Proxy {
    Proxy {
        socket: Socket { ip: [1, 2, 3, 4], port: 4321 },
        country: Country::from_code("CA").unwrap(),
        last_checked: Timestamp { year: 2020, month: 1, day: 1, hour: 1, minute: 1, second: 1 },
        level: Level::Anonymous,
        protocol: Protocol::Http,
        time_to_connect: n as u64,
        supports: Supports::default(),
    }
}

fn get(fetcher: &mut Fetcher, amount: usize, sim: &mut Sim) -> Result<Vec<Proxy>, ApiError> {
    let mut page = None;
    loop {
        match fetcher.advance(amount, page) {
            Step::Deliver(records) => return Ok(records),
            Step::Fail(err) => return Err(err),
            Step::Request => {
                sim.now += fetcher.wait_before_request(&sim.clock, sim.now);
                if fetcher.is_paced() {
                    sim.paced_starts.push(sim.now);
                } else {
                    sim.premium_starts.push(sim.now);
                }
                sim.now += REQUEST_MS;
                fetcher.note_request(&mut sim.clock, sim.now);
                let size = fetcher.opts().page_size();
                let records: Vec<Proxy> = (0..size).map(|i| sample(sim.fetched + i)).collect();
                sim.fetched += size;
                page = Some(Ok(records));
            }
        }
    }
}

fn premium() -> Fetcher {
    Fetcher::new(Opts::builder().api_key("<key>".to_string()).build())
}

#[test]
fn api_key() {
    let mut sim = Sim::new();
    let mut fetcher = premium();

    let single = get(&mut fetcher, 1, &mut sim).unwrap();
    let triple = get(&mut fetcher, 3, &mut sim).unwrap();
    let the_rest = fetcher.drain();

    assert_eq!(single.len(), 1);
    assert_eq!(triple.len(), 3);
    assert_eq!(PREMIUM_LIMIT, single.len() + triple.len() + the_rest.len());
}

#[test]
fn keyless() {
    let mut sim = Sim::new();
    let mut fetcher = Fetcher::default();

    let single = get(&mut fetcher, 1, &mut sim).unwrap();
    let triple = get(&mut fetcher, 3, &mut sim).unwrap();
    let the_rest = fetcher.drain();

    assert_eq!(single.len(), 1);
    assert_eq!(triple.len(), 3);
    assert_eq!(FREE_LIMIT, single.len() + triple.len() + the_rest.len());
}

#[test]
fn multiple_requests() {
    // Multiple requests can be done with a single call
    for i in 0..=2 * FREE_LIMIT {
        let mut sim = Sim::new();
        let mut fetcher = Fetcher::default();
        let proxies = get(&mut fetcher, i, &mut sim).unwrap();
        assert_eq!(proxies.len(), i);
        // ceil(i / page size) requests
        assert_eq!(sim.paced_starts.len(), (i + FREE_LIMIT - 1) / FREE_LIMIT);
    }
}

#[test]
fn fetcher_multiple_fetchers() {
    // Each fetcher should be independent
    let mut sim = Sim::new();
    let mut default = Fetcher::default();
    let mut premium = premium();
    let mut custom = Fetcher::new(
        Opts::builder()
            .level(Level::Elite)
            .cookies(true)
            .countries(Countries::allow().country(Country::from_code("CA").unwrap()))
            .build(),
    );

    let single = get(&mut default, 1, &mut sim).unwrap();
    let double = get(&mut premium, 2, &mut sim).unwrap();
    let triple = get(&mut custom, 3, &mut sim).unwrap();
    assert_eq!(single.len(), 1);
    assert_eq!(double.len(), 2);
    assert_eq!(triple.len(), 3);
    assert_eq!(default.drain().len(), FREE_LIMIT - single.len());
    assert_eq!(premium.drain().len(), PREMIUM_LIMIT - double.len());
    assert_eq!(custom.drain().len(), FREE_LIMIT - triple.len());
}

#[test]
fn single_fetcher() {
    let mut sim = Sim::new();
    let mut fetcher = Fetcher::default();
    // Requesting the first page's worth is one request, with no wait
    get(&mut fetcher, FREE_LIMIT, &mut sim).unwrap();
    assert_eq!(sim.paced_starts, vec![0]);
    assert_eq!(sim.now, REQUEST_MS);

    // Any more takes another request, after the delay
    get(&mut fetcher, 1, &mut sim).unwrap();
    assert_eq!(sim.paced_starts, vec![0, REQUEST_MS + DELAY_MS]);

    // And the rest is served from the buffer
    let before = sim.now;
    get(&mut fetcher, 1, &mut sim).unwrap();
    assert_eq!(sim.now, before);
    assert!(!fetcher.drain().is_empty());
}

#[test]
fn multiple_delays() {
    // Fulfilling four full keyless pages waits three times
    let mut sim = Sim::new();
    let mut keyless1 = Fetcher::default();
    let mut keyless2 = Fetcher::default();
    let mut premium = premium();

    get(&mut keyless1, 2 * FREE_LIMIT, &mut sim).unwrap();
    // Even while the keyless ones would be delayed, the premium is not
    let premium_from = sim.now;
    get(&mut premium, 2 * PREMIUM_LIMIT, &mut sim).unwrap();
    assert_eq!(sim.premium_starts, vec![premium_from, premium_from + REQUEST_MS]);
    get(&mut keyless2, 2 * FREE_LIMIT, &mut sim).unwrap();

    assert_eq!(sim.paced_starts.len(), 4);
    for pair in sim.paced_starts.windows(2) {
        assert!(pair[1] - pair[0] >= DELAY_MS);
    }
    assert_eq!(sim.paced_starts[3], 3 * (REQUEST_MS + DELAY_MS));
}

#[test]
fn two_keyless_fetchers_share_pacing() {
    let mut sim = Sim::new();
    let mut fetcher1 = Fetcher::default();
    let mut fetcher2 = Fetcher::default();

    assert_eq!(get(&mut fetcher1, 1, &mut sim).unwrap().len(), 1);
    assert_eq!(get(&mut fetcher2, 1, &mut sim).unwrap().len(), 1);

    assert_eq!(sim.paced_starts.len(), 2);
    assert!(sim.paced_starts[1] - sim.paced_starts[0] >= DELAY_MS);
    assert_eq!(fetcher1.buffered(), FREE_LIMIT - 1);
    assert_eq!(fetcher2.buffered(), FREE_LIMIT - 1);

    // Both are now served from their buffers, with no request
    get(&mut fetcher1, 1, &mut sim).unwrap();
    get(&mut fetcher2, 1, &mut sim).unwrap();
    assert_eq!(sim.paced_starts.len(), 2);
    assert!(!fetcher1.drain().is_empty());
    assert!(!fetcher2.drain().is_empty());
}

#[test]
fn buffered_records_are_served_without_a_request() {
    let mut sim = Sim::new();
    let mut fetcher = Fetcher::default();
    get(&mut fetcher, 0, &mut sim).unwrap();
    assert!(sim.paced_starts.is_empty());
    get(&mut fetcher, 2, &mut sim).unwrap();
    let clock = sim.clock;
    for amount in 0..=3 {
        let mut copy = fetcher.clone();
        match copy.advance(amount, None) {
            Step::Deliver(records) => assert_eq!(records.len(), amount),
            other => panic!("expected a delivery, got {:?}", other),
        }
        assert_eq!(copy.buffered(), 3 - amount);
    }
    match fetcher.advance(4, None) {
        Step::Request => {}
        other => panic!("expected a request, got {:?}", other),
    }
    assert_eq!(sim.clock, clock);
}

#[test]
fn nothing_is_lost_or_duplicated() {
    let mut sim = Sim::new();
    let mut fetcher = Fetcher::default();
    let got = get(&mut fetcher, 7, &mut sim).unwrap();
    let rest = fetcher.drain();
    assert_eq!(sim.fetched, 2 * FREE_LIMIT);
    assert_eq!(got.len() + rest.len(), sim.fetched);
    let mut seen: Vec<u64> = got.iter().chain(rest.iter()).map(|p| p.time_to_connect).collect();
    seen.sort();
    let all: Vec<u64> = (0..sim.fetched as u64).collect();
    assert_eq!(seen, all);
    // The most recently fetched records are handed out
    let delivered: Vec<u64> = got.iter().map(|p| p.time_to_connect).collect();
    assert_eq!(delivered, vec![3, 4, 5, 6, 7, 8, 9]);
}

#[test]
fn a_failed_request_keeps_what_was_fetched() {
    let mut fetcher = Fetcher::default();
    match fetcher.advance(7, None) {
        Step::Request => {}
        other => panic!("expected a request, got {:?}", other),
    }
    let page: Vec<Proxy> = (0..FREE_LIMIT).map(sample).collect();
    match fetcher.advance(7, Some(Ok(page))) {
        Step::Request => {}
        other => panic!("expected a request, got {:?}", other),
    }
    match fetcher.advance(7, Some(Err(ApiError::RateLimit))) {
        Step::Fail(ApiError::RateLimit) => {}
        other => panic!("expected the error, got {:?}", other),
    }
    assert_eq!(fetcher.drain().len(), FREE_LIMIT);
}

#[test]
fn pacing_waits() {
    let mut clock = SharedClock::new();
    assert_eq!(clock.wait_before_request(0), 0);
    clock.stamp(1000);
    assert_eq!(clock.wait_before_request(1000), DELAY_MS);
    assert_eq!(clock.wait_before_request(1600), DELAY_MS - 600);
    assert_eq!(clock.wait_before_request(1000 + DELAY_MS), 0);
    assert_eq!(clock.wait_before_request(5000), 0);
    // A time before the stamp counts as no time elapsed
    assert_eq!(clock.wait_before_request(900), DELAY_MS);
}

#[test]
fn poisoned_clock_is_reset() {
    let mut clock = SharedClock::new();
    clock.stamp(100);
    clock.acquire(Access::Clean, 5000);
    assert_eq!(clock.last, Some(100));
    clock.acquire(Access::Poisoned, 5000);
    assert_eq!(clock.last, Some(5000));
    assert_eq!(clock.wait_before_request(5000), DELAY_MS);

    let mut fresh = SharedClock::new();
    fresh.acquire(Access::Poisoned, 7);
    assert_eq!(fresh.last, Some(7));
}

#[test]
fn premium_is_not_paced() {
    assert!(!premium().is_paced());
    assert!(Fetcher::default().is_paced());
}

#[test]
fn premium_requests_leave_the_clock_alone() {
    let premium = premium();
    let keyless = Fetcher::default();
    let mut clock = SharedClock::new();
    keyless.note_request(&mut clock, 1000);
    assert_eq!(clock.last, Some(1000));
    assert_eq!(premium.wait_before_request(&clock, 1000), 0);
    premium.note_request(&mut clock, 1500);
    assert_eq!(clock.last, Some(1000));
    assert_eq!(keyless.wait_before_request(&clock, 1500), DELAY_MS - 500);
}
