use pmtu_probe::classify::classify;
use pmtu_probe::packet::{build, Ipv4Address};
use pmtu_probe::search::{
    discover, handle_response, DiscoverError, ProbeResult, SearchBounds, SearchConfig, Step, Transport, LOOP_LIMIT,
    MAX_CANDIDATE, RECEIVE_TIMEOUT_SECS,
};

fn localhost() -> Ipv4Address {
    Ipv4Address::new(127, 0, 0, 1)
}

fn reply_datagram(icmp_type: u8) -> Vec<u8> {
    let mut p = vec![0u8; 28];
    p[0] = 0x45;
    p[3] = 28;
    p[9] = 1;
    p[20] = icmp_type;
    p
}

/// Answers each probe whose payload is at most `limit` bytes with an Echo
/// Reply and any larger one with Fragmentation Needed.
struct PathWithLimit {
    limit: usize,
    last_size: Option<usize>,
    sent: Vec<Vec<u8>>,
    timeouts: Vec<u64>,
}

impl PathWithLimit {
    fn new(limit: usize) -> PathWithLimit {
        PathWithLimit { limit, last_size: None, sent: Vec::new(), timeouts: Vec::new() }
    }
}

impl Transport for PathWithLimit {
    fn send(&mut self, packet: &Vec<u8>, _destination: Ipv4Address) -> Result<(), String> {
        self.last_size = Some(packet.len() - 28);
        self.sent.push(packet.clone());
        Ok(())
    }

    fn receive(&mut self, timeout_secs: u64) -> Result<Option<Vec<u8>>, String> {
        self.timeouts.push(timeout_secs);
        let size = self.last_size.take().unwrap();
        Ok(Some(reply_datagram(if size <= self.limit { 0 } else { 3 })))
    }
}

/// Never answers within the timeout.
struct Silent;

impl Transport for Silent {
    fn send(&mut self, _packet: &Vec<u8>, _destination: Ipv4Address) -> Result<(), String> {
        Ok(())
    }

    fn receive(&mut self, _timeout_secs: u64) -> Result<Option<Vec<u8>>, String> {
        Ok(None)
    }
}

/// Fails every send, or every receive.
struct Broken {
    on_send: bool,
}

impl Transport for Broken {
    fn send(&mut self, _packet: &Vec<u8>, _destination: Ipv4Address) -> Result<(), String> {
        if self.on_send {
            Err("send refused".to_string())
        } else {
            Ok(())
        }
    }

    fn receive(&mut self, _timeout_secs: u64) -> Result<Option<Vec<u8>>, String> {
        Err("receive refused".to_string())
    }
}

#[test]
fn standard_config_values() {
    let c = SearchConfig::standard();
    assert_eq!(c.max_candidate, 1500);
    assert_eq!(c.loop_limit, 16);
    assert_eq!(c.receive_timeout_secs, 2);
    assert_eq!((MAX_CANDIDATE, LOOP_LIMIT, RECEIVE_TIMEOUT_SECS), (1500, 16, 2));
}

#[test]
fn always_replying_path_gives_1527() {
    let mut t = PathWithLimit::new(usize::MAX);
    assert_eq!(discover(&mut t, localhost(), &SearchConfig::standard()), Ok(1527));
    assert!(t.sent.len() <= 12);
    assert!(t.timeouts.iter().all(|s| *s == 2));
}

#[test]
fn always_replying_path_uses_twelve_probes() {
    let mut t = PathWithLimit::new(usize::MAX);
    discover(&mut t, localhost(), &SearchConfig::standard()).unwrap();
    assert_eq!(t.sent.len(), 12);
}

#[test]
fn first_probe_is_midpoint_packet() {
    let mut t = PathWithLimit::new(usize::MAX);
    discover(&mut t, localhost(), &SearchConfig::standard()).unwrap();
    assert_eq!(t.sent[0], build(localhost(), 750).unwrap());
    assert_eq!(t.sent[1], build(localhost(), 1125).unwrap());
}

#[test]
fn limited_path_finds_its_mtu() {
    let mut t = PathWithLimit::new(1372);
    assert_eq!(discover(&mut t, localhost(), &SearchConfig::standard()), Ok(1400));
    let mut t = PathWithLimit::new(0);
    assert_eq!(discover(&mut t, localhost(), &SearchConfig::standard()), Ok(28));
}

#[test]
fn silent_path_fails_with_receive_error() {
    let r = discover(&mut Silent, localhost(), &SearchConfig::standard());
    assert!(matches!(r, Err(DiscoverError::Receive(_))));
}

#[test]
fn send_failure_is_reported() {
    let r = discover(&mut Broken { on_send: true }, localhost(), &SearchConfig::standard());
    assert_eq!(r, Err(DiscoverError::Send("send refused".to_string())));
}

#[test]
fn receive_failure_is_reported() {
    let r = discover(&mut Broken { on_send: false }, localhost(), &SearchConfig::standard());
    assert_eq!(r, Err(DiscoverError::Receive("receive refused".to_string())));
}

#[test]
fn never_replying_path_exhausts_the_budget() {
    let mut t = PathWithLimit::new(0);
    t.limit = 0;
    // every probe is answered with Fragmentation Needed, even size 0
    struct Refusing(PathWithLimit);
    impl Transport for Refusing {
        fn send(&mut self, p: &Vec<u8>, d: Ipv4Address) -> Result<(), String> {
            self.0.send(p, d)
        }
        fn receive(&mut self, _t: u64) -> Result<Option<Vec<u8>>, String> {
            self.0.last_size = None;
            Ok(Some(reply_datagram(3)))
        }
    }
    let mut r = Refusing(t);
    let out = discover(&mut r, localhost(), &SearchConfig::standard());
    assert_eq!(out, Err(DiscoverError::LoopLimitExceeded));
    assert_eq!(r.0.sent.len(), 16);
}

#[test]
fn oversized_candidate_fails_to_build() {
    let config = SearchConfig { max_candidate: 200_000, loop_limit: 16, receive_timeout_secs: 1 };
    let r = discover(&mut PathWithLimit::new(0), localhost(), &config);
    assert_eq!(r, Err(DiscoverError::PacketBuild));
}

#[test]
fn small_budget_runs_out() {
    let config = SearchConfig { max_candidate: 1500, loop_limit: 3, receive_timeout_secs: 1 };
    let mut t = PathWithLimit::new(usize::MAX);
    assert_eq!(discover(&mut t, localhost(), &config), Err(DiscoverError::LoopLimitExceeded));
    assert_eq!(t.sent.len(), 3);
}

#[test]
fn advance_narrows_bounds() {
    let b = SearchBounds::initial(1500);
    assert_eq!(b, SearchBounds { min: 0, max: 1500, size: 750 });
    assert_eq!(b.advance(true), Step::Narrowed(SearchBounds { min: 750, max: 1500, size: 1125 }));
    assert_eq!(b.advance(false), Step::Narrowed(SearchBounds { min: 0, max: 750, size: 375 }));
    let adjacent = SearchBounds { min: 41, max: 42, size: 41 };
    assert_eq!(adjacent.advance(true), Step::Converged(41));
    assert_eq!(
        adjacent.advance(false),
        Step::Narrowed(SearchBounds { min: 41, max: 41, size: 41 })
    );
}

#[test]
fn bounds_are_monotone_over_a_run() {
    let outcomes = [true, false, false, true, true, false, true, false, true, true, false];
    let mut b = SearchBounds::initial(1500);
    for r in outcomes {
        let (min, max) = (b.min, b.max);
        if max - min >= 2 {
            assert!(min < b.size && b.size <= max);
        }
        match b.advance(r) {
            Step::Narrowed(n) => {
                assert!(n.min >= min && n.max <= max);
                b = n;
            }
            Step::Converged(_) => break,
        }
    }
}

#[test]
fn classifier_on_own_probe_is_false() {
    // an Echo Request looped back unchanged is not a reply
    assert!(!classify(&build(localhost(), 10).unwrap()));
}

#[test]
fn zero_budget_fails_without_probing() {
    let config = SearchConfig { max_candidate: 1500, loop_limit: 0, receive_timeout_secs: 1 };
    let mut t = PathWithLimit::new(usize::MAX);
    assert_eq!(discover(&mut t, localhost(), &config), Err(DiscoverError::LoopLimitExceeded));
    assert!(t.sent.is_empty());
}

#[test]
fn timeout_response_is_fatal() {
    let b = SearchBounds::initial(1500);
    assert!(matches!(
        handle_response(&b, Ok(None)),
        ProbeResult::Done(Err(DiscoverError::Receive(_)))
    ));
    assert_eq!(
        handle_response(&b, Err("boom".to_string())),
        ProbeResult::Done(Err(DiscoverError::Receive("boom".to_string())))
    );
}

#[test]
fn reply_response_raises_min_or_converges() {
    let b = SearchBounds::initial(1500);
    assert_eq!(
        handle_response(&b, Ok(Some(reply_datagram(0)))),
        ProbeResult::Continue(SearchBounds { min: 750, max: 1500, size: 1125 })
    );
    let adjacent = SearchBounds { min: 1499, max: 1500, size: 1499 };
    assert_eq!(handle_response(&adjacent, Ok(Some(reply_datagram(0)))), ProbeResult::Done(Ok(1527)));
}

#[test]
fn other_response_lowers_max() {
    let b = SearchBounds::initial(1500);
    for t in [3u8, 8, 11] {
        assert_eq!(
            handle_response(&b, Ok(Some(reply_datagram(t)))),
            ProbeResult::Continue(SearchBounds { min: 0, max: 750, size: 375 })
        );
    }
    let collapsed = SearchBounds { min: 0, max: 0, size: 0 };
    assert_eq!(
        handle_response(&collapsed, Ok(Some(reply_datagram(0)))),
        ProbeResult::Continue(SearchBounds { min: 0, max: 0, size: 0 })
    );
}
