//! The binary search over probe payload sizes and its driver over a transport.

use vstd::prelude::*;
use crate::classify::{classify, is_echo_reply};
use crate::packet::{build, Ipv4Address, IP_HEADER_LENGTH, ICMP_HEADER_LENGTH};

verus! {

/// Default exclusive upper bound on the probed payload size.
pub const MAX_CANDIDATE: usize = 1500;

/// Default number of probes before the search gives up.
pub const LOOP_LIMIT: usize = 16;

/// Default time to wait for each reply, in seconds.
pub const RECEIVE_TIMEOUT_SECS: u64 = 2;

/// Parameters of one discovery run.
#[derive(Clone, Copy, Debug, PartialEq, Eq, Structural)]
pub struct SearchConfig {
    /// Initial upper bound: assumed too large, never probed.
    pub max_candidate: usize,
    /// Most probes sent before the run fails.
    pub loop_limit: usize,
    /// Time handed to the transport for each receive, in seconds.
    pub receive_timeout_secs: u64,
}

impl SearchConfig {
    /// The usual parameters: bound 1500, 16 probes, 2 seconds per reply.
    pub fn standard() -> (r: SearchConfig)
        ensures
            r == (SearchConfig {
                max_candidate: MAX_CANDIDATE,
                loop_limit: LOOP_LIMIT,
                receive_timeout_secs: RECEIVE_TIMEOUT_SECS,
            }),
    {
        SearchConfig {
            max_candidate: MAX_CANDIDATE,
            loop_limit: LOOP_LIMIT,
            receive_timeout_secs: RECEIVE_TIMEOUT_SECS,
        }
    }
}

/// The search interval: `min` is the largest size taken to pass, `max` the
/// smallest taken to fail, and `size` the next payload size to probe.
#[derive(Clone, Copy, Debug, PartialEq, Eq, Structural)]
pub struct SearchBounds {
    pub min: usize,
    pub max: usize,
    pub size: usize,
}

/// What one probe's outcome does to the search.
#[derive(Clone, Copy, Debug, PartialEq, Eq, Structural)]
pub enum Step {
    /// The boundary is found: the largest payload size that passes.
    Converged(usize),
    /// The search goes on with narrower bounds.
    Narrowed(SearchBounds),
}

/// The bounds after probing `size`, given whether an Echo Reply came back.
pub open spec fn narrowed(b: SearchBounds, echo_reply: bool) -> SearchBounds {
    if echo_reply {
        SearchBounds { min: b.size, max: b.max, size: ((b.size + b.max) / 2) as usize }
    } else {
        SearchBounds { min: b.min, max: b.size, size: ((b.min + b.size) / 2) as usize }
    }
}

impl SearchBounds {
    /// `min <= max` and `size` is their midpoint, rounded down.
    pub open spec fn wf(self) -> bool {
        self.min <= self.max && self.size == (self.min + self.max) / 2
    }

    pub open spec fn spec_initial(max_candidate: usize) -> SearchBounds {
        SearchBounds { min: 0, max: max_candidate, size: max_candidate / 2 }
    }

    /// A reply at adjacent bounds converges on `size`; otherwise a reply
    /// raises `min` to `size` and its absence lowers `max` to `size`.
    pub open spec fn spec_advance(self, echo_reply: bool) -> Step {
        if echo_reply && self.max == self.min + 1 {
            Step::Converged(self.size)
        } else {
            Step::Narrowed(narrowed(self, echo_reply))
        }
    }

    /// The bounds a run starts from: `[0, max_candidate]`.
    pub fn initial(max_candidate: usize) -> (r: SearchBounds)
        ensures
            r == Self::spec_initial(max_candidate),
            r.wf(),
    {
        SearchBounds { min: 0, max: max_candidate, size: max_candidate / 2 }
    }

    /// Applies the outcome of probing `self.size`.
    pub fn advance(&self, echo_reply: bool) -> (r: Step)
        requires
            self.wf(),
        ensures
            r == self.spec_advance(echo_reply),
            r matches Step::Narrowed(n) ==> n.wf() && self.min <= n.min && n.max <= self.max,
    {
        if echo_reply && self.max > self.min && self.max - self.min == 1 {
            Step::Converged(self.size)
        } else if echo_reply {
            let lo = self.size;
            let hi = self.max;
            Step::Narrowed(SearchBounds { min: lo, max: hi, size: lo + (hi - lo) / 2 })
        } else {
            let lo = self.min;
            let hi = self.size;
            Step::Narrowed(SearchBounds { min: lo, max: hi, size: lo + (hi - lo) / 2 })
        }
    }
}

/// The search from `b` fed the probe outcomes `replies` in order; it stops
/// at the first convergence.
pub open spec fn run(b: SearchBounds, replies: Seq<bool>) -> Step
    decreases replies.len(),
{
    if replies.len() == 0 {
        Step::Narrowed(b)
    } else {
        match b.spec_advance(replies[0]) {
            Step::Converged(s) => Step::Converged(s),
            Step::Narrowed(n) => run(n, replies.drop_first()),
        }
    }
}

/// Feeding one more outcome to a run that has not converged advances it once.
proof fn lemma_run_push(b: SearchBounds, replies: Seq<bool>, echo_reply: bool)
    ensures
        run(b, replies.push(echo_reply)) == match run(b, replies) {
            Step::Converged(s) => Step::Converged(s),
            Step::Narrowed(n) => n.spec_advance(echo_reply),
        },
    decreases replies.len(),
{
    if replies.len() == 0 {
        assert(replies.push(echo_reply).drop_first() =~= Seq::<bool>::empty());
        match b.spec_advance(echo_reply) {
            Step::Converged(_) => {},
            Step::Narrowed(n) => assert(run(n, Seq::<bool>::empty()) == Step::Narrowed(n)),
        }
    } else {
        assert(replies.push(echo_reply).drop_first() =~= replies.drop_first().push(echo_reply));
        match b.spec_advance(replies[0]) {
            Step::Converged(_) => {},
            Step::Narrowed(n) => lemma_run_push(n, replies.drop_first(), echo_reply),
        }
    }
}

/// One step never widens the interval: `min` does not decrease, `max` does
/// not increase and the bounds stay well formed. While `min` and `max` are at
/// least two apart the probed size lies strictly inside them; at any gap it
/// lies within `[min, max]`.
pub proof fn law_step_monotone(b: SearchBounds, echo_reply: bool)
    requires
        b.wf(),
    ensures
        b.min <= b.size <= b.max,
        b.max - b.min >= 2 ==> b.min < b.size < b.max,
        b.spec_advance(echo_reply) matches Step::Narrowed(n) ==> n.wf() && b.min <= n.min
            && n.max <= b.max,
{
}

/// Over any run, the bounds reached are well formed and lie within the bounds
/// the run started from.
pub proof fn law_run_monotone(b: SearchBounds, replies: Seq<bool>)
    requires
        b.wf(),
    ensures
        run(b, replies) matches Step::Narrowed(n) ==> n.wf() && b.min <= n.min && n.max <= b.max,
    decreases replies.len(),
{
    if replies.len() > 0 {
        match b.spec_advance(replies[0]) {
            Step::Converged(_) => {},
            Step::Narrowed(n) => law_run_monotone(n, replies.drop_first()),
        }
    }
}

/// `2` to the power `k`.
pub open spec fn pow2(k: nat) -> nat
    decreases k,
{
    if k == 0 {
        1
    } else {
        2 * pow2((k - 1) as nat)
    }
}

/// `n` outcomes that are all Echo Replies.
pub open spec fn all_replies(n: nat) -> Seq<bool> {
    Seq::new(n, |i: int| true)
}

/// From bounds at most `2^j` apart, `j + 1` replies converge on `max - 1`.
proof fn lemma_replies_converge(b: SearchBounds, j: nat)
    requires
        b.wf(),
        b.min < b.max,
        b.max - b.min <= pow2(j),
    ensures
        run(b, all_replies(j + 1)) == Step::Converged((b.max - 1) as usize),
    decreases j,
{
    let rs = all_replies(j + 1);
    if b.max - b.min == 1 {
        assert(b.spec_advance(rs[0]) == Step::Converged((b.max - 1) as usize));
    } else {
        assert(j > 0);
        let n = narrowed(b, true);
        assert(n.max - n.min <= pow2((j - 1) as nat));
        assert(rs.drop_first() =~= all_replies(j));
        lemma_replies_converge(n, (j - 1) as nat);
    }
}

/// Against a path that answers every probe, a search from `[0, max_candidate]`
/// with `max_candidate <= 2^k` converges within `k + 1` probes on
/// `max_candidate - 1`, so discovery reports `max_candidate - 1 + 28`.
pub proof fn law_replies_converge(max_candidate: usize, k: nat)
    requires
        1 <= max_candidate <= pow2(k),
    ensures
        run(SearchBounds::spec_initial(max_candidate), all_replies(k + 1)) == Step::Converged(
            (max_candidate - 1) as usize,
        ),
{
    lemma_replies_converge(SearchBounds::spec_initial(max_candidate), k);
}

/// With the standard parameters, 12 replies (the ceiling of log2 of 1500,
/// plus one) converge on payload 1499, inside the budget of 16 probes.
pub proof fn law_standard_replies_converge()
    ensures
        run(SearchBounds::spec_initial(MAX_CANDIDATE), all_replies(12)) == Step::Converged(
            1499,
        ),
        12 <= LOOP_LIMIT,
{
    reveal_with_fuel(pow2, 12);
    assert(pow2(11) == 2048);
    law_replies_converge(MAX_CANDIDATE, 11);
}

/// Why a discovery run failed.
#[derive(Clone, Debug, PartialEq, Eq)]
pub enum DiscoverError {
    /// The program was invoked wrongly.
    Argument(String),
    /// A probe of the candidate size could not be built.
    PacketBuild,
    /// The raw channel could not be opened.
    TransportOpen(String),
    /// The transport failed to send a probe.
    Send(String),
    /// No reply came within the timeout, or receiving failed.
    Receive(String),
    /// The probe budget ran out before the search converged.
    LoopLimitExceeded,
}

/// A channel that sends raw IPv4 datagrams and receives them with a timeout.
pub trait Transport {
    /// Sends the complete datagram `packet` towards `destination`.
    fn send(&mut self, packet: &Vec<u8>, destination: Ipv4Address) -> Result<(), String>;

    /// Waits up to `timeout_secs` seconds for a datagram; `Ok(None)` on timeout.
    fn receive(&mut self, timeout_secs: u64) -> Result<Option<Vec<u8>>, String>;
}

/// What one received response does to a discovery run.
#[derive(Debug, PartialEq, Eq)]
pub enum ProbeResult {
    /// The run ends with this result.
    Done(Result<u16, DiscoverError>),
    /// The run goes on with these bounds.
    Continue(SearchBounds),
}

/// Decides what the transport's answer to the probe of `bounds.size` does.
/// A timeout or a receive failure ends the run with a receive error, the
/// bounds left as they were; a datagram is classified and advances the search,
/// and convergence reports the payload size plus both headers.
pub fn handle_response(bounds: &SearchBounds, response: Result<Option<Vec<u8>>, String>) -> (r:
    ProbeResult)
    requires
        bounds.wf(),
        bounds.size + 28 <= 65535,
    ensures
        response matches Ok(None) ==> r matches ProbeResult::Done(Err(DiscoverError::Receive(_))),
        response matches Err(e) ==> r == ProbeResult::Done(Err(DiscoverError::Receive(e))),
        response matches Ok(Some(p)) ==> r == match bounds.spec_advance(is_echo_reply(p@)) {
            Step::Converged(s) => ProbeResult::Done(Ok((s + 28) as u16)),
            Step::Narrowed(n) => ProbeResult::Continue(n),
        },
{
    let datagram = match response {
        Ok(Some(p)) => p,
        Ok(None) => {
            return ProbeResult::Done(
                Err(DiscoverError::Receive("no reply within the timeout".to_string())),
            );
        },
        Err(e) => return ProbeResult::Done(Err(DiscoverError::Receive(e))),
    };
    match bounds.advance(classify(datagram.as_slice())) {
        Step::Converged(size) => ProbeResult::Done(
            Ok((size + IP_HEADER_LENGTH + ICMP_HEADER_LENGTH) as u16),
        ),
        Step::Narrowed(next) => ProbeResult::Continue(next),
    }
}

/// Discovers the path MTU towards `dest`: probes with Echo Requests of
/// binary-searched payload sizes until a reply arrives at adjacent bounds,
/// and returns that payload size plus both headers. Any build, send or
/// receive failure, a timeout included, ends the run at once.
///
/// Whatever the transport does, a success is the result of the search fed
/// some sequence of at most `loop_limit` outcomes, and running out of probes
/// means that `loop_limit` outcomes left it unconverged.
pub fn discover<T: Transport>(transport: &mut T, dest: Ipv4Address, config: &SearchConfig) -> (r:
    Result<u16, DiscoverError>)
    requires
        config.max_candidate >= 1,
    ensures
        r matches Ok(m) ==> m >= 28 && exists|replies: Seq<bool>|
            replies.len() <= config.loop_limit && #[trigger] run(
                SearchBounds::spec_initial(config.max_candidate),
                replies,
            ) == Step::Converged((m - 28) as usize),
        r matches Err(DiscoverError::LoopLimitExceeded) ==> exists|replies: Seq<bool>|
            replies.len() == config.loop_limit && #[trigger] run(
                SearchBounds::spec_initial(config.max_candidate),
                replies,
            ) is Narrowed,
        r matches Ok(m) ==> m < config.max_candidate + 28,
        config.loop_limit == 0 ==> r matches Err(DiscoverError::LoopLimitExceeded),
        config.loop_limit > 0 && config.max_candidate / 2 + 28 > 65535 ==> r matches Err(
            DiscoverError::PacketBuild,
        ),
        config.max_candidate + 28 <= 65535 ==> !(r matches Err(DiscoverError::PacketBuild)),
        !(r matches Err(DiscoverError::Argument(_))),
        !(r matches Err(DiscoverError::TransportOpen(_))),
{
    let ghost start = SearchBounds::spec_initial(config.max_candidate);
    let ghost replies: Seq<bool> = Seq::empty();
    let mut bounds = SearchBounds::initial(config.max_candidate);
    let mut i: usize = 0;
    while i < config.loop_limit
        invariant
            i <= config.loop_limit,
            replies.len() == i,
            bounds.wf(),
            bounds.max <= config.max_candidate,
            run(start, replies) == Step::Narrowed(bounds),
            start == SearchBounds::spec_initial(config.max_candidate),
            i == 0 ==> bounds == start,
            config.max_candidate / 2 + 28 > 65535 ==> i == 0,
        decreases config.loop_limit - i,
    {
        let probe = match build(dest, bounds.size) {
            Ok(p) => p,
            Err(_) => return Err(DiscoverError::PacketBuild),
        };
        match transport.send(&probe, dest) {
            Ok(()) => {},
            Err(e) => return Err(DiscoverError::Send(e)),
        }
        let response = transport.receive(config.receive_timeout_secs);
        let ghost reply = response is Ok && response->Ok_0 is Some && is_echo_reply(
            response->Ok_0->Some_0@,
        );
        match handle_response(&bounds, response) {
            ProbeResult::Done(Ok(mtu)) => {
                proof {
                    lemma_run_push(start, replies, reply);
                    replies = replies.push(reply);
                }
                assert(run(start, replies) == Step::Converged((mtu - 28) as usize));
                return Ok(mtu);
            },
            ProbeResult::Done(Err(e)) => {
                return Err(e);
            },
            ProbeResult::Continue(next) => {
                proof {
                    lemma_run_push(start, replies, reply);
                    replies = replies.push(reply);
                }
                bounds = next;
            },
        }
        i = i + 1;
    }
    assert(run(start, replies) is Narrowed);
    Err(DiscoverError::LoopLimitExceeded)
}

} // verus!
