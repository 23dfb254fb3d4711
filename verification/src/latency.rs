//! Estimating the one-way latency to a peer from ping and pong.
//!
//! A ping carries the sender's wall-clock time as its name. When the pong
//! with that name comes back, the time that passed on the monotonic clock is
//! one round trip. The latest few round trips of each peer are averaged, and
//! half the average stands for the one-way latency.

use crate::clock::{current_time_ms, elapsed_between, elapsed_ns, MonotonicClock, NANOS_PER_MILLI};
use crate::string_map::StringMap;
use std::collections::HashMap;
use vstd::prelude::*;
use vstd::set_lib::{lemma_int_range, lemma_len_subset, lemma_map_size_bound, set_int_range};

verus! {

broadcast use vstd::std_specs::hash::group_hash_axioms;

/// The number of round trips that are kept for the average.
pub const RTT_SAMPLE_COUNT: usize = 5;

/// The one-way latency assumed while nothing was measured, in milliseconds.
pub const DEFAULT_LATENCY_MS: u64 = 10;

/// A ping without a pong is forgotten after this many nanoseconds.
pub const PENDING_PING_TTL_NS: u64 = 10_000_000_000;

/// The sum of the samples.
pub open spec fn sum(samples: Seq<u64>) -> nat
    decreases samples.len(),
{
    if samples.len() == 0 {
        0
    } else {
        sum(samples.drop_last()) + samples.last() as nat
    }
}

/// The average round trip: the mean of the samples, rounded down, or twice
/// the default latency where there is none.
pub open spec fn average_rtt(samples: Seq<u64>) -> nat {
    if samples.len() == 0 {
        (2 * DEFAULT_LATENCY_MS) as nat
    } else {
        sum(samples) / samples.len()
    }
}

/// The samples with one more, the oldest dropped when `RTT_SAMPLE_COUNT` are
/// already there.
pub open spec fn with_sample(samples: Seq<u64>, rtt_ms: u64) -> Seq<u64> {
    if samples.len() >= RTT_SAMPLE_COUNT {
        samples.drop_first().push(rtt_ms)
    } else {
        samples.push(rtt_ms)
    }
}

/// The sum of samples is at most their number times the largest `u64`.
pub proof fn lemma_sum_bound(samples: Seq<u64>)
    ensures
        sum(samples) <= samples.len() * u64::MAX,
    decreases samples.len(),
{
    if samples.len() > 0 {
        lemma_sum_bound(samples.drop_last());
        assert((samples.len() - 1) * u64::MAX + u64::MAX == samples.len() * u64::MAX)
            by (nonlinear_arith);
    }
}

/// The round trips measured to one peer.
#[derive(Debug)]
pub struct PeerLatency {
    samples: Vec<u64>,
    avg_rtt_ms: u64,
}

impl PeerLatency {
    /// The samples, oldest first.
    pub closed spec fn samples(&self) -> Seq<u64> {
        self.samples@
    }

    #[verifier::type_invariant]
    spec fn inv(&self) -> bool {
        &&& self.samples@.len() <= RTT_SAMPLE_COUNT
        &&& self.avg_rtt_ms == average_rtt(self.samples@)
    }

    /// No samples yet.
    pub fn new() -> (latency: Self)
        ensures
            latency.samples() == Seq::<u64>::empty(),
    {
        PeerLatency { samples: Vec::new(), avg_rtt_ms: DEFAULT_LATENCY_MS * 2 }
    }

    /// The mean of `samples`, rounded down.
    fn mean(samples: &Vec<u64>) -> (mean: u64)
        requires
            0 < samples@.len() <= RTT_SAMPLE_COUNT,
        ensures
            mean == average_rtt(samples@),
    {
        let mut total: u128 = 0;
        let mut i: usize = 0;
        while i < samples.len()
            invariant
                i <= samples@.len() <= RTT_SAMPLE_COUNT,
                total == sum(samples@.take(i as int)),
                total <= i * u64::MAX,
            decreases samples@.len() - i,
        {
            proof {
                assert(samples@.take(i + 1).drop_last() == samples@.take(i as int));
                lemma_sum_bound(samples@.take(i + 1));
            }
            total = total + samples[i] as u128;
            i = i + 1;
        }
        proof {
            assert(samples@.take(samples@.len() as int) == samples@);
            lemma_sum_bound(samples@);
            let n = samples@.len();
            assert(sum(samples@) / n <= u64::MAX) by (nonlinear_arith)
                requires
                    sum(samples@) <= n * u64::MAX,
                    n > 0,
            ;
        }
        (total / (samples.len() as u128)) as u64
    }

    /// Takes one more round trip in.
    pub fn add_sample(&mut self, rtt_ms: u64)
        ensures
            final(self).samples() == with_sample(old(self).samples(), rtt_ms),
    {
        proof {
            use_type_invariant(&*self);
        }
        let mut taken = PeerLatency::new();
        core::mem::swap(self, &mut taken);
        let mut samples = taken.samples;
        if samples.len() >= RTT_SAMPLE_COUNT {
            samples.remove(0);
        }
        samples.push(rtt_ms);
        let avg_rtt_ms = PeerLatency::mean(&samples);
        *self = PeerLatency { samples, avg_rtt_ms };
    }

    /// The average round trip in milliseconds.
    pub fn avg_rtt_ms(&self) -> (avg: u64)
        ensures
            avg == average_rtt(self.samples()),
    {
        proof {
            use_type_invariant(self);
        }
        self.avg_rtt_ms
    }

    /// The estimated one-way latency in milliseconds: half the average round
    /// trip.
    pub fn one_way_latency_ms(&self) -> (latency: u64)
        ensures
            latency == average_rtt(self.samples()) / 2,
    {
        proof {
            use_type_invariant(self);
        }
        self.avg_rtt_ms / 2
    }
}

impl Clone for PeerLatency {
    fn clone(&self) -> (copy: Self)
        ensures
            copy.samples() == self.samples(),
    {
        proof {
            use_type_invariant(self);
        }
        PeerLatency { samples: self.samples.clone(), avg_rtt_ms: self.avg_rtt_ms }
    }
}


/// Whether a ping sent at `sent_at_ns` is still awaited at `now_ns`: less
/// than `PENDING_PING_TTL_NS` have passed.
pub open spec fn is_fresh(sent_at_ns: u64, now_ns: u64) -> bool {
    elapsed_ns(sent_at_ns, now_ns) < PENDING_PING_TTL_NS
}

/// Whether a ping sent at `sent_at_ns` is still awaited at `now_ns`.
pub fn ping_is_fresh(sent_at_ns: u64, now_ns: u64) -> (fresh: bool)
    ensures
        fresh == is_fresh(sent_at_ns, now_ns),
{
    elapsed_between(sent_at_ns, now_ns) < PENDING_PING_TTL_NS
}

/// The pings of `pending` that are still awaited at `now_ns`.
pub open spec fn fresh_pings(pending: Map<u64, u64>, now_ns: u64) -> Map<u64, u64> {
    pending.restrict(
        Set::new(|timestamp_ms: u64| pending.contains_key(timestamp_ms) && is_fresh(pending[timestamp_ms], now_ns)),
    )
}

/// `HashMap::retain` with the freshness test: every ping for which the test
/// fails is taken out, the others stay as they are.
#[verifier::external_body]
fn retain_fresh(pending: &mut HashMap<u64, u64>, now_ns: u64)
    ensures
        final(pending)@ == fresh_pings(old(pending)@, now_ns),
{
    pending.retain(|_, sent_at_ns| ping_is_fresh(*sent_at_ns, now_ns));
}

/// What a tracker holds, as mathematics.
pub struct TrackerState {
    /// The pings without a pong: from the wall-clock time that names the
    /// ping to the monotonic time at which it was sent.
    pub pending: Map<u64, u64>,
    /// The latest round trips of each peer that answered, oldest first.
    pub samples: Map<Seq<char>, Seq<u64>>,
    /// The peer whose latency is the host latency.
    pub host: Option<Seq<char>>,
}

impl TrackerState {
    /// Nothing pending, nothing measured, no host.
    pub open spec fn empty() -> TrackerState {
        TrackerState { pending: Map::empty(), samples: Map::empty(), host: None }
    }

    /// The state after a ping named `timestamp_ms` was sent at `now_ns`:
    /// the ping is pending, and every ping that is no longer fresh is
    /// forgotten.
    pub open spec fn ping_created(self, timestamp_ms: u64, now_ns: u64) -> TrackerState {
        TrackerState {
            pending: fresh_pings(self.pending.insert(timestamp_ms, now_ns), now_ns),
            ..self
        }
    }

    /// The round trip, in milliseconds, that a pong for the ping named
    /// `timestamp_ms` measures at `now_ns`, if that ping is pending.
    pub open spec fn pong_rtt(self, timestamp_ms: u64, now_ns: u64) -> Option<u64> {
        if self.pending.contains_key(timestamp_ms) {
            Some((elapsed_ns(self.pending[timestamp_ms], now_ns) / NANOS_PER_MILLI as nat) as u64)
        } else {
            None
        }
    }

    /// The samples of `peer`, none where it never answered.
    pub open spec fn samples_of(self, peer: Seq<char>) -> Seq<u64> {
        if self.samples.contains_key(peer) {
            self.samples[peer]
        } else {
            Seq::empty()
        }
    }

    /// The state after a pong from `peer` for the ping named `timestamp_ms`
    /// came in at `now_ns`: unchanged where no such ping is pending, else
    /// without that ping and with its round trip among the peer's samples.
    pub open spec fn pong_handled(self, peer: Seq<char>, timestamp_ms: u64, now_ns: u64) -> TrackerState {
        match self.pong_rtt(timestamp_ms, now_ns) {
            None => self,
            Some(rtt_ms) => TrackerState {
                pending: self.pending.remove(timestamp_ms),
                samples: self.samples.insert(peer, with_sample(self.samples_of(peer), rtt_ms)),
                ..self
            },
        }
    }

    /// The estimated one-way latency to `peer` in milliseconds: half its
    /// average round trip, or the default where it never answered.
    pub open spec fn peer_latency(self, peer: Seq<char>) -> nat {
        if self.samples.contains_key(peer) {
            average_rtt(self.samples[peer]) / 2
        } else {
            DEFAULT_LATENCY_MS as nat
        }
    }

    /// The estimated one-way latency to the host, or the default where no
    /// host is set.
    pub open spec fn host_latency(self) -> nat {
        match self.host {
            Some(host) => self.peer_latency(host),
            None => DEFAULT_LATENCY_MS as nat,
        }
    }
}

/// Measures the round trips to the peers of a room.
pub struct LatencyTracker {
    clock: MonotonicClock,
    pending_pings: HashMap<u64, u64>,
    peer_latencies: StringMap<PeerLatency>,
    host_peer_id: Option<String>,
}

impl View for LatencyTracker {
    type V = TrackerState;

    closed spec fn view(&self) -> TrackerState {
        TrackerState {
            pending: self.pending_pings@,
            samples: Map::new(
                |peer: Seq<char>| self.peer_latencies@.contains_key(peer),
                |peer: Seq<char>| self.peer_latencies@[peer].samples(),
            ),
            host: match self.host_peer_id {
                Some(host) => Some(host@),
                None => None,
            },
        }
    }
}

impl LatencyTracker {
    /// The clock that the tracker reads.
    pub closed spec fn clock(&self) -> MonotonicClock {
        self.clock
    }

    /// A tracker that has sent and measured nothing.
    pub fn new() -> (tracker: Self)
        ensures
            tracker@ == TrackerState::empty(),
    {
        LatencyTracker::with_clock(MonotonicClock::start())
    }

    /// A tracker that has sent and measured nothing and reads `clock`.
    pub fn with_clock(clock: MonotonicClock) -> (tracker: Self)
        ensures
            tracker@ == TrackerState::empty(),
            tracker.clock() == clock,
    {
        let tracker = LatencyTracker {
            clock,
            pending_pings: HashMap::new(),
            peer_latencies: StringMap::new(),
            host_peer_id: None,
        };
        proof {
            assert(tracker@.samples =~= Map::<Seq<char>, Seq<u64>>::empty());
        }
        tracker
    }

    /// Names the peer whose latency is the host latency.
    pub fn set_host(&mut self, peer_id: String)
        ensures
            final(self)@ == (TrackerState { host: Some(peer_id@), ..old(self)@ }),
    {
        self.host_peer_id = Some(peer_id);
    }

    /// Forgets everything, as when the room is left.
    pub fn clear(&mut self)
        ensures
            final(self)@ == TrackerState::empty(),
    {
        self.pending_pings.clear();
        self.peer_latencies.clear();
        self.host_peer_id = None;
        proof {
            assert(self@.samples =~= Map::<Seq<char>, Seq<u64>>::empty());
        }
    }

    /// The present reading of the tracker's monotonic clock, in
    /// nanoseconds.
    pub fn now_ns(&self) -> u64 {
        self.clock.now_ns()
    }

    /// Records a ping named `timestamp_ms` as sent at `now_ns` and forgets
    /// the pings that are no longer fresh. Returns the name, which goes into
    /// the `Ping` message.
    pub fn create_ping_at(&mut self, timestamp_ms: u64, now_ns: u64) -> (name: u64)
        ensures
            name == timestamp_ms,
            final(self)@ == old(self)@.ping_created(timestamp_ms, now_ns),
    {
        self.pending_pings.insert(timestamp_ms, now_ns);
        retain_fresh(&mut self.pending_pings, now_ns);
        timestamp_ms
    }

    /// Records a ping named by the wall clock as sent now. Returns the
    /// name, which goes into the `Ping` message.
    pub fn create_ping(&mut self) -> (name: u64)
        ensures
            exists|now_ns: u64| final(self)@ == old(self)@.ping_created(name, now_ns),
    {
        let now_ns = self.now_ns();
        let timestamp_ms = current_time_ms();
        self.create_ping_at(timestamp_ms, now_ns)
    }

    /// Takes in a pong that came from `from_peer` at `now_ns` for the ping
    /// named `original_timestamp_ms`. Returns the round trip in
    /// milliseconds, or nothing where no such ping is pending.
    pub fn handle_pong_at(&mut self, from_peer: &str, original_timestamp_ms: u64, now_ns: u64) -> (rtt_ms: Option<u64>)
        ensures
            rtt_ms == old(self)@.pong_rtt(original_timestamp_ms, now_ns),
            final(self)@ == old(self)@.pong_handled(from_peer@, original_timestamp_ms, now_ns),
    {
        let sent_at_ns = match self.pending_pings.remove(&original_timestamp_ms) {
            Some(sent_at_ns) => sent_at_ns,
            None => {
                assert(self.pending_pings@ =~= old(self).pending_pings@);
                return None;
            },
        };
        let rtt_ms = elapsed_between(sent_at_ns, now_ns) / NANOS_PER_MILLI;
        let mut latency = match self.peer_latencies.get(from_peer) {
            Some(known) => known.clone(),
            None => PeerLatency::new(),
        };
        latency.add_sample(rtt_ms);
        self.peer_latencies.insert(from_peer.to_owned(), latency);
        proof {
            assert(self@.samples =~= old(self)@.samples.insert(
                from_peer@,
                with_sample(old(self)@.samples_of(from_peer@), rtt_ms),
            ));
        }
        Some(rtt_ms)
    }

    /// Takes in a pong that came from `from_peer` just now.
    pub fn handle_pong(&mut self, from_peer: &str, original_timestamp_ms: u64) -> (rtt_ms: Option<u64>)
        ensures
            exists|now_ns: u64|
                rtt_ms == old(self)@.pong_rtt(original_timestamp_ms, now_ns) && final(self)@ == old(
                    self,
                )@.pong_handled(from_peer@, original_timestamp_ms, now_ns),
    {
        let now_ns = self.now_ns();
        self.handle_pong_at(from_peer, original_timestamp_ms, now_ns)
    }

    /// The estimated one-way latency to `peer_id` in milliseconds.
    pub fn peer_latency_ms(&self, peer_id: &str) -> (latency: u64)
        ensures
            latency == self@.peer_latency(peer_id@),
    {
        match self.peer_latencies.get(peer_id) {
            Some(known) => known.one_way_latency_ms(),
            None => DEFAULT_LATENCY_MS,
        }
    }

    /// The estimated one-way latency to the host in milliseconds.
    pub fn host_latency_ms(&self) -> (latency: u64)
        ensures
            latency == self@.host_latency(),
    {
        match &self.host_peer_id {
            Some(host) => self.peer_latency_ms(host.as_str()),
            None => DEFAULT_LATENCY_MS,
        }
    }
}

impl Default for LatencyTracker {
    fn default() -> (tracker: Self)
        ensures
            tracker@ == TrackerState::empty(),
    {
        LatencyTracker::new()
    }
}

/// Creating a ping purges: afterwards every pending ping is fresh, and none
/// is pending that was not pending before or was just created.
pub proof fn lemma_create_ping_purges(state: TrackerState, timestamp_ms: u64, now_ns: u64)
    ensures
        forall|t: u64| #[trigger]
            state.ping_created(timestamp_ms, now_ns).pending.contains_key(t) ==> is_fresh(
                state.ping_created(timestamp_ms, now_ns).pending[t],
                now_ns,
            ),
        forall|t: u64| #[trigger]
            state.ping_created(timestamp_ms, now_ns).pending.contains_key(t) ==> t == timestamp_ms
                || state.pending.contains_key(t),
        state.ping_created(timestamp_ms, now_ns).pending.contains_key(timestamp_ms),
{
}

/// The state after pings were created one after the other, each given by
/// its name and the monotonic time at which it was sent, with no pong coming
/// in.
pub open spec fn after_pings(state: TrackerState, pings: Seq<(u64, u64)>) -> TrackerState
    decreases pings.len(),
{
    if pings.len() == 0 {
        state
    } else {
        after_pings(state, pings.drop_last()).ping_created(pings.last().0, pings.last().1)
    }
}

/// The positions of the pings that are still fresh when the last one is
/// sent.
pub open spec fn fresh_positions(pings: Seq<(u64, u64)>) -> Set<int> {
    Set::new(|i: int| 0 <= i < pings.len() && is_fresh(pings[i].1, pings.last().1))
}

/// Every ping that is pending after a run of pings is one of the run, was
/// sent when the run says, and is fresh at the end of the run.
proof fn lemma_pending_come_from_pings(pings: Seq<(u64, u64)>, t: u64)
    requires
        after_pings(TrackerState::empty(), pings).pending.contains_key(t),
    ensures
        exists|i: int|
            fresh_positions(pings).contains(i) && (#[trigger] pings[i]).0 == t && pings[i].1
                == after_pings(TrackerState::empty(), pings).pending[t],
    decreases pings.len(),
{
    if pings.len() > 0 {
        let before = after_pings(TrackerState::empty(), pings.drop_last());
        let last = pings.last();
        if t == last.0 {
            let i = pings.len() - 1;
            assert(fresh_positions(pings).contains(i) && pings[i].0 == t);
        } else {
            assert(before.pending.contains_key(t));
            lemma_pending_come_from_pings(pings.drop_last(), t);
            let i = choose|i: int|
                fresh_positions(pings.drop_last()).contains(i) && (#[trigger] pings.drop_last()[i]).0
                    == t && pings.drop_last()[i].1 == before.pending[t];
            assert(pings[i] == pings.drop_last()[i]);
            assert(fresh_positions(pings).contains(i) && pings[i].0 == t);
        }
    }
}

/// While no pong arrives the pending pings stay bounded: after any run of
/// pings, every pending ping was sent less than `PENDING_PING_TTL_NS` before
/// the last one, and there are at most as many pending as pings of the run
/// were sent in that time.
pub proof fn lemma_pending_pings_bounded(pings: Seq<(u64, u64)>)
    requires
        pings.len() > 0,
    ensures
        forall|t: u64| #[trigger]
            after_pings(TrackerState::empty(), pings).pending.contains_key(t) ==> is_fresh(
                after_pings(TrackerState::empty(), pings).pending[t],
                pings.last().1,
            ),
        fresh_positions(pings).finite(),
        after_pings(TrackerState::empty(), pings).pending.dom().finite(),
        after_pings(TrackerState::empty(), pings).pending.dom().len() <= fresh_positions(
            pings,
        ).len() <= pings.len(),
{
    let pending = after_pings(TrackerState::empty(), pings).pending;
    let positions = fresh_positions(pings);
    let name = |i: int| pings[i].0;
    lemma_int_range(0, pings.len() as int);
    assert(positions.subset_of(set_int_range(0, pings.len() as int)));
    lemma_len_subset(positions, set_int_range(0, pings.len() as int));
    lemma_map_size_bound(positions, positions.map(name), name);
    assert forall|t: u64| pending.dom().contains(t) implies positions.map(name).contains(t) by {
        lemma_pending_come_from_pings(pings, t);
        let i = choose|i: int|
            positions.contains(i) && (#[trigger] pings[i]).0 == t && pings[i].1 == pending[t];
        assert(name(i) == t);
    }
    lemma_len_subset(pending.dom(), positions.map(name));
    lemma_create_ping_purges(
        after_pings(TrackerState::empty(), pings.drop_last()),
        pings.last().0,
        pings.last().1,
    );
}

} // verus!
