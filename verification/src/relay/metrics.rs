//! What the relay counts and remembers of itself.
//!
//! Counters stop at the largest value that they can hold.

use crate::sync::protocol::option_string_view;
use crate::text::{chars_of, push_signed_decimal, signed_decimal};
use std::collections::VecDeque;
use vstd::prelude::*;
use vstd::string::StringExecFns;

verus! {

/// The number of log entries that are kept.
pub const MAX_LOG_ENTRIES: usize = 100;

/// Peer ids of more than this many characters are shown shortened.
pub const FULL_PEER_ID_LEN: usize = 16;

/// The number of characters shown of the head of a shortened peer id.
pub const PEER_ID_HEAD: usize = 8;

/// The number of characters shown of the tail of a shortened peer id.
pub const PEER_ID_TAIL: usize = 4;

/// `chrono::Local::now`, as milliseconds since the Unix epoch. Nothing is
/// claimed of the reading.
#[verifier::external_body]
fn local_now_ms() -> i64 {
    chrono::Local::now().timestamp_millis()
}

/// What a log entry is about.
#[derive(Debug, Clone, Copy, PartialEq, Eq)]
pub enum LogLevel {
    Info,
    Warning,
    Error,
    Connection,
    Relay,
}

impl LogLevel {
    /// The level as the log shows it.
    pub open spec fn label(self) -> Seq<char> {
        match self {
            LogLevel::Info => "INFO"@,
            LogLevel::Warning => "WARN"@,
            LogLevel::Error => "ERROR"@,
            LogLevel::Connection => "CONN"@,
            LogLevel::Relay => "RELAY"@,
        }
    }

    /// The level as the log shows it.
    pub fn as_str(&self) -> (label: &'static str)
        ensures
            label@ == self.label(),
    {
        match self {
            LogLevel::Info => "INFO",
            LogLevel::Warning => "WARN",
            LogLevel::Error => "ERROR",
            LogLevel::Connection => "CONN",
            LogLevel::Relay => "RELAY",
        }
    }
}

/// How the relay is doing.
#[derive(Debug, Clone, Copy, PartialEq, Eq)]
pub enum ServerStatus {
    Starting,
    Running,
    Error,
}

/// One line of the log.
#[derive(Debug, PartialEq, Eq)]
pub struct LogEntry {
    /// Milliseconds since the Unix epoch.
    pub timestamp_ms: i64,
    pub level: LogLevel,
    pub message: String,
}

/// A [`LogEntry`] as mathematics.
pub struct LogEntryView {
    pub timestamp_ms: i64,
    pub level: LogLevel,
    pub message: Seq<char>,
}

impl View for LogEntry {
    type V = LogEntryView;

    open spec fn view(&self) -> LogEntryView {
        LogEntryView { timestamp_ms: self.timestamp_ms, level: self.level, message: self.message@ }
    }
}

/// A peer that is connected to the relay.
#[derive(Debug, PartialEq, Eq)]
pub struct PeerInfo {
    pub peer_id: String,
    /// What the peer said it speaks, once it has said so.
    pub protocol: Option<String>,
    /// Milliseconds since the Unix epoch.
    pub connected_at_ms: i64,
    pub has_reservation: bool,
}

/// A [`PeerInfo`] as mathematics.
pub struct PeerInfoView {
    pub peer_id: Seq<char>,
    pub protocol: Option<Seq<char>>,
    pub connected_at_ms: i64,
    pub has_reservation: bool,
}

impl View for PeerInfo {
    type V = PeerInfoView;

    open spec fn view(&self) -> PeerInfoView {
        PeerInfoView {
            peer_id: self.peer_id@,
            protocol: option_string_view(self.protocol),
            connected_at_ms: self.connected_at_ms,
            has_reservation: self.has_reservation,
        }
    }
}

/// A peer id as it is shown: whole if it has at most `FULL_PEER_ID_LEN`
/// characters, else its first `PEER_ID_HEAD`, three dots, and its last
/// `PEER_ID_TAIL`.
pub open spec fn short_id(peer_id: Seq<char>) -> Seq<char> {
    if peer_id.len() > FULL_PEER_ID_LEN {
        peer_id.take(PEER_ID_HEAD as int) + "..."@ + peer_id.skip(peer_id.len() - PEER_ID_TAIL)
    } else {
        peer_id
    }
}

/// A peer id as it is shown.
pub fn truncate_peer_id(peer_id: &str) -> (shown: String)
    ensures
        shown@ == short_id(peer_id@),
{
    let chars = chars_of(peer_id);
    if chars.len() <= FULL_PEER_ID_LEN {
        return String::from_str(peer_id);
    }
    let mut shown = String::new();
    let mut i: usize = 0;
    while i < PEER_ID_HEAD
        invariant
            i <= PEER_ID_HEAD,
            chars@.len() > FULL_PEER_ID_LEN,
            shown@ == chars@.take(i as int),
        decreases PEER_ID_HEAD - i,
    {
        shown.push(chars[i]);
        i = i + 1;
    }
    shown.append("...");
    let start = chars.len() - PEER_ID_TAIL;
    let mut j: usize = start;
    while j < chars.len()
        invariant
            start <= j <= chars@.len(),
            start == chars@.len() - PEER_ID_TAIL,
            chars@.len() > FULL_PEER_ID_LEN,
            shown@ == chars@.take(PEER_ID_HEAD as int) + "..."@ + chars@.subrange(
                start as int,
                j as int,
            ),
        decreases chars@.len() - j,
    {
        shown.push(chars[j]);
        proof {
            assert(chars@.subrange(start as int, j + 1) == chars@.subrange(
                start as int,
                j as int,
            ).push(chars@[j as int]));
        }
        j = j + 1;
    }
    proof {
        assert(chars@.subrange(start as int, chars@.len() as int) == chars@.skip(start as int));
    }
    shown
}

/// The whole seconds from `start_ms` to `now_ms`, rounded towards zero.
pub open spec fn whole_seconds(start_ms: i64, now_ms: i64) -> int {
    if now_ms >= start_ms {
        (now_ms - start_ms) / 1000
    } else {
        -((start_ms - now_ms) / 1000)
    }
}

/// A number of seconds as the dashboard shows it: seconds below a minute,
/// minutes and seconds below an hour, hours and minutes from then on.
pub open spec fn uptime_text(seconds: int) -> Seq<char> {
    if seconds < 60 {
        signed_decimal(seconds) + "s"@
    } else if seconds < 3600 {
        signed_decimal(seconds / 60) + "m "@ + signed_decimal(seconds % 60) + "s"@
    } else {
        signed_decimal(seconds / 3600) + "h "@ + signed_decimal((seconds % 3600) / 60) + "m"@
    }
}

/// A number of seconds as the dashboard shows it.
pub fn format_uptime(seconds: i64) -> (text: String)
    ensures
        text@ == uptime_text(seconds as int),
{
    let mut text = String::new();
    if seconds < 60 {
        push_signed_decimal(&mut text, seconds);
        text.append("s");
    } else if seconds < 3600 {
        push_signed_decimal(&mut text, seconds / 60);
        text.append("m ");
        push_signed_decimal(&mut text, seconds % 60);
        text.append("s");
    } else {
        push_signed_decimal(&mut text, seconds / 3600);
        text.append("h ");
        push_signed_decimal(&mut text, (seconds % 3600) / 60);
        text.append("m");
    }
    text
}

/// The log with one more entry, the oldest dropped when `MAX_LOG_ENTRIES`
/// are already there.
pub open spec fn with_entry(logs: Seq<LogEntryView>, entry: LogEntryView) -> Seq<LogEntryView> {
    if logs.len() >= MAX_LOG_ENTRIES {
        logs.drop_first().push(entry)
    } else {
        logs.push(entry)
    }
}

/// Whether `peer_id` is among `peers`.
pub open spec fn is_listed(peers: Seq<PeerInfoView>, peer_id: Seq<char>) -> bool {
    exists|i: int| 0 <= i < peers.len() && (#[trigger] peers[i]).peer_id == peer_id
}

/// Whether `i` is the first place at which `peer_id` stands among `peers`.
pub open spec fn is_first(peers: Seq<PeerInfoView>, peer_id: Seq<char>, i: int) -> bool {
    &&& 0 <= i < peers.len()
    &&& peers[i].peer_id == peer_id
    &&& forall|k: int| 0 <= k < i ==> (#[trigger] peers[k]).peer_id != peer_id
}

/// The first place at which `peer_id` stands among `peers`.
pub open spec fn first_place(peers: Seq<PeerInfoView>, peer_id: Seq<char>) -> int {
    choose|i: int| is_first(peers, peer_id, i)
}

/// `peers` without those that go by `peer_id`.
pub open spec fn without_peer(peers: Seq<PeerInfoView>, peer_id: Seq<char>) -> Seq<PeerInfoView>
    decreases peers.len(),
{
    if peers.len() == 0 {
        peers
    } else if peers.last().peer_id == peer_id {
        without_peer(peers.drop_last(), peer_id)
    } else {
        without_peer(peers.drop_last(), peer_id).push(peers.last())
    }
}

/// One more, as far as the counter counts.
pub open spec fn up(count: int, max: int) -> int {
    if count >= max {
        max
    } else {
        count + 1
    }
}

/// One less, as far as the counter counts.
pub open spec fn down(count: int) -> int {
    if count <= 0 {
        0
    } else {
        count - 1
    }
}

/// What the relay counts and remembers, as mathematics.
pub struct MetricsView {
    pub start_time_ms: i64,
    pub peer_id: Option<Seq<char>>,
    pub public_ip: Option<Seq<char>>,
    pub tcp_port: u16,
    pub quic_port: u16,
    pub tcp_reachable: Option<bool>,
    pub connected_peers: usize,
    pub total_connections: u64,
    pub peak_connections: usize,
    pub active_reservations: usize,
    pub total_reservations: u64,
    pub active_circuits: usize,
    pub total_circuits: u64,
    pub bytes_relayed: u64,
    pub peers: Seq<PeerInfoView>,
    pub logs: Seq<LogEntryView>,
    pub status: ServerStatus,
}

impl MetricsView {
    /// The metrics of a relay that starts at `now_ms`.
    pub open spec fn starting(now_ms: i64) -> MetricsView {
        MetricsView {
            start_time_ms: now_ms,
            peer_id: None,
            public_ip: None,
            tcp_port: 4001,
            quic_port: 4001,
            tcp_reachable: None,
            connected_peers: 0,
            total_connections: 0,
            peak_connections: 0,
            active_reservations: 0,
            total_reservations: 0,
            active_circuits: 0,
            total_circuits: 0,
            bytes_relayed: 0,
            peers: Seq::empty(),
            logs: Seq::empty(),
            status: ServerStatus::Starting,
        }
    }

    /// The metrics with one more line in the log.
    pub open spec fn logged(self, level: LogLevel, message: Seq<char>, now_ms: i64) -> MetricsView {
        MetricsView {
            logs: with_entry(self.logs, LogEntryView { timestamp_ms: now_ms, level, message }),
            ..self
        }
    }

    /// A connection to `peer_id` was made. A peer that is connected
    /// already, over another transport, is not counted again.
    pub open spec fn connection_established(
        self,
        peer_id: Seq<char>,
        protocol: Option<Seq<char>>,
        now_ms: i64,
    ) -> MetricsView {
        if is_listed(self.peers, peer_id) {
            self
        } else {
            let connected = up(self.connected_peers as int, usize::MAX as int) as usize;
            (MetricsView {
                connected_peers: connected,
                total_connections: up(self.total_connections as int, u64::MAX as int) as u64,
                peak_connections: if connected > self.peak_connections {
                    connected
                } else {
                    self.peak_connections
                },
                peers: self.peers.push(
                    PeerInfoView {
                        peer_id,
                        protocol,
                        connected_at_ms: now_ms,
                        has_reservation: false,
                    },
                ),
                ..self
            }).logged(LogLevel::Connection, "Connected: "@ + short_id(peer_id), now_ms)
        }
    }

    /// The connection to `peer_id` was closed. A peer that is not listed
    /// changes nothing; one that held a reservation gives it up.
    pub open spec fn connection_closed(self, peer_id: Seq<char>, now_ms: i64) -> MetricsView {
        if !is_listed(self.peers, peer_id) {
            self
        } else {
            (MetricsView {
                active_reservations: if self.peers[first_place(
                    self.peers,
                    peer_id,
                )].has_reservation {
                    down(self.active_reservations as int) as usize
                } else {
                    self.active_reservations
                },
                connected_peers: down(self.connected_peers as int) as usize,
                peers: without_peer(self.peers, peer_id),
                ..self
            }).logged(LogLevel::Connection, "Disconnected: "@ + short_id(peer_id), now_ms)
        }
    }

    /// Whether `peer_id` is listed with a reservation.
    pub open spec fn holds_reservation(self, peer_id: Seq<char>) -> bool {
        is_listed(self.peers, peer_id) && self.peers[first_place(
            self.peers,
            peer_id,
        )].has_reservation
    }

    /// The relay accepted a reservation of `peer_id`. A peer that holds
    /// one already has renewed it and is not counted again.
    pub open spec fn reservation_accepted(self, peer_id: Seq<char>, now_ms: i64) -> MetricsView {
        if self.holds_reservation(peer_id) {
            self.logged(LogLevel::Relay, "Reservation renewed: "@ + short_id(peer_id), now_ms)
        } else {
            (MetricsView {
                active_reservations: up(self.active_reservations as int, usize::MAX as int) as usize,
                total_reservations: up(self.total_reservations as int, u64::MAX as int) as u64,
                peers: if is_listed(self.peers, peer_id) {
                    self.peers.update(
                        first_place(self.peers, peer_id),
                        PeerInfoView {
                            has_reservation: true,
                            ..self.peers[first_place(self.peers, peer_id)]
                        },
                    )
                } else {
                    self.peers
                },
                ..self
            }).logged(LogLevel::Relay, "Reservation: "@ + short_id(peer_id), now_ms)
        }
    }

    /// The relay set up a circuit from `src` to `dst`.
    pub open spec fn circuit_established(self, src: Seq<char>, dst: Seq<char>, now_ms: i64) -> MetricsView {
        (MetricsView {
            active_circuits: up(self.active_circuits as int, usize::MAX as int) as usize,
            total_circuits: up(self.total_circuits as int, u64::MAX as int) as u64,
            ..self
        }).logged(
            LogLevel::Relay,
            "Circuit: "@ + short_id(src) + " \u{2192} "@ + short_id(dst),
            now_ms,
        )
    }

    /// A circuit was closed.
    pub open spec fn circuit_closed(self) -> MetricsView {
        MetricsView { active_circuits: down(self.active_circuits as int) as usize, ..self }
    }

    /// `peer_id` said what it speaks.
    pub open spec fn peer_identified(self, peer_id: Seq<char>, protocol: Seq<char>) -> MetricsView {
        if is_listed(self.peers, peer_id) {
            MetricsView {
                peers: self.peers.update(
                    first_place(self.peers, peer_id),
                    PeerInfoView {
                        protocol: Some(protocol),
                        ..self.peers[first_place(self.peers, peer_id)]
                    },
                ),
                ..self
            }
        } else {
            self
        }
    }

    /// For how long the relay has been up at `now_ms`, as the dashboard
    /// shows it.
    pub open spec fn uptime(self, now_ms: i64) -> Seq<char> {
        uptime_text(whole_seconds(self.start_time_ms, now_ms))
    }
}

/// The peers of a list as mathematics.
pub open spec fn peers_view(peers: Seq<PeerInfo>) -> Seq<PeerInfoView> {
    peers.map_values(|peer: PeerInfo| peer@)
}

/// The entries of a log as mathematics.
pub open spec fn logs_view(logs: Seq<LogEntry>) -> Seq<LogEntryView> {
    logs.map_values(|entry: LogEntry| entry@)
}

/// What the relay counts and remembers of itself.
pub struct Metrics {
    /// Milliseconds since the Unix epoch.
    pub start_time_ms: i64,
    pub peer_id: Option<String>,
    pub public_ip: Option<String>,
    pub tcp_port: u16,
    pub quic_port: u16,
    /// Whether the TCP port can be reached from outside, once that is
    /// known.
    pub tcp_reachable: Option<bool>,
    pub connected_peers: usize,
    pub total_connections: u64,
    pub peak_connections: usize,
    pub active_reservations: usize,
    pub total_reservations: u64,
    pub active_circuits: usize,
    pub total_circuits: u64,
    pub bytes_relayed: u64,
    pub peer_list: Vec<PeerInfo>,
    /// The latest lines of the log, newest last.
    pub logs: VecDeque<LogEntry>,
    pub status: ServerStatus,
}

impl View for Metrics {
    type V = MetricsView;

    open spec fn view(&self) -> MetricsView {
        MetricsView {
            start_time_ms: self.start_time_ms,
            peer_id: option_string_view(self.peer_id),
            public_ip: option_string_view(self.public_ip),
            tcp_port: self.tcp_port,
            quic_port: self.quic_port,
            tcp_reachable: self.tcp_reachable,
            connected_peers: self.connected_peers,
            total_connections: self.total_connections,
            peak_connections: self.peak_connections,
            active_reservations: self.active_reservations,
            total_reservations: self.total_reservations,
            active_circuits: self.active_circuits,
            total_circuits: self.total_circuits,
            bytes_relayed: self.bytes_relayed,
            peers: peers_view(self.peer_list@),
            logs: logs_view(self.logs@),
            status: self.status,
        }
    }
}

/// There is one first place of a peer that is listed.
pub proof fn lemma_first_place(peers: Seq<PeerInfoView>, peer_id: Seq<char>, i: int)
    requires
        is_first(peers, peer_id, i),
    ensures
        is_listed(peers, peer_id),
        first_place(peers, peer_id) == i,
{
    let chosen = first_place(peers, peer_id);
    assert(is_first(peers, peer_id, chosen));
    if chosen < i {
        assert(peers[chosen].peer_id != peer_id);
    } else if i < chosen {
        assert(peers[i].peer_id != peer_id);
    }
}

impl Metrics {
    /// The metrics of a relay that starts now.
    pub fn new() -> (metrics: Self)
        ensures
            exists|now_ms: i64| metrics@ == MetricsView::starting(now_ms),
    {
        Metrics::new_at(local_now_ms())
    }

    /// The metrics of a relay that starts at `now_ms`.
    pub fn new_at(now_ms: i64) -> (metrics: Self)
        ensures
            metrics@ == MetricsView::starting(now_ms),
    {
        let metrics = Metrics {
            start_time_ms: now_ms,
            peer_id: None,
            public_ip: None,
            tcp_port: 4001,
            quic_port: 4001,
            tcp_reachable: None,
            connected_peers: 0,
            total_connections: 0,
            peak_connections: 0,
            active_reservations: 0,
            total_reservations: 0,
            active_circuits: 0,
            total_circuits: 0,
            bytes_relayed: 0,
            peer_list: Vec::new(),
            logs: VecDeque::new(),
            status: ServerStatus::Starting,
        };
        proof {
            assert(metrics@.peers =~= Seq::<PeerInfoView>::empty());
            assert(metrics@.logs =~= Seq::<LogEntryView>::empty());
        }
        metrics
    }

    /// The place of the first peer that goes by `peer_id`.
    fn find_peer(&self, peer_id: &str) -> (found: Option<usize>)
        ensures
            found is Some <==> is_listed(self@.peers, peer_id@),
            found matches Some(i) ==> is_first(self@.peers, peer_id@, i as int) && first_place(
                self@.peers,
                peer_id@,
            ) == i,
    {
        let mut i: usize = 0;
        while i < self.peer_list.len()
            invariant
                i <= self.peer_list@.len(),
                forall|k: int| 0 <= k < i ==> (#[trigger] self@.peers[k]).peer_id != peer_id@,
            decreases self.peer_list@.len() - i,
        {
            if *self.peer_list[i].peer_id.as_str() == *peer_id {
                proof {
                    assert(self@.peers[i as int].peer_id == peer_id@);
                    lemma_first_place(self@.peers, peer_id@, i as int);
                }
                return Some(i);
            }
            assert(self@.peers[i as int].peer_id != peer_id@);
            i = i + 1;
        }
        None
    }

    /// Adds a line to the log, with the present time.
    pub fn log(&mut self, level: LogLevel, message: String)
        ensures
            exists|now_ms: i64| final(self)@ == old(self)@.logged(level, message@, now_ms),
    {
        self.log_at(level, message, local_now_ms());
    }

    /// Adds a line to the log, with the time `now_ms`.
    pub fn log_at(&mut self, level: LogLevel, message: String, now_ms: i64)
        ensures
            final(self)@ == old(self)@.logged(level, message@, now_ms),
    {
        if self.logs.len() >= MAX_LOG_ENTRIES {
            self.logs.pop_front();
        }
        self.logs.push_back(LogEntry { timestamp_ms: now_ms, level, message });
        proof {
            assert(self@.logs =~= old(self)@.logged(level, message@, now_ms).logs);
        }
    }

    /// A connection to `peer_id` was made just now.
    pub fn connection_established(&mut self, peer_id: String, protocol: Option<String>)
        ensures
            exists|now_ms: i64|
                final(self)@ == old(self)@.connection_established(
                    peer_id@,
                    option_string_view(protocol),
                    now_ms,
                ),
    {
        self.connection_established_at(peer_id, protocol, local_now_ms());
    }

    /// A connection to `peer_id` was made at `now_ms`.
    pub fn connection_established_at(&mut self, peer_id: String, protocol: Option<String>, now_ms: i64)
        ensures
            final(self)@ == old(self)@.connection_established(
                peer_id@,
                option_string_view(protocol),
                now_ms,
            ),
    {
        if self.find_peer(peer_id.as_str()).is_some() {
            return ;
        }
        self.connected_peers = self.connected_peers.saturating_add(1);
        self.total_connections = self.total_connections.saturating_add(1);
        if self.connected_peers > self.peak_connections {
            self.peak_connections = self.connected_peers;
        }
        let message = String::from_str("Connected: ").concat(
            truncate_peer_id(peer_id.as_str()).as_str(),
        );
        self.peer_list.push(
            PeerInfo { peer_id, protocol, connected_at_ms: now_ms, has_reservation: false },
        );
        proof {
            assert(self@.peers =~= old(self)@.peers.push(
                PeerInfoView {
                    peer_id: peer_id@,
                    protocol: option_string_view(protocol),
                    connected_at_ms: now_ms,
                    has_reservation: false,
                },
            ));
        }
        self.log_at(LogLevel::Connection, message, now_ms);
    }

    /// The connection to `peer_id` was closed just now.
    pub fn connection_closed(&mut self, peer_id: &str)
        ensures
            exists|now_ms: i64| final(self)@ == old(self)@.connection_closed(peer_id@, now_ms),
    {
        self.connection_closed_at(peer_id, local_now_ms());
    }

    /// The connection to `peer_id` was closed at `now_ms`.
    pub fn connection_closed_at(&mut self, peer_id: &str, now_ms: i64)
        ensures
            final(self)@ == old(self)@.connection_closed(peer_id@, now_ms),
    {
        let first = match self.find_peer(peer_id) {
            Some(first) => first,
            None => {
                return ;
            },
        };
        if self.peer_list[first].has_reservation {
            self.active_reservations = self.active_reservations.saturating_sub(1);
        }
        self.connected_peers = self.connected_peers.saturating_sub(1);
        let mut listed: Vec<PeerInfo> = Vec::new();
        core::mem::swap(&mut self.peer_list, &mut listed);
        let ghost all = peers_view(listed@);
        let mut kept: Vec<PeerInfo> = Vec::new();
        for peer in it: listed
            invariant
                peers_view(it.seq()) == all,
                peers_view(kept@) == without_peer(all.take(it.index()), peer_id@),
        {
            proof {
                assert(all.take(it.index() + 1).drop_last() == all.take(it.index()));
                assert(all.take(it.index() + 1).last() == peer@);
            }
            if !(*peer.peer_id.as_str() == *peer_id) {
                kept.push(peer);
                proof {
                    assert(peers_view(kept@) =~= without_peer(all.take(it.index()), peer_id@).push(
                        peer@,
                    ));
                }
            }
        }
        proof {
            assert(all.take(all.len() as int) == all);
        }
        self.peer_list = kept;
        let message = String::from_str("Disconnected: ").concat(
            truncate_peer_id(peer_id).as_str(),
        );
        self.log_at(LogLevel::Connection, message, now_ms);
    }

    /// The relay accepted a reservation of `peer_id` just now.
    pub fn reservation_accepted(&mut self, peer_id: &str)
        ensures
            exists|now_ms: i64| final(self)@ == old(self)@.reservation_accepted(peer_id@, now_ms),
    {
        self.reservation_accepted_at(peer_id, local_now_ms());
    }

    /// The relay accepted a reservation of `peer_id` at `now_ms`.
    pub fn reservation_accepted_at(&mut self, peer_id: &str, now_ms: i64)
        ensures
            final(self)@ == old(self)@.reservation_accepted(peer_id@, now_ms),
    {
        let found = self.find_peer(peer_id);
        let renewed = match found {
            Some(first) => self.peer_list[first].has_reservation,
            None => false,
        };
        if renewed {
            let message = String::from_str("Reservation renewed: ").concat(
                truncate_peer_id(peer_id).as_str(),
            );
            self.log_at(LogLevel::Relay, message, now_ms);
            return ;
        }
        self.active_reservations = self.active_reservations.saturating_add(1);
        self.total_reservations = self.total_reservations.saturating_add(1);
        match found {
            Some(first) => {
                let former = self.peer_list.remove(first);
                self.peer_list.insert(
                    first,
                    PeerInfo {
                        peer_id: former.peer_id,
                        protocol: former.protocol,
                        connected_at_ms: former.connected_at_ms,
                        has_reservation: true,
                    },
                );
                proof {
                    assert(self@.peers =~= old(self)@.peers.update(
                        first as int,
                        PeerInfoView { has_reservation: true, ..old(self)@.peers[first as int] },
                    ));
                }
            },
            None => {},
        }
        let message = String::from_str("Reservation: ").concat(truncate_peer_id(peer_id).as_str());
        self.log_at(LogLevel::Relay, message, now_ms);
    }

    /// The relay set up a circuit from `src` to `dst` just now.
    pub fn circuit_established(&mut self, src: &str, dst: &str)
        ensures
            exists|now_ms: i64| final(self)@ == old(self)@.circuit_established(src@, dst@, now_ms),
    {
        self.circuit_established_at(src, dst, local_now_ms());
    }

    /// The relay set up a circuit from `src` to `dst` at `now_ms`.
    pub fn circuit_established_at(&mut self, src: &str, dst: &str, now_ms: i64)
        ensures
            final(self)@ == old(self)@.circuit_established(src@, dst@, now_ms),
    {
        self.active_circuits = self.active_circuits.saturating_add(1);
        self.total_circuits = self.total_circuits.saturating_add(1);
        let message = String::from_str("Circuit: ").concat(truncate_peer_id(src).as_str()).concat(
            " \u{2192} ",
        ).concat(truncate_peer_id(dst).as_str());
        self.log_at(LogLevel::Relay, message, now_ms);
    }

    /// A circuit was closed.
    pub fn circuit_closed(&mut self)
        ensures
            final(self)@ == old(self)@.circuit_closed(),
    {
        self.active_circuits = self.active_circuits.saturating_sub(1);
    }

    /// `peer_id` said what it speaks.
    pub fn peer_identified(&mut self, peer_id: &str, protocol: String)
        ensures
            final(self)@ == old(self)@.peer_identified(peer_id@, protocol@),
    {
        match self.find_peer(peer_id) {
            Some(first) => {
                let former = self.peer_list.remove(first);
                self.peer_list.insert(
                    first,
                    PeerInfo {
                        peer_id: former.peer_id,
                        protocol: Some(protocol),
                        connected_at_ms: former.connected_at_ms,
                        has_reservation: former.has_reservation,
                    },
                );
                proof {
                    assert(self@.peers =~= old(self)@.peers.update(
                        first as int,
                        PeerInfoView { protocol: Some(protocol@), ..old(self)@.peers[first as int] },
                    ));
                }
            },
            None => {},
        }
    }

    /// For how long the relay has been up, as the dashboard shows it.
    pub fn uptime(&self) -> (text: String)
        ensures
            exists|now_ms: i64| text@ == self@.uptime(now_ms),
    {
        self.uptime_at(local_now_ms())
    }

    /// For how long the relay has been up at `now_ms`.
    pub fn uptime_at(&self, now_ms: i64) -> (text: String)
        ensures
            text@ == self@.uptime(now_ms),
    {
        let elapsed = now_ms as i128 - self.start_time_ms as i128;
        let seconds = if elapsed >= 0 {
            elapsed / 1000
        } else {
            -((-elapsed) / 1000)
        };
        format_uptime(seconds as i64)
    }
}

} // verus!
