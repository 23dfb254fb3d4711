//! What a peer knows of the room it is in.

use crate::clock::{elapsed_between, elapsed_ns, MonotonicClock, NANOS_PER_MILLI};
use crate::string_map::{keys_of, lists, position_of, StringMap};
use crate::sync::protocol::{
    option_track_view, Participant, ParticipantView, PlaybackInfo, TrackInfo, TrackInfoView,
};
use crate::text::{
    lemma_lex_le_total, lemma_lex_le_transitive, lex_le, str_le, to_lowercase, unicode_lowercase,
};
use vstd::prelude::*;

verus! {

/// A room as one of its peers knows it, as mathematics.
pub struct RoomStateView {
    pub room_code: Seq<char>,
    pub local_peer_id: Seq<char>,
    pub host_peer_id: Seq<char>,
    pub participants: Map<Seq<char>, ParticipantView>,
    /// The peer ids of the participants in the order in which they came.
    pub order: Seq<Seq<char>>,
    pub current_track: Option<TrackInfoView>,
    pub playback: PlaybackInfo,
    /// The reading of the monotonic clock at the latest playback update.
    pub last_heartbeat_ns: u64,
}

/// Whether `a` may stand before `b` in the list of participants: a host
/// before everybody else, and otherwise by the lower-case name.
pub open spec fn in_order(a: ParticipantView, b: ParticipantView) -> bool {
    in_order_by(
        a.is_host,
        unicode_lowercase(a.display_name),
        b.is_host,
        unicode_lowercase(b.display_name),
    )
}

/// The order of the list, on what it looks at.
pub open spec fn in_order_by(a_host: bool, a_name: Seq<char>, b_host: bool, b_name: Seq<char>) -> bool {
    if a_host != b_host {
        a_host
    } else {
        lex_le(a_name, b_name)
    }
}

/// `sorted` with `participant` put in: behind the last of the first `at`
/// that may stand before it.
pub open spec fn place(sorted: Seq<ParticipantView>, participant: ParticipantView, at: int) -> Seq<
    ParticipantView,
>
    decreases at,
{
    if at <= 0 {
        sorted.insert(0, participant)
    } else if in_order(sorted[at - 1], participant) {
        sorted.insert(at, participant)
    } else {
        place(sorted, participant, at - 1)
    }
}

/// `order` without `peer_id`.
pub open spec fn without_key(order: Seq<Seq<char>>, peer_id: Seq<char>) -> Seq<Seq<char>> {
    if order.contains(peer_id) {
        order.remove(order.index_of(peer_id))
    } else {
        order
    }
}

/// The participants of a list as mathematics.
pub open spec fn list_view(list: Seq<&Participant>) -> Seq<ParticipantView> {
    Seq::new(list.len(), |i: int| list[i]@)
}

impl RoomStateView {
    /// The room that a host has just made: itself the only participant,
    /// nothing playing.
    pub open spec fn as_host(
        room_code: Seq<char>,
        local_peer_id: Seq<char>,
        display_name: Seq<char>,
        now_ns: u64,
    ) -> RoomStateView {
        RoomStateView {
            room_code,
            local_peer_id,
            host_peer_id: local_peer_id,
            participants: Map::empty().insert(
                local_peer_id,
                ParticipantView { peer_id: local_peer_id, display_name, is_host: true },
            ),
            order: seq![local_peer_id],
            current_track: None,
            playback: PlaybackInfo { is_playing: false, position_ms: 0, timestamp_ms: 0 },
            last_heartbeat_ns: now_ns,
        }
    }

    /// Whether this peer is the host.
    pub open spec fn is_host(self) -> bool {
        self.local_peer_id == self.host_peer_id
    }

    /// Whether every participant is filed under its own peer id.
    pub open spec fn keyed_by_peer_id(self) -> bool {
        forall|peer_id: Seq<char>| #[trigger]
            self.participants.contains_key(peer_id) ==> self.participants[peer_id].peer_id
                == peer_id
    }

    /// Whether exactly one participant is marked as host, and it is the
    /// one that `host_peer_id` names.
    pub open spec fn single_host(self) -> bool {
        &&& self.participants.contains_key(self.host_peer_id)
        &&& forall|peer_id: Seq<char>| #[trigger]
            self.participants.contains_key(peer_id) ==> (self.participants[peer_id].is_host
                <==> peer_id == self.host_peer_id)
    }

    /// The room with `participant` filed under its peer id, in place of
    /// whoever was filed there.
    pub open spec fn with_participant(self, participant: ParticipantView) -> RoomStateView {
        RoomStateView {
            participants: self.participants.insert(participant.peer_id, participant),
            order: if self.order.contains(participant.peer_id) {
                self.order
            } else {
                self.order.push(participant.peer_id)
            },
            ..self
        }
    }

    /// Whether `order` names the participants, each once.
    pub open spec fn listed(self) -> bool {
        &&& self.order.no_duplicates()
        &&& forall|peer_id: Seq<char>|
            self.participants.contains_key(peer_id) <==> self.order.contains(peer_id)
    }

    /// The first `n` participants in the order of the list: each put in
    /// among those that came before it.
    pub open spec fn sorted_prefix(self, n: int) -> Seq<ParticipantView>
        decreases n,
    {
        if n <= 0 {
            Seq::empty()
        } else {
            let before = self.sorted_prefix(n - 1);
            place(before, self.participants[self.order[n - 1]], before.len() as int)
        }
    }

    /// Everybody in the room: the host first, the others by their names
    /// without regard to case, and who is equal in that by who came first.
    pub open spec fn listing(self) -> Seq<ParticipantView> {
        self.sorted_prefix(self.order.len() as int)
    }

    /// The room without the participant `peer_id`.
    pub open spec fn without_participant(self, peer_id: Seq<char>) -> RoomStateView {
        RoomStateView {
            participants: self.participants.remove(peer_id),
            order: without_key(self.order, peer_id),
            ..self
        }
    }

    /// The room after the host handed it to `new_host`: unchanged where
    /// `new_host` is no participant; else the former host has lost its mark,
    /// `new_host` has it, and `host_peer_id` names `new_host`.
    pub open spec fn host_transferred(self, new_host: Seq<char>) -> RoomStateView {
        if !self.participants.contains_key(new_host) {
            self
        } else {
            let demoted = if self.participants.contains_key(self.host_peer_id) {
                self.participants.insert(
                    self.host_peer_id,
                    ParticipantView { is_host: false, ..self.participants[self.host_peer_id] },
                )
            } else {
                self.participants
            };
            RoomStateView {
                participants: demoted.insert(
                    new_host,
                    ParticipantView { is_host: true, ..demoted[new_host] },
                ),
                host_peer_id: new_host,
                ..self
            }
        }
    }

    /// The room after a playback update that came in at `now_ns`.
    pub open spec fn playback_updated(self, playback: PlaybackInfo, now_ns: u64) -> RoomStateView {
        RoomStateView { playback, last_heartbeat_ns: now_ns, ..self }
    }

    /// Whether at `now_ns` the latest playback update is more than
    /// `timeout_ms` old.
    pub open spec fn heartbeat_stale(self, now_ns: u64, timeout_ms: u64) -> bool {
        elapsed_ns(self.last_heartbeat_ns, now_ns) > timeout_ms * NANOS_PER_MILLI
    }
}

/// A room as one of its peers knows it.
#[derive(Debug)]
pub struct RoomState {
    /// The code under which the room is found.
    pub room_code: String,
    pub local_peer_id: String,
    pub host_peer_id: String,
    /// Everybody in the room, this peer too, each under its peer id.
    pub participants: StringMap<Participant>,
    pub current_track: Option<TrackInfo>,
    pub playback: PlaybackInfo,
    /// The reading of `clock` at the latest playback update.
    pub last_heartbeat_ns: u64,
    /// The clock by which silences of the host are measured.
    pub clock: MonotonicClock,
}

impl View for RoomState {
    type V = RoomStateView;

    open spec fn view(&self) -> RoomStateView {
        RoomStateView {
            room_code: self.room_code@,
            local_peer_id: self.local_peer_id@,
            host_peer_id: self.host_peer_id@,
            participants: self.participants@.map_values(|p: Participant| p@),
            order: keys_of(self.participants.entries()),
            current_track: option_track_view(self.current_track),
            playback: self.playback,
            last_heartbeat_ns: self.last_heartbeat_ns,
        }
    }
}

/// Whether `a` may stand before `b`, from the marks and the lower-case
/// names.
fn stands_before(a_host: bool, a_name: &str, b_host: bool, b_name: &str) -> (before: bool)
    ensures
        before == in_order_by(a_host, a_name@, b_host, b_name@),
{
    if a_host != b_host {
        a_host
    } else {
        str_le(a_name, b_name)
    }
}

impl RoomState {
    /// The room that a host has just made, with a clock of its own.
    pub fn new_as_host(room_code: String, local_peer_id: String, display_name: String) -> (state:
        Self)
        ensures
            exists|now_ns: u64|
                state@ == RoomStateView::as_host(
                    room_code@,
                    local_peer_id@,
                    display_name@,
                    now_ns,
                ),
    {
        let clock = MonotonicClock::start();
        let now_ns = clock.now_ns();
        RoomState::new_as_host_at(room_code, local_peer_id, display_name, clock, now_ns)
    }

    /// The room that a host has just made at `now_ns` of `clock`.
    pub fn new_as_host_at(
        room_code: String,
        local_peer_id: String,
        display_name: String,
        clock: MonotonicClock,
        now_ns: u64,
    ) -> (state: Self)
        ensures
            state@ == RoomStateView::as_host(room_code@, local_peer_id@, display_name@, now_ns),
            state.clock == clock,
    {
        let mut participants = StringMap::new();
        proof {
            lemma_keys_after_insert(
                participants.entries(),
                local_peer_id@,
                Participant { peer_id: local_peer_id, display_name, is_host: true },
            );
        }
        participants.insert(
            local_peer_id.clone(),
            Participant { peer_id: local_peer_id.clone(), display_name, is_host: true },
        );
        let state = RoomState {
            room_code,
            local_peer_id: local_peer_id.clone(),
            host_peer_id: local_peer_id,
            participants,
            current_track: None,
            playback: PlaybackInfo { is_playing: false, position_ms: 0, timestamp_ms: 0 },
            last_heartbeat_ns: now_ns,
            clock,
        };
        proof {
            assert(state@.participants =~= RoomStateView::as_host(
                room_code@,
                local_peer_id@,
                display_name@,
                now_ns,
            ).participants);
            assert(state@.order =~= seq![local_peer_id@]);
        }
        state
    }

    /// Whether this peer is the host.
    pub fn is_host(&self) -> (host: bool)
        ensures
            host == self@.is_host(),
    {
        self.local_peer_id == self.host_peer_id
    }

    /// Everybody in the room: the host first, the others by their names
    /// without regard to case.
    pub fn participant_list(&self) -> (list: Vec<&Participant>)
        ensures
            list_view(list@) == self@.listing(),
    {
        let count = self.participants.len();
        let mut list: Vec<&Participant> = Vec::new();
        let mut names: Vec<String> = Vec::new();
        let ghost entries = self.participants.entries();
        let mut next: usize = 0;
        while next < count
            invariant
                next <= count,
                count == entries.len(),
                entries == self.participants.entries(),
                lists(entries, self.participants@),
                list@.len() == next,
                names@.len() == next,
                forall|k: int|
                    0 <= k < next ==> (#[trigger] names@[k])@ == unicode_lowercase(
                        list@[k].display_name@,
                    ),
                list_view(list@) == self@.sorted_prefix(next as int),
            decreases count - next,
        {
            let participant = self.participants.value_at(next);
            let name = to_lowercase(participant.display_name.as_str());
            let ghost sorted = list_view(list@);
            let mut at: usize = next;
            let mut placed = false;
            while at > 0 && !placed
                invariant
                    at <= next,
                    list@.len() == next,
                    names@.len() == next,
                    sorted == list_view(list@),
                    name@ == unicode_lowercase(participant.display_name@),
                    forall|k: int|
                        0 <= k < next ==> (#[trigger] names@[k])@ == unicode_lowercase(
                            list@[k].display_name@,
                        ),
                    place(sorted, participant@, at as int) == place(
                        sorted,
                        participant@,
                        next as int,
                    ),
                    placed ==> at > 0 && in_order(sorted[at - 1], participant@),
                decreases
                        at + if placed {
                            0int
                        } else {
                            1int
                        },
            {
                if stands_before(
                    list[at - 1].is_host,
                    names[at - 1].as_str(),
                    participant.is_host,
                    name.as_str(),
                ) {
                    placed = true;
                } else {
                    at = at - 1;
                }
            }
            proof {
                assert(entries[next as int].0 == self@.order[next as int]);
                assert(self.participants@.contains_pair(
                    entries[next as int].0,
                    entries[next as int].1,
                ));
                assert(self@.participants[self@.order[next as int]] == participant@);
                assert(place(sorted, participant@, at as int) == sorted.insert(
                    at as int,
                    participant@,
                ));
                assert(list_view(list@.insert(at as int, participant)) =~= sorted.insert(
                    at as int,
                    participant@,
                ));
            }
            list.insert(at, participant);
            names.insert(at, name);
            next = next + 1;
        }
        list
    }

    /// Files `participant` under its peer id, in place of whoever was filed
    /// there.
    pub fn add_participant(&mut self, participant: Participant)
        ensures
            final(self)@ == old(self)@.with_participant(participant@),
            final(self).clock == old(self).clock,
    {
        let peer_id = participant.peer_id.clone();
        self.participants.insert(peer_id, participant);
        proof {
            assert(self@.participants =~= old(self)@.with_participant(participant@).participants);
            lemma_keys_after_insert(old(self).participants.entries(), peer_id@, participant);
        }
    }

    /// Takes the participant `peer_id` out and returns it, if it was there.
    pub fn remove_participant(&mut self, peer_id: &str) -> (removed: Option<Participant>)
        ensures
            final(self)@ == old(self)@.without_participant(peer_id@),
            final(self).clock == old(self).clock,
            removed is Some <==> old(self)@.participants.contains_key(peer_id@),
            removed matches Some(participant) ==> participant@ == old(self)@.participants[peer_id@],
    {
        let removed = self.participants.remove(peer_id);
        proof {
            assert(self@.participants =~= old(self)@.without_participant(peer_id@).participants);
            lemma_keys_after_remove(old(self).participants.entries(), old(self).participants@, peer_id@);
        }
        removed
    }

    /// Hands the room to `new_host_peer_id`. Fails, and changes nothing,
    /// where that peer is no participant.
    pub fn transfer_host(&mut self, new_host_peer_id: &str) -> (done: bool)
        ensures
            done == old(self)@.participants.contains_key(new_host_peer_id@),
            final(self)@ == old(self)@.host_transferred(new_host_peer_id@),
            final(self).clock == old(self).clock,
    {
        if !self.participants.contains_key(new_host_peer_id) {
            return false;
        }
        let former = match self.participants.get(self.host_peer_id.as_str()) {
            Some(host) => Some(
                Participant {
                    peer_id: host.peer_id.clone(),
                    display_name: host.display_name.clone(),
                    is_host: false,
                },
            ),
            None => None,
        };
        match former {
            Some(demoted) => {
                proof {
                    lemma_keys_are_domain(self.participants.entries(), self.participants@);
                    lemma_keys_after_insert(
                        self.participants.entries(),
                        self.host_peer_id@,
                        demoted,
                    );
                }
                self.participants.insert(self.host_peer_id.clone(), demoted);
            },
            None => {},
        }
        let promoted = match self.participants.get(new_host_peer_id) {
            Some(host) => Some(
                Participant {
                    peer_id: host.peer_id.clone(),
                    display_name: host.display_name.clone(),
                    is_host: true,
                },
            ),
            None => None,
        };
        match promoted {
            Some(promoted) => {
                proof {
                    lemma_keys_are_domain(self.participants.entries(), self.participants@);
                    lemma_keys_after_insert(
                        self.participants.entries(),
                        new_host_peer_id@,
                        promoted,
                    );
                }
                self.participants.insert(new_host_peer_id.to_owned(), promoted);
            },
            None => {},
        }
        self.host_peer_id = new_host_peer_id.to_owned();
        proof {
            assert(self@.participants =~= old(self)@.host_transferred(
                new_host_peer_id@,
            ).participants);
        }
        true
    }

    /// Takes in the host's playback as it came in just now.
    pub fn update_playback(&mut self, playback: PlaybackInfo)
        ensures
            exists|now_ns: u64| final(self)@ == old(self)@.playback_updated(playback, now_ns),
            final(self).clock == old(self).clock,
    {
        let now_ns = self.clock.now_ns();
        self.update_playback_at(playback, now_ns);
    }

    /// Takes in the host's playback as it came in at `now_ns`.
    pub fn update_playback_at(&mut self, playback: PlaybackInfo, now_ns: u64)
        ensures
            final(self)@ == old(self)@.playback_updated(playback, now_ns),
            final(self).clock == old(self).clock,
    {
        self.playback = playback;
        self.last_heartbeat_ns = now_ns;
    }

    /// Sets the track that is playing.
    pub fn update_track(&mut self, track: Option<TrackInfo>)
        ensures
            final(self)@ == (RoomStateView {
                current_track: option_track_view(track),
                ..old(self)@
            }),
            final(self).clock == old(self).clock,
    {
        self.current_track = track;
    }

    /// Whether the latest playback update is, as of now, more than
    /// `timeout_ms` old: the host may be gone.
    pub fn is_heartbeat_stale(&self, timeout_ms: u64) -> (stale: bool)
        ensures
            exists|now_ns: u64| stale == self@.heartbeat_stale(now_ns, timeout_ms),
    {
        let now_ns = self.clock.now_ns();
        self.is_heartbeat_stale_at(now_ns, timeout_ms)
    }

    /// Whether at `now_ns` the latest playback update is more than
    /// `timeout_ms` old.
    pub fn is_heartbeat_stale_at(&self, now_ns: u64, timeout_ms: u64) -> (stale: bool)
        ensures
            stale == self@.heartbeat_stale(now_ns, timeout_ms),
    {
        let elapsed = elapsed_between(self.last_heartbeat_ns, now_ns);
        elapsed as u128 > timeout_ms as u128 * NANOS_PER_MILLI as u128
    }
}

/// Putting a value beside a key leaves the order of the keys as it is where
/// the key is there, and adds the key at the end where it is not.
pub proof fn lemma_keys_after_insert<V>(entries: Seq<(Seq<char>, V)>, key: Seq<char>, value: V)
    ensures
        keys_of(
            match position_of(entries, key) {
                Some(i) => entries.update(i, (key, value)),
                None => entries.push((key, value)),
            },
        ) == if keys_of(entries).contains(key) {
            keys_of(entries)
        } else {
            keys_of(entries).push(key)
        },
{
    let keys = keys_of(entries);
    match position_of(entries, key) {
        Some(i) => {
            assert(keys[i] == key);
            assert(keys_of(entries.update(i, (key, value))) =~= keys);
        },
        None => {
            if keys.contains(key) {
                let i = choose|i: int| 0 <= i < keys.len() && keys[i] == key;
                assert(entries[i].0 == key);
            }
            assert(keys_of(entries.push((key, value))) =~= keys.push(key));
        },
    }
}

/// The keys of the entries are the keys of the map that they list.
pub proof fn lemma_keys_are_domain<V>(entries: Seq<(Seq<char>, V)>, map: Map<Seq<char>, V>)
    requires
        lists(entries, map),
    ensures
        keys_of(entries).no_duplicates(),
        forall|key: Seq<char>| map.contains_key(key) <==> keys_of(entries).contains(key),
{
    let keys = keys_of(entries);
    assert forall|i: int, j: int| 0 <= i < keys.len() && 0 <= j < keys.len() && i != j implies keys[i]
        != keys[j] by {
        if i < j {
            assert(entries[i].0 != entries[j].0);
        } else {
            assert(entries[j].0 != entries[i].0);
        }
    }
    assert forall|key: Seq<char>| map.contains_key(key) <==> keys.contains(key) by {
        if map.contains_key(key) {
            let i = choose|i: int| 0 <= i < entries.len() && (#[trigger] entries[i]).0 == key;
            assert(keys[i] == key);
        }
        if keys.contains(key) {
            let i = choose|i: int| 0 <= i < keys.len() && keys[i] == key;
            assert(map.contains_pair(entries[i].0, entries[i].1));
        }
    }
}

/// Taking a key out takes it out of the order of the keys.
pub proof fn lemma_keys_after_remove<V>(
    entries: Seq<(Seq<char>, V)>,
    map: Map<Seq<char>, V>,
    key: Seq<char>,
)
    requires
        lists(entries, map),
    ensures
        keys_of(
            match position_of(entries, key) {
                Some(i) => entries.remove(i),
                None => entries,
            },
        ) == without_key(keys_of(entries), key),
{
    let keys = keys_of(entries);
    match position_of(entries, key) {
        Some(i) => {
            assert(keys[i] == key);
            let j = keys.index_of(key);
            assert(entries[j].0 == key);
            if i < j {
                assert(entries[i].0 != entries[j].0);
            } else if j < i {
                assert(entries[j].0 != entries[i].0);
            }
            assert(keys_of(entries.remove(i)) =~= keys.remove(i));
        },
        None => {
            if keys.contains(key) {
                let i = choose|i: int| 0 <= i < keys.len() && keys[i] == key;
                assert(entries[i].0 == key);
            }
        },
    }
}

/// Of two participants one may stand before the other.
pub proof fn lemma_in_order_total(a: ParticipantView, b: ParticipantView)
    ensures
        in_order(a, b) || in_order(b, a),
{
    lemma_lex_le_total(unicode_lowercase(a.display_name), unicode_lowercase(b.display_name));
}

/// The order of the list is transitive.
pub proof fn lemma_in_order_transitive(a: ParticipantView, b: ParticipantView, c: ParticipantView)
    requires
        in_order(a, b),
        in_order(b, c),
    ensures
        in_order(a, c),
{
    if a.is_host == b.is_host && b.is_host == c.is_host {
        lemma_lex_le_transitive(
            unicode_lowercase(a.display_name),
            unicode_lowercase(b.display_name),
            unicode_lowercase(c.display_name),
        );
    }
}

/// Whether each of `list` may stand before all that follow it.
pub open spec fn is_sorted(list: Seq<ParticipantView>) -> bool {
    forall|i: int, j: int| 0 <= i < j < list.len() ==> in_order(list[i], list[j])
}

/// Putting a participant into a sorted list gives a sorted list, which
/// holds the participant and what the list held, and nothing else.
pub proof fn lemma_place(sorted: Seq<ParticipantView>, participant: ParticipantView, at: int)
    requires
        0 <= at <= sorted.len(),
        is_sorted(sorted),
        forall|k: int| at <= k < sorted.len() ==> !in_order(sorted[k], participant),
    ensures
        place(sorted, participant, at).len() == sorted.len() + 1,
        is_sorted(place(sorted, participant, at)),
        place(sorted, participant, at).contains(participant),
        forall|i: int|
            0 <= i < sorted.len() ==> place(sorted, participant, at).contains(#[trigger] sorted[i]),
        forall|i: int|
            0 <= i < sorted.len() + 1 ==> (#[trigger] place(sorted, participant, at)[i])
                == participant || sorted.contains(place(sorted, participant, at)[i]),
    decreases at,
{
    if at > 0 && !in_order(sorted[at - 1], participant) {
        lemma_place(sorted, participant, at - 1);
    } else {
        let placed = sorted.insert(at, participant);
        assert(place(sorted, participant, at) == placed);
        assert forall|i: int, j: int| 0 <= i < j < placed.len() implies in_order(
            placed[i],
            placed[j],
        ) by {
            if j < at {
                assert(placed[i] == sorted[i] && placed[j] == sorted[j]);
            } else if j == at {
                assert(placed[i] == sorted[i]);
                if i < at - 1 {
                    lemma_in_order_transitive(sorted[i], sorted[at - 1], participant);
                }
            } else if i == at {
                assert(placed[j] == sorted[j - 1]);
                lemma_in_order_total(sorted[j - 1], participant);
            } else if i > at {
                assert(placed[i] == sorted[i - 1] && placed[j] == sorted[j - 1]);
            } else {
                assert(placed[i] == sorted[i] && placed[j] == sorted[j - 1]);
            }
        }
        assert(placed[at] == participant);
        assert forall|i: int| 0 <= i < sorted.len() implies placed.contains(
            #[trigger] sorted[i],
        ) by {
            if i < at {
                assert(placed[i] == sorted[i]);
            } else {
                assert(placed[i + 1] == sorted[i]);
            }
        }
        assert forall|i: int| 0 <= i < sorted.len() + 1 implies (#[trigger] placed[i])
            == participant || sorted.contains(placed[i]) by {
            if i < at {
                assert(placed[i] == sorted[i]);
            } else if i > at {
                assert(placed[i] == sorted[i - 1]);
            }
        }
    }
}

/// The list of the first `n` participants is sorted and holds exactly
/// them.
pub proof fn lemma_sorted_prefix(room: RoomStateView, n: int)
    requires
        0 <= n <= room.order.len(),
    ensures
        room.sorted_prefix(n).len() == n,
        is_sorted(room.sorted_prefix(n)),
        forall|k: int|
            0 <= k < n ==> room.sorted_prefix(n).contains(
                room.participants[#[trigger] room.order[k]],
            ),
        forall|i: int|
            0 <= i < n ==> exists|k: int|
                0 <= k < n && (#[trigger] room.sorted_prefix(n)[i])
                    == room.participants[#[trigger] room.order[k]],
    decreases n,
{
    if n > 0 {
        lemma_sorted_prefix(room, n - 1);
        let before = room.sorted_prefix(n - 1);
        let participant = room.participants[room.order[n - 1]];
        let after = room.sorted_prefix(n);
        lemma_place(before, participant, before.len() as int);
        assert forall|k: int| 0 <= k < n implies after.contains(
            room.participants[#[trigger] room.order[k]],
        ) by {
            if k < n - 1 {
                let found = room.participants[room.order[k]];
                assert(before.contains(found));
                let i = choose|i: int| 0 <= i < before.len() && before[i] == found;
                assert(after.contains(before[i]));
            }
        }
        assert forall|i: int| 0 <= i < n implies exists|k: int|
            0 <= k < n && (#[trigger] after[i]) == room.participants[#[trigger] room.order[k]] by {
            if after[i] == participant {
                assert(after[i] == room.participants[room.order[n - 1]]);
            } else {
                assert(before.contains(after[i]));
                let j = choose|j: int| 0 <= j < before.len() && before[j] == after[i];
                let k = choose|k: int|
                    0 <= k < n - 1 && (#[trigger] before[j])
                        == room.participants[#[trigger] room.order[k]];
                assert(after[i] == room.participants[room.order[k]]);
            }
        }
    }
}

/// The list of participants names each participant of the room and nobody
/// else, has as many places as the room has participants, and is in order:
/// the host first, the others by their lower-case names.
pub proof fn lemma_listing(room: RoomStateView)
    ensures
        room.listing().len() == room.order.len(),
        is_sorted(room.listing()),
        forall|k: int|
            0 <= k < room.order.len() ==> room.listing().contains(
                room.participants[#[trigger] room.order[k]],
            ),
        forall|i: int|
            0 <= i < room.listing().len() ==> exists|k: int|
                0 <= k < room.order.len() && (#[trigger] room.listing()[i])
                    == room.participants[#[trigger] room.order[k]],
{
    lemma_sorted_prefix(room, room.order.len() as int);
}

/// A room that its host has just made has one host, the one that
/// `host_peer_id` names, and files its participant under its peer id.
pub proof fn lemma_new_room_has_single_host(
    room_code: Seq<char>,
    local_peer_id: Seq<char>,
    display_name: Seq<char>,
    now_ns: u64,
)
    ensures
        RoomStateView::as_host(room_code, local_peer_id, display_name, now_ns).single_host(),
        RoomStateView::as_host(room_code, local_peer_id, display_name, now_ns).keyed_by_peer_id(),
        RoomStateView::as_host(room_code, local_peer_id, display_name, now_ns).listed(),
        RoomStateView::as_host(room_code, local_peer_id, display_name, now_ns).participants.contains_key(
            local_peer_id,
        ),
{
    let room = RoomStateView::as_host(room_code, local_peer_id, display_name, now_ns);
    assert(room.order[0] == local_peer_id);
}

/// Handing the room over keeps it at one host: whether the hand-over is
/// done or refused, exactly one participant is marked as host afterwards,
/// the one that `host_peer_id` names.
pub proof fn lemma_transfer_keeps_single_host(room: RoomStateView, new_host: Seq<char>)
    requires
        room.single_host(),
    ensures
        room.host_transferred(new_host).single_host(),
        room.participants.contains_key(new_host) ==> room.host_transferred(new_host).host_peer_id
            == new_host,
        room.keyed_by_peer_id() ==> room.host_transferred(new_host).keyed_by_peer_id(),
        room.host_transferred(new_host).participants.dom() == room.participants.dom(),
{
    assert(room.host_transferred(new_host).participants.dom() =~= room.participants.dom());
}

/// A listener who comes or changes its name leaves the room at one host.
pub proof fn lemma_listener_keeps_single_host(room: RoomStateView, participant: ParticipantView)
    requires
        room.single_host(),
        !participant.is_host,
        participant.peer_id != room.host_peer_id,
    ensures
        room.with_participant(participant).single_host(),
        room.keyed_by_peer_id() ==> room.with_participant(participant).keyed_by_peer_id(),
{
}

/// A listener who leaves leaves the room at one host.
pub proof fn lemma_leaving_listener_keeps_single_host(room: RoomStateView, peer_id: Seq<char>)
    requires
        room.single_host(),
        peer_id != room.host_peer_id,
    ensures
        room.without_participant(peer_id).single_host(),
        room.keyed_by_peer_id() ==> room.without_participant(peer_id).keyed_by_peer_id(),
{
}

/// Where this peer stands with regard to rooms, as mathematics.
pub enum RoomView {
    Idle,
    Creating { display_name: Seq<char> },
    Joining { room_code: Seq<char>, display_name: Seq<char> },
    Active(RoomStateView),
}

/// Where this peer stands with regard to rooms. It is in exactly one of
/// these.
#[derive(Debug)]
pub enum Room {
    /// In no room.
    Idle,
    /// Making a room: the network is being set up.
    Creating { display_name: String },
    /// Joining a room: waiting for the host's answer.
    Joining { room_code: String, display_name: String },
    /// In a room.
    Active(RoomState),
}

impl View for Room {
    type V = RoomView;

    open spec fn view(&self) -> RoomView {
        match *self {
            Room::Idle => RoomView::Idle,
            Room::Creating { display_name } => RoomView::Creating { display_name: display_name@ },
            Room::Joining { room_code, display_name } => RoomView::Joining {
                room_code: room_code@,
                display_name: display_name@,
            },
            Room::Active(state) => RoomView::Active(state@),
        }
    }
}

impl Room {
    /// Whether this peer is in a room.
    pub fn is_active(&self) -> (active: bool)
        ensures
            active == (self@ is Active),
    {
        match self {
            Room::Active(_) => true,
            _ => false,
        }
    }

    /// Whether this peer is in a room or on its way into one.
    pub fn is_busy(&self) -> (busy: bool)
        ensures
            busy == !(self@ is Idle),
    {
        match self {
            Room::Idle => false,
            _ => true,
        }
    }

    /// The room that this peer is in, if it is in one.
    pub fn state(&self) -> (state: Option<&RoomState>)
        ensures
            state is Some <==> self is Active,
            state matches Some(state) ==> *self == Room::Active(*state),
    {
        match self {
            Room::Active(state) => Some(state),
            _ => None,
        }
    }

    /// The room that this peer is in, to be changed, if it is in one.
    pub fn state_mut(&mut self) -> (state: Option<&mut RoomState>)
        ensures
            state is Some <==> *old(self) is Active,
            state matches Some(state) ==> *old(self) == Room::Active(*state) && *final(self)
                == Room::Active(*final(state)),
            state is None ==> *final(self) == *old(self),
    {
        match self {
            Room::Active(state) => Some(state),
            _ => None,
        }
    }
}

impl Default for Room {
    fn default() -> (room: Self)
        ensures
            room is Idle,
    {
        Room::Idle
    }
}

} // verus!
