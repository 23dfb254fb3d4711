//! Who may use the relay.
//!
//! The relay serves peers of this system only. A peer that connects is
//! pending until it says what it speaks. One whose protocol version names
//! this system is verified; one that speaks something else is turned away
//! at once; and one that says nothing for `IDENTIFY_TIMEOUT_SECS` is turned
//! away by the sweep that runs every `SWEEP_INTERVAL_SECS`.

use crate::clock::{elapsed_between, elapsed_ns};
use crate::network::events::strings_view;
use crate::string_map::{lists, StringMap};
use crate::text::{chars_of, contains_run, find_run, to_lowercase, unicode_lowercase};
use vstd::prelude::*;
use vstd::string::StringExecFns;

verus! {

/// A peer has this many seconds to say what it speaks.
pub const IDENTIFY_TIMEOUT_SECS: u64 = 30;

/// The sweep for peers that said nothing runs every so many seconds.
pub const SWEEP_INTERVAL_SECS: u64 = 5;

/// The number of nanoseconds in a second.
pub const NANOS_PER_SEC: u64 = 1_000_000_000;

/// The time that a peer has to say what it speaks, in nanoseconds.
pub const IDENTIFY_TIMEOUT_NS: u64 = 30_000_000_000;

/// Whether a protocol version names this system: in lower case, it holds
/// `cider`.
pub open spec fn speaks_cider(protocol_version: Seq<char>) -> bool {
    contains_run(unicode_lowercase(protocol_version), "cider"@)
}

/// Whether a peer that connected at `connected_at_ns` and has said nothing
/// has run out of time at `now_ns`: more than `IDENTIFY_TIMEOUT_SECS` have
/// passed.
pub open spec fn timed_out(connected_at_ns: u64, now_ns: u64) -> bool {
    elapsed_ns(connected_at_ns, now_ns) > IDENTIFY_TIMEOUT_NS
}

/// The timeout in nanoseconds is the timeout in seconds.
pub proof fn lemma_identify_timeout()
    ensures
        IDENTIFY_TIMEOUT_NS == IDENTIFY_TIMEOUT_SECS * NANOS_PER_SEC,
{
}

/// What the relay makes of a peer that said what it speaks.
#[derive(Debug, Clone, Copy, PartialEq, Eq)]
pub enum Verdict {
    /// The peer was verified before: nothing changes.
    AlreadyVerified,
    /// The peer is of this system and may stay.
    Verified,
    /// The peer is not of this system and is to be disconnected.
    Rejected,
}

/// Who is verified and who is pending, as mathematics.
pub struct AdmissionView {
    pub verified: Set<Seq<char>>,
    /// The pending peers, each with the monotonic time at which it
    /// connected.
    pub pending: Map<Seq<char>, u64>,
}

impl AdmissionView {
    /// Nobody is connected.
    pub open spec fn empty() -> AdmissionView {
        AdmissionView { verified: Set::empty(), pending: Map::empty() }
    }

    /// A connection to `peer_id` was made at `now_ns`. A peer that is
    /// neither verified nor pending becomes pending; for one that is, this
    /// is one more transport and nothing changes.
    pub open spec fn connected(self, peer_id: Seq<char>, now_ns: u64) -> AdmissionView {
        if self.verified.contains(peer_id) || self.pending.contains_key(peer_id) {
            self
        } else {
            AdmissionView { pending: self.pending.insert(peer_id, now_ns), ..self }
        }
    }

    /// The connection to `peer_id` was closed: the peer is forgotten.
    pub open spec fn closed(self, peer_id: Seq<char>) -> AdmissionView {
        AdmissionView {
            verified: self.verified.remove(peer_id),
            pending: self.pending.remove(peer_id),
        }
    }

    /// What the relay makes of `peer_id` saying that it speaks
    /// `protocol_version`.
    pub open spec fn verdict(self, peer_id: Seq<char>, protocol_version: Seq<char>) -> Verdict {
        if self.verified.contains(peer_id) {
            Verdict::AlreadyVerified
        } else if speaks_cider(protocol_version) {
            Verdict::Verified
        } else {
            Verdict::Rejected
        }
    }

    /// `peer_id` said that it speaks `protocol_version`.
    pub open spec fn identified(self, peer_id: Seq<char>, protocol_version: Seq<char>) -> AdmissionView {
        match self.verdict(peer_id, protocol_version) {
            Verdict::AlreadyVerified => self,
            Verdict::Verified => AdmissionView {
                verified: self.verified.insert(peer_id),
                pending: self.pending.remove(peer_id),
            },
            Verdict::Rejected => AdmissionView { pending: self.pending.remove(peer_id), ..self },
        }
    }

    /// The pending peers that have run out of time at `now_ns`.
    pub open spec fn overdue(self, now_ns: u64) -> Set<Seq<char>> {
        Set::new(
            |peer_id: Seq<char>|
                self.pending.contains_key(peer_id) && timed_out(self.pending[peer_id], now_ns),
        )
    }

    /// The sweep at `now_ns`: the pending peers that have run out of time
    /// are pending no longer.
    pub open spec fn swept(self, now_ns: u64) -> AdmissionView {
        AdmissionView { pending: self.pending.remove_keys(self.overdue(now_ns)), ..self }
    }
}

/// Whether a protocol version names this system.
pub fn is_cider(protocol_version: &str) -> (cider: bool)
    ensures
        cider == speaks_cider(protocol_version@),
{
    let lower = to_lowercase(protocol_version);
    let hay = chars_of(lower.as_str());
    let needle = chars_of("cider");
    find_run(&hay, &needle)
}

/// Whether a peer that connected at `connected_at_ns` has run out of time
/// at `now_ns`.
pub fn has_timed_out(connected_at_ns: u64, now_ns: u64) -> (overdue: bool)
    ensures
        overdue == timed_out(connected_at_ns, now_ns),
{
    elapsed_between(connected_at_ns, now_ns) > IDENTIFY_TIMEOUT_NS
}

/// Who is verified and who is pending.
#[derive(Debug)]
pub struct Admission {
    verified: StringMap<()>,
    pending: StringMap<u64>,
}

impl View for Admission {
    type V = AdmissionView;

    closed spec fn view(&self) -> AdmissionView {
        AdmissionView { verified: self.verified@.dom(), pending: self.pending@ }
    }
}

impl Admission {
    /// Nobody is connected.
    pub fn new() -> (admission: Self)
        ensures
            admission@ == AdmissionView::empty(),
    {
        let admission = Admission { verified: StringMap::new(), pending: StringMap::new() };
        proof {
            assert(admission@.verified =~= Set::<Seq<char>>::empty());
        }
        admission
    }

    /// Whether `peer_id` is verified.
    pub fn is_verified(&self, peer_id: &str) -> (verified: bool)
        ensures
            verified == self@.verified.contains(peer_id@),
    {
        self.verified.contains_key(peer_id)
    }

    /// Whether `peer_id` is pending.
    pub fn is_pending(&self, peer_id: &str) -> (pending: bool)
        ensures
            pending == self@.pending.contains_key(peer_id@),
    {
        self.pending.contains_key(peer_id)
    }

    /// A connection to `peer_id` was made at `now_ns`.
    pub fn connection_established(&mut self, peer_id: &str, now_ns: u64)
        ensures
            final(self)@ == old(self)@.connected(peer_id@, now_ns),
    {
        if !self.verified.contains_key(peer_id) && !self.pending.contains_key(peer_id) {
            self.pending.insert(String::from_str(peer_id), now_ns);
        }
    }

    /// The connection to `peer_id` was closed.
    pub fn connection_closed(&mut self, peer_id: &str)
        ensures
            final(self)@ == old(self)@.closed(peer_id@),
    {
        self.verified.remove(peer_id);
        self.pending.remove(peer_id);
        proof {
            assert(self@.verified =~= old(self)@.verified.remove(peer_id@));
        }
    }

    /// `peer_id` said that it speaks `protocol_version`. Returns what the
    /// relay makes of it; a peer that is rejected is to be disconnected.
    pub fn identified(&mut self, peer_id: &str, protocol_version: &str) -> (verdict: Verdict)
        ensures
            verdict == old(self)@.verdict(peer_id@, protocol_version@),
            final(self)@ == old(self)@.identified(peer_id@, protocol_version@),
    {
        if self.verified.contains_key(peer_id) {
            return Verdict::AlreadyVerified;
        }
        self.pending.remove(peer_id);
        if is_cider(protocol_version) {
            self.verified.insert(String::from_str(peer_id), ());
            proof {
                assert(self@.verified =~= old(self)@.verified.insert(peer_id@));
            }
            Verdict::Verified
        } else {
            Verdict::Rejected
        }
    }

    /// The sweep at `now_ns`. Returns the peers that have run out of time,
    /// each once; they are pending no longer and are to be disconnected.
    pub fn sweep(&mut self, now_ns: u64) -> (gone: Vec<String>)
        ensures
            final(self)@ == old(self)@.swept(now_ns),
            strings_view(gone@).no_duplicates(),
            forall|peer_id: Seq<char>|
                strings_view(gone@).contains(peer_id) <==> old(self)@.overdue(now_ns).contains(
                    peer_id,
                ),
    {
        let count = self.pending.len();
        let ghost entries = self.pending.entries();
        let ghost all = self.pending@;
        let mut kept: StringMap<u64> = StringMap::new();
        let mut gone: Vec<String> = Vec::new();
        let ghost mut places: Seq<int> = Seq::empty();
        let mut i: usize = 0;
        while i < count
            invariant
                i <= count,
                count == entries.len(),
                entries == self.pending.entries(),
                all == self.pending@,
                lists(entries, all),
                forall|key: Seq<char>|
                    kept@.contains_key(key) <==> exists|j: int|
                        0 <= j < i && (#[trigger] entries[j]).0 == key && !timed_out(
                            entries[j].1,
                            now_ns,
                        ),
                forall|key: Seq<char>| kept@.contains_key(key) ==> kept@[key] == all[key],
                places.len() == gone@.len(),
                forall|g: int|
                    0 <= g < places.len() ==> 0 <= #[trigger] places[g] < i && gone@[g]@
                        == entries[places[g]].0 && timed_out(entries[places[g]].1, now_ns),
                forall|g: int, h: int| 0 <= g < h < places.len() ==> places[g] < places[h],
                forall|j: int|
                    0 <= j < i && timed_out((#[trigger] entries[j]).1, now_ns) ==> places.contains(
                        j,
                    ),
            decreases count - i,
        {
            let peer_id = self.pending.key_at(i);
            let connected_at_ns = *self.pending.value_at(i);
            let ghost before_kept = kept@;
            let ghost before_places = places;
            proof {
                assert(all.contains_pair(entries[i as int].0, entries[i as int].1));
            }
            if has_timed_out(connected_at_ns, now_ns) {
                gone.push(peer_id.clone());
                proof {
                    places = places.push(i as int);
                    assert forall|j: int|
                        0 <= j < i + 1 && timed_out(
                            (#[trigger] entries[j]).1,
                            now_ns,
                        ) implies places.contains(j) by {
                        if j < i {
                            let g = choose|g: int|
                                0 <= g < before_places.len() && before_places[g] == j;
                            assert(places[g] == j);
                        } else {
                            assert(places[before_places.len() as int] == j);
                        }
                    }
                    assert forall|key: Seq<char>|
                        kept@.contains_key(key) <==> exists|j: int|
                            0 <= j < i + 1 && (#[trigger] entries[j]).0 == key && !timed_out(
                                entries[j].1,
                                now_ns,
                            ) by {
                        if kept@.contains_key(key) {
                            let j = choose|j: int|
                                0 <= j < i && (#[trigger] entries[j]).0 == key && !timed_out(
                                    entries[j].1,
                                    now_ns,
                                );
                            assert(0 <= j < i + 1 && entries[j].0 == key);
                        }
                    }
                }
            } else {
                kept.insert(peer_id.clone(), connected_at_ns);
                proof {
                    assert forall|key: Seq<char>|
                        kept@.contains_key(key) <==> exists|j: int|
                            0 <= j < i + 1 && (#[trigger] entries[j]).0 == key && !timed_out(
                                entries[j].1,
                                now_ns,
                            ) by {
                        if before_kept.contains_key(key) {
                            let j = choose|j: int|
                                0 <= j < i && (#[trigger] entries[j]).0 == key && !timed_out(
                                    entries[j].1,
                                    now_ns,
                                );
                            assert(0 <= j < i + 1 && entries[j].0 == key);
                        }
                        if key == peer_id@ {
                            assert(entries[i as int].0 == key);
                        }
                        if exists|j: int|
                            0 <= j < i + 1 && (#[trigger] entries[j]).0 == key && !timed_out(
                                entries[j].1,
                                now_ns,
                            ) {
                            let j = choose|j: int|
                                0 <= j < i + 1 && (#[trigger] entries[j]).0 == key && !timed_out(
                                    entries[j].1,
                                    now_ns,
                                );
                            if j < i {
                                assert(before_kept.contains_key(key));
                            }
                        }
                    }
                    assert forall|j: int|
                        0 <= j < i + 1 && timed_out(
                            (#[trigger] entries[j]).1,
                            now_ns,
                        ) implies places.contains(j) by {
                        let g = choose|g: int| 0 <= g < places.len() && places[g] == j;
                        assert(places[g] == j);
                    }
                }
            }
            i = i + 1;
        }
        proof {
            let target = old(self)@.swept(now_ns).pending;
            let names = strings_view(gone@);
            assert forall|key: Seq<char>| kept@.contains_key(key) <==> target.contains_key(key) by {
                if kept@.contains_key(key) {
                    let j = choose|j: int|
                        0 <= j < count && (#[trigger] entries[j]).0 == key && !timed_out(
                            entries[j].1,
                            now_ns,
                        );
                    assert(all.contains_pair(entries[j].0, entries[j].1));
                }
                if target.contains_key(key) {
                    let j = choose|j: int| 0 <= j < entries.len() && (#[trigger] entries[j]).0 == key;
                    assert(all.contains_pair(entries[j].0, entries[j].1));
                }
            }
            assert(kept@ =~= target);
            assert forall|g: int, h: int|
                0 <= g < names.len() && 0 <= h < names.len() && g != h implies names[g]
                != names[h] by {
                assert(names[g] == entries[places[g]].0);
                assert(names[h] == entries[places[h]].0);
                if g < h {
                    assert(places[g] < places[h]);
                    assert(entries[places[g]].0 != entries[places[h]].0);
                } else {
                    assert(places[h] < places[g]);
                    assert(entries[places[h]].0 != entries[places[g]].0);
                }
            }
            assert forall|peer_id: Seq<char>|
                names.contains(peer_id) <==> old(self)@.overdue(now_ns).contains(peer_id) by {
                if names.contains(peer_id) {
                    let g = choose|g: int| 0 <= g < names.len() && names[g] == peer_id;
                    assert(gone@[g]@ == peer_id);
                    let j = places[g];
                    assert(all.contains_pair(entries[j].0, entries[j].1));
                }
                if old(self)@.overdue(now_ns).contains(peer_id) {
                    let j = choose|j: int|
                        0 <= j < entries.len() && (#[trigger] entries[j]).0 == peer_id;
                    assert(all.contains_pair(entries[j].0, entries[j].1));
                    assert(timed_out(entries[j].1, now_ns));
                    assert(places.contains(j));
                    let g = choose|g: int| 0 <= g < places.len() && places[g] == j;
                    assert(names[g] == peer_id);
                }
            }
        }
        self.pending = kept;
        gone
    }
}

/// A peer is verified only by saying that it speaks this system's
/// protocol: whoever is verified after a peer has identified itself was
/// verified before or is that peer, speaking this system's protocol.
pub proof fn lemma_only_cider_is_verified(
    admission: AdmissionView,
    peer_id: Seq<char>,
    protocol_version: Seq<char>,
    other: Seq<char>,
)
    requires
        admission.identified(peer_id, protocol_version).verified.contains(other),
    ensures
        admission.verified.contains(other) || (other == peer_id && speaks_cider(protocol_version)),
{
}

/// After a sweep nobody is pending who has run out of time, and nobody
/// else was turned away.
pub proof fn lemma_sweep_turns_the_overdue_away(admission: AdmissionView, now_ns: u64)
    ensures
        forall|peer_id: Seq<char>| #[trigger]
            admission.swept(now_ns).pending.contains_key(peer_id) <==> admission.pending.contains_key(
                peer_id,
            ) && !timed_out(admission.pending[peer_id], now_ns),
        admission.swept(now_ns).verified == admission.verified,
{
}

} // verus!
