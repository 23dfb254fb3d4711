//! What the network task decides.
//!
//! Each room is one pub/sub topic. A peer is subscribed to the topic of at
//! most one room. Whoever makes or joins a room announces itself as a
//! provider of the room's key on the DHT; whoever joins also asks for the
//! other providers and dials them. A peer that is found, by multicast DNS,
//! on the DHT or at a relay, is added to the mesh and dialed. At a peer that
//! offers to relay, a reservation is asked for on each of its addresses that
//! is not a loopback address.

use crate::network::events::{strings_view, NetworkError, NetworkErrorView, NetworkEvent, NetworkEventView};
use crate::string_map::StringMap;
use crate::sync::protocol::option_string_view;
use crate::text::{begins_with, chars_of, contains_run, find_run, has_prefix};
use vstd::prelude::*;
use vstd::string::{StrSliceExecFns, StringExecFns};

verus! {

/// The size that the mesh of a topic aims at.
pub const MESH_N: usize = 3;

/// Below this size the mesh is filled up.
pub const MESH_N_LOW: usize = 1;

/// Above this size the mesh is thinned out.
pub const MESH_N_HIGH: usize = 6;

/// The least number of outbound peers in the mesh.
pub const MESH_OUTBOUND_MIN: usize = 0;

/// The number of peers that are gossiped to.
pub const GOSSIP_LAZY: usize = 3;

/// The heartbeat of the pub/sub layer, in seconds.
pub const GOSSIP_HEARTBEAT_SECS: u64 = 1;

/// Connections without traffic are closed after this many seconds: long
/// enough for relay reservations to outlast quiet times.
pub const IDLE_CONNECTION_TIMEOUT_SECS: u64 = 300;

/// The interval of the liveness ping, in seconds.
pub const LIVENESS_PING_INTERVAL_SECS: u64 = 15;

/// The mesh is sized for small topics: the bounds are in the order that
/// the pub/sub layer asks for.
pub proof fn lemma_mesh_bounds()
    ensures
        MESH_OUTBOUND_MIN <= MESH_N_LOW <= MESH_N <= MESH_N_HIGH,
        MESH_OUTBOUND_MIN <= MESH_N / 2,
{
}

/// The protocol version that a peer of this system advertises.
pub open spec fn protocol_version() -> Seq<char> {
    "/cider-together/1.0.0"@
}

/// The protocol id of the DHT: that of the public one, which carries the
/// provider records.
pub open spec fn dht_protocol() -> Seq<char> {
    "/ipfs/kad/1.0.0"@
}

/// The topic of the room with the code `room_code`.
pub open spec fn room_topic(room_code: Seq<char>) -> Seq<char> {
    "cider-room-"@ + room_code
}

/// Whether an address is a loopback address.
pub open spec fn is_loopback(address: Seq<char>) -> bool {
    begins_with(address, "/ip4/127."@) || address == "/ip6/::1"@ || begins_with(
        address,
        "/ip6/::1/"@,
    )
}

/// Whether a peer that speaks `protocols` offers to relay: one of them
/// holds `relay`.
pub open spec fn offers_relay(protocols: Seq<Seq<char>>) -> bool {
    exists|i: int| 0 <= i < protocols.len() && contains_run(#[trigger] protocols[i], "relay"@)
}

/// The address on which to listen through the relay `relay_peer_id` at
/// `address`.
pub open spec fn circuit_address(address: Seq<char>, relay_peer_id: Seq<char>) -> Seq<char> {
    address + "/p2p/"@ + relay_peer_id + "/p2p-circuit"@
}

/// The addresses on which to listen through a relay that listens on
/// `addresses`: one for each that is not a loopback address.
pub open spec fn circuit_addresses(addresses: Seq<Seq<char>>, relay_peer_id: Seq<char>) -> Seq<
    Seq<char>,
>
    decreases addresses.len(),
{
    if addresses.len() == 0 {
        Seq::empty()
    } else if is_loopback(addresses.last()) {
        circuit_addresses(addresses.drop_last(), relay_peer_id)
    } else {
        circuit_addresses(addresses.drop_last(), relay_peer_id).push(
            circuit_address(addresses.last(), relay_peer_id),
        )
    }
}

/// The addresses on which to ask a peer that identified itself for a
/// reservation: none where it does not offer to relay.
pub open spec fn reservation_addresses(
    protocols: Seq<Seq<char>>,
    addresses: Seq<Seq<char>>,
    relay_peer_id: Seq<char>,
) -> Seq<Seq<char>> {
    if offers_relay(protocols) {
        circuit_addresses(addresses, relay_peer_id)
    } else {
        Seq::empty()
    }
}

/// The protocol version that a peer of this system advertises.
pub fn protocol_version_string() -> (version: String)
    ensures
        version@ == protocol_version(),
{
    String::from_str("/cider-together/1.0.0")
}

/// The protocol id of the DHT.
pub fn dht_protocol_string() -> (protocol: String)
    ensures
        protocol@ == dht_protocol(),
{
    String::from_str("/ipfs/kad/1.0.0")
}

/// The addresses of the public seed nodes by which the DHT is entered: one
/// node, over TCP and over QUIC.
pub open spec fn seed_addresses() -> Seq<Seq<char>> {
    seq![
        "/ip4/104.131.131.82/tcp/4001/p2p/QmaCpDMGvV2BGHeYERUEnRQAwe3N8SzbUtfsmvsqQLuvuJ"@,
        "/ip4/104.131.131.82/udp/4001/quic-v1/p2p/QmaCpDMGvV2BGHeYERUEnRQAwe3N8SzbUtfsmvsqQLuvuJ"@,
    ]
}

/// The addresses of the public seed nodes by which the DHT is entered.
pub fn bootstrap_nodes() -> (nodes: Vec<String>)
    ensures
        strings_view(nodes@) == seed_addresses(),
{
    let mut nodes = Vec::new();
    nodes.push(
        String::from_str(
            "/ip4/104.131.131.82/tcp/4001/p2p/QmaCpDMGvV2BGHeYERUEnRQAwe3N8SzbUtfsmvsqQLuvuJ",
        ),
    );
    nodes.push(
        String::from_str(
            "/ip4/104.131.131.82/udp/4001/quic-v1/p2p/QmaCpDMGvV2BGHeYERUEnRQAwe3N8SzbUtfsmvsqQLuvuJ",
        ),
    );
    assert(strings_view(nodes@) =~= seed_addresses());
    nodes
}

/// The topic of the room with the code `room_code`.
pub fn topic_for(room_code: &str) -> (topic: String)
    ensures
        topic@ == room_topic(room_code@),
{
    String::from_str("cider-room-").concat(room_code)
}

/// The key under which the providers of the room with the code `room_code`
/// are found on the DHT: the bytes of its topic in UTF-8.
pub fn provider_key(room_code: &str) -> (key: Vec<u8>)
    ensures
        key@ == vstd::utf8::encode_utf8(room_topic(room_code@)),
{
    let topic = topic_for(room_code);
    topic.as_str().as_bytes_vec()
}

/// Whether an address is a loopback address.
pub fn is_loopback_address(address: &str) -> (loopback: bool)
    ensures
        loopback == is_loopback(address@),
{
    let chars = chars_of(address);
    has_prefix(&chars, &chars_of("/ip4/127.")) || *address == *"/ip6/::1" || has_prefix(
        &chars,
        &chars_of("/ip6/::1/"),
    )
}

/// Whether a peer that speaks `protocols` offers to relay.
pub fn supports_relay(protocols: &Vec<String>) -> (offers: bool)
    ensures
        offers == offers_relay(strings_view(protocols@)),
{
    let needle = chars_of("relay");
    let mut i: usize = 0;
    while i < protocols.len()
        invariant
            i <= protocols@.len(),
            needle@ == "relay"@,
            forall|k: int| 0 <= k < i ==> !contains_run(#[trigger] strings_view(protocols@)[k], "relay"@),
        decreases protocols@.len() - i,
    {
        if find_run(&chars_of(protocols[i].as_str()), &needle) {
            assert(contains_run(strings_view(protocols@)[i as int], "relay"@));
            return true;
        }
        assert(!contains_run(strings_view(protocols@)[i as int], "relay"@));
        i = i + 1;
    }
    false
}

/// The addresses on which to ask a peer that identified itself, speaking
/// `protocols` and listening on `addresses`, for a reservation.
pub fn relay_listen_addresses(
    protocols: &Vec<String>,
    addresses: &Vec<String>,
    relay_peer_id: &str,
) -> (through: Vec<String>)
    ensures
        strings_view(through@) == reservation_addresses(
            strings_view(protocols@),
            strings_view(addresses@),
            relay_peer_id@,
        ),
{
    let mut through: Vec<String> = Vec::new();
    if !supports_relay(protocols) {
        assert(strings_view(through@) =~= Seq::<Seq<char>>::empty());
        return through;
    }
    let ghost all = strings_view(addresses@);
    let mut i: usize = 0;
    proof {
        assert(strings_view(through@) =~= circuit_addresses(all.take(0), relay_peer_id@));
    }
    while i < addresses.len()
        invariant
            i <= addresses@.len(),
            all == strings_view(addresses@),
            strings_view(through@) == circuit_addresses(all.take(i as int), relay_peer_id@),
        decreases addresses@.len() - i,
    {
        proof {
            assert(all.take(i + 1).drop_last() == all.take(i as int));
            assert(all.take(i + 1).last() == addresses@[i as int]@);
        }
        if !is_loopback_address(addresses[i].as_str()) {
            let ghost before = strings_view(through@);
            let address = String::from_str(addresses[i].as_str()).concat("/p2p/").concat(
                relay_peer_id,
            ).concat("/p2p-circuit");
            through.push(address);
            proof {
                assert(strings_view(through@) =~= before.push(
                    circuit_address(addresses@[i as int]@, relay_peer_id@),
                ));
            }
        }
        i = i + 1;
    }
    proof {
        assert(all.take(addresses@.len() as int) == all);
    }
    through
}

/// What the network task holds, as mathematics.
pub struct NetworkStateView {
    pub local_peer_id: Seq<char>,
    /// The topic of the room that this peer is subscribed to.
    pub room_topic: Option<Seq<char>>,
    /// The peers that are subscribed to that topic.
    pub room_peers: Set<Seq<char>>,
    /// The peers that were found on the local network.
    pub discovered_peers: Set<Seq<char>>,
    /// The relays at which this peer holds a reservation.
    pub connected_relays: Set<Seq<char>>,
}

/// What entering a room asks of the network.
#[derive(Debug, PartialEq, Eq)]
pub struct EnterPlan {
    /// The topic to subscribe to.
    pub topic: String,
    /// Whether to ask the DHT for the other providers and dial them.
    pub find_providers: bool,
}

impl NetworkStateView {
    /// Why no room can be entered, if none can: this peer is in one.
    pub open spec fn enter_refusal(self) -> Option<NetworkErrorView> {
        if self.room_topic is Some {
            Some(NetworkErrorView::AlreadyInRoom)
        } else {
            None
        }
    }

    /// This peer subscribed to `topic`.
    pub open spec fn entered(self, topic: Seq<char>) -> NetworkStateView {
        NetworkStateView { room_topic: Some(topic), room_peers: Set::empty(), ..self }
    }

    /// This peer left its room.
    pub open spec fn left(self) -> NetworkStateView {
        NetworkStateView { room_topic: None, room_peers: Set::empty(), ..self }
    }

    /// Whether `topic` is the topic of the room of this peer.
    pub open spec fn is_room_topic(self, topic: Seq<char>) -> bool {
        self.room_topic == Some(topic)
    }

    /// `peer_id` subscribed to `topic`.
    pub open spec fn subscribed(self, peer_id: Seq<char>, topic: Seq<char>) -> NetworkStateView {
        if self.is_room_topic(topic) {
            NetworkStateView { room_peers: self.room_peers.insert(peer_id), ..self }
        } else {
            self
        }
    }

    /// `peer_id` unsubscribed from `topic`.
    pub open spec fn unsubscribed(self, peer_id: Seq<char>, topic: Seq<char>) -> NetworkStateView {
        if self.is_room_topic(topic) {
            NetworkStateView { room_peers: self.room_peers.remove(peer_id), ..self }
        } else {
            self
        }
    }

    /// The connection to `peer_id` was closed.
    pub open spec fn disconnected(self, peer_id: Seq<char>) -> NetworkStateView {
        NetworkStateView {
            room_peers: self.room_peers.remove(peer_id),
            connected_relays: self.connected_relays.remove(peer_id),
            ..self
        }
    }
}

/// What the network task holds.
#[derive(Debug)]
pub struct NetworkState {
    local_peer_id: String,
    room_topic: Option<String>,
    room_peers: StringMap<()>,
    discovered_peers: StringMap<()>,
    connected_relays: StringMap<()>,
}

impl View for NetworkState {
    type V = NetworkStateView;

    closed spec fn view(&self) -> NetworkStateView {
        NetworkStateView {
            local_peer_id: self.local_peer_id@,
            room_topic: option_string_view(self.room_topic),
            room_peers: self.room_peers@.dom(),
            discovered_peers: self.discovered_peers@.dom(),
            connected_relays: self.connected_relays@.dom(),
        }
    }
}

impl NetworkState {
    /// The network task of the peer `local_peer_id`, in no room and
    /// knowing nobody.
    pub fn new(local_peer_id: String) -> (state: Self)
        ensures
            state@ == (NetworkStateView {
                local_peer_id: local_peer_id@,
                room_topic: None,
                room_peers: Set::empty(),
                discovered_peers: Set::empty(),
                connected_relays: Set::empty(),
            }),
    {
        let state = NetworkState {
            local_peer_id,
            room_topic: None,
            room_peers: StringMap::new(),
            discovered_peers: StringMap::new(),
            connected_relays: StringMap::new(),
        };
        proof {
            assert(state@.room_peers =~= Set::<Seq<char>>::empty());
            assert(state@.discovered_peers =~= Set::<Seq<char>>::empty());
            assert(state@.connected_relays =~= Set::<Seq<char>>::empty());
        }
        state
    }

    /// The identity of this peer.
    pub fn local_peer_id_string(&self) -> (peer_id: String)
        ensures
            peer_id@ == self@.local_peer_id,
    {
        self.local_peer_id.clone()
    }

    /// What making the room with the code `room_code` asks of the network.
    /// A peer that is in a room is refused.
    pub fn create_room(&self, room_code: &str) -> (plan: Result<EnterPlan, NetworkError>)
        ensures
            plan is Ok <==> self@.room_topic is None,
            plan matches Err(error) ==> error@ == NetworkErrorView::AlreadyInRoom,
            plan matches Ok(plan) ==> plan.topic@ == room_topic(room_code@) && !plan.find_providers,
    {
        if self.room_topic.is_some() {
            return Err(NetworkError::AlreadyInRoom);
        }
        Ok(EnterPlan { topic: topic_for(room_code), find_providers: false })
    }

    /// What joining the room with the code `room_code` asks of the
    /// network. A peer that is in a room is refused.
    pub fn join_room(&self, room_code: &str) -> (plan: Result<EnterPlan, NetworkError>)
        ensures
            plan is Ok <==> self@.room_topic is None,
            plan matches Err(error) ==> error@ == NetworkErrorView::AlreadyInRoom,
            plan matches Ok(plan) ==> plan.topic@ == room_topic(room_code@) && plan.find_providers,
    {
        if self.room_topic.is_some() {
            return Err(NetworkError::AlreadyInRoom);
        }
        Ok(EnterPlan { topic: topic_for(room_code), find_providers: true })
    }

    /// This peer subscribed to `topic`: it is in that room, and nobody
    /// else is known to be.
    pub fn room_entered(&mut self, topic: String)
        ensures
            final(self)@ == old(self)@.entered(topic@),
    {
        self.room_topic = Some(topic);
        self.room_peers.clear();
        proof {
            assert(self@.room_peers =~= Set::<Seq<char>>::empty());
        }
    }

    /// Leaves the room. Returns the topic to unsubscribe from, if this
    /// peer was in a room.
    pub fn leave_room(&mut self) -> (topic: Option<String>)
        ensures
            final(self)@ == old(self)@.left(),
            option_string_view(topic) == old(self)@.room_topic,
    {
        let mut topic: Option<String> = None;
        core::mem::swap(&mut self.room_topic, &mut topic);
        self.room_peers.clear();
        proof {
            assert(self@.room_peers =~= Set::<Seq<char>>::empty());
        }
        topic
    }

    /// The topic on which to publish a message to the room. A peer that
    /// is in no room is refused.
    pub fn broadcast(&self) -> (topic: Result<String, NetworkError>)
        ensures
            topic is Ok <==> self@.room_topic is Some,
            topic matches Err(error) ==> error@ == NetworkErrorView::NotInRoom,
            topic matches Ok(topic) ==> self@.room_topic == Some(topic@),
    {
        match &self.room_topic {
            Some(topic) => Ok(topic.clone()),
            None => Err(NetworkError::NotInRoom),
        }
    }

    /// Whether `topic` is the topic of the room of this peer.
    fn is_room_topic(&self, topic: &str) -> (ours: bool)
        ensures
            ours == self@.is_room_topic(topic@),
    {
        match &self.room_topic {
            Some(ours) => *ours.as_str() == *topic,
            None => false,
        }
    }

    /// `peer_id` subscribed to `topic`. Returns what to tell the session,
    /// if the topic is that of the room.
    pub fn peer_subscribed(&mut self, peer_id: &str, topic: &str) -> (event: Option<NetworkEvent>)
        ensures
            final(self)@ == old(self)@.subscribed(peer_id@, topic@),
            event is Some <==> old(self)@.is_room_topic(topic@),
            event matches Some(event) ==> event@ == (NetworkEventView::PeerSubscribed {
                peer_id: peer_id@,
            }),
    {
        if !self.is_room_topic(topic) {
            return None;
        }
        self.room_peers.insert(String::from_str(peer_id), ());
        proof {
            assert(self@.room_peers =~= old(self)@.room_peers.insert(peer_id@));
        }
        Some(NetworkEvent::PeerSubscribed { peer_id: String::from_str(peer_id) })
    }

    /// `peer_id` unsubscribed from `topic`. Returns what to tell the
    /// session, if the topic is that of the room.
    pub fn peer_unsubscribed(&mut self, peer_id: &str, topic: &str) -> (event: Option<NetworkEvent>)
        ensures
            final(self)@ == old(self)@.unsubscribed(peer_id@, topic@),
            event is Some <==> old(self)@.is_room_topic(topic@),
            event matches Some(event) ==> event@ == (NetworkEventView::PeerUnsubscribed {
                peer_id: peer_id@,
            }),
    {
        if !self.is_room_topic(topic) {
            return None;
        }
        self.room_peers.remove(peer_id);
        proof {
            assert(self@.room_peers =~= old(self)@.room_peers.remove(peer_id@));
        }
        Some(NetworkEvent::PeerUnsubscribed { peer_id: String::from_str(peer_id) })
    }

    /// The connection to `peer_id` was closed.
    pub fn connection_closed(&mut self, peer_id: &str)
        ensures
            final(self)@ == old(self)@.disconnected(peer_id@),
    {
        self.room_peers.remove(peer_id);
        self.connected_relays.remove(peer_id);
        proof {
            assert(self@.room_peers =~= old(self)@.room_peers.remove(peer_id@));
            assert(self@.connected_relays =~= old(self)@.connected_relays.remove(peer_id@));
        }
    }

    /// `peer_id` was found on the local network. Returns whether to add it
    /// to the mesh and dial it: whether it is another peer than this one.
    pub fn peer_discovered(&mut self, peer_id: &str) -> (dial: bool)
        ensures
            dial == (peer_id@ != old(self)@.local_peer_id),
            final(self)@ == if dial {
                NetworkStateView {
                    discovered_peers: old(self)@.discovered_peers.insert(peer_id@),
                    ..old(self)@
                }
            } else {
                old(self)@
            },
    {
        if *peer_id == *self.local_peer_id.as_str() {
            return false;
        }
        self.discovered_peers.insert(String::from_str(peer_id), ());
        proof {
            assert(self@.discovered_peers =~= old(self)@.discovered_peers.insert(peer_id@));
        }
        true
    }

    /// `peer_id` is on the local network no longer.
    pub fn peer_expired(&mut self, peer_id: &str)
        ensures
            final(self)@ == (NetworkStateView {
                discovered_peers: old(self)@.discovered_peers.remove(peer_id@),
                ..old(self)@
            }),
    {
        self.discovered_peers.remove(peer_id);
        proof {
            assert(self@.discovered_peers =~= old(self)@.discovered_peers.remove(peer_id@));
        }
    }

    /// The relay `relay_peer_id` accepted a reservation of this peer.
    pub fn reservation_accepted(&mut self, relay_peer_id: &str)
        ensures
            final(self)@ == (NetworkStateView {
                connected_relays: old(self)@.connected_relays.insert(relay_peer_id@),
                ..old(self)@
            }),
    {
        self.connected_relays.insert(String::from_str(relay_peer_id), ());
        proof {
            assert(self@.connected_relays =~= old(self)@.connected_relays.insert(relay_peer_id@));
        }
    }

    /// Whether `peer_id` is subscribed to the topic of the room.
    pub fn is_room_peer(&self, peer_id: &str) -> (subscribed: bool)
        ensures
            subscribed == self@.room_peers.contains(peer_id@),
    {
        self.room_peers.contains_key(peer_id)
    }
}

} // verus!
