//! What the network task is told and what it tells.

use crate::sync::protocol::{SyncMessage, SyncMessageView};
use vstd::prelude::*;
use vstd::string::StringExecFns;

verus! {

/// The characters of each string of a list.
pub open spec fn strings_view(strings: Seq<String>) -> Seq<Seq<char>> {
    strings.map_values(|s: String| s@)
}

/// What can go wrong on the network.
#[derive(Debug, PartialEq, Eq)]
pub enum NetworkError {
    Transport(String),
    Connection(String),
    RoomNotFound(String),
    AlreadyInRoom,
    NotInRoom,
    Libp2p(String),
    JoinTimeout,
}

/// A [`NetworkError`] as mathematics.
pub enum NetworkErrorView {
    Transport(Seq<char>),
    Connection(Seq<char>),
    RoomNotFound(Seq<char>),
    AlreadyInRoom,
    NotInRoom,
    Libp2p(Seq<char>),
    JoinTimeout,
}

impl View for NetworkError {
    type V = NetworkErrorView;

    open spec fn view(&self) -> NetworkErrorView {
        match *self {
            NetworkError::Transport(reason) => NetworkErrorView::Transport(reason@),
            NetworkError::Connection(reason) => NetworkErrorView::Connection(reason@),
            NetworkError::RoomNotFound(code) => NetworkErrorView::RoomNotFound(code@),
            NetworkError::AlreadyInRoom => NetworkErrorView::AlreadyInRoom,
            NetworkError::NotInRoom => NetworkErrorView::NotInRoom,
            NetworkError::Libp2p(reason) => NetworkErrorView::Libp2p(reason@),
            NetworkError::JoinTimeout => NetworkErrorView::JoinTimeout,
        }
    }
}

impl NetworkErrorView {
    /// The error in words.
    pub open spec fn message(self) -> Seq<char> {
        match self {
            NetworkErrorView::Transport(reason) => "Failed to create transport: "@ + reason,
            NetworkErrorView::Connection(reason) => "Failed to connect to peer: "@ + reason,
            NetworkErrorView::RoomNotFound(code) => "Room not found: "@ + code,
            NetworkErrorView::AlreadyInRoom => "Already in a room"@,
            NetworkErrorView::NotInRoom => "Not in a room"@,
            NetworkErrorView::Libp2p(reason) => "libp2p error: "@ + reason,
            NetworkErrorView::JoinTimeout => "Join timeout"@,
        }
    }
}

impl NetworkError {
    /// The error in words.
    pub fn message(&self) -> (message: String)
        ensures
            message@ == self@.message(),
    {
        match self {
            NetworkError::Transport(reason) => String::from_str(
                "Failed to create transport: ",
            ).concat(reason.as_str()),
            NetworkError::Connection(reason) => String::from_str(
                "Failed to connect to peer: ",
            ).concat(reason.as_str()),
            NetworkError::RoomNotFound(code) => String::from_str("Room not found: ").concat(
                code.as_str(),
            ),
            NetworkError::AlreadyInRoom => String::from_str("Already in a room"),
            NetworkError::NotInRoom => String::from_str("Not in a room"),
            NetworkError::Libp2p(reason) => String::from_str("libp2p error: ").concat(
                reason.as_str(),
            ),
            NetworkError::JoinTimeout => String::from_str("Join timeout"),
        }
    }
}

/// What the network task tells the session.
#[derive(Debug, PartialEq, Eq)]
pub enum NetworkEvent {
    /// The network is up; this peer has the identity `peer_id`.
    Ready { peer_id: String },
    /// A peer sent a message to the room.
    Message { from: String, message: SyncMessage },
    /// A peer subscribed to the topic of the room.
    PeerSubscribed { peer_id: String },
    /// A peer unsubscribed from the topic of the room.
    PeerUnsubscribed { peer_id: String },
    /// The addresses on which this peer can be reached.
    ListeningAddresses { addresses: Vec<String> },
    /// Whether the seed nodes of the rendezvous were reached.
    BootstrapStatus { connected: bool },
    /// Something went wrong.
    Error(String),
}

/// A [`NetworkEvent`] as mathematics.
pub enum NetworkEventView {
    Ready { peer_id: Seq<char> },
    Message { from: Seq<char>, message: SyncMessageView },
    PeerSubscribed { peer_id: Seq<char> },
    PeerUnsubscribed { peer_id: Seq<char> },
    ListeningAddresses { addresses: Seq<Seq<char>> },
    BootstrapStatus { connected: bool },
    Error(Seq<char>),
}

impl View for NetworkEvent {
    type V = NetworkEventView;

    open spec fn view(&self) -> NetworkEventView {
        match *self {
            NetworkEvent::Ready { peer_id } => NetworkEventView::Ready { peer_id: peer_id@ },
            NetworkEvent::Message { from, message } => NetworkEventView::Message {
                from: from@,
                message: message@,
            },
            NetworkEvent::PeerSubscribed { peer_id } => NetworkEventView::PeerSubscribed {
                peer_id: peer_id@,
            },
            NetworkEvent::PeerUnsubscribed { peer_id } => NetworkEventView::PeerUnsubscribed {
                peer_id: peer_id@,
            },
            NetworkEvent::ListeningAddresses { addresses } => NetworkEventView::ListeningAddresses {
                addresses: strings_view(addresses@),
            },
            NetworkEvent::BootstrapStatus { connected } => NetworkEventView::BootstrapStatus {
                connected,
            },
            NetworkEvent::Error(reason) => NetworkEventView::Error(reason@),
        }
    }
}

/// What the session tells the network task.
#[derive(Debug, PartialEq, Eq)]
pub enum NetworkCommand {
    /// Make the room with this code.
    CreateRoom { room_code: String },
    /// Join the room with this code.
    JoinRoom { room_code: String },
    /// Leave the room.
    LeaveRoom,
    /// Send a message to the room.
    Broadcast { message: SyncMessage },
    /// Connect to the peer at this address.
    DialPeer { address: String },
    /// Stop.
    Shutdown,
}

/// A [`NetworkCommand`] as mathematics.
pub enum NetworkCommandView {
    CreateRoom { room_code: Seq<char> },
    JoinRoom { room_code: Seq<char> },
    LeaveRoom,
    Broadcast { message: SyncMessageView },
    DialPeer { address: Seq<char> },
    Shutdown,
}

impl View for NetworkCommand {
    type V = NetworkCommandView;

    open spec fn view(&self) -> NetworkCommandView {
        match *self {
            NetworkCommand::CreateRoom { room_code } => NetworkCommandView::CreateRoom {
                room_code: room_code@,
            },
            NetworkCommand::JoinRoom { room_code } => NetworkCommandView::JoinRoom {
                room_code: room_code@,
            },
            NetworkCommand::LeaveRoom => NetworkCommandView::LeaveRoom,
            NetworkCommand::Broadcast { message } => NetworkCommandView::Broadcast {
                message: message@,
            },
            NetworkCommand::DialPeer { address } => NetworkCommandView::DialPeer {
                address: address@,
            },
            NetworkCommand::Shutdown => NetworkCommandView::Shutdown,
        }
    }
}

} // verus!
