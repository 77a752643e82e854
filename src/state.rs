use vstd::prelude::*;

verus! {

/// Protocol phase of a connection; it decides which packet ids are valid.
#[derive(Debug, Clone, Copy, PartialEq, Eq, Structural)]
pub enum ConnectionState {
    Handshaking,
    Status,
    Login,
    Play,
}

/// Which way a packet travels: `Client` is clientbound (server to client),
/// `Server` is serverbound (client to server).
#[derive(Debug, Clone, Copy, PartialEq, Eq, Structural)]
pub enum PacketDirection {
    Client,
    Server,
}

} // verus!
