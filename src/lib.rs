//! A SOCKS5 proxy's per-connection logic: the wire codec, the credential
//! store, the handshake state machine, the traffic sniffer and the relay
//! bookkeeping. Sockets, files and timers are left to the caller, which
//! feeds the state machines with what it read and performs what they ask.

pub mod codec;
pub mod target;
pub mod credentials;
pub mod sniff;
pub mod relay;
pub mod handshake;
pub mod config;
