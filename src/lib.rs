//! A user-space TCP endpoint: connection keys, the per-connection state
//! machine, the connection table and the framing of tunnel-device packets.

pub mod ident;
pub mod tcb;
pub mod table;
pub mod wire;
pub mod frame;
