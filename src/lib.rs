//! Client-side data plane of a reverse tunnel: the flow codec that tags each
//! datagram with the client it belongs to, and the state machine of the UDP
//! tunnel channel that negotiates, confirms and routes those datagrams.

pub mod be_bytes;
pub mod control_loop;
pub mod udp_proto;
pub mod udp_tunnel;
