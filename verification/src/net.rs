//! Networking: socket addresses, the netlink route protocol and the state of
//! sockets that the kernel keeps beside the network stack.

pub mod bytes;
pub mod endpoint;
pub mod ipv4;
pub mod netlink;
pub mod sockaddr;
pub mod server;
pub mod socket;
