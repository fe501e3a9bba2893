//! The demonstration servers that a kernel thread runs on the network
//! stack: a UDP greeter on port 6969, an HTTP responder on port 80 and a
//! TCP sink on port 2222. Each round looks at the three sockets and says
//! what to do with them.

use vstd::prelude::*;

use crate::net::endpoint::IpEndpoint;

verus! {

pub const UDP_PORT: u16 = 6969;
pub const HTTP_PORT: u16 = 80;
pub const SINK_PORT: u16 = 2222;

/// How many bytes the sink reads at a time.
pub const SINK_BUF_LEN: usize = 2048;

/// What the stack reports of the three sockets in one round: whether each
/// is open, the sender of a datagram that the greeter received, whether
/// the responder may send and whether the sink has bytes.
#[derive(Debug, Clone, Copy, PartialEq, Eq, Structural)]
pub struct ServerView {
    pub udp_open: bool,
    pub udp_client: Option<IpEndpoint>,
    pub http_open: bool,
    pub http_can_send: bool,
    pub sink_open: bool,
    pub sink_can_recv: bool,
}

/// What one round does: the ports to bind or listen on (for a socket that
/// is not open), whom to greet, whether to answer the HTTP peer and close
/// the connection, and whether to drain the sink.
#[derive(Debug, Clone, Copy, PartialEq, Eq, Structural)]
pub struct ServerStep {
    pub udp_bind: Option<u16>,
    pub udp_reply: Option<IpEndpoint>,
    pub http_listen: Option<u16>,
    pub http_respond: bool,
    pub sink_listen: Option<u16>,
    pub sink_drain: bool,
}

/// One round of the servers.
pub fn server_step(v: &ServerView) -> (s: ServerStep)
    ensures
        s == (ServerStep {
            udp_bind: if v.udp_open { None } else { Some(UDP_PORT) },
            udp_reply: v.udp_client,
            http_listen: if v.http_open { None } else { Some(HTTP_PORT) },
            http_respond: v.http_can_send,
            sink_listen: if v.sink_open { None } else { Some(SINK_PORT) },
            sink_drain: v.sink_can_recv,
        }),
{
    ServerStep {
        udp_bind: if v.udp_open { None } else { Some(UDP_PORT) },
        udp_reply: v.udp_client,
        http_listen: if v.http_open { None } else { Some(HTTP_PORT) },
        http_respond: v.http_can_send,
        sink_listen: if v.sink_open { None } else { Some(SINK_PORT) },
        sink_drain: v.sink_can_recv,
    }
}

/// The servers run only where there is a network interface; else the
/// thread just yields.
pub fn server_runs(interfaces: usize) -> (b: bool)
    ensures
        b == (interfaces >= 1),
{
    interfaces >= 1
}

/// What the greeter sends back.
pub fn greeting() -> (s: &'static str)
    ensures
        s@ == "hello\n"@,
{
    "hello\n"
}

/// What the HTTP responder answers.
pub fn http_response() -> (s: &'static str)
    ensures
        s@ == "HTTP/1.1 200 OK\r\nServer: rCore\r\nContent-Length: 13\r\nContent-Type: text/html\r\nConnection: Closed\r\n\r\nHello, world!\r\n"@,
{
    "HTTP/1.1 200 OK\r\nServer: rCore\r\nContent-Length: 13\r\nContent-Type: text/html\r\nConnection: Closed\r\n\r\nHello, world!\r\n"
}

} // verus!
