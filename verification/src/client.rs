//! The connection-admission state machine: an accepted connection moves
//! `NewClient` -> `NewClientWithData` -> `ConnectedClient`, each state
//! consumed by exactly one transition.

use vstd::prelude::*;
use crate::dest::{Destination, Host, InetAddr, RecoverError, RedirectReport};
use crate::dest::recover_dest;
use crate::server::{ProxyServer, ServerList, ServerStats};
use crate::shared::RcBox;

verus! {

/// Size of the single read issued while sniffing the client's hello.
pub const HELLO_BUF_SIZE: usize = 2048;

/// Time budget of the hello read, in milliseconds.
pub const HELLO_TIMEOUT_MS: u64 = 200;

/// TCP keep-alive interval applied to both sockets while serving, in seconds.
pub const KEEP_ALIVE_SECS: u64 = 300;

/// A freshly accepted connection with its true destination recovered.
#[derive(Debug)]
pub struct NewClient {
    /// Raw descriptor of the accepted (left) socket.
    pub left: i32,
    /// Peer address of the accepted socket.
    pub src: InetAddr,
    /// The recovered logical destination.
    pub dest: Destination,
    /// Candidate upstream servers.
    pub list: ServerList,
}

/// Relies on nix's `getsockopt` with `sockopt::OriginalDst`: queries the
/// kernel's IPv4 redirection record of the given socket and returns the
/// address octets and the two port bytes in network order, or the system
/// error number when the kernel holds no such record for the socket.
#[verifier::external_body]
fn query_redirect_record(fd: i32) -> (r: Result<([u8; 4], u8, u8), i32>) {
    match nix::sys::socket::getsockopt(fd, nix::sys::socket::sockopt::OriginalDst) {
        Ok(sa) => {
            let port = sa.sin_port.to_ne_bytes();
            Ok((sa.sin_addr.s_addr.to_ne_bytes(), port[0], port[1]))
        },
        Err(e) => Err(e as i32),
    }
}

/// Recover the true destination of a redirected socket from the kernel.
///
/// What comes back depends on the kernel's redirection state, so nothing is
/// promised of the address itself; the decoding of a given record is pinned
/// down by [`recover_dest`]. A failed kernel query surfaces as a system
/// error; this path never reports `Ipv6Unsupported` itself.
pub fn get_original_dest(fd: i32) -> (r: Result<InetAddr, RecoverError>)
    ensures
        r matches Err(e) ==> e matches RecoverError::Syscall(_),
{
    match query_redirect_record(fd) {
        Ok((octets, port_hi, port_lo)) => recover_dest(
            RedirectReport::V4 { octets, port_hi, port_lo },
        ),
        Err(code) => Err(RecoverError::Syscall(code)),
    }
}

impl NewClient {
    /// Admit an accepted socket: recover its true destination from the
    /// kernel and enter the state machine. On failure the connection is
    /// abandoned by the caller; no destination is ever guessed.
    pub fn from_socket(left: i32, src: InetAddr, list: ServerList) -> (r: Result<
        NewClient,
        RecoverError,
    >)
        ensures
            r matches Ok(c) ==> c.left == left && c.src == src && c.list == list
                && c.dest.host is Ip,
            r matches Err(e) ==> e matches RecoverError::Syscall(_),
    {
        match get_original_dest(left) {
            Ok(addr) => Ok(NewClient { left, src, dest: Destination::from_addr(addr), list }),
            Err(e) => Err(e),
        }
    }

    /// Digest the outcome of the bounded hello read.
    ///
    /// With no data in time the connection goes on degraded: no pending
    /// bytes, no destination rewrite, parallel replay forbidden. Read bytes
    /// are kept exactly as handed in; a recognized Client Hello allows
    /// parallel replay and, when it names a server, rewrites the host while
    /// the port is preserved. Early data is advisory only and changes
    /// nothing here.
    pub fn retrive_dest(self, outcome: SniffOutcome) -> (r: NewClientWithData)
        ensures
            r.left == self.left,
            r.src == self.src,
            r.list == self.list,
            r.dest.port == self.dest.port,
            (match outcome {
                SniffOutcome::NoData => {
                    &&& r.pending_data is None
                    &&& !r.allow_parallel
                    &&& r.dest == self.dest
                },
                SniffOutcome::Data { bytes, hello } => {
                    &&& r.pending_data == Some(bytes)
                    &&& match hello {
                        HelloParse::Malformed => !r.allow_parallel && r.dest == self.dest,
                        HelloParse::Hello { server_name, early_data } => {
                            &&& r.allow_parallel
                            &&& match server_name {
                                Some(name) => r.dest == (Destination {
                                    host: Host::Name(name),
                                    port: self.dest.port,
                                }),
                                None => r.dest == self.dest,
                            }
                        },
                    }
                },
            }),
    {
        let NewClient { left, src, dest, list } = self;
        match outcome {
            SniffOutcome::NoData => NewClientWithData {
                left,
                src,
                dest,
                pending_data: None,
                allow_parallel: false,
                list,
            },
            SniffOutcome::Data { bytes, hello } => {
                let (dest, allow_parallel) = match hello {
                    HelloParse::Malformed => (dest, false),
                    HelloParse::Hello { server_name, early_data: _ } => match server_name {
                        Some(name) => (dest.rewrite_host(name), true),
                        None => (dest, true),
                    },
                };
                NewClientWithData {
                    left,
                    src,
                    dest,
                    pending_data: Some(bytes),
                    allow_parallel,
                    list,
                }
            },
        }
    }
}

/// What the external hello parser made of the sniffed bytes.
#[derive(Debug)]
pub enum HelloParse {
    /// Not recognizable as a TLS Client Hello.
    Malformed,
    /// A well-formed Client Hello, with its optional server name and
    /// whether it signals early application data.
    Hello { server_name: Option<String>, early_data: bool },
}

/// What the bounded hello read produced: nothing in time (a timeout or a
/// failed read), or the bytes actually read together with their parse.
#[derive(Debug)]
pub enum SniffOutcome {
    NoData,
    Data { bytes: Vec<u8>, hello: HelloParse },
}

/// Cut a read buffer down to the bytes actually read; never padded, never
/// cut below the read length.
pub fn truncate_read(buf: Vec<u8>, len: usize) -> (r: Vec<u8>)
    ensures
        len <= buf@.len() ==> r@ == buf@.subrange(0, len as int),
        len > buf@.len() ==> r@ == buf@,
{
    let mut b = buf;
    b.truncate(len);
    b
}

/// A sniffed connection: `NewClient` plus the pending payload, if any, and
/// whether that payload may be replayed to several servers at once.
#[derive(Debug)]
pub struct NewClientWithData {
    pub left: i32,
    pub src: InetAddr,
    pub dest: Destination,
    /// Exactly the bytes read while sniffing; absent when nothing arrived
    /// in time.
    pub pending_data: Option<Vec<u8>>,
    /// Whether the pending payload is safe to send to several candidate
    /// servers in parallel. False whenever parsing failed or nothing was
    /// read.
    pub allow_parallel: bool,
    pub list: ServerList,
}

/// Everything the racing connector needs for one admission: the bounded
/// parallelism, the replay flag, and the shared payload each parallel
/// attempt replays.
#[derive(Debug)]
pub struct ConnectAttempt {
    pub left: i32,
    pub src: InetAddr,
    pub dest: Destination,
    pub list: ServerList,
    /// How many candidate servers may be raced at once.
    pub parallelism: usize,
    /// Whether pre-read bytes may be replayed to the attempts.
    pub replay: bool,
    /// Shared handle to the sniffed payload; every attempt reads the same
    /// bytes, none may change them.
    pub payload: Option<RcBox<Vec<u8>>>,
}

/// How the racing connector ended: a chosen server with a connected socket,
/// or every candidate unreachable.
#[derive(Debug)]
pub enum RaceOutcome {
    Chosen { server: ProxyServer, right: i32 },
    AllDown,
}

/// Why connection admission failed.
#[derive(Debug, PartialEq, Eq, Structural)]
pub enum ConnectError {
    /// Every candidate server was unreachable or refused.
    AllServersDown,
}

/// Either pre-sniff state can ask for an upstream connection.
pub trait Connectable: Sized {
    spec fn left_sock(&self) -> i32;

    spec fn src_addr(&self) -> InetAddr;

    spec fn dest_of(&self) -> Destination;

    spec fn list_of(&self) -> ServerList;

    /// How many candidates the racer may try at once for this state.
    spec fn effective_parallelism(&self, n_parallel: usize) -> int;

    /// Whether pre-read bytes may be replayed to the attempts.
    spec fn replay_allowed(&self) -> bool;

    /// The bytes every attempt would replay, if there are any.
    spec fn payload_of(&self) -> Option<Seq<u8>>;

    /// Prepare the race to the candidate servers. No counter is touched
    /// here; nothing happens to any server until one is actually chosen.
    fn connect_server(self, n_parallel: usize) -> (r: ConnectAttempt)
        ensures
            r.left == self.left_sock(),
            r.src == self.src_addr(),
            r.dest == self.dest_of(),
            r.list == self.list_of(),
            r.parallelism == self.effective_parallelism(n_parallel),
            r.replay == self.replay_allowed(),
            r.payload is Some <==> self.payload_of() is Some,
            (r.payload matches Some(p) ==> self.payload_of() matches Some(s) && p.value()@ == s),
    ;
}

impl Connectable for NewClient {
    open spec fn left_sock(&self) -> i32 {
        self.left
    }

    open spec fn src_addr(&self) -> InetAddr {
        self.src
    }

    open spec fn dest_of(&self) -> Destination {
        self.dest
    }

    open spec fn list_of(&self) -> ServerList {
        self.list
    }

    /// With nothing sniffed the candidates are tried one at a time.
    open spec fn effective_parallelism(&self, n_parallel: usize) -> int {
        1
    }

    open spec fn replay_allowed(&self) -> bool {
        false
    }

    open spec fn payload_of(&self) -> Option<Seq<u8>> {
        None
    }

    fn connect_server(self, n_parallel: usize) -> (r: ConnectAttempt) {
        let NewClient { left, src, dest, list } = self;
        ConnectAttempt { left, src, dest, list, parallelism: 1, replay: false, payload: None }
    }
}

impl Connectable for NewClientWithData {
    open spec fn left_sock(&self) -> i32 {
        self.left
    }

    open spec fn src_addr(&self) -> InetAddr {
        self.src
    }

    open spec fn dest_of(&self) -> Destination {
        self.dest
    }

    open spec fn list_of(&self) -> ServerList {
        self.list
    }

    /// Parallelism is the requested count capped by the candidate count,
    /// and forced to one when the payload must not be replayed in parallel.
    open spec fn effective_parallelism(&self, n_parallel: usize) -> int {
        if self.allow_parallel {
            if self.list.servers@.len() <= n_parallel {
                self.list.servers@.len() as int
            } else {
                n_parallel as int
            }
        } else {
            1
        }
    }

    open spec fn replay_allowed(&self) -> bool {
        true
    }

    open spec fn payload_of(&self) -> Option<Seq<u8>> {
        match self.pending_data {
            Some(d) => Some(d@),
            None => None,
        }
    }

    fn connect_server(self, n_parallel: usize) -> (r: ConnectAttempt) {
        let NewClientWithData { left, src, dest, pending_data, allow_parallel, list } = self;
        let parallelism: usize = if allow_parallel {
            let candidates = list.len();
            if candidates <= n_parallel {
                candidates
            } else {
                n_parallel
            }
        } else {
            1
        };
        let payload = match pending_data {
            Some(data) => Some(RcBox::new(data)),
            None => None,
        };
        ConnectAttempt { left, src, dest, list, parallelism, replay: true, payload }
    }
}

impl ConnectAttempt {
    /// Turn the racer's outcome into the connected state.
    ///
    /// A chosen server yields `ConnectedClient` carrying the server exactly
    /// as the racer reported it: its counters are untouched here. When
    /// every candidate was down the admission fails as a whole; there are
    /// no partial results.
    pub fn complete(self, outcome: RaceOutcome) -> (r: Result<ConnectedClient, ConnectError>)
        ensures
            (match outcome {
                RaceOutcome::Chosen { server, right } => r matches Ok(c) && c.left == self.left
                    && c.right == right && c.src == self.src && c.dest == self.dest && c.server
                    == server,
                RaceOutcome::AllDown => r == Err::<ConnectedClient, ConnectError>(
                    ConnectError::AllServersDown,
                ),
            }),
    {
        let ConnectAttempt { left, src, dest, .. } = self;
        match outcome {
            RaceOutcome::Chosen { server, right } => Ok(
                ConnectedClient { left, right, src, dest, server },
            ),
            RaceOutcome::AllDown => Err(ConnectError::AllServersDown),
        }
    }
}

/// A fully admitted connection: both sockets connected and the chosen
/// server's descriptor in hand.
#[derive(Debug)]
pub struct ConnectedClient {
    pub left: i32,
    /// Raw descriptor of the upstream (right) socket.
    pub right: i32,
    pub src: InetAddr,
    pub dest: Destination,
    /// The chosen upstream server, counters included.
    pub server: ProxyServer,
}

/// How the external copy engine ended the bridge: the bytes moved in each
/// direction, or an I/O failure.
#[derive(Debug)]
pub enum PipeOutcome {
    Done { tx: u64, rx: u64 },
    Failed,
}

/// A connection whose bridge is running: the open counter has been counted,
/// the close counter has not yet.
#[derive(Debug)]
pub struct ServingClient {
    pub left: i32,
    pub right: i32,
    pub src: InetAddr,
    pub dest: Destination,
    pub server: ProxyServer,
}

/// What serving one connection leaves behind: the server descriptor with
/// its counters finalized, and the uniform completion signal.
#[derive(Debug)]
pub struct ServeSummary {
    pub server: ProxyServer,
    /// True exactly when the bridge ended without an I/O error.
    pub ok: bool,
}

impl ConnectedClient {
    /// The serving state this connection enters: the same connection, with
    /// the chosen server's open counter one higher.
    pub open spec fn serve_spec(self) -> ServingClient {
        ServingClient {
            left: self.left,
            right: self.right,
            src: self.src,
            dest: self.dest,
            server: ProxyServer {
                tag: self.server.tag,
                stats: ServerStats {
                    opened: (self.server.stats.opened + 1) as u64,
                    closed: self.server.stats.closed,
                },
            },
        }
    }

    /// Begin serving: count the connection open on the chosen server
    /// before any byte is bridged. Keep-alive on the sockets is the
    /// caller's advisory step; its failure changes nothing here.
    pub fn serve(self) -> (s: ServingClient)
        requires
            self.server.stats.opened < u64::MAX,
        ensures
            s == self.serve_spec(),
    {
        let ConnectedClient { left, right, src, dest, server } = self;
        let ProxyServer { tag, stats } = server;
        let stats = ServerStats { opened: stats.opened + 1, closed: stats.closed };
        ServingClient { left, right, src, dest, server: ProxyServer { tag, stats } }
    }
}

impl ServingClient {
    /// What finishing leaves behind: the close counter one higher whatever
    /// the outcome, and success exactly when the bridge succeeded.
    pub open spec fn finish_spec(self, outcome: PipeOutcome) -> ServeSummary {
        ServeSummary {
            server: ProxyServer {
                tag: self.server.tag,
                stats: ServerStats {
                    opened: self.server.stats.opened,
                    closed: (self.server.stats.closed + 1) as u64,
                },
            },
            ok: outcome is Done,
        }
    }

    /// End serving: count the connection closed exactly once, regardless of
    /// how the bridge ended, and reduce the outcome to the uniform signal.
    /// Byte counts and the specific I/O error do not travel further.
    pub fn finish(self, outcome: PipeOutcome) -> (r: ServeSummary)
        requires
            self.server.stats.closed < u64::MAX,
        ensures
            r == self.finish_spec(outcome),
    {
        let ServingClient { left: _, right: _, src: _, dest: _, server } = self;
        let ProxyServer { tag, stats } = server;
        let stats = ServerStats { opened: stats.opened, closed: stats.closed + 1 };
        let ok = match outcome {
            PipeOutcome::Done { .. } => true,
            PipeOutcome::Failed => false,
        };
        ServeSummary { server: ProxyServer { tag, stats }, ok }
    }
}

/// Serving a connection counts it open exactly once before bridging and
/// closed exactly once after, whatever the bridge's outcome, on the very
/// server that was chosen.
pub proof fn lemma_serve_counters_balanced(c: ConnectedClient, outcome: PipeOutcome)
    requires
        c.server.stats.opened < u64::MAX,
        c.server.stats.closed < u64::MAX,
    ensures
        ({
            let summary = c.serve_spec().finish_spec(outcome);
            &&& summary.server.tag == c.server.tag
            &&& summary.server.stats.opened == c.server.stats.opened + 1
            &&& summary.server.stats.closed == c.server.stats.closed + 1
            &&& summary.ok == outcome is Done
        }),
{
}

/// When the payload must not be replayed in parallel, the racer is asked
/// for exactly one attempt at a time, whatever parallelism was requested.
pub proof fn lemma_parallelism_forced_single(c: NewClientWithData, n_parallel: usize)
    requires
        n_parallel >= 1,
        !c.allow_parallel,
    ensures
        c.effective_parallelism(n_parallel) == 1,
{
}

/// When parallel replay is allowed, the racer is asked for the requested
/// parallelism capped by the number of candidate servers.
pub proof fn lemma_parallelism_capped(c: NewClientWithData, n_parallel: usize)
    requires
        n_parallel >= 1,
        c.allow_parallel,
    ensures
        c.effective_parallelism(n_parallel) == if c.list.servers@.len() <= n_parallel {
            c.list.servers@.len() as int
        } else {
            n_parallel as int
        },
{
}

} // verus!
