// The connection-admission state machine end to end: destination recovery,
// sniffing, parallelism bounds, racing outcomes, and counter bookkeeping.

use moproxy::client::{
    ConnectError, Connectable, HelloParse, NewClient, NewClientWithData, PipeOutcome, RaceOutcome,
    SniffOutcome, HELLO_BUF_SIZE, HELLO_TIMEOUT_MS, KEEP_ALIVE_SECS,
};
use moproxy::dest::{Destination, Host, InetAddr, RecoverError, RedirectReport};
use moproxy::dest::recover_dest;
use moproxy::server::{ProxyServer, ServerList, ServerStats};

fn addr(octets: [u8; 4], port: u16) -> InetAddr {
    InetAddr { octets, port }
}

fn server(tag: &str) -> ProxyServer {
    ProxyServer {
        tag: tag.to_string(),
        stats: ServerStats { opened: 0, closed: 0 },
    }
}

fn list(tags: &[&str]) -> ServerList {
    ServerList::new(tags.iter().map(|t| server(t)).collect())
}

fn fresh_client(port: u16, tags: &[&str]) -> NewClient {
    NewClient {
        left: 7,
        src: addr([10, 0, 0, 9], 40001),
        dest: Destination {
            host: Host::Ip([93, 184, 216, 34]),
            port,
        },
        list: list(tags),
    }
}

fn host_name(d: &Destination) -> Option<&str> {
    match &d.host {
        Host::Name(n) => Some(n.as_str()),
        Host::Ip(_) => None,
    }
}

#[test]
fn recovery_preserves_port() {
    let r = recover_dest(RedirectReport::V4 {
        octets: [93, 184, 216, 34],
        port_hi: 0x01,
        port_lo: 0xbb,
    });
    let a = r.expect("an IPv4 record must be decoded");
    assert_eq!(a.octets, [93, 184, 216, 34]);
    assert_eq!(a.port, 443);
}

#[test]
fn recovery_port_edge_values() {
    let lo = recover_dest(RedirectReport::V4 {
        octets: [0, 0, 0, 0],
        port_hi: 0,
        port_lo: 0,
    })
    .unwrap();
    assert_eq!(lo.port, 0);
    let hi = recover_dest(RedirectReport::V4 {
        octets: [255, 255, 255, 255],
        port_hi: 255,
        port_lo: 255,
    })
    .unwrap();
    assert_eq!(hi.port, 65535);
}

#[test]
fn recovery_rejects_ipv6() {
    let r = recover_dest(RedirectReport::V6);
    assert_eq!(r, Err(RecoverError::Ipv6Unsupported));
}

#[test]
fn recovery_on_bad_socket_is_a_syscall_error() {
    // No kernel redirection record can exist for an invalid descriptor, so
    // admission must surface a system error rather than guess a destination.
    let r = NewClient::from_socket(-1, addr([127, 0, 0, 1], 5000), list(&["a"]));
    match r {
        Err(RecoverError::Syscall(errno)) => assert!(errno != 0),
        other => panic!("expected a syscall error, got {:?}", other.map(|c| c.dest)),
    }
}

#[test]
fn sniff_hello_with_sni_rewrites_host_and_allows_parallel() {
    let c = fresh_client(443, &["a", "b"]);
    let bytes = vec![0x16, 0x03, 0x01, 0x00, 0x05];
    let r = c.retrive_dest(SniffOutcome::Data {
        bytes: bytes.clone(),
        hello: HelloParse::Hello {
            server_name: Some("example.com".to_string()),
            early_data: false,
        },
    });
    assert_eq!(host_name(&r.dest), Some("example.com"));
    assert_eq!(r.dest.port, 443);
    assert!(r.allow_parallel);
    assert_eq!(r.pending_data, Some(bytes));
}

#[test]
fn sniff_hello_without_sni_keeps_destination() {
    let c = fresh_client(8443, &["a"]);
    let bytes = vec![0x16, 0x03, 0x03];
    let r = c.retrive_dest(SniffOutcome::Data {
        bytes: bytes.clone(),
        hello: HelloParse::Hello {
            server_name: None,
            early_data: true,
        },
    });
    assert_eq!(host_name(&r.dest), None);
    assert_eq!(r.dest.port, 8443);
    assert!(r.allow_parallel);
    assert_eq!(r.pending_data, Some(bytes));
}

#[test]
fn sniff_malformed_keeps_exact_bytes_and_forbids_parallel() {
    let c = fresh_client(80, &["a"]);
    let bytes = b"GET / HTTP/1.1\r\n".to_vec();
    let r = c.retrive_dest(SniffOutcome::Data {
        bytes: bytes.clone(),
        hello: HelloParse::Malformed,
    });
    assert_eq!(r.pending_data, Some(bytes));
    assert!(!r.allow_parallel);
    assert_eq!(host_name(&r.dest), None);
    assert_eq!(r.dest.port, 80);
}

#[test]
fn sniff_timeout_leaves_no_data() {
    // The hello read exceeded its 200 ms budget with zero bytes received.
    let c = fresh_client(443, &["a", "b"]);
    let r = c.retrive_dest(SniffOutcome::NoData);
    assert!(r.pending_data.is_none());
    assert!(!r.allow_parallel);
    assert_eq!(host_name(&r.dest), None);
    assert_eq!(r.dest.port, 443);
}

#[test]
fn plain_client_races_one_at_a_time() {
    let c = fresh_client(443, &["a", "b", "c"]);
    let attempt = c.connect_server(8);
    assert_eq!(attempt.parallelism, 1);
    assert!(!attempt.replay);
    assert!(attempt.payload.is_none());
}

#[test]
fn no_parallel_flag_forces_single_attempt() {
    let c = fresh_client(80, &["a", "b", "c"]);
    let with_data = c.retrive_dest(SniffOutcome::Data {
        bytes: vec![1, 2, 3],
        hello: HelloParse::Malformed,
    });
    assert!(!with_data.allow_parallel);
    let attempt = with_data.connect_server(5);
    assert_eq!(attempt.parallelism, 1);
    assert!(attempt.replay);
}

#[test]
fn parallelism_is_capped_by_candidate_count() {
    let c = fresh_client(443, &["a", "b", "c"]);
    let with_data = c.retrive_dest(SniffOutcome::Data {
        bytes: vec![0x16],
        hello: HelloParse::Hello {
            server_name: None,
            early_data: false,
        },
    });
    let attempt = with_data.connect_server(5);
    assert_eq!(attempt.parallelism, 3);
}

#[test]
fn parallelism_uses_request_when_below_candidate_count() {
    let c = fresh_client(443, &["a", "b", "c"]);
    let with_data = c.retrive_dest(SniffOutcome::Data {
        bytes: vec![0x16],
        hello: HelloParse::Hello {
            server_name: None,
            early_data: false,
        },
    });
    let attempt = with_data.connect_server(2);
    assert_eq!(attempt.parallelism, 2);
}

#[test]
fn all_servers_down_fails_without_touching_counters() {
    let c = fresh_client(443, &["a", "b", "c"]);
    let attempt = c.connect_server(1);
    let r = attempt.complete(RaceOutcome::AllDown);
    assert_eq!(r.err(), Some(ConnectError::AllServersDown));
    // The only paths that touch a counter are serve and finish; a failed
    // race never produces the state they consume.
    let untouched = server("a");
    assert_eq!(untouched.stats, ServerStats { opened: 0, closed: 0 });
}

#[test]
fn sni_race_replays_identical_bytes_to_both_attempts() {
    // A Client Hello naming example.com, original destination port 443, a
    // two-server list and a request for two attempts: both attempts must
    // read the identical payload, and the first success wins the race.
    let c = fresh_client(443, &["left", "right"]);
    let bytes = vec![0x16, 0x03, 0x01, 0x00, 0x2a, 0x01];
    let with_data = c.retrive_dest(SniffOutcome::Data {
        bytes: bytes.clone(),
        hello: HelloParse::Hello {
            server_name: Some("example.com".to_string()),
            early_data: false,
        },
    });
    let attempt = with_data.connect_server(2);
    assert_eq!(attempt.parallelism, 2);
    assert!(attempt.replay);
    let payload = attempt.payload.as_ref().expect("a sniffed payload is shared");
    let first = payload.clone();
    let second = payload.clone();
    assert_eq!(first.as_ref(), &bytes);
    assert_eq!(second.as_ref(), &bytes);
    let winner = server("left");
    let r = attempt
        .complete(RaceOutcome::Chosen {
            server: winner,
            right: 9,
        })
        .expect("a chosen server must connect");
    assert_eq!(r.server.tag, "left");
    assert_eq!(r.right, 9);
    assert_eq!(host_name(&r.dest), Some("example.com"));
    assert_eq!(r.dest.port, 443);
}

#[test]
fn serving_counts_open_then_close_on_success() {
    let c = fresh_client(443, &["a"]);
    let attempt = c.connect_server(1);
    let mut chosen = server("a");
    chosen.stats = ServerStats { opened: 4, closed: 4 };
    let connected = attempt
        .complete(RaceOutcome::Chosen {
            server: chosen,
            right: 11,
        })
        .unwrap();
    assert_eq!(connected.server.stats, ServerStats { opened: 4, closed: 4 });
    let serving = connected.serve();
    assert_eq!(serving.server.stats, ServerStats { opened: 5, closed: 4 });
    let summary = serving.finish(PipeOutcome::Done { tx: 1024, rx: 2048 });
    assert!(summary.ok);
    assert_eq!(summary.server.stats, ServerStats { opened: 5, closed: 5 });
    assert_eq!(summary.server.tag, "a");
}

#[test]
fn serving_counts_close_even_when_the_pipe_fails() {
    let c = fresh_client(443, &["a"]);
    let attempt = c.connect_server(1);
    let connected = attempt
        .complete(RaceOutcome::Chosen {
            server: server("a"),
            right: 12,
        })
        .unwrap();
    let serving = connected.serve();
    let summary = serving.finish(PipeOutcome::Failed);
    assert!(!summary.ok);
    assert_eq!(summary.server.stats, ServerStats { opened: 1, closed: 1 });
}

#[test]
fn boundary_constants_hold() {
    assert_eq!(HELLO_BUF_SIZE, 2048);
    assert_eq!(HELLO_TIMEOUT_MS, 200);
    assert_eq!(KEEP_ALIVE_SECS, 300);
}

#[test]
fn truncation_keeps_exactly_the_bytes_read() {
    let buf = vec![9u8; 2048];
    let r = moproxy::client::truncate_read(buf, 5);
    assert_eq!(r, vec![9u8; 5]);
    let empty = moproxy::client::truncate_read(vec![1, 2, 3], 0);
    assert_eq!(empty, Vec::<u8>::new());
    let full = moproxy::client::truncate_read(vec![1, 2, 3], 3);
    assert_eq!(full, vec![1, 2, 3]);
    let over = moproxy::client::truncate_read(vec![1, 2, 3], 9);
    assert_eq!(over, vec![1, 2, 3]);
}

#[test]
fn rewrite_host_preserves_port() {
    let d = Destination {
        host: Host::Ip([1, 2, 3, 4]),
        port: 993,
    };
    let r = d.rewrite_host("mail.example.net".to_string());
    assert_eq!(host_name(&r), Some("mail.example.net"));
    assert_eq!(r.port, 993);
}

#[test]
fn with_data_state_always_reports_replay() {
    let c = fresh_client(443, &["a", "b"]);
    let with_data: NewClientWithData = c.retrive_dest(SniffOutcome::NoData);
    let attempt = with_data.connect_server(2);
    assert!(attempt.replay);
    assert!(attempt.payload.is_none());
    assert_eq!(attempt.parallelism, 1);
}
