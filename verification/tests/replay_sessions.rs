use modem_bringup::deadline::Completion;
use modem_bringup::fault::{Exit, Fault};
use modem_bringup::net::{dns_query, hostname, http_request, IpAddress, SocketAddress};
use modem_bringup::outcome::DriverError;
use modem_bringup::replay::replay;
use modem_bringup::sequencer::{Action, Endpoint, RadioLink, Reply, Stage};

type Scripted = Completion<Result<Reply, DriverError>>;

fn after(elapsed_ms: u64, reply: Reply) -> Scripted {
    Completion::After { elapsed_ms, output: Ok(reply) }
}

fn resolver_address() -> SocketAddress {
    SocketAddress { ip: IpAddress::V4 { octets: [8, 8, 8, 8] }, port: 53 }
}

/// A driver that answers every call of the session.
fn healthy() -> Vec<Scripted> {
    vec![
        after(120, Reply::Ready),
        after(5, Reply::Ready),
        after(4200, Reply::Ready),
        after(310, Reply::Address(IpAddress::V4 { octets: [93, 184, 216, 34] })),
        after(180, Reply::Ready),
        after(12, Reply::Ready),
        after(95, Reply::Received { len: 702 }),
        after(3, Reply::Ready),
        after(7, Reply::Ready),
        after(66, Reply::ReceivedFrom { len: 54, source: resolver_address() }),
    ]
}

#[test]
fn healthy_driver_brings_the_session_to_its_end() {
    let report = replay(&healthy());
    assert_eq!(report.exit, Some(Exit::Success));
    assert_eq!(report.sequencer.stage(), Stage::Done);
    assert_eq!(report.elapsed_ms, 120 + 5 + 4200 + 310 + 180 + 12 + 95 + 3 + 7 + 66);
    assert_eq!(report.calls.len(), 10);
    assert_eq!(report.sequencer.response_len, Some(702));
    assert_eq!(report.sequencer.reply_len, Some(54));
    assert_eq!(report.sequencer.reply_source, Some(resolver_address()));
}

#[test]
fn tcp_probe_writes_the_request_and_receives_once() {
    let report = replay(&healthy());
    assert_eq!(report.exit, Some(Exit::Success));
    assert_eq!(report.calls[3], Action::Resolve { hostname: "google.com" });
    assert_eq!(
        report.calls[4],
        Action::Connect {
            remote: SocketAddress { ip: IpAddress::V4 { octets: [93, 184, 216, 34] }, port: 80 },
            deadline_ms: 2000,
        }
    );
    let request = "GET / HTTP/1.0\nHost: google.com\r\n\r\n".as_bytes().to_vec();
    assert_eq!(report.calls[5], Action::Write { payload: request });
    assert_eq!(report.calls[6], Action::Receive { capacity: 1024 });
    let receives =
        report.calls.iter().filter(|call| matches!(call, Action::Receive { .. })).count();
    assert_eq!(receives, 1);
    let writes = report.calls.iter().filter(|call| matches!(call, Action::Write { .. })).count();
    assert_eq!(writes, 1);
}

#[test]
fn udp_query_is_sent_byte_for_byte() {
    let report = replay(&healthy());
    assert_eq!(
        report.calls[7],
        Action::Bind {
            local: SocketAddress { ip: IpAddress::V4 { octets: [0, 0, 0, 0] }, port: 53 }
        }
    );
    let query: Vec<u8> = vec![
        0xdb, 0x42, 0x01, 0x00, 0x00, 0x01, 0x00, 0x00, 0x00, 0x00, 0x00, 0x00, 0x03, 0x77, 0x77,
        0x77, 0x0C, 0x6E, 0x6F, 0x72, 0x74, 0x68, 0x65, 0x61, 0x73, 0x74, 0x65, 0x72, 0x6E, 0x03,
        0x65, 0x64, 0x75, 0x00, 0x00, 0x01, 0x00, 0x01,
    ];
    assert_eq!(query.len(), 38);
    assert_eq!(report.calls[8], Action::SendTo { payload: query, remote: resolver_address() });
    assert_eq!(report.calls[9], Action::ReceiveFrom { capacity: 1024 });
    let receives =
        report.calls.iter().filter(|call| matches!(call, Action::ReceiveFrom { .. })).count();
    assert_eq!(receives, 1);
}

#[test]
fn fixed_payloads_are_the_literals() {
    assert_eq!(http_request(), b"GET / HTTP/1.0\nHost: google.com\r\n\r\n".to_vec());
    assert_eq!(http_request().len(), 35);
    assert_eq!(dns_query().len(), 38);
    assert_eq!(&dns_query()[..4], &[0xdb, 0x42, 0x01, 0x00]);
    assert_eq!(&dns_query()[12..34], b"\x03www\x0cnortheastern\x03edu\x00");
    assert_eq!(&dns_query()[34..], &[0x00, 0x01, 0x00, 0x01]);
    assert_eq!(hostname(), "google.com");
}

#[test]
fn link_that_never_attaches_halts_at_the_deadline() {
    let mut script = healthy();
    script[2] = Completion::Never;
    let report = replay(&script);
    assert_eq!(report.exit, Some(Exit::Halted(Fault::Timeout)));
    // exactly the deadline, on top of the two calls before
    assert_eq!(report.elapsed_ms, 120 + 5 + 30000);
    assert_eq!(
        report.calls,
        vec![
            replay(&healthy()).calls[0].clone(),
            Action::CreateLink,
            Action::AwaitAttach { deadline_ms: 30000 },
        ]
    );
    assert!(!report.calls.iter().any(|call| matches!(call, Action::Resolve { .. })));
    assert_eq!(report.sequencer.radio_link(), RadioLink::Failed);
    assert_eq!(report.sequencer.address, None);
}

#[test]
fn link_that_attaches_at_the_deadline_is_in_time() {
    let mut script = healthy();
    script[2] = after(30000, Reply::Ready);
    let report = replay(&script);
    assert_eq!(report.exit, Some(Exit::Success));
    script[2] = after(30001, Reply::Ready);
    let report = replay(&script);
    assert_eq!(report.exit, Some(Exit::Halted(Fault::Timeout)));
    assert_eq!(report.elapsed_ms, 120 + 5 + 30000);
    assert_eq!(report.calls.len(), 3);
}

#[test]
fn connect_that_hangs_is_given_up_after_two_seconds() {
    let mut script = healthy();
    script[4] = Completion::Never;
    let report = replay(&script);
    assert_eq!(report.exit, Some(Exit::Halted(Fault::Timeout)));
    assert_eq!(report.elapsed_ms, 120 + 5 + 4200 + 310 + 2000);
    assert_eq!(report.calls.len(), 5);
    assert_eq!(report.sequencer.tcp_endpoint(), Endpoint::ClosedError);
    // the guard gives up and nothing else is called: no teardown, no retry
    assert!(matches!(report.calls[4], Action::Connect { .. }));
    script[4] = after(2000, Reply::Ready);
    assert_eq!(replay(&script).exit, Some(Exit::Success));
    script[4] = after(2001, Reply::Ready);
    assert_eq!(replay(&script).exit, Some(Exit::Halted(Fault::Timeout)));
}

#[test]
fn error_of_a_guarded_call_is_not_a_timeout() {
    let mut script = healthy();
    script[4] = Completion::After { elapsed_ms: 40, output: Err(DriverError) };
    let report = replay(&script);
    assert_eq!(report.exit, Some(Exit::Halted(Fault::DriverError)));
    assert_eq!(report.elapsed_ms, 120 + 5 + 4200 + 310 + 40);
    // an error that comes after the deadline is never seen
    script[4] = Completion::After { elapsed_ms: 2001, output: Err(DriverError) };
    let report = replay(&script);
    assert_eq!(report.exit, Some(Exit::Halted(Fault::Timeout)));
    assert_eq!(report.elapsed_ms, 120 + 5 + 4200 + 310 + 2000);
}

#[test]
fn driver_error_halts_at_once() {
    for failing in 0..10 {
        let mut script = healthy();
        script[failing] = Completion::After { elapsed_ms: 1, output: Err(DriverError) };
        let report = replay(&script);
        assert_eq!(report.exit, Some(Exit::Halted(Fault::DriverError)));
        assert_eq!(report.calls.len(), failing + 1);
        assert_eq!(report.sequencer.stage(), Stage::Failed);
    }
}

#[test]
fn unguarded_call_that_never_returns_hangs_the_session() {
    let mut script = healthy();
    script[3] = Completion::Never;
    let report = replay(&script);
    assert_eq!(report.exit, None);
    assert_eq!(report.elapsed_ms, 120 + 5 + 4200);
    assert_eq!(report.calls.len(), 4);
    assert_eq!(report.sequencer.stage(), Stage::NameResolving);
}

#[test]
fn script_that_ends_early_leaves_the_call_unanswered() {
    let report = replay(&Vec::new());
    assert_eq!(report.exit, None);
    assert_eq!(report.calls.len(), 1);
    assert_eq!(report.elapsed_ms, 0);
    // the wait for the link is guarded, so an unanswered wait times out
    let script: Vec<Scripted> = healthy().into_iter().take(2).collect();
    let report = replay(&script);
    assert_eq!(report.exit, Some(Exit::Halted(Fault::Timeout)));
    assert_eq!(report.elapsed_ms, 120 + 5 + 30000);
}

#[test]
fn entries_beyond_the_session_are_not_used() {
    let mut script = healthy();
    script.push(Completion::After { elapsed_ms: 999, output: Err(DriverError) });
    let report = replay(&script);
    assert_eq!(report.exit, Some(Exit::Success));
    assert_eq!(report.calls.len(), 10);
    assert_eq!(report.elapsed_ms, 4998);
}

#[test]
fn elapsed_time_stops_at_the_largest_value() {
    let mut script = healthy();
    script[0] = after(u64::MAX - 3, Reply::Ready);
    let report = replay(&script);
    assert_eq!(report.exit, Some(Exit::Success));
    assert_eq!(report.elapsed_ms, u64::MAX);
}

#[test]
fn reply_of_the_wrong_kind_halts_the_session() {
    let mut script = healthy();
    script[3] = after(10, Reply::Ready);
    let report = replay(&script);
    assert_eq!(report.exit, Some(Exit::Halted(Fault::DriverError)));
    assert_eq!(report.calls.len(), 4);
}
