use modem_bringup::deadline::{guard, Completion, Timeout};
use modem_bringup::fault::{Exit, Fault};
use modem_bringup::grant::{GrantWrite, SecurityRegisters};
use modem_bringup::layout::MemoryLayout;
use modem_bringup::net::{IpAddress, SocketAddress};
use modem_bringup::outcome::{DriverError, StageOutcome};
use modem_bringup::sequencer::{Action, Reply, Sequencer};
use modem_bringup::startup::{check_order, startup_plan, StartupOp};

/// A driver that records what it is asked to do.
struct MockModem {
    /// After how many milliseconds the link attaches, if it ever does.
    attach_after: Option<u64>,
    /// After how many milliseconds the connection stands, if it ever does.
    connect_after: Option<u64>,
    initialized: bool,
    resolved: Vec<String>,
    connected_to: Vec<SocketAddress>,
    written: Vec<Vec<u8>>,
    receive_calls: usize,
    bound_to: Vec<SocketAddress>,
    sent: Vec<(Vec<u8>, SocketAddress)>,
    receive_from_calls: usize,
    teardown_calls: usize,
    waited_ms: u64,
}

impl MockModem {
    fn new(attach_after: Option<u64>, connect_after: Option<u64>) -> Self {
        MockModem {
            attach_after,
            connect_after,
            initialized: false,
            resolved: Vec::new(),
            connected_to: Vec::new(),
            written: Vec::new(),
            receive_calls: 0,
            bound_to: Vec::new(),
            sent: Vec::new(),
            receive_from_calls: 0,
            teardown_calls: 0,
            waited_ms: 0,
        }
    }

    fn race(&mut self, after: Option<u64>, deadline_ms: u64) -> StageOutcome<Reply> {
        let operation = match after {
            Some(elapsed_ms) => Completion::After { elapsed_ms, output: Ok(Reply::Ready) },
            None => Completion::Never,
        };
        let raced: Result<Result<Reply, DriverError>, Timeout> = guard(operation, deadline_ms);
        self.waited_ms += match raced {
            Ok(_) => after.unwrap(),
            Err(Timeout) => deadline_ms,
        };
        StageOutcome::from_guarded(raced)
    }

    fn perform(&mut self, action: &Action) -> StageOutcome<Reply> {
        match action {
            Action::InitModem { capabilities } => {
                assert!(capabilities.lte_support && capabilities.gnss_support);
                self.initialized = true;
                StageOutcome::from_driver(Ok(Reply::Ready))
            }
            Action::CreateLink => StageOutcome::from_driver(Ok(Reply::Ready)),
            Action::AwaitAttach { deadline_ms } => self.race(self.attach_after, *deadline_ms),
            Action::Resolve { hostname } => {
                self.resolved.push(hostname.to_string());
                let ip = IpAddress::V4 { octets: [93, 184, 216, 34] };
                StageOutcome::from_driver(Ok(Reply::Address(ip)))
            }
            Action::Connect { remote, deadline_ms } => {
                self.connected_to.push(*remote);
                self.race(self.connect_after, *deadline_ms)
            }
            Action::Write { payload } => {
                self.written.push(payload.clone());
                StageOutcome::from_driver(Ok(Reply::Ready))
            }
            Action::Receive { capacity } => {
                assert_eq!(*capacity, 1024);
                self.receive_calls += 1;
                StageOutcome::from_driver(Ok(Reply::Received { len: 1024 }))
            }
            Action::Bind { local } => {
                self.bound_to.push(*local);
                StageOutcome::from_driver(Ok(Reply::Ready))
            }
            Action::SendTo { payload, remote } => {
                self.sent.push((payload.clone(), *remote));
                StageOutcome::from_driver(Ok(Reply::Ready))
            }
            Action::ReceiveFrom { capacity } => {
                assert_eq!(*capacity, 1024);
                self.receive_from_calls += 1;
                StageOutcome::from_driver(Ok(Reply::ReceivedFrom {
                    len: 54,
                    source: SocketAddress { ip: IpAddress::V4 { octets: [8, 8, 8, 8] }, port: 53 },
                }))
            }
            Action::Halt { .. } => panic!("a halted session makes no call"),
        }
    }
}

/// The firmware's loop, with the mock in the driver's place.
fn run(modem: &mut MockModem) -> Exit {
    let (mut sequencer, mut action) = Sequencer::new().start();
    loop {
        if let Action::Halt { exit } = action {
            assert_eq!(sequencer.exit(), Some(exit));
            return exit;
        }
        let outcome = modem.perform(&action);
        (sequencer, action) = sequencer.on_outcome(outcome);
    }
}

#[test]
fn session_runs_to_its_end_against_the_mock() {
    let mut modem = MockModem::new(Some(4000), Some(150));
    assert_eq!(run(&mut modem), Exit::Success);
    assert!(modem.initialized);
    assert_eq!(modem.resolved, vec!["google.com".to_string()]);
    assert_eq!(
        modem.connected_to,
        vec![SocketAddress { ip: IpAddress::V4 { octets: [93, 184, 216, 34] }, port: 80 }]
    );
    assert_eq!(modem.written, vec![b"GET / HTTP/1.0\nHost: google.com\r\n\r\n".to_vec()]);
    assert_eq!(modem.receive_calls, 1);
    assert_eq!(
        modem.bound_to,
        vec![SocketAddress { ip: IpAddress::V4 { octets: [0, 0, 0, 0] }, port: 53 }]
    );
    assert_eq!(modem.sent.len(), 1);
    assert_eq!(
        modem.sent[0].0,
        vec![
            0xdb, 0x42, 0x01, 0x00, 0x00, 0x01, 0x00, 0x00, 0x00, 0x00, 0x00, 0x00, 0x03, 0x77,
            0x77, 0x77, 0x0C, 0x6E, 0x6F, 0x72, 0x74, 0x68, 0x65, 0x61, 0x73, 0x74, 0x65, 0x72,
            0x6E, 0x03, 0x65, 0x64, 0x75, 0x00, 0x00, 0x01, 0x00, 0x01,
        ]
    );
    assert_eq!(
        modem.sent[0].1,
        SocketAddress { ip: IpAddress::V4 { octets: [8, 8, 8, 8] }, port: 53 }
    );
    assert_eq!(modem.receive_from_calls, 1);
    assert_eq!(modem.teardown_calls, 0);
}

#[test]
fn link_that_never_attaches_stops_the_mock_session() {
    let mut modem = MockModem::new(None, Some(150));
    assert_eq!(run(&mut modem), Exit::Halted(Fault::Timeout));
    assert_eq!(modem.waited_ms, 30000);
    assert!(modem.resolved.is_empty());
    assert!(modem.connected_to.is_empty());
    assert_eq!(modem.teardown_calls, 0);
}

#[test]
fn abandoned_connect_is_not_torn_down() {
    let mut modem = MockModem::new(Some(4000), Some(2001));
    assert_eq!(run(&mut modem), Exit::Halted(Fault::Timeout));
    assert_eq!(modem.waited_ms, 4000 + 2000);
    assert_eq!(modem.connected_to.len(), 1);
    assert_eq!(modem.teardown_calls, 0);
    assert!(modem.written.is_empty());
    assert_eq!(modem.receive_calls, 0);
    assert!(modem.bound_to.is_empty());
}

#[test]
fn connect_at_the_deadline_goes_on() {
    let mut modem = MockModem::new(Some(30000), Some(2000));
    assert_eq!(run(&mut modem), Exit::Success);
    assert_eq!(modem.waited_ms, 32000);
}

#[test]
fn startup_makes_every_grant_before_the_unmask() {
    let layout = MemoryLayout::modem_shared();
    let mut bank = SecurityRegisters::new(0x0000_0015, 0x8000_0012);
    let mut made: Vec<StartupOp> = Vec::new();
    let mut unmasked = false;
    let mut session_ran = false;
    for op in startup_plan(&layout) {
        match op {
            StartupOp::Grant(write) => {
                assert!(!unmasked);
                assert!(write.addresses_register());
                match write {
                    GrantWrite::RamRegion { index, .. } => {
                        let current = bank.region_word(index).unwrap();
                        bank.load_region(index, write.apply(current)).unwrap();
                    }
                    GrantWrite::Peripheral { id } => {
                        let current = bank.peripheral_word(id).unwrap();
                        bank.load_peripheral(id, write.apply(current)).unwrap();
                    }
                }
            }
            StartupOp::Unmask { line } => {
                assert_eq!(line, 42);
                // the block behind the line is open to the non-secure side by now
                assert_eq!(bank.peripheral_word(42), Some(0x8000_0002));
                assert_eq!(bank.region_word(0), Some(0x007));
                assert_eq!(bank.region_word(3), Some(0x007));
                unmasked = true;
            }
            StartupOp::SetPriority { line, value } => {
                assert_eq!((line, value), (42, 0));
            }
            StartupOp::RunSession => {
                assert!(unmasked);
                session_ran = true;
            }
        }
        made.push(op);
    }
    assert!(session_ran);
    assert!(check_order(&made, &layout));
    let mut granted = SecurityRegisters::new(0x0000_0015, 0x8000_0012);
    granted.configure(&layout);
    for index in 0..32 {
        assert_eq!(bank.region_word(index), granted.region_word(index));
    }
    for id in 0..67 {
        assert_eq!(bank.peripheral_word(id), granted.peripheral_word(id));
    }
}
