//! The bring-up sequencer: the state machine of the network session.
//!
//! The session is one line of ten driver calls. The sequencer names the
//! call to make, is told how the call ended, and names the next one. A call
//! is only named after the one before it has succeeded, and the first call
//! that does not succeed ends the session for good.

use crate::fault::{Exit, Fault};
use crate::net::{
    dns_query, dns_query_bytes, hostname, http_request, http_request_bytes, probe, probe_endpoint,
    probe_hostname, resolver, resolver_endpoint, wildcard, wildcard_endpoint, IpAddress,
    SocketAddress, HTTP_PORT, RECEIVE_CAPACITY,
};
use crate::outcome::StageOutcome;
use vstd::prelude::*;

verus! {

/// How long the sequencer waits for the radio link, in milliseconds.
pub const LINK_DEADLINE_MS: u64 = 30000;

/// How long the sequencer waits for the TCP connection, in milliseconds.
pub const CONNECT_DEADLINE_MS: u64 = 2000;

/// Which network the modem prefers when it selects one.
#[derive(Clone, Copy, Debug, PartialEq, Eq, Structural)]
pub enum NetworkPreference {
    /// No preference: the modem selects by its history and the SIM.
    Automatic,
    Lte,
    Nbiot,
    NetworkWithLteFallback,
    NetworkWithNbiotFallback,
}

/// The radios and features that the modem is initialized with.
#[derive(Clone, Copy, Debug, PartialEq, Eq, Structural)]
pub struct Capabilities {
    pub lte_support: bool,
    pub lte_psm_support: bool,
    pub nbiot_support: bool,
    pub gnss_support: bool,
    pub preference: NetworkPreference,
}

impl Capabilities {
    /// The capability set of the session: LTE, power saving, NB-IoT and
    /// satellite positioning on, network type selected automatically.
    pub open spec fn session() -> Capabilities {
        Capabilities {
            lte_support: true,
            lte_psm_support: true,
            nbiot_support: true,
            gnss_support: true,
            preference: NetworkPreference::Automatic,
        }
    }

    /// The capability set of the session.
    pub fn for_session() -> (capabilities: Capabilities)
        ensures
            capabilities == Capabilities::session(),
    {
        Capabilities {
            lte_support: true,
            lte_psm_support: true,
            nbiot_support: true,
            gnss_support: true,
            preference: NetworkPreference::Automatic,
        }
    }
}

/// The states of the session, in order, and the state of a session that was
/// abandoned.
#[derive(Clone, Copy, Debug, PartialEq, Eq, Structural)]
pub enum Stage {
    Uninit,
    ModemInitializing,
    LinkEstablishing,
    NameResolving,
    TcpConnecting,
    TcpExchanging,
    UdpBinding,
    UdpQuerying,
    Done,
    Failed,
}

/// The state of the cellular attachment.
#[derive(Clone, Copy, Debug, PartialEq, Eq, Structural)]
pub enum RadioLink {
    Uninitialized,
    Initializing,
    WaitingForAttach,
    Attached,
    Failed,
}

/// The state of the TCP stream or of the UDP socket.
#[derive(Clone, Copy, Debug, PartialEq, Eq, Structural)]
pub enum Endpoint {
    Unopened,
    Open,
    ClosedOk,
    ClosedError,
}

/// A call into the modem driver that the session waits for.
#[derive(Clone, Copy, Debug, PartialEq, Eq)]
pub enum Operation {
    InitModem,
    CreateLink,
    AwaitAttach,
    Resolve,
    Connect { remote: IpAddress },
    Write,
    Receive,
    Bind,
    SendTo,
    ReceiveFrom,
}

/// What a driver call returned on success.
#[derive(Clone, Copy, Debug, PartialEq, Eq)]
pub enum Reply {
    /// The call returned nothing but its success.
    Ready,
    /// The resolver returned an address.
    Address(IpAddress),
    /// The stream filled `len` bytes of the buffer.
    Received { len: usize },
    /// The socket filled `len` bytes of the buffer with a datagram from
    /// `source`.
    ReceivedFrom { len: usize, source: SocketAddress },
}

/// What the firmware is to do next.
#[derive(Clone, Debug, PartialEq, Eq)]
pub enum Action {
    /// Initialize the modem subsystem.
    InitModem { capabilities: Capabilities },
    /// Construct the handle of the radio link.
    CreateLink,
    /// Wait until the link is attached, under the deadline guard.
    AwaitAttach { deadline_ms: u64 },
    /// Resolve the hostname.
    Resolve { hostname: &'static str },
    /// Open the TCP connection, under the deadline guard.
    Connect { remote: SocketAddress, deadline_ms: u64 },
    /// Write the request to the stream.
    Write { payload: Vec<u8> },
    /// Receive once from the stream, into a buffer of `capacity` bytes.
    Receive { capacity: usize },
    /// Bind the UDP socket.
    Bind { local: SocketAddress },
    /// Send the query from the socket.
    SendTo { payload: Vec<u8>, remote: SocketAddress },
    /// Receive one datagram, into a buffer of `capacity` bytes.
    ReceiveFrom { capacity: usize },
    /// Stop: the session is over.
    Halt { exit: Exit },
}

/// An action, with its texts and payloads as sequences.
pub enum ActionView {
    InitModem { capabilities: Capabilities },
    CreateLink,
    AwaitAttach { deadline_ms: u64 },
    Resolve { hostname: Seq<char> },
    Connect { remote: SocketAddress, deadline_ms: u64 },
    Write { payload: Seq<u8> },
    Receive { capacity: usize },
    Bind { local: SocketAddress },
    SendTo { payload: Seq<u8>, remote: SocketAddress },
    ReceiveFrom { capacity: usize },
    Halt { exit: Exit },
}

impl View for Action {
    type V = ActionView;

    open spec fn view(&self) -> ActionView {
        match *self {
            Action::InitModem { capabilities } => ActionView::InitModem { capabilities },
            Action::CreateLink => ActionView::CreateLink,
            Action::AwaitAttach { deadline_ms } => ActionView::AwaitAttach { deadline_ms },
            Action::Resolve { hostname } => ActionView::Resolve { hostname: hostname@ },
            Action::Connect { remote, deadline_ms } => ActionView::Connect { remote, deadline_ms },
            Action::Write { payload } => ActionView::Write { payload: payload@ },
            Action::Receive { capacity } => ActionView::Receive { capacity },
            Action::Bind { local } => ActionView::Bind { local },
            Action::SendTo { payload, remote } => ActionView::SendTo { payload: payload@, remote },
            Action::ReceiveFrom { capacity } => ActionView::ReceiveFrom { capacity },
            Action::Halt { exit } => ActionView::Halt { exit },
        }
    }
}

impl ActionView {
    /// Whether the action is a call into the modem driver.
    pub open spec fn is_driver_call(self) -> bool {
        !(self is Halt)
    }

    /// The deadline under which the action is guarded, if it is.
    pub open spec fn deadline(self) -> Option<u64> {
        match self {
            ActionView::AwaitAttach { deadline_ms } => Some(deadline_ms),
            ActionView::Connect { deadline_ms, .. } => Some(deadline_ms),
            _ => None,
        }
    }

    /// The driver call that the action makes. A halt makes none, and stands
    /// here with the first.
    pub open spec fn call(self) -> Operation {
        match self {
            ActionView::InitModem { .. } => Operation::InitModem,
            ActionView::CreateLink => Operation::CreateLink,
            ActionView::AwaitAttach { .. } => Operation::AwaitAttach,
            ActionView::Resolve { .. } => Operation::Resolve,
            ActionView::Connect { remote, .. } => Operation::Connect { remote: remote.ip },
            ActionView::Write { .. } => Operation::Write,
            ActionView::Receive { .. } => Operation::Receive,
            ActionView::Bind { .. } => Operation::Bind,
            ActionView::SendTo { .. } => Operation::SendTo,
            ActionView::ReceiveFrom { .. } => Operation::ReceiveFrom,
            ActionView::Halt { .. } => Operation::InitModem,
        }
    }

    /// Whether the action is a call of the session with the session's own
    /// arguments: the fixed capabilities, deadlines, name, ports, payloads
    /// and buffer size, and for the connect any address.
    pub open spec fn is_session_call(self) -> bool {
        self == self.call().action()
    }

    /// The place of the action in the session, from 0: the place of its
    /// call, and 10 for the halt.
    pub open spec fn ordinal(self) -> int {
        match self {
            ActionView::InitModem { .. } => 0,
            ActionView::CreateLink => 1,
            ActionView::AwaitAttach { .. } => 2,
            ActionView::Resolve { .. } => 3,
            ActionView::Connect { .. } => 4,
            ActionView::Write { .. } => 5,
            ActionView::Receive { .. } => 6,
            ActionView::Bind { .. } => 7,
            ActionView::SendTo { .. } => 8,
            ActionView::ReceiveFrom { .. } => 9,
            ActionView::Halt { .. } => 10,
        }
    }
}

impl Action {
    /// The deadline under which the action is guarded, if it is.
    pub fn deadline(&self) -> (deadline: Option<u64>)
        ensures
            deadline == self@.deadline(),
    {
        match self {
            Action::AwaitAttach { deadline_ms } => Some(*deadline_ms),
            Action::Connect { deadline_ms, .. } => Some(*deadline_ms),
            _ => None,
        }
    }

    /// Whether the action is a call into the modem driver.
    pub fn is_driver_call(&self) -> (call: bool)
        ensures
            call == self@.is_driver_call(),
    {
        match self {
            Action::Halt { .. } => false,
            _ => true,
        }
    }
}

impl Operation {
    /// The place of the call in the session, from 0.
    pub open spec fn ordinal(self) -> int {
        match self {
            Operation::InitModem => 0,
            Operation::CreateLink => 1,
            Operation::AwaitAttach => 2,
            Operation::Resolve => 3,
            Operation::Connect { .. } => 4,
            Operation::Write => 5,
            Operation::Receive => 6,
            Operation::Bind => 7,
            Operation::SendTo => 8,
            Operation::ReceiveFrom => 9,
        }
    }

    /// The state of the session while the call is awaited.
    pub open spec fn stage(self) -> Stage {
        match self {
            Operation::InitModem => Stage::ModemInitializing,
            Operation::CreateLink => Stage::LinkEstablishing,
            Operation::AwaitAttach => Stage::LinkEstablishing,
            Operation::Resolve => Stage::NameResolving,
            Operation::Connect { .. } => Stage::TcpConnecting,
            Operation::Write => Stage::TcpExchanging,
            Operation::Receive => Stage::TcpExchanging,
            Operation::Bind => Stage::UdpBinding,
            Operation::SendTo => Stage::UdpQuerying,
            Operation::ReceiveFrom => Stage::UdpQuerying,
        }
    }

    /// The deadline of the call. Only the wait for the link and the TCP
    /// connect have one.
    pub open spec fn deadline(self) -> Option<u64> {
        match self {
            Operation::AwaitAttach => Some(LINK_DEADLINE_MS),
            Operation::Connect { .. } => Some(CONNECT_DEADLINE_MS),
            _ => None,
        }
    }

    /// Whether `reply` is what the call returns on success. A receive call
    /// cannot fill more than its buffer holds.
    pub open spec fn accepts(self, reply: Reply) -> bool {
        match self {
            Operation::Resolve => reply is Address,
            Operation::Receive => reply matches Reply::Received { len } && len <= RECEIVE_CAPACITY,
            Operation::ReceiveFrom => reply matches Reply::ReceivedFrom { len, .. } && len
                <= RECEIVE_CAPACITY,
            _ => reply is Ready,
        }
    }

    /// The call that follows this one once it has returned `reply`, or
    /// `None` after the last.
    pub open spec fn successor(self, reply: Reply) -> Option<Operation> {
        match self {
            Operation::InitModem => Some(Operation::CreateLink),
            Operation::CreateLink => Some(Operation::AwaitAttach),
            Operation::AwaitAttach => Some(Operation::Resolve),
            Operation::Resolve => match reply {
                Reply::Address(remote) => Some(Operation::Connect { remote }),
                _ => None,
            },
            Operation::Connect { .. } => Some(Operation::Write),
            Operation::Write => Some(Operation::Receive),
            Operation::Receive => Some(Operation::Bind),
            Operation::Bind => Some(Operation::SendTo),
            Operation::SendTo => Some(Operation::ReceiveFrom),
            Operation::ReceiveFrom => None,
        }
    }

    /// The action that makes the call, with every argument of the call.
    pub open spec fn action(self) -> ActionView {
        match self {
            Operation::InitModem => ActionView::InitModem { capabilities: Capabilities::session() },
            Operation::CreateLink => ActionView::CreateLink,
            Operation::AwaitAttach => ActionView::AwaitAttach { deadline_ms: LINK_DEADLINE_MS },
            Operation::Resolve => ActionView::Resolve { hostname: probe_hostname() },
            Operation::Connect { remote } => ActionView::Connect {
                remote: probe(remote),
                deadline_ms: CONNECT_DEADLINE_MS,
            },
            Operation::Write => ActionView::Write { payload: http_request_bytes() },
            Operation::Receive => ActionView::Receive { capacity: RECEIVE_CAPACITY },
            Operation::Bind => ActionView::Bind { local: wildcard() },
            Operation::SendTo => ActionView::SendTo {
                payload: dns_query_bytes(),
                remote: resolver(),
            },
            Operation::ReceiveFrom => ActionView::ReceiveFrom { capacity: RECEIVE_CAPACITY },
        }
    }
}

/// Where the session stands.
#[derive(Clone, Copy, Debug, PartialEq, Eq)]
pub enum Progress {
    /// Nothing has been started.
    Idle,
    /// The call has been named and its outcome is awaited.
    Waiting(Operation),
    /// Every call has succeeded.
    Done,
    /// A call did not succeed while the session was in stage `at`.
    Failed { at: Stage, fault: Fault },
}

/// The sequencer: where the session stands, and what it has learnt.
#[derive(Clone, Copy, Debug, PartialEq, Eq)]
pub struct Sequencer {
    /// Where the session stands.
    pub progress: Progress,
    /// The address that the resolver returned.
    pub address: Option<IpAddress>,
    /// How many bytes the TCP receive call filled.
    pub response_len: Option<usize>,
    /// How many bytes the datagram filled.
    pub reply_len: Option<usize>,
    /// Where the datagram came from.
    pub reply_source: Option<SocketAddress>,
}

impl Sequencer {
    /// The sequencer before anything has been started.
    pub open spec fn initial() -> Sequencer {
        Sequencer {
            progress: Progress::Idle,
            address: None,
            response_len: None,
            reply_len: None,
            reply_source: None,
        }
    }

    /// What the sequencer has learnt fits where it stands: it knows the
    /// address from the moment the resolver has answered, the length of the
    /// response from the moment the stream has been read, and the datagram
    /// once the session is done. A failed session keeps what it had learnt.
    pub open spec fn wf(self) -> bool {
        match self.progress {
            Progress::Idle => self == Sequencer::initial(),
            Progress::Waiting(op) => {
                &&& self.address.is_some() == (op.ordinal() >= 4)
                &&& op matches Operation::Connect { remote } ==> self.address == Some(remote)
                &&& self.response_len.is_some() == (op.ordinal() >= 7)
                &&& self.reply_len.is_none()
                &&& self.reply_source.is_none()
                &&& self.response_len matches Some(len) ==> len <= RECEIVE_CAPACITY
            },
            Progress::Done => {
                &&& self.address.is_some()
                &&& self.response_len matches Some(len) && len <= RECEIVE_CAPACITY
                &&& self.reply_len matches Some(len) && len <= RECEIVE_CAPACITY
                &&& self.reply_source.is_some()
            },
            Progress::Failed { at, fault } => {
                &&& at != Stage::Done
                &&& at != Stage::Failed
                &&& fault != Fault::HardwareFault
                &&& fault == Fault::Timeout ==> at == Stage::LinkEstablishing || at
                    == Stage::TcpConnecting
                &&& self.reply_len.is_none()
                &&& self.reply_source.is_none()
                &&& self.response_len matches Some(len) ==> len <= RECEIVE_CAPACITY
            },
        }
    }

    /// The state of the session.
    pub open spec fn stage_spec(self) -> Stage {
        match self.progress {
            Progress::Idle => Stage::Uninit,
            Progress::Waiting(op) => op.stage(),
            Progress::Done => Stage::Done,
            Progress::Failed { .. } => Stage::Failed,
        }
    }

    /// How the session ended, if it has.
    pub open spec fn exit_spec(self) -> Option<Exit> {
        match self.progress {
            Progress::Done => Some(Exit::Success),
            Progress::Failed { fault, .. } => Some(Exit::Halted(fault)),
            _ => None,
        }
    }

    /// What the firmware is to do in this state: make the awaited call, or
    /// halt where the session is over. Before the start that is the first
    /// call.
    pub open spec fn directive_spec(self) -> ActionView {
        match self.progress {
            Progress::Idle => Operation::InitModem.action(),
            Progress::Waiting(op) => op.action(),
            Progress::Done => ActionView::Halt { exit: Exit::Success },
            Progress::Failed { fault, .. } => ActionView::Halt { exit: Exit::Halted(fault) },
        }
    }

    /// The sequencer with `fault` recorded in the stage in which it stands.
    pub open spec fn failed(self, fault: Fault) -> Sequencer {
        Sequencer { progress: Progress::Failed { at: self.stage_spec(), fault }, ..self }
    }

    /// The sequencer with what `reply` tells recorded.
    pub open spec fn learnt(self, reply: Reply) -> Sequencer {
        match reply {
            Reply::Ready => self,
            Reply::Address(ip) => Sequencer { address: Some(ip), ..self },
            Reply::Received { len } => Sequencer { response_len: Some(len), ..self },
            Reply::ReceivedFrom { len, source } => Sequencer {
                reply_len: Some(len),
                reply_source: Some(source),
                ..self
            },
        }
    }

    /// The sequencer after the start: a sequencer that has not been started
    /// awaits the first call, any other is unchanged.
    pub open spec fn started(self) -> Sequencer {
        match self.progress {
            Progress::Idle => Sequencer { progress: Progress::Waiting(Operation::InitModem), ..self },
            _ => self,
        }
    }

    /// The sequencer after the awaited call has ended in `outcome`.
    ///
    /// A success that is the awaited call's own reply moves the session to
    /// the next call, or to its end after the last. A timeout of a guarded
    /// call fails the session with `Timeout`. Everything else that reaches a
    /// session that is under way fails it with `DriverError`: an error of
    /// the call, a reply that is not the awaited call's, a timeout where no
    /// deadline was set, an outcome before the start. A session that is
    /// over stays as it is.
    pub open spec fn after(self, outcome: StageOutcome<Reply>) -> Sequencer {
        match self.progress {
            Progress::Idle => self.failed(Fault::DriverError),
            Progress::Waiting(op) => match outcome {
                StageOutcome::Success(reply) => if op.accepts(reply) {
                    Sequencer {
                        progress: match op.successor(reply) {
                            Some(next) => Progress::Waiting(next),
                            None => Progress::Done,
                        },
                        ..self.learnt(reply)
                    }
                } else {
                    self.failed(Fault::DriverError)
                },
                StageOutcome::Timeout => if op.deadline().is_some() {
                    self.failed(Fault::Timeout)
                } else {
                    self.failed(Fault::DriverError)
                },
                StageOutcome::HardError => self.failed(Fault::DriverError),
            },
            Progress::Done => self,
            Progress::Failed { .. } => self,
        }
    }

    /// The state of the radio link.
    pub open spec fn radio_link_spec(self) -> RadioLink {
        match self.progress {
            Progress::Idle => RadioLink::Uninitialized,
            Progress::Waiting(op) => if op.ordinal() < 1 {
                RadioLink::Uninitialized
            } else if op.ordinal() == 1 {
                RadioLink::Initializing
            } else if op.ordinal() == 2 {
                RadioLink::WaitingForAttach
            } else {
                RadioLink::Attached
            },
            Progress::Done => RadioLink::Attached,
            Progress::Failed { at, .. } => match at {
                Stage::Uninit => RadioLink::Uninitialized,
                Stage::ModemInitializing => RadioLink::Uninitialized,
                Stage::LinkEstablishing => RadioLink::Failed,
                _ => RadioLink::Attached,
            },
        }
    }

    /// The state of the TCP stream. A stream that was open when the session
    /// failed elsewhere is left open: nothing tears it down.
    pub open spec fn tcp_endpoint_spec(self) -> Endpoint {
        match self.progress {
            Progress::Idle => Endpoint::Unopened,
            Progress::Waiting(op) => if op.ordinal() <= 4 {
                Endpoint::Unopened
            } else {
                Endpoint::Open
            },
            Progress::Done => Endpoint::ClosedOk,
            Progress::Failed { at, .. } => match at {
                Stage::TcpConnecting => Endpoint::ClosedError,
                Stage::TcpExchanging => Endpoint::ClosedError,
                Stage::UdpBinding => Endpoint::Open,
                Stage::UdpQuerying => Endpoint::Open,
                _ => Endpoint::Unopened,
            },
        }
    }

    /// The state of the UDP socket.
    pub open spec fn udp_endpoint_spec(self) -> Endpoint {
        match self.progress {
            Progress::Idle => Endpoint::Unopened,
            Progress::Waiting(op) => if op.ordinal() <= 7 {
                Endpoint::Unopened
            } else {
                Endpoint::Open
            },
            Progress::Done => Endpoint::ClosedOk,
            Progress::Failed { at, .. } => match at {
                Stage::UdpBinding => Endpoint::ClosedError,
                Stage::UdpQuerying => Endpoint::ClosedError,
                _ => Endpoint::Unopened,
            },
        }
    }

    /// A sequencer that has started nothing.
    pub fn new() -> (sequencer: Sequencer)
        ensures
            sequencer == Sequencer::initial(),
            sequencer.wf(),
    {
        Sequencer {
            progress: Progress::Idle,
            address: None,
            response_len: None,
            reply_len: None,
            reply_source: None,
        }
    }

    /// Starts the session and names the first call. On a sequencer that was
    /// started before, nothing changes and the action is the one it stands
    /// at.
    pub fn start(self) -> (next: (Sequencer, Action))
        ensures
            next.0 == self.started(),
            next.1@ == next.0.directive_spec(),
            self.wf() ==> next.0.wf(),
    {
        let started = match self.progress {
            Progress::Idle => Sequencer {
                progress: Progress::Waiting(Operation::InitModem),
                address: self.address,
                response_len: self.response_len,
                reply_len: self.reply_len,
                reply_source: self.reply_source,
            },
            _ => self,
        };
        let action = started.directive();
        (started, action)
    }

    /// Takes the outcome of the awaited call and names what to do next: the
    /// following call after a success, a halt after the last call or after
    /// anything that is not a success.
    pub fn on_outcome(self, outcome: StageOutcome<Reply>) -> (next: (Sequencer, Action))
        ensures
            next.0 == self.after(outcome),
            next.1@ == next.0.directive_spec(),
            self.wf() ==> next.0.wf(),
    {
        let next = match self.progress {
            Progress::Idle => self.fail(Fault::DriverError),
            Progress::Waiting(op) => match outcome {
                StageOutcome::Success(reply) => match op.follow(&reply) {
                    Some(progress) => self.learn(&reply, progress),
                    None => self.fail(Fault::DriverError),
                },
                StageOutcome::Timeout => match op.time_limit() {
                    Some(_) => self.fail(Fault::Timeout),
                    None => self.fail(Fault::DriverError),
                },
                StageOutcome::HardError => self.fail(Fault::DriverError),
            },
            Progress::Done => self,
            Progress::Failed { .. } => self,
        };
        let action = next.directive();
        (next, action)
    }

    /// The sequencer failed with `fault` in the stage in which it stands.
    fn fail(self, fault: Fault) -> (next: Sequencer)
        ensures
            next == self.failed(fault),
    {
        Sequencer {
            progress: Progress::Failed { at: self.stage(), fault },
            address: self.address,
            response_len: self.response_len,
            reply_len: self.reply_len,
            reply_source: self.reply_source,
        }
    }

    /// The sequencer at `progress`, with what `reply` tells recorded.
    fn learn(self, reply: &Reply, progress: Progress) -> (next: Sequencer)
        ensures
            next == (Sequencer { progress, ..self.learnt(*reply) }),
    {
        match reply {
            Reply::Ready => Sequencer {
                progress,
                address: self.address,
                response_len: self.response_len,
                reply_len: self.reply_len,
                reply_source: self.reply_source,
            },
            Reply::Address(ip) => Sequencer {
                progress,
                address: Some(*ip),
                response_len: self.response_len,
                reply_len: self.reply_len,
                reply_source: self.reply_source,
            },
            Reply::Received { len } => Sequencer {
                progress,
                address: self.address,
                response_len: Some(*len),
                reply_len: self.reply_len,
                reply_source: self.reply_source,
            },
            Reply::ReceivedFrom { len, source } => Sequencer {
                progress,
                address: self.address,
                response_len: self.response_len,
                reply_len: Some(*len),
                reply_source: Some(*source),
            },
        }
    }

    /// What the firmware is to do in this state.
    pub fn directive(&self) -> (action: Action)
        ensures
            action@ == self.directive_spec(),
    {
        match self.progress {
            Progress::Idle => Operation::InitModem.to_action(),
            Progress::Waiting(op) => op.to_action(),
            Progress::Done => Action::Halt { exit: Exit::Success },
            Progress::Failed { fault, .. } => Action::Halt { exit: Exit::Halted(fault) },
        }
    }

    /// The state of the session.
    pub fn stage(&self) -> (stage: Stage)
        ensures
            stage == self.stage_spec(),
    {
        match self.progress {
            Progress::Idle => Stage::Uninit,
            Progress::Waiting(op) => op.in_stage(),
            Progress::Done => Stage::Done,
            Progress::Failed { .. } => Stage::Failed,
        }
    }

    /// How the session ended, if it has.
    pub fn exit(&self) -> (exit: Option<Exit>)
        ensures
            exit == self.exit_spec(),
    {
        match self.progress {
            Progress::Done => Some(Exit::Success),
            Progress::Failed { fault, .. } => Some(Exit::Halted(fault)),
            _ => None,
        }
    }

    /// The state of the radio link.
    pub fn radio_link(&self) -> (link: RadioLink)
        ensures
            link == self.radio_link_spec(),
    {
        match self.progress {
            Progress::Idle => RadioLink::Uninitialized,
            Progress::Waiting(op) => match op {
                Operation::InitModem => RadioLink::Uninitialized,
                Operation::CreateLink => RadioLink::Initializing,
                Operation::AwaitAttach => RadioLink::WaitingForAttach,
                _ => RadioLink::Attached,
            },
            Progress::Done => RadioLink::Attached,
            Progress::Failed { at, .. } => match at {
                Stage::Uninit => RadioLink::Uninitialized,
                Stage::ModemInitializing => RadioLink::Uninitialized,
                Stage::LinkEstablishing => RadioLink::Failed,
                _ => RadioLink::Attached,
            },
        }
    }

    /// The state of the TCP stream.
    pub fn tcp_endpoint(&self) -> (endpoint: Endpoint)
        ensures
            endpoint == self.tcp_endpoint_spec(),
    {
        match self.progress {
            Progress::Idle => Endpoint::Unopened,
            Progress::Waiting(op) => match op {
                Operation::Write => Endpoint::Open,
                Operation::Receive => Endpoint::Open,
                Operation::Bind => Endpoint::Open,
                Operation::SendTo => Endpoint::Open,
                Operation::ReceiveFrom => Endpoint::Open,
                _ => Endpoint::Unopened,
            },
            Progress::Done => Endpoint::ClosedOk,
            Progress::Failed { at, .. } => match at {
                Stage::TcpConnecting => Endpoint::ClosedError,
                Stage::TcpExchanging => Endpoint::ClosedError,
                Stage::UdpBinding => Endpoint::Open,
                Stage::UdpQuerying => Endpoint::Open,
                _ => Endpoint::Unopened,
            },
        }
    }

    /// The state of the UDP socket.
    pub fn udp_endpoint(&self) -> (endpoint: Endpoint)
        ensures
            endpoint == self.udp_endpoint_spec(),
    {
        match self.progress {
            Progress::Idle => Endpoint::Unopened,
            Progress::Waiting(op) => match op {
                Operation::SendTo => Endpoint::Open,
                Operation::ReceiveFrom => Endpoint::Open,
                _ => Endpoint::Unopened,
            },
            Progress::Done => Endpoint::ClosedOk,
            Progress::Failed { at, .. } => match at {
                Stage::UdpBinding => Endpoint::ClosedError,
                Stage::UdpQuerying => Endpoint::ClosedError,
                _ => Endpoint::Unopened,
            },
        }
    }
}

impl Operation {
    /// The action that makes the call.
    pub fn to_action(&self) -> (action: Action)
        ensures
            action@ == self.action(),
    {
        match self {
            Operation::InitModem => Action::InitModem { capabilities: Capabilities::for_session() },
            Operation::CreateLink => Action::CreateLink,
            Operation::AwaitAttach => Action::AwaitAttach { deadline_ms: LINK_DEADLINE_MS },
            Operation::Resolve => Action::Resolve { hostname: hostname() },
            Operation::Connect { remote } => Action::Connect {
                remote: probe_endpoint(*remote),
                deadline_ms: CONNECT_DEADLINE_MS,
            },
            Operation::Write => Action::Write { payload: http_request() },
            Operation::Receive => Action::Receive { capacity: RECEIVE_CAPACITY },
            Operation::Bind => Action::Bind { local: wildcard_endpoint() },
            Operation::SendTo => Action::SendTo { payload: dns_query(), remote: resolver_endpoint() },
            Operation::ReceiveFrom => Action::ReceiveFrom { capacity: RECEIVE_CAPACITY },
        }
    }

    /// The state of the session while the call is awaited.
    pub fn in_stage(&self) -> (stage: Stage)
        ensures
            stage == self.stage(),
    {
        match self {
            Operation::InitModem => Stage::ModemInitializing,
            Operation::CreateLink => Stage::LinkEstablishing,
            Operation::AwaitAttach => Stage::LinkEstablishing,
            Operation::Resolve => Stage::NameResolving,
            Operation::Connect { .. } => Stage::TcpConnecting,
            Operation::Write => Stage::TcpExchanging,
            Operation::Receive => Stage::TcpExchanging,
            Operation::Bind => Stage::UdpBinding,
            Operation::SendTo => Stage::UdpQuerying,
            Operation::ReceiveFrom => Stage::UdpQuerying,
        }
    }

    /// The deadline of the call, if it is guarded.
    pub fn time_limit(&self) -> (limit: Option<u64>)
        ensures
            limit == self.deadline(),
            limit == self.action().deadline(),
    {
        match self {
            Operation::AwaitAttach => Some(LINK_DEADLINE_MS),
            Operation::Connect { .. } => Some(CONNECT_DEADLINE_MS),
            _ => None,
        }
    }

    /// Where the session stands once the call has returned `reply`, or
    /// `None` where `reply` is not what the call returns.
    pub fn follow(&self, reply: &Reply) -> (progress: Option<Progress>)
        ensures
            progress.is_some() == self.accepts(*reply),
            progress matches Some(p) ==> p == match self.successor(*reply) {
                Some(next) => Progress::Waiting(next),
                None => Progress::Done,
            },
    {
        match (self, reply) {
            (Operation::InitModem, Reply::Ready) => Some(Progress::Waiting(Operation::CreateLink)),
            (Operation::CreateLink, Reply::Ready) => Some(Progress::Waiting(Operation::AwaitAttach)),
            (Operation::AwaitAttach, Reply::Ready) => Some(Progress::Waiting(Operation::Resolve)),
            (Operation::Resolve, Reply::Address(remote)) => Some(
                Progress::Waiting(Operation::Connect { remote: *remote }),
            ),
            (Operation::Connect { .. }, Reply::Ready) => Some(Progress::Waiting(Operation::Write)),
            (Operation::Write, Reply::Ready) => Some(Progress::Waiting(Operation::Receive)),
            (Operation::Receive, Reply::Received { len }) => if *len <= RECEIVE_CAPACITY {
                Some(Progress::Waiting(Operation::Bind))
            } else {
                None
            },
            (Operation::Bind, Reply::Ready) => Some(Progress::Waiting(Operation::SendTo)),
            (Operation::SendTo, Reply::Ready) => Some(Progress::Waiting(Operation::ReceiveFrom)),
            (Operation::ReceiveFrom, Reply::ReceivedFrom { len, .. }) => if *len
                <= RECEIVE_CAPACITY {
                Some(Progress::Done)
            } else {
                None
            },
            _ => None,
        }
    }
}

/// A call is only named once the call before it has succeeded: where the
/// sequencer awaits a call after an outcome, it awaited the call just before
/// it, and the outcome was that call's own success.
pub proof fn lemma_calls_follow_success(s: Sequencer, outcome: StageOutcome<Reply>)
    ensures
        s.after(outcome).progress matches Progress::Waiting(next) ==> {
            &&& s.progress matches Progress::Waiting(op)
            &&& outcome matches StageOutcome::Success(reply)
            &&& op.accepts(reply)
            &&& next.ordinal() == op.ordinal() + 1
        },
        s.after(outcome).progress is Done ==> s.progress is Done || {
            &&& s.progress matches Progress::Waiting(op)
            &&& op is ReceiveFrom
            &&& outcome matches StageOutcome::Success(reply)
            &&& op.accepts(reply)
        },
{
}

/// The success of the awaited call moves the session on by exactly that
/// call, and never ends it in a fault.
pub proof fn lemma_success_moves_on(s: Sequencer, op: Operation, reply: Reply)
    requires
        s.progress == Progress::Waiting(op),
        op.accepts(reply),
    ensures
        op.ordinal() < 9 ==> (s.after(StageOutcome::Success(reply)).progress matches Progress::Waiting(
            next,
        ) && next.ordinal() == op.ordinal() + 1),
        op.ordinal() == 9 ==> s.after(StageOutcome::Success(reply)).progress is Done,
{
}

/// Whatever is not a success ends the session at once: the sequencer is
/// over after it and names no driver call. A timeout in particular is
/// answered by the halt alone: nothing is cancelled and nothing is torn
/// down.
pub proof fn lemma_fail_fast(s: Sequencer, outcome: StageOutcome<Reply>)
    requires
        !(outcome is Success),
    ensures
        s.after(outcome).exit_spec().is_some(),
        s.after(outcome).directive_spec() is Halt,
        !s.after(outcome).directive_spec().is_driver_call(),
        s.exit_spec().is_none() ==> s.after(outcome).exit_spec() matches Some(Exit::Halted(_)),
{
}

/// A session that is over stays as it is, whatever reaches it, and names
/// no driver call ever again.
pub proof fn lemma_over_is_final(s: Sequencer, outcome: StageOutcome<Reply>)
    requires
        s.exit_spec().is_some(),
    ensures
        s.after(outcome) == s,
        s.started() == s,
        s.directive_spec() == (ActionView::Halt { exit: s.exit_spec().unwrap() }),
{
}

/// A session ends in `Timeout` only where the deadline guard stands: while
/// it waits for the link or for the TCP connection, and on a timeout.
pub proof fn lemma_timeout_only_where_guarded(s: Sequencer, outcome: StageOutcome<Reply>)
    requires
        s.exit_spec().is_none(),
        s.after(outcome).exit_spec() == Some(Exit::Halted(Fault::Timeout)),
    ensures
        outcome is Timeout,
        s.progress matches Progress::Waiting(op) && (op is AwaitAttach || op is Connect),
        s.stage_spec() == Stage::LinkEstablishing || s.stage_spec() == Stage::TcpConnecting,
{
}

/// A timeout while the session waits for the link halts it there: the
/// resolver, and every call after it, is never named.
pub proof fn lemma_attach_timeout_halts(s: Sequencer)
    requires
        s.progress == Progress::Waiting(Operation::AwaitAttach),
    ensures
        s.after(StageOutcome::Timeout).progress == (Progress::Failed {
            at: Stage::LinkEstablishing,
            fault: Fault::Timeout,
        }),
        s.after(StageOutcome::Timeout).directive_spec() == (ActionView::Halt {
            exit: Exit::Halted(Fault::Timeout),
        }),
        s.after(StageOutcome::Timeout).radio_link_spec() == RadioLink::Failed,
{
}

/// The stream and the socket are used only while they are open, and
/// nothing is called once the link or an endpoint has failed.
pub proof fn lemma_io_needs_open_endpoint(s: Sequencer)
    ensures
        s.directive_spec() is Write || s.directive_spec() is Receive ==> s.tcp_endpoint_spec()
            == Endpoint::Open,
        s.directive_spec() is SendTo || s.directive_spec() is ReceiveFrom ==> s.udp_endpoint_spec()
            == Endpoint::Open,
        s.tcp_endpoint_spec() == Endpoint::ClosedError || s.udp_endpoint_spec()
            == Endpoint::ClosedError || s.radio_link_spec() == RadioLink::Failed
            ==> s.directive_spec() is Halt,
        s.directive_spec() is Resolve || s.directive_spec() is Connect ==> s.radio_link_spec()
            == RadioLink::Attached,
{
}

/// What the sequencer has learnt stays consistent with where it stands.
pub proof fn lemma_wf_is_kept(s: Sequencer, outcome: StageOutcome<Reply>)
    requires
        s.wf(),
    ensures
        s.started().wf(),
        s.after(outcome).wf(),
        Sequencer::initial().wf(),
{
}

/// Every call that the sequencer names is a call of the session with the
/// session's own arguments, and stands at its call's place.
pub proof fn lemma_directive_is_session_call(s: Sequencer)
    requires
        s.exit_spec().is_none(),
    ensures
        s.directive_spec().is_session_call(),
        s.directive_spec().is_driver_call(),
        s.progress matches Progress::Waiting(op) ==> s.directive_spec().ordinal() == op.ordinal(),
{
}

/// The arguments of a call of the session, spelt out: whatever the driver
/// answers, a write sends the request and nothing else, a send-to sends the
/// query to the public resolver, the socket is bound to the wildcard
/// address, each receive call has the one buffer size, and the two guarded
/// calls have their deadlines.
pub proof fn lemma_session_call_arguments(a: ActionView)
    requires
        a.is_session_call(),
    ensures
        a is InitModem ==> a == (ActionView::InitModem { capabilities: Capabilities::session() }),
        a is AwaitAttach ==> a == (ActionView::AwaitAttach { deadline_ms: LINK_DEADLINE_MS }),
        a is Resolve ==> a == (ActionView::Resolve { hostname: probe_hostname() }),
        a matches ActionView::Connect { remote, deadline_ms } ==> remote.port == HTTP_PORT
            && deadline_ms == CONNECT_DEADLINE_MS,
        a is Write ==> a == (ActionView::Write { payload: http_request_bytes() }),
        a is Receive ==> a == (ActionView::Receive { capacity: RECEIVE_CAPACITY }),
        a is Bind ==> a == (ActionView::Bind { local: wildcard() }),
        a is SendTo ==> a == (ActionView::SendTo { payload: dns_query_bytes(), remote: resolver() }),
        a is ReceiveFrom ==> a == (ActionView::ReceiveFrom { capacity: RECEIVE_CAPACITY }),
        !(a is Halt),
{
}

} // verus!
