//! The controller core: the state one actor owns, and what each event does
//! to it.

use crate::alarm::AlarmNode;
use crate::can::{BusState, CanFrame, CanInterface, CanStats};
use crate::clock::now_millis;
use crate::device::{Device, DeviceError};
use crate::query::{
    deadline_for,
    query_deadline,
    query_frame,
    query_request,
    query_value,
    PendingQuery,
    QueryPoll,
};
use crate::registry::{
    action_dispatched,
    bus_used,
    dispatch_queries,
    dispatch_result,
    dispatch_target,
    frame_accepted,
    frame_dispatched,
    DeviceNode,
    DeviceNodeAction,
    DeviceRegistry,
};
use vstd::prelude::*;

verus! {

/// The bus capability a device gets while it executes an action: it can
/// issue queries and nothing else.
pub trait ControllerAPI: Send + Sync {
    /// The capability can take a query for `id` with `timeout_ms`. Any
    /// query, unless the capability says otherwise.
    open spec fn can_query(&self, id: u32, timeout_ms: Option<u32>) -> bool {
        true
    }

    /// `after` is this capability once a query for `id` with `timeout_ms`
    /// has resolved to `value`. A capability that says nothing of itself
    /// promises nothing.
    open spec fn queried(&self, id: u32, timeout_ms: Option<u32>, after: &Self, value: u32) -> bool {
        true
    }

    /// Asks the node at `id` for its value and waits at most `timeout_ms`
    /// for the reply. A query that timed out resolves to 0.
    fn query(&mut self, id: u32, timeout_ms: Option<u32>) -> (value: u32)
        requires
            old(self).can_query(id, timeout_ms),
        ensures
            old(self).queried(id, timeout_ms, final(self), value),
    ;
}

/// Address of the alarm every controller starts with.
pub const ALARM_ADDRESS: u32 = 0x123;

/// What the controller counts.
#[derive(Debug, Clone, Copy, PartialEq, Eq)]
pub struct ControllerStats {
    pub discovery_count: u32,
}

impl Default for ControllerStats {
    fn default() -> (stats: ControllerStats)
        ensures
            stats == (ControllerStats { discovery_count: 0 }),
    {
        ControllerStats { discovery_count: 0 }
    }
}

/// How the controller is set up. It does not change after construction.
#[derive(Debug, Clone, Copy, PartialEq, Eq)]
pub struct ControllerConfig {
    /// Seconds between two firings of the discovery timer.
    pub discovery_period: u32,
}

impl Default for ControllerConfig {
    fn default() -> (config: ControllerConfig)
        ensures
            config == (ControllerConfig { discovery_period: 5 }),
    {
        ControllerConfig { discovery_period: 5 }
    }
}

/// What a caller can ask of the controller.
#[derive(Debug, Clone, Copy, PartialEq, Eq)]
pub enum ControllerMessageType {
    /// Ask the node at an address for its value, with a timeout in
    /// milliseconds.
    Query(u32, Option<u32>),
    /// Read the counters.
    GetStats,
    /// Hand an action to the device at an address.
    QueryDevice(u32, DeviceNodeAction),
}

/// What the controller answers.
#[derive(Debug, Clone, Copy, PartialEq, Eq)]
pub enum ControllerResponse {
    /// The value a query resolved to; 0 when it timed out.
    Query(u32),
    /// The counters of the controller and of the transport.
    GetStats(ControllerStats, CanStats),
    /// What the device made of the action.
    QueryDevice(Result<(), DeviceError>),
}

/// What can wake the actor loop.
#[derive(Debug, Clone, Copy, PartialEq, Eq)]
pub enum ControllerEvent {
    /// A message arrived in the mailbox.
    Message(ControllerMessageType),
    /// A frame arrived from the bus.
    Frame(CanFrame),
    /// The discovery timer fired.
    Tick,
    /// The shutdown signal was raised.
    Shutdown,
}

/// What the actor loop has to do once the core has handled an event.
#[derive(Debug, Clone, Copy, PartialEq, Eq)]
pub enum ControllerStep {
    /// Nothing: wait for the next event.
    Continue,
    /// A discovery round ran; this is the frame it drained from the bus.
    Discovered(Option<CanFrame>),
    /// Send this answer on the message's reply channel.
    Reply(ControllerResponse),
    /// A query is in flight: poll it until it resolves.
    Await(PendingQuery),
    /// Leave the loop.
    Stop,
}

/// The answer to a query that stands at `poll`: its value once the reply
/// has come, 0 once it has timed out, none while it waits.
pub open spec fn query_response(poll: QueryPoll) -> Option<ControllerResponse> {
    match poll {
        QueryPoll::Reply(value) => Some(ControllerResponse::Query(value)),
        QueryPoll::TimedOut => Some(ControllerResponse::Query(0)),
        QueryPoll::Waiting => None,
    }
}

impl ControllerResponse {
    /// The answer to a query that stands at `poll`, if it has resolved.
    pub fn for_query(poll: QueryPoll) -> (response: Option<ControllerResponse>)
        ensures
            response == query_response(poll),
    {
        match poll {
            QueryPoll::Reply(value) => Some(ControllerResponse::Query(value)),
            QueryPoll::TimedOut => Some(ControllerResponse::Query(0)),
            QueryPoll::Waiting => None,
        }
    }

    /// The value of a query, where this is the answer to one.
    pub fn query_value(&self) -> (value: Option<u32>)
        ensures
            value == match *self {
                ControllerResponse::Query(v) => Some(v),
                _ => None,
            },
    {
        match self {
            ControllerResponse::Query(v) => Some(*v),
            _ => None,
        }
    }

    /// The controller's counters, where this is the answer to a reading of
    /// them.
    pub fn stats(&self) -> (stats: Option<ControllerStats>)
        ensures
            stats == match *self {
                ControllerResponse::GetStats(controller, _) => Some(controller),
                _ => None,
            },
    {
        match self {
            ControllerResponse::GetStats(controller, _) => Some(*controller),
            _ => None,
        }
    }

    /// The transport's counters, where this is the answer to a reading of
    /// them.
    pub fn bus_stats(&self) -> (stats: Option<CanStats>)
        ensures
            stats == match *self {
                ControllerResponse::GetStats(_, bus) => Some(bus),
                _ => None,
            },
    {
        match self {
            ControllerResponse::GetStats(_, bus) => Some(*bus),
            _ => None,
        }
    }

    /// What the device made of an action, where this is the answer to one.
    pub fn action_result(&self) -> (result: Option<Result<(), DeviceError>>)
        ensures
            result == match *self {
                ControllerResponse::QueryDevice(r) => Some(r),
                _ => None,
            },
    {
        match self {
            ControllerResponse::QueryDevice(r) => Some(*r),
            _ => None,
        }
    }
}

/// What a [`Controller`] is, as a mathematical value.
pub struct ControllerState {
    pub bus: BusState,
    pub devices: Map<u32, Device<DeviceNode>>,
    pub stats: ControllerStats,
    pub config: ControllerConfig,
}

/// `after` is the transport `bus` once `action` was dispatched to
/// `address`: where the action sends a query, that query, which has
/// timeout 0, has run to its end at some time; else nothing has happened.
pub open spec fn bus_after_dispatch(
    devices: Map<u32, Device<DeviceNode>>,
    bus: BusState,
    address: u32,
    action: DeviceNodeAction,
    after: BusState,
) -> bool {
    match dispatch_target(devices, address, action) {
        Some(target) => exists|at: i64| after == (#[trigger] bus.query_at_once(target, at)).0,
        None => after == bus,
    }
}

impl ControllerState {
    /// A controller that has seen no event yet: the transport it was given,
    /// one alarm at [`ALARM_ADDRESS`], counters at zero.
    pub open spec fn initial(bus: BusState, config: ControllerConfig) -> ControllerState {
        ControllerState {
            bus,
            devices: Map::<u32, Device<DeviceNode>>::empty().insert(
                ALARM_ADDRESS,
                Device {
                    id: ALARM_ADDRESS,
                    last_seen: None,
                    specific: DeviceNode::Alarm(AlarmNode { active: false, triggered_count: 0 }),
                },
            ),
            stats: ControllerStats { discovery_count: 0 },
            config,
        }
    }

    /// One more discovery round can run at time `now`.
    pub open spec fn can_discover(self, now: i64) -> bool {
        self.stats.discovery_count < u32::MAX && self.bus.can_recv(true, now)
    }

    /// One more discovery round can run, whatever the time.
    pub open spec fn can_discover_anytime(self) -> bool {
        forall|now: i64| self.can_discover(now)
    }

    /// The controller after a discovery round at time `now`: the round is
    /// counted and one reply is drained from the bus.
    pub open spec fn discovered(self, now: i64) -> ControllerState {
        ControllerState {
            bus: self.bus.recv(true, now).0,
            stats: ControllerStats { discovery_count: (self.stats.discovery_count + 1) as u32 },
            ..self
        }
    }

    /// The event can be handled at time `now` without a counter running
    /// over.
    pub open spec fn can_handle(self, event: ControllerEvent, now: i64) -> bool {
        match event {
            ControllerEvent::Message(ControllerMessageType::Query(_, _)) => self.bus.can_send(),
            ControllerEvent::Message(ControllerMessageType::GetStats) => true,
            ControllerEvent::Message(ControllerMessageType::QueryDevice(address, action)) =>
                dispatch_queries(self.devices, address, action) ==> self.bus.can_query_at_once(),
            ControllerEvent::Frame(frame) => frame_accepted(self.devices, frame),
            ControllerEvent::Tick => self.can_discover(now),
            ControllerEvent::Shutdown => true,
        }
    }

    /// The event can be handled without a counter running over, whatever
    /// the time.
    pub open spec fn can_handle_anytime(self, event: ControllerEvent) -> bool {
        forall|now: i64| self.can_handle(event, now)
    }

    /// What the loop has to do once `event` has been handled at time `now`.
    pub open spec fn step_of(self, event: ControllerEvent, now: i64) -> ControllerStep {
        match event {
            ControllerEvent::Message(ControllerMessageType::Query(id, timeout_ms)) =>
                ControllerStep::Await(
                PendingQuery { address: id, deadline: query_deadline(timeout_ms, now) },
            ),
            ControllerEvent::Message(ControllerMessageType::GetStats) => ControllerStep::Reply(
                ControllerResponse::GetStats(self.stats, self.bus.stats),
            ),
            ControllerEvent::Message(ControllerMessageType::QueryDevice(address, action)) =>
                ControllerStep::Reply(
                ControllerResponse::QueryDevice(dispatch_result(self.devices, address, action)),
            ),
            ControllerEvent::Frame(_) => ControllerStep::Continue,
            ControllerEvent::Tick => ControllerStep::Discovered(self.bus.recv(true, now).1),
            ControllerEvent::Shutdown => ControllerStep::Stop,
        }
    }

    /// `after` is the controller once `action` was dispatched to
    /// `address`: only the device there and the transport can differ.
    pub open spec fn dispatched(
        self,
        address: u32,
        action: DeviceNodeAction,
        after: ControllerState,
    ) -> bool {
        &&& after.devices == action_dispatched(self.devices, address, action)
        &&& bus_after_dispatch(self.devices, self.bus, address, action, after.bus)
        &&& after.stats == self.stats
        &&& after.config == self.config
    }

    /// `after` is the controller once `event` has been handled at time
    /// `now`.
    ///
    /// Every event but one fixes `after`. An action that sends a query does
    /// so at a time of its own, so it fixes the transport only up to that
    /// time. Every firing of the discovery timer runs a discovery round.
    pub open spec fn moved(self, event: ControllerEvent, now: i64, after: ControllerState) -> bool {
        match event {
            ControllerEvent::Message(ControllerMessageType::Query(id, _)) => after
                == (ControllerState { bus: self.bus.send(query_request(id), now), ..self }),
            ControllerEvent::Message(ControllerMessageType::GetStats) => after == self,
            ControllerEvent::Message(ControllerMessageType::QueryDevice(address, action)) =>
                self.dispatched(address, action, after),
            ControllerEvent::Frame(frame) => after == (ControllerState {
                devices: frame_dispatched(self.devices, frame, now),
                ..self
            }),
            ControllerEvent::Tick => after == self.discovered(now),
            ControllerEvent::Shutdown => after == self,
        }
    }
}

/// The capability the core hands to a device while it executes an action:
/// the transport, and nothing else of the controller. The core cannot wait,
/// so this capability takes only queries that have no time to wait, those
/// with timeout 0; every action of the registry's kinds sends such a one.
#[derive(Debug)]
struct BusPort {
    iface: CanInterface,
}

impl ControllerAPI for BusPort {
    closed spec fn can_query(&self, id: u32, timeout_ms: Option<u32>) -> bool {
        timeout_ms == Some(0u32) && self.iface@.can_query_at_once()
    }

    closed spec fn queried(&self, id: u32, timeout_ms: Option<u32>, after: &Self, value: u32) -> bool {
        exists|now: i64|
            {
                &&& after.iface@ == (#[trigger] self.iface@.query_at_once(id, now)).0
                &&& value == self.iface@.query_at_once(id, now).1.value_or_default()
            }
    }

    /// Runs the query to its end at the time the clock shows: the request
    /// goes out, the deadline is that same instant, and one poll resolves
    /// it.
    fn query(&mut self, id: u32, timeout_ms: Option<u32>) -> (value: u32) {
        let now: i64 = now_millis();
        assert(old(self).iface@.can_recv(true, now));
        self.iface.send_at(query_frame(id), now);
        assert(self.iface@.deliverable(true, now) ==> old(self).iface@.deliverable(true, now));
        let value: u32 = match self.iface.recv_at(true, now) {
            Some(frame) => query_value(&frame),
            None => 0,
        };
        assert(self.iface@ == old(self).iface@.query_at_once(id, now).0);
        assert(value == old(self).iface@.query_at_once(id, now).1.value_or_default());
        value
    }
}

/// What a device does to its capability, seen on the transport behind it.
proof fn lemma_bus_use(
    devices: Map<u32, Device<DeviceNode>>,
    before: BusPort,
    address: u32,
    action: DeviceNodeAction,
    after: BusPort,
    result: Result<(), DeviceError>,
)
    requires
        bus_used(devices, before, address, action, after, result),
    ensures
        bus_after_dispatch(devices, before.iface@, address, action, after.iface@),
{
    if let Some(target) = dispatch_target(devices, address, action) {
        let value = choose|value: u32| before.queried(target, Some(0u32), &after, value);
        let at = choose|at: i64|
            after.iface@ == (#[trigger] before.iface@.query_at_once(target, at)).0 && value
                == before.iface@.query_at_once(target, at).1.value_or_default();
        assert(after.iface@ == before.iface@.query_at_once(target, at).0);
    }
}

/// The controller core: transport, devices, counters and configuration,
/// owned by one actor.
#[derive(Debug)]
pub struct Controller {
    port: BusPort,
    devices: DeviceRegistry,
    stats: ControllerStats,
    config: ControllerConfig,
}

impl View for Controller {
    type V = ControllerState;

    closed spec fn view(&self) -> ControllerState {
        ControllerState {
            bus: self.port.iface@,
            devices: self.devices@,
            stats: self.stats,
            config: self.config,
        }
    }
}

impl Controller {
    /// A controller over `iface` with one alarm at [`ALARM_ADDRESS`].
    pub fn new(iface: CanInterface, config: ControllerConfig) -> (controller: Controller)
        ensures
            controller@ == ControllerState::initial(iface@, config),
    {
        let mut devices = DeviceRegistry::new();
        let alarm = Device {
            id: ALARM_ADDRESS,
            last_seen: None,
            specific: DeviceNode::Alarm(AlarmNode::default()),
        };
        devices.register(alarm);
        Controller { port: BusPort { iface }, devices, stats: ControllerStats::default(), config }
    }

    /// A controller over `iface` with the devices of `devices`.
    pub fn with_devices(
        iface: CanInterface,
        config: ControllerConfig,
        devices: DeviceRegistry,
    ) -> (controller: Controller)
        ensures
            controller@ == (ControllerState {
                devices: devices@,
                ..ControllerState::initial(iface@, config)
            }),
    {
        Controller { port: BusPort { iface }, devices, stats: ControllerStats::default(), config }
    }

    /// Snapshot of the controller's counters.
    pub fn get_stats(&self) -> (stats: ControllerStats)
        ensures
            stats == self@.stats,
    {
        self.stats
    }

    /// Snapshot of the transport's counters.
    pub fn bus_stats(&self) -> (stats: CanStats)
        ensures
            stats == self@.bus.stats,
    {
        self.port.iface.stats()
    }

    /// The device registered at `address`, if there is one.
    pub fn device(&self, address: u32) -> (device: Option<&Device<DeviceNode>>)
        ensures
            match device {
                Some(d) => self@.devices.contains_key(address) && *d == self@.devices[address],
                None => !self@.devices.contains_key(address),
            },
    {
        self.devices.get(address)
    }

    /// How the controller was set up.
    pub fn config(&self) -> (config: ControllerConfig)
        ensures
            config == self@.config,
    {
        self.config
    }

    /// Begins a query at time `now`: the request goes out, and the query
    /// gives up `timeout_ms` later, or after the default timeout where none
    /// is given.
    pub fn begin_query_at(&mut self, id: u32, timeout_ms: Option<u32>, now: i64) -> (pending:
        PendingQuery)
        requires
            old(self)@.bus.can_send(),
        ensures
            pending == (PendingQuery { address: id, deadline: query_deadline(timeout_ms, now) }),
            final(self)@ == (ControllerState {
                bus: old(self)@.bus.send(query_request(id), now),
                ..old(self)@
            }),
    {
        self.port.iface.send_at(query_frame(id), now);
        PendingQuery { address: id, deadline: deadline_for(timeout_ms, now) }
    }

    /// [`Controller::begin_query_at`] at the time the clock shows.
    pub fn begin_query(&mut self, id: u32, timeout_ms: Option<u32>) -> (pending: PendingQuery)
        requires
            old(self)@.bus.can_send(),
        ensures
            exists|now: i64|
                {
                    &&& pending == (PendingQuery {
                        address: id,
                        deadline: #[trigger] query_deadline(timeout_ms, now),
                    })
                    &&& final(self)@ == (ControllerState {
                        bus: old(self)@.bus.send(query_request(id), now),
                        ..old(self)@
                    })
                },
    {
        let now: i64 = now_millis();
        self.begin_query_at(id, timeout_ms, now)
    }

    /// Looks at time `now` for the reply to a query in flight. After the
    /// deadline the query has timed out and the transport is left alone.
    pub fn poll_query_at(&mut self, pending: &PendingQuery, now: i64) -> (poll: QueryPoll)
        requires
            old(self)@.bus.can_poll(*pending, now),
        ensures
            poll == old(self)@.bus.poll(*pending, now).1,
            final(self)@ == (ControllerState {
                bus: old(self)@.bus.poll(*pending, now).0,
                ..old(self)@
            }),
    {
        if now > pending.deadline {
            return QueryPoll::TimedOut;
        }
        match self.port.iface.recv_at(true, now) {
            Some(frame) => QueryPoll::Reply(query_value(&frame)),
            None => if now == pending.deadline {
                QueryPoll::TimedOut
            } else {
                QueryPoll::Waiting
            },
        }
    }

    /// [`Controller::poll_query_at`] at the time the clock shows.
    pub fn poll_query(&mut self, pending: &PendingQuery) -> (poll: QueryPoll)
        requires
            old(self)@.bus.can_poll_anytime(*pending),
        ensures
            exists|now: i64|
                {
                    &&& poll == (#[trigger] old(self)@.bus.poll(*pending, now)).1
                    &&& final(self)@ == (ControllerState {
                        bus: old(self)@.bus.poll(*pending, now).0,
                        ..old(self)@
                    })
                },
    {
        let now: i64 = now_millis();
        assert(old(self)@.bus.can_poll(*pending, now));
        self.poll_query_at(pending, now)
    }

    /// Whether the query in flight can be polled without a counter running
    /// over, whatever the time.
    pub fn can_poll(&self, pending: &PendingQuery) -> (ok: bool)
        ensures
            ok == self@.bus.can_poll_anytime(*pending),
    {
        // A frame that comes back at some time up to the deadline also
        // comes back at the deadline itself.
        let ok = self.port.iface.can_recv_at(true, pending.deadline);
        proof {
            if ok {
                assert forall|now: i64| self@.bus.can_poll(*pending, now) by {
                    if now <= pending.deadline && self@.bus.deliverable(true, now) {
                        assert(self@.bus.deliverable(true, pending.deadline));
                    }
                }
            } else {
                assert(!self@.bus.can_poll(*pending, pending.deadline));
            }
        }
        ok
    }

    /// Runs one discovery round at time `now`: counts it and drains one
    /// reply from the bus, which it hands back.
    pub fn discover_at(&mut self, now: i64) -> (drained: Option<CanFrame>)
        requires
            old(self)@.can_discover(now),
        ensures
            drained == old(self)@.bus.recv(true, now).1,
            final(self)@ == old(self)@.discovered(now),
            final(self)@.stats.discovery_count == old(self)@.stats.discovery_count + 1,
    {
        self.stats.discovery_count += 1;
        self.port.iface.recv_at(true, now)
    }

    /// [`Controller::discover_at`] at the time the clock shows.
    pub fn discover(&mut self) -> (drained: Option<CanFrame>)
        requires
            old(self)@.can_discover_anytime(),
        ensures
            exists|now: i64|
                {
                    &&& drained == (#[trigger] old(self)@.bus.recv(true, now)).1
                    &&& final(self)@ == old(self)@.discovered(now)
                },
    {
        let now: i64 = now_millis();
        self.discover_at(now)
    }

    /// Routes a frame that arrived at time `now` to the device at its
    /// address; a frame for an unknown address is dropped.
    pub fn handle_frame_at(&mut self, frame: CanFrame, now: i64)
        requires
            frame_accepted(old(self)@.devices, frame),
        ensures
            final(self)@ == (ControllerState {
                devices: frame_dispatched(old(self)@.devices, frame, now),
                ..old(self)@
            }),
    {
        self.devices.dispatch_frame_at(&frame, now);
    }

    /// [`Controller::handle_frame_at`] at the time the clock shows.
    pub fn handle_frame(&mut self, frame: CanFrame)
        requires
            frame_accepted(old(self)@.devices, frame),
        ensures
            exists|now: i64|
                final(self)@ == (ControllerState {
                    devices: #[trigger] frame_dispatched(old(self)@.devices, frame, now),
                    ..old(self)@
                }),
    {
        let now: i64 = now_millis();
        self.handle_frame_at(frame, now);
    }

    /// Hands `action` to the device at `address`, with the transport as its
    /// bus capability.
    pub fn dispatch_action(&mut self, address: u32, action: DeviceNodeAction) -> (result: Result<
        (),
        DeviceError,
    >)
        requires
            dispatch_queries(old(self)@.devices, address, action) ==> old(
                self,
            )@.bus.can_query_at_once(),
        ensures
            result == dispatch_result(old(self)@.devices, address, action),
            old(self)@.dispatched(address, action, final(self)@),
    {
        let ghost before = self.port;
        let ghost devices = self.devices@;
        let result = self.devices.dispatch_action(&mut self.port, address, &action);
        proof {
            lemma_bus_use(devices, before, address, action, self.port, result);
        }
        result
    }

    /// Takes the frame that the transport hands out at time `now`, if it
    /// hands one out. Without the loopback it never does: the echoes stay
    /// where they are, for the queries they answer.
    pub fn recv_at(&mut self, loopback: bool, now: i64) -> (frame: Option<CanFrame>)
        requires
            old(self)@.bus.can_recv(loopback, now),
        ensures
            frame == old(self)@.bus.recv(loopback, now).1,
            final(self)@ == (ControllerState {
                bus: old(self)@.bus.recv(loopback, now).0,
                ..old(self)@
            }),
    {
        self.port.iface.recv_at(loopback, now)
    }

    /// [`Controller::recv_at`] at the time the clock shows.
    pub fn recv(&mut self, loopback: bool) -> (frame: Option<CanFrame>)
        requires
            old(self)@.bus.can_recv_anytime(loopback),
        ensures
            exists|now: i64|
                {
                    &&& frame == (#[trigger] old(self)@.bus.recv(loopback, now)).1
                    &&& final(self)@ == (ControllerState {
                        bus: old(self)@.bus.recv(loopback, now).0,
                        ..old(self)@
                    })
                },
    {
        let now: i64 = now_millis();
        self.recv_at(loopback, now)
    }

    /// Executes the request of a message that was taken from the mailbox at
    /// time `now`, and says what to answer. A query is begun, not answered:
    /// its answer comes from polling.
    pub fn handle_message_at(&mut self, message: ControllerMessageType, now: i64) -> (step:
        ControllerStep)
        requires
            old(self)@.can_handle(ControllerEvent::Message(message), now),
        ensures
            step == old(self)@.step_of(ControllerEvent::Message(message), now),
            old(self)@.moved(ControllerEvent::Message(message), now, final(self)@),
    {
        match message {
            ControllerMessageType::Query(id, timeout_ms) => ControllerStep::Await(
                self.begin_query_at(id, timeout_ms, now),
            ),
            ControllerMessageType::GetStats => ControllerStep::Reply(
                ControllerResponse::GetStats(self.stats, self.port.iface.stats()),
            ),
            ControllerMessageType::QueryDevice(address, action) => ControllerStep::Reply(
                ControllerResponse::QueryDevice(self.dispatch_action(address, action)),
            ),
        }
    }

    /// [`Controller::handle_message_at`] at the time the clock shows.
    pub fn handle_message(&mut self, message: ControllerMessageType) -> (step: ControllerStep)
        requires
            old(self)@.can_handle_anytime(ControllerEvent::Message(message)),
        ensures
            exists|now: i64|
                {
                    &&& step == #[trigger] old(self)@.step_of(ControllerEvent::Message(message), now)
                    &&& old(self)@.moved(ControllerEvent::Message(message), now, final(self)@)
                },
    {
        let now: i64 = now_millis();
        self.handle_message_at(message, now)
    }

    /// Handles one event of the actor loop at time `now`, to completion,
    /// and says what the loop has to do next.
    pub fn handle_event_at(&mut self, event: ControllerEvent, now: i64) -> (step: ControllerStep)
        requires
            old(self)@.can_handle(event, now),
        ensures
            step == old(self)@.step_of(event, now),
            old(self)@.moved(event, now, final(self)@),
            event == ControllerEvent::Tick ==> {
                &&& step == ControllerStep::Discovered(old(self)@.bus.recv(true, now).1)
                &&& final(self)@ == old(self)@.discovered(now)
                &&& final(self)@.stats.discovery_count == old(self)@.stats.discovery_count + 1
            },
    {
        match event {
            ControllerEvent::Message(message) => self.handle_message_at(message, now),
            ControllerEvent::Frame(frame) => {
                self.handle_frame_at(frame, now);
                ControllerStep::Continue
            },
            ControllerEvent::Tick => ControllerStep::Discovered(self.discover_at(now)),
            ControllerEvent::Shutdown => ControllerStep::Stop,
        }
    }

    /// [`Controller::handle_event_at`] at the time the clock shows.
    pub fn handle_event(&mut self, event: ControllerEvent) -> (step: ControllerStep)
        requires
            old(self)@.can_handle_anytime(event),
        ensures
            exists|now: i64|
                {
                    &&& step == #[trigger] old(self)@.step_of(event, now)
                    &&& old(self)@.moved(event, now, final(self)@)
                },
    {
        let now: i64 = now_millis();
        self.handle_event_at(event, now)
    }

    /// Whether `event` can be handled at time `now` without a counter
    /// running over.
    pub fn can_handle_at(&self, event: &ControllerEvent, now: i64) -> (ok: bool)
        ensures
            ok == self@.can_handle(*event, now),
    {
        match event {
            ControllerEvent::Message(ControllerMessageType::Query(_, _)) => self.port.iface.can_send(),
            ControllerEvent::Message(ControllerMessageType::GetStats) => true,
            ControllerEvent::Message(ControllerMessageType::QueryDevice(address, action)) => {
                !self.devices.queries(*address, action) || (self.port.iface.can_send()
                    && self.port.iface.can_recv(true))
            },
            ControllerEvent::Frame(frame) => self.devices.accepts(frame),
            ControllerEvent::Tick => {
                self.stats.discovery_count < u32::MAX && self.port.iface.can_recv_at(true, now)
            },
            ControllerEvent::Shutdown => true,
        }
    }

    /// Whether `event` can be handled without a counter running over,
    /// whatever the time.
    pub fn can_handle(&self, event: &ControllerEvent) -> (ok: bool)
        ensures
            ok == self@.can_handle_anytime(*event),
    {
        match event {
            ControllerEvent::Tick => {
                let ok = self.stats.discovery_count < u32::MAX && self.port.iface.can_recv(true);
                proof {
                    if ok {
                        assert forall|now: i64| self@.can_handle(*event, now) by {
                            assert(self.port.iface@.can_recv(true, now));
                        }
                    } else if self.stats.discovery_count < u32::MAX {
                        let at = choose|at: i64| !self.port.iface@.can_recv(true, at);
                        assert(!self@.can_handle(*event, at));
                    } else {
                        assert(!self@.can_handle(*event, 0));
                    }
                }
                ok
            },
            _ => {
                let ok = self.can_handle_at(event, 0);
                proof {
                    assert forall|now: i64| self@.can_handle(*event, now) == ok by {}
                    if !ok {
                        assert(!self@.can_handle(*event, 0));
                    }
                }
                ok
            },
        }
    }

    /// Whether the transport can be asked for a frame without a counter
    /// running over, whatever the time.
    pub fn can_recv(&self, loopback: bool) -> (ok: bool)
        ensures
            ok == self@.bus.can_recv_anytime(loopback),
    {
        self.port.iface.can_recv(loopback)
    }
}

} // verus!
