//! What holds of every run of the controller.

use crate::can::CanFrame;
use crate::controller::{
    ControllerEvent,
    ControllerMessageType,
    ControllerResponse,
    ControllerState,
    ControllerStep,
};
use crate::query::PendingQuery;
use crate::registry::{
    action_dispatched,
    lemma_action_is_isolated,
    lemma_frame_stamps_its_device,
    DeviceNodeAction,
};
use vstd::prelude::*;

verus! {

/// One thing the owner of the core does with it. Every function that
/// changes a controller is one of these.
pub enum Activity {
    /// It hands an event to the core.
    Event(ControllerEvent),
    /// It polls a query that is in flight.
    Poll(PendingQuery),
    /// It asks the transport for a frame, with or without the loopback.
    Receive(bool),
    /// It runs a discovery round without waiting for the timer.
    Discover,
}

/// An activity together with the time it took place at.
pub struct Occurrence {
    pub activity: Activity,
    pub at: i64,
}

impl ControllerState {
    /// The activity can take place without a counter running over.
    pub open spec fn permits(self, occurrence: Occurrence) -> bool {
        match occurrence.activity {
            Activity::Event(event) => self.can_handle(event, occurrence.at),
            Activity::Poll(pending) => self.bus.can_poll(pending, occurrence.at),
            Activity::Receive(loopback) => self.bus.can_recv(loopback, occurrence.at),
            Activity::Discover => self.can_discover(occurrence.at),
        }
    }

    /// `after` is the controller once the activity has taken place.
    pub open spec fn performed(self, occurrence: Occurrence, after: ControllerState) -> bool {
        match occurrence.activity {
            Activity::Event(event) => self.moved(event, occurrence.at, after),
            Activity::Poll(pending) => after == (ControllerState {
                bus: self.bus.poll(pending, occurrence.at).0,
                ..self
            }),
            Activity::Receive(loopback) => after == (ControllerState {
                bus: self.bus.recv(loopback, occurrence.at).0,
                ..self
            }),
            Activity::Discover => after == self.discovered(occurrence.at),
        }
    }

    /// The activity runs a discovery round: it is a firing of the
    /// discovery timer, or a round run directly.
    pub open spec fn discovers(self, occurrence: Occurrence) -> bool {
        match occurrence.activity {
            Activity::Event(ControllerEvent::Tick) => true,
            Activity::Discover => true,
            _ => false,
        }
    }

    /// The activity dispatches a frame to the device at `address`.
    pub open spec fn reaches(self, occurrence: Occurrence, address: u32) -> bool {
        &&& occurrence.activity matches Activity::Event(ControllerEvent::Frame(frame))
        &&& frame.id == address
        &&& self.devices.contains_key(address)
    }
}

/// Step `k` of a run leads from `states[k]` to `states[k + 1]`.
pub open spec fn step_taken(
    states: Seq<ControllerState>,
    occurrences: Seq<Occurrence>,
    k: int,
) -> bool {
    states[k].permits(occurrences[k]) && states[k].performed(occurrences[k], states[k + 1])
}

/// `states` is a run of the controller through `occurrences`: it starts in
/// `states[0]`, and each occurrence leads from one state to the next.
pub open spec fn is_run(states: Seq<ControllerState>, occurrences: Seq<Occurrence>) -> bool {
    &&& states.len() == occurrences.len() + 1
    &&& forall|k: int| 0 <= k < occurrences.len() ==> #[trigger] step_taken(states, occurrences, k)
}

/// How many of the first `n` steps of a run ran a discovery round.
pub open spec fn discoveries(
    states: Seq<ControllerState>,
    occurrences: Seq<Occurrence>,
    n: nat,
) -> nat
    decreases n,
{
    if n == 0 {
        0
    } else {
        discoveries(states, occurrences, (n - 1) as nat) + if states[n - 1].discovers(
            occurrences[n - 1],
        ) {
            1nat
        } else {
            0nat
        }
    }
}

/// The discovery count after `n` steps of a run is the count at its start
/// plus the number of firings of the discovery timer (and of rounds run
/// directly) among those steps, whatever else happened in between. Reading
/// the counters is one of the things that change nothing.
pub proof fn lemma_discovery_count_follows_ticks(
    states: Seq<ControllerState>,
    occurrences: Seq<Occurrence>,
    n: nat,
)
    requires
        is_run(states, occurrences),
        n <= occurrences.len(),
    ensures
        states[n as int].stats.discovery_count == states[0].stats.discovery_count + discoveries(
            states,
            occurrences,
            n,
        ),
        states[n as int].config == states[0].config,
    decreases n,
{
    if n > 0 {
        lemma_discovery_count_follows_ticks(states, occurrences, (n - 1) as nat);
        assert(step_taken(states, occurrences, n - 1));
    }
}

/// Reading the counters changes nothing, and answers with the counters as
/// they are.
pub proof fn lemma_reading_stats_changes_nothing(
    state: ControllerState,
    now: i64,
    after: ControllerState,
)
    requires
        state.moved(ControllerEvent::Message(ControllerMessageType::GetStats), now, after),
    ensures
        after == state,
        state.step_of(ControllerEvent::Message(ControllerMessageType::GetStats), now)
            == ControllerStep::Reply(ControllerResponse::GetStats(state.stats, state.bus.stats)),
{
}

/// A frame for an address that no device has changes nothing in the
/// controller.
pub proof fn lemma_unknown_frame_has_no_effect(
    state: ControllerState,
    frame: CanFrame,
    now: i64,
    after: ControllerState,
)
    requires
        !state.devices.contains_key(frame.id),
        state.moved(ControllerEvent::Frame(frame), now, after),
    ensures
        after == state,
{
}

/// A device is stamped exactly when a frame is dispatched to it: that
/// activity sets its stamp to the time it took place at, and every other
/// activity leaves the stamp as it was. No activity adds, removes or
/// renames a device.
pub proof fn lemma_last_seen_follows_frames(
    state: ControllerState,
    occurrence: Occurrence,
    after: ControllerState,
    address: u32,
)
    requires
        state.devices.contains_key(address),
        state.performed(occurrence, after),
    ensures
        after.devices.dom() == state.devices.dom(),
        after.devices[address].id == state.devices[address].id,
        after.devices[address].last_seen == if state.reaches(occurrence, address) {
            Some(occurrence.at)
        } else {
            state.devices[address].last_seen
        },
{
    match occurrence.activity {
        Activity::Event(ControllerEvent::Frame(frame)) => {
            lemma_frame_stamps_its_device(state.devices, frame, occurrence.at, address);
        },
        Activity::Event(
            ControllerEvent::Message(ControllerMessageType::QueryDevice(target, action)),
        ) => {
            lemma_action_is_isolated(state.devices, target, action, address);
        },
        _ => {},
    }
}

/// Dispatching an action to an address touches no device but the one at
/// that address, and nothing of the controller but that device and the
/// bus.
pub proof fn lemma_action_touches_one_device(
    state: ControllerState,
    address: u32,
    action: DeviceNodeAction,
    after: ControllerState,
    other: u32,
)
    requires
        state.dispatched(address, action, after),
        state.devices.contains_key(other),
        other != address,
    ensures
        after.devices.contains_key(other),
        after.devices[other] == state.devices[other],
        after.devices == action_dispatched(state.devices, address, action),
        after.stats == state.stats,
        after.config == state.config,
{
    lemma_action_is_isolated(state.devices, address, action, other);
}

} // verus!
