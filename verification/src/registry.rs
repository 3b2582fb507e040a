//! The closed set of device kinds and the registry that routes frames and
//! actions to devices by address.

use crate::alarm::{AlarmAction, AlarmNode, LIGHTS_NODE};
use crate::can::CanFrame;
use crate::clock::now_millis;
use crate::controller::ControllerAPI;
use crate::device::{Device, DeviceActionTrait, DeviceControllableTrait, DeviceError, DeviceTrait};
use crate::heater::{HeaterAction, HeaterNode, POWER_NODE};
use vstd::prelude::*;

verus! {

/// A device of one of the kinds the controller knows.
#[derive(Debug, Clone, Copy, PartialEq, Eq)]
pub enum DeviceNode {
    Alarm(AlarmNode),
    Heater(HeaterNode),
}

/// An action for a device of one of the kinds the controller knows.
#[derive(Debug, Clone, Copy, PartialEq, Eq)]
pub enum DeviceNodeAction {
    Alarm(AlarmAction),
    Heater(HeaterAction),
}

impl DeviceActionTrait for DeviceNodeAction {

}

impl Default for DeviceNode {
    fn default() -> (node: DeviceNode)
        ensures
            node == DeviceNode::Alarm(AlarmNode { active: false, triggered_count: 0 }),
    {
        DeviceNode::Alarm(AlarmNode::default())
    }
}

impl DeviceNode {
    /// `action` belongs to the kind of this device.
    pub open spec fn understands(self, action: DeviceNodeAction) -> bool {
        match (self, action) {
            (DeviceNode::Alarm(_), DeviceNodeAction::Alarm(_)) => true,
            (DeviceNode::Heater(_), DeviceNodeAction::Heater(_)) => true,
            _ => false,
        }
    }

    /// Whether the device can take `frame` in.
    pub fn has_room_for(&self, frame: &CanFrame) -> (ok: bool)
        ensures
            ok == self.accepts(frame),
    {
        match self {
            DeviceNode::Alarm(node) => node.has_room_for(frame),
            DeviceNode::Heater(_) => true,
        }
    }

    /// The device after `frame`.
    pub open spec fn after_frame(self, frame: CanFrame) -> DeviceNode {
        match self {
            DeviceNode::Alarm(node) => DeviceNode::Alarm(node.after_frame(frame)),
            DeviceNode::Heater(node) => DeviceNode::Heater(node),
        }
    }

    /// The device after `action`: an action of another kind leaves it as it
    /// is.
    pub open spec fn after_action(self, action: DeviceNodeAction) -> DeviceNode {
        match (self, action) {
            (DeviceNode::Alarm(node), DeviceNodeAction::Alarm(a)) => DeviceNode::Alarm(
                node.after_action(a),
            ),
            (DeviceNode::Heater(node), DeviceNodeAction::Heater(a)) => DeviceNode::Heater(
                node.after_action(a),
            ),
            _ => self,
        }
    }

    /// The node that executing `action` sends a query to, if it sends one.
    pub open spec fn query_target(self, action: DeviceNodeAction) -> Option<u32> {
        match (self, action) {
            (DeviceNode::Alarm(_), DeviceNodeAction::Alarm(AlarmAction::PowerLights(_, _))) => Some(
                LIGHTS_NODE,
            ),
            (DeviceNode::Heater(_), DeviceNodeAction::Heater(HeaterAction::HeaterPower(_, _))) => Some(
                POWER_NODE,
            ),
            _ => None,
        }
    }

    /// Executing `action` sends a query over the bus.
    pub open spec fn queries(self, action: DeviceNodeAction) -> bool {
        self.query_target(action) is Some
    }

    /// What executing `action` reports.
    pub open spec fn action_result(self, action: DeviceNodeAction) -> Result<(), DeviceError> {
        if self.understands(action) {
            Ok(())
        } else {
            Err(DeviceError::TypeMismatch)
        }
    }
}

impl DeviceTrait for DeviceNode {
    open spec fn accepts(&self, frame: &CanFrame) -> bool {
        match *self {
            DeviceNode::Alarm(node) => node.accepts(frame),
            DeviceNode::Heater(node) => node.accepts(frame),
        }
    }

    open spec fn reacted(&self, frame: &CanFrame, after: &Self, result: Result<(), DeviceError>) -> bool {
        *after == self.after_frame(*frame) && result == Ok::<(), DeviceError>(())
    }

    fn handle_frame(&mut self, frame: &CanFrame) -> (result: Result<(), DeviceError>) {
        match self {
            DeviceNode::Alarm(node) => node.handle_frame(frame),
            DeviceNode::Heater(node) => node.handle_frame(frame),
        }
    }
}

impl<A: ControllerAPI> DeviceControllableTrait<A> for DeviceNode {
    type Action = DeviceNodeAction;

    open spec fn can_act(&self, api: &A, action: &DeviceNodeAction) -> bool {
        match (*self, *action) {
            (DeviceNode::Alarm(node), DeviceNodeAction::Alarm(a)) => node.can_act(api, &a),
            (DeviceNode::Heater(node), DeviceNodeAction::Heater(a)) => node.can_act(api, &a),
            _ => true,
        }
    }

    open spec fn acted(
        &self,
        api: &A,
        action: &DeviceNodeAction,
        after: &Self,
        api_after: &A,
        result: Result<(), DeviceError>,
    ) -> bool {
        &&& *after == self.after_action(*action)
        &&& result == self.action_result(*action)
        &&& match (*self, *action) {
            (DeviceNode::Alarm(node), DeviceNodeAction::Alarm(a)) => node.acted(
                api,
                &a,
                &node.after_action(a),
                api_after,
                result,
            ),
            (DeviceNode::Heater(node), DeviceNodeAction::Heater(a)) => node.acted(
                api,
                &a,
                &node.after_action(a),
                api_after,
                result,
            ),
            _ => *api_after == *api,
        }
    }

    /// Executes an action of the device's own kind; turns down any other
    /// with `TypeMismatch` before it touches the device or the bus.
    fn handle_action(&mut self, api: &mut A, action: &DeviceNodeAction) -> (result: Result<
        (),
        DeviceError,
    >) {
        match (self, action) {
            (DeviceNode::Alarm(node), DeviceNodeAction::Alarm(a)) => node.handle_action(api, a),
            (DeviceNode::Heater(node), DeviceNodeAction::Heater(a)) => node.handle_action(api, a),
            _ => Err(DeviceError::TypeMismatch),
        }
    }
}

/// `i` is the first place of `devices` that holds a device with `address`.
pub open spec fn first_at(devices: Seq<Device<DeviceNode>>, address: u32, i: int) -> bool {
    &&& 0 <= i < devices.len()
    &&& devices[i].id == address
    &&& forall|j: int| 0 <= j < i ==> devices[j].id != address
}

/// Two sequences that agree on the address held at every place agree on
/// where each address is first held.
proof fn lemma_same_places(before: Seq<Device<DeviceNode>>, after: Seq<Device<DeviceNode>>)
    requires
        after.len() == before.len(),
        forall|j: int| 0 <= j < before.len() ==> after[j].id == before[j].id,
    ensures
        forall|address: u32, i: int|
            first_at(after, address, i) <==> first_at(before, address, i),
{
    assert forall|address: u32, i: int| first_at(after, address, i) <==> first_at(
        before,
        address,
        i,
    ) by {
        if 0 <= i < before.len() {
            assert(after[i].id == before[i].id);
            assert forall|j: int| 0 <= j < i implies after[j].id == before[j].id by {}
        }
    }
}

/// The devices of `devices`, each under its address; the first one where
/// several share an address.
pub open spec fn by_address(devices: Seq<Device<DeviceNode>>) -> Map<u32, Device<DeviceNode>> {
    Map::new(
        |address: u32| exists|i: int| first_at(devices, address, i),
        |address: u32| devices[choose|i: int| first_at(devices, address, i)],
    )
}

impl Device<DeviceNode> {
    /// The device after `frame` reached it at time `now`.
    pub open spec fn after_frame_at(self, frame: CanFrame, now: i64) -> Device<DeviceNode> {
        Device { id: self.id, last_seen: Some(now), specific: self.specific.after_frame(frame) }
    }

    /// The device after `action`.
    pub open spec fn after_action(self, action: DeviceNodeAction) -> Device<DeviceNode> {
        Device {
            id: self.id,
            last_seen: self.last_seen,
            specific: self.specific.after_action(action),
        }
    }
}

/// The registry after `frame` was dispatched at time `now`: the device at
/// the frame's address has reacted, and a frame for an unknown address
/// changes nothing.
pub open spec fn frame_dispatched(
    devices: Map<u32, Device<DeviceNode>>,
    frame: CanFrame,
    now: i64,
) -> Map<u32, Device<DeviceNode>> {
    if devices.contains_key(frame.id) {
        devices.insert(frame.id, devices[frame.id].after_frame_at(frame, now))
    } else {
        devices
    }
}

/// The device that `frame` is addressed to, if there is one, can take it in.
pub open spec fn frame_accepted(devices: Map<u32, Device<DeviceNode>>, frame: CanFrame) -> bool {
    devices.contains_key(frame.id) ==> devices[frame.id].specific.accepts(&frame)
}

/// The registry after `action` was dispatched to `address`.
pub open spec fn action_dispatched(
    devices: Map<u32, Device<DeviceNode>>,
    address: u32,
    action: DeviceNodeAction,
) -> Map<u32, Device<DeviceNode>> {
    if devices.contains_key(address) {
        devices.insert(address, devices[address].after_action(action))
    } else {
        devices
    }
}

/// What dispatching `action` to `address` reports.
pub open spec fn dispatch_result(
    devices: Map<u32, Device<DeviceNode>>,
    address: u32,
    action: DeviceNodeAction,
) -> Result<(), DeviceError> {
    if devices.contains_key(address) {
        devices[address].specific.action_result(action)
    } else {
        Err(DeviceError::NotFound)
    }
}

/// The node that dispatching `action` to `address` sends a query to, if it
/// sends one. Such a query has timeout 0.
pub open spec fn dispatch_target(
    devices: Map<u32, Device<DeviceNode>>,
    address: u32,
    action: DeviceNodeAction,
) -> Option<u32> {
    if devices.contains_key(address) {
        devices[address].specific.query_target(action)
    } else {
        None
    }
}

/// Dispatching `action` to `address` sends a query over the bus.
pub open spec fn dispatch_queries(
    devices: Map<u32, Device<DeviceNode>>,
    address: u32,
    action: DeviceNodeAction,
) -> bool {
    dispatch_target(devices, address, action) is Some
}

/// `api_after` is the capability `api` once `action` was dispatched to
/// `address` with `result`: the device there, if any, used it as its kind
/// says.
pub open spec fn bus_used<A: ControllerAPI>(
    devices: Map<u32, Device<DeviceNode>>,
    api: A,
    address: u32,
    action: DeviceNodeAction,
    api_after: A,
    result: Result<(), DeviceError>,
) -> bool {
    if devices.contains_key(address) {
        devices[address].specific.acted(
            &api,
            &action,
            &devices[address].specific.after_action(action),
            &api_after,
            result,
        )
    } else {
        api_after == api
    }
}

/// A frame for an address that no device has leaves every device as it was.
pub proof fn lemma_unknown_frame_is_dropped(
    devices: Map<u32, Device<DeviceNode>>,
    frame: CanFrame,
    now: i64,
)
    requires
        !devices.contains_key(frame.id),
    ensures
        frame_dispatched(devices, frame, now) == devices,
{
}

/// Dispatching a frame stamps the device at the frame's address with the
/// time of the dispatch, and no other device: each of the others keeps its
/// stamp, its state and its place.
pub proof fn lemma_frame_stamps_its_device(
    devices: Map<u32, Device<DeviceNode>>,
    frame: CanFrame,
    now: i64,
    address: u32,
)
    requires
        devices.contains_key(address),
    ensures
        frame_dispatched(devices, frame, now).dom() == devices.dom(),
        address == frame.id ==> frame_dispatched(devices, frame, now)[address].last_seen == Some(
            now,
        ),
        address != frame.id ==> frame_dispatched(devices, frame, now)[address] == devices[address],
{
    assert(frame_dispatched(devices, frame, now).dom() =~= devices.dom());
}

/// Dispatching an action changes the device at the action's address and
/// no other, and stamps none: the registry holds the same addresses, every
/// other device is as it was, and the device addressed keeps its address
/// and its stamp.
pub proof fn lemma_action_is_isolated(
    devices: Map<u32, Device<DeviceNode>>,
    address: u32,
    action: DeviceNodeAction,
    other: u32,
)
    requires
        devices.contains_key(other),
    ensures
        action_dispatched(devices, address, action).dom() == devices.dom(),
        other != address ==> action_dispatched(devices, address, action)[other] == devices[other],
        action_dispatched(devices, address, action)[other].id == devices[other].id,
        action_dispatched(devices, address, action)[other].last_seen == devices[other].last_seen,
{
    assert(action_dispatched(devices, address, action).dom() =~= devices.dom());
}

/// An action that is turned down changes nothing: not the device it was
/// meant for, and not the bus.
pub proof fn lemma_refused_action_changes_nothing<A: ControllerAPI>(
    devices: Map<u32, Device<DeviceNode>>,
    api: A,
    address: u32,
    action: DeviceNodeAction,
    api_after: A,
)
    requires
        dispatch_result(devices, address, action) is Err,
        bus_used(
            devices,
            api,
            address,
            action,
            api_after,
            dispatch_result(devices, address, action),
        ),
    ensures
        action_dispatched(devices, address, action) == devices,
        api_after == api,
        dispatch_result(devices, address, action) == if devices.contains_key(address) {
            Err::<(), DeviceError>(DeviceError::TypeMismatch)
        } else {
            Err::<(), DeviceError>(DeviceError::NotFound)
        },
{
    if devices.contains_key(address) {
        assert(devices[address].after_action(action) == devices[address]);
        assert(action_dispatched(devices, address, action) =~= devices);
    }
}

/// The controller's devices, found by address.
#[derive(Debug)]
pub struct DeviceRegistry {
    devices: Vec<Device<DeviceNode>>,
}

impl View for DeviceRegistry {
    type V = Map<u32, Device<DeviceNode>>;

    closed spec fn view(&self) -> Map<u32, Device<DeviceNode>> {
        by_address(self.devices@)
    }
}

impl DeviceRegistry {
    /// A registry without devices.
    pub fn new() -> (registry: DeviceRegistry)
        ensures
            registry@ == Map::<u32, Device<DeviceNode>>::empty(),
    {
        let registry = DeviceRegistry { devices: Vec::new() };
        assert(registry@ =~= Map::<u32, Device<DeviceNode>>::empty());
        registry
    }

    /// Every device is held under its own address.
    pub proof fn lemma_keyed_by_id(&self)
        ensures
            forall|address: u32| #[trigger]
                self@.contains_key(address) ==> self@[address].id == address,
    {
    }

    /// Where the device with `address` is held.
    fn position(&self, address: u32) -> (found: Option<usize>)
        ensures
            match found {
                Some(i) => first_at(self.devices@, address, i as int) && self@.contains_key(
                    address,
                ) && self@[address] == self.devices@[i as int],
                None => !self@.contains_key(address) && forall|j: int|
                    0 <= j < self.devices@.len() ==> self.devices@[j].id != address,
            },
    {
        let mut i: usize = 0;
        while i < self.devices.len()
            invariant
                i <= self.devices@.len(),
                forall|j: int| 0 <= j < i ==> self.devices@[j].id != address,
            decreases self.devices@.len() - i,
        {
            if self.devices[i].id == address {
                assert(first_at(self.devices@, address, i as int));
                return Some(i);
            }
            i += 1;
        }
        None
    }

    /// Whether a device is registered at `address`.
    pub fn contains(&self, address: u32) -> (found: bool)
        ensures
            found == self@.contains_key(address),
    {
        self.position(address).is_some()
    }

    /// The device registered at `address`, if there is one.
    pub fn get(&self, address: u32) -> (device: Option<&Device<DeviceNode>>)
        ensures
            match device {
                Some(d) => self@.contains_key(address) && *d == self@[address],
                None => !self@.contains_key(address),
            },
    {
        match self.position(address) {
            Some(i) => Some(&self.devices[i]),
            None => None,
        }
    }

    /// Adds `device` under its address, unless the address is taken.
    pub fn register(&mut self, device: Device<DeviceNode>) -> (added: bool)
        ensures
            added == !old(self)@.contains_key(device.id),
            final(self)@ == if added {
                old(self)@.insert(device.id, device)
            } else {
                old(self)@
            },
    {
        if self.position(device.id).is_some() {
            return false;
        }
        let ghost before = self.devices@;
        self.devices.push(device);
        proof {
            let after = self.devices@;
            assert forall|a: u32, i: int| first_at(after, a, i) <==> (first_at(before, a, i) || (a
                == device.id && i == before.len())) by {
                if 0 <= i < before.len() {
                    assert(after[i] == before[i]);
                    assert forall|j: int| 0 <= j < i implies after[j] == before[j] by {}
                }
                if i == before.len() {
                    assert forall|j: int| 0 <= j < i implies after[j] == before[j] by {}
                }
            }
            assert(first_at(after, device.id, before.len() as int));
            assert(self@ =~= old(self)@.insert(device.id, device));
        }
        true
    }

    /// Whether the device that `frame` is addressed to, if there is one, can
    /// take it in.
    pub fn accepts(&self, frame: &CanFrame) -> (ok: bool)
        ensures
            ok == frame_accepted(self@, *frame),
    {
        match self.position(frame.id) {
            Some(i) => self.devices[i].specific.has_room_for(frame),
            None => true,
        }
    }

    /// Whether dispatching `action` to `address` sends a query over the bus.
    pub fn queries(&self, address: u32, action: &DeviceNodeAction) -> (yes: bool)
        ensures
            yes == dispatch_queries(self@, address, *action),
    {
        match self.position(address) {
            Some(i) => match (&self.devices[i].specific, action) {
                (DeviceNode::Alarm(_), DeviceNodeAction::Alarm(AlarmAction::PowerLights(_, _))) => true,
                (
                    DeviceNode::Heater(_),
                    DeviceNodeAction::Heater(HeaterAction::HeaterPower(_, _)),
                ) => true,
                _ => false,
            },
            None => false,
        }
    }

    /// Hands `action` to the device at `address`, with `api` as its bus
    /// capability. Fails with `NotFound` when no device is registered there
    /// and with `TypeMismatch` when the action belongs to another kind; in
    /// both cases nothing changes.
    pub fn dispatch_action<A: ControllerAPI>(
        &mut self,
        api: &mut A,
        address: u32,
        action: &DeviceNodeAction,
    ) -> (result: Result<(), DeviceError>)
        requires
            dispatch_target(old(self)@, address, *action) matches Some(target) ==> old(
                api,
            ).can_query(target, Some(0u32)),
        ensures
            result == dispatch_result(old(self)@, address, *action),
            final(self)@ == action_dispatched(old(self)@, address, *action),
            bus_used(old(self)@, *old(api), address, *action, *final(api), result),
    {
        match self.position(address) {
            Some(i) => {
                let ghost before = self.devices@;
                let result = self.devices[i].handle_action(api, action);
                proof {
                    let after = self.devices@;
                    assert(after == before.update(i as int, before[i as int].after_action(*action)));
                    lemma_same_places(before, after);
                    assert(self@ =~= action_dispatched(old(self)@, address, *action));
                }
                result
            },
            None => Err(DeviceError::NotFound),
        }
    }

    /// Routes `frame`, which arrived at time `now`, to the device at its
    /// address. A frame for an unknown address is dropped.
    pub fn dispatch_frame_at(&mut self, frame: &CanFrame, now: i64)
        requires
            frame_accepted(old(self)@, *frame),
        ensures
            final(self)@ == frame_dispatched(old(self)@, *frame, now),
    {
        match self.position(frame.id) {
            Some(i) => {
                let ghost before = self.devices@;
                let _ = self.devices[i].handle_frame_at(frame, now);
                proof {
                    let after = self.devices@;
                    assert(after == before.update(i as int, before[i as int].after_frame_at(*frame, now)));
                    lemma_same_places(before, after);
                    assert(self@ =~= frame_dispatched(old(self)@, *frame, now));
                }
            },
            None => {},
        }
    }

    /// Routes `frame` to the device at its address, at the time the clock
    /// shows.
    pub fn dispatch_frame(&mut self, frame: &CanFrame)
        requires
            frame_accepted(old(self)@, *frame),
        ensures
            exists|now: i64| final(self)@ == frame_dispatched(old(self)@, *frame, now),
    {
        let now: i64 = now_millis();
        self.dispatch_frame_at(frame, now);
    }
}

} // verus!
