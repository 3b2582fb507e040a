//! The device abstraction: what every device kind offers to the controller.

use crate::can::CanFrame;
use crate::clock::now_millis;
use crate::controller::ControllerAPI;
use vstd::prelude::*;

verus! {

/// Why a device or the registry turned an action down.
#[derive(Debug, Clone, Copy, PartialEq, Eq)]
pub enum DeviceError {
    /// The action has no meaning in the device's current state.
    Unsupported,
    /// A query the action depends on was not answered in time.
    BusTimeout,
    /// No device is registered at the address.
    NotFound,
    /// The action belongs to another kind of device.
    TypeMismatch,
}

/// Reaction to frames.
pub trait DeviceTrait: Send + Default {
    /// The device can take `frame` in. Every frame, unless the kind says
    /// otherwise.
    open spec fn accepts(&self, frame: &CanFrame) -> bool {
        true
    }

    /// `after` is this device once it has reacted to `frame` with `result`.
    /// A kind that says nothing of itself promises nothing.
    open spec fn reacted(&self, frame: &CanFrame, after: &Self, result: Result<(), DeviceError>) -> bool {
        true
    }

    /// Reacts to a frame addressed to the device.
    fn handle_frame(&mut self, frame: &CanFrame) -> (result: Result<(), DeviceError>)
        requires
            old(self).accepts(frame),
        ensures
            old(self).reacted(frame, final(self), result),
    ;
}

/// Marks the action set of a device kind.
pub trait DeviceActionTrait: Sync + Send {

}

/// Execution of externally issued actions, with bus traffic going through
/// a capability of type `A`.
pub trait DeviceControllableTrait<A: ControllerAPI>: Send {
    type Action: DeviceActionTrait;

    /// The device can execute `action` with the capability `api`: it can
    /// whenever the capability can take any query, unless the kind says
    /// otherwise.
    open spec fn can_act(&self, api: &A, action: &Self::Action) -> bool {
        forall|id: u32, timeout_ms: Option<u32>| api.can_query(id, timeout_ms)
    }

    /// `after` and `api_after` are this device and the capability once
    /// `action` has been executed with `result`. A kind that says nothing
    /// of itself promises nothing.
    open spec fn acted(
        &self,
        api: &A,
        action: &Self::Action,
        after: &Self,
        api_after: &A,
        result: Result<(), DeviceError>,
    ) -> bool {
        true
    }

    /// Executes `action`; bus traffic goes through `api`.
    fn handle_action(&mut self, api: &mut A, action: &Self::Action) -> (result: Result<
        (),
        DeviceError,
    >)
        requires
            old(self).can_act(old(api), action),
        ensures
            old(self).acted(old(api), action, final(self), final(api), result),
    ;
}

/// A logical node on the bus: an address, the time a frame last reached it
/// (milliseconds since the Unix epoch), and the state of its kind.
#[derive(Debug)]
pub struct Device<D> where D: DeviceTrait {
    pub id: u32,
    pub last_seen: Option<i64>,
    pub specific: D,
}

impl<D> Default for Device<D> where D: DeviceTrait {
    fn default() -> (device: Device<D>)
        ensures
            device.id == 0,
            device.last_seen is None,
    {
        Device { id: 0, last_seen: None, specific: D::default() }
    }
}

impl<D> Device<D> where D: DeviceTrait {
    /// The address of the device.
    pub fn get_id(&self) -> (id: u32)
        ensures
            id == self.id,
    {
        self.id
    }

    /// Notes that a frame reached the device at time `now`, then lets the
    /// kind react to it.
    pub fn handle_frame_at(&mut self, frame: &CanFrame, now: i64) -> (result: Result<
        (),
        DeviceError,
    >)
        requires
            old(self).specific.accepts(frame),
        ensures
            final(self).id == old(self).id,
            final(self).last_seen == Some(now),
            old(self).specific.reacted(frame, &final(self).specific, result),
    {
        self.last_seen = Some(now);
        self.specific.handle_frame(frame)
    }
}

impl<D> DeviceTrait for Device<D> where D: DeviceTrait {
    open spec fn accepts(&self, frame: &CanFrame) -> bool {
        self.specific.accepts(frame)
    }

    open spec fn reacted(&self, frame: &CanFrame, after: &Self, result: Result<(), DeviceError>) -> bool {
        &&& after.id == self.id
        &&& after.last_seen is Some
        &&& self.specific.reacted(frame, &after.specific, result)
    }

    /// Stamps the device with the time the clock shows, then lets the kind
    /// react to the frame.
    fn handle_frame(&mut self, frame: &CanFrame) -> (result: Result<(), DeviceError>) {
        let now: i64 = now_millis();
        self.handle_frame_at(frame, now)
    }
}

/// Actions that any device understands.
#[derive(Debug, Clone, Copy, PartialEq, Eq)]
pub enum DeviceAction {
    Reset,
}

impl DeviceActionTrait for DeviceAction {

}

impl<A, D> DeviceControllableTrait<A> for Device<D> where
    A: ControllerAPI,
    D: DeviceTrait + DeviceControllableTrait<A>,
 {
    type Action = <D as DeviceControllableTrait<A>>::Action;

    open spec fn can_act(&self, api: &A, action: &Self::Action) -> bool {
        self.specific.can_act(api, action)
    }

    open spec fn acted(
        &self,
        api: &A,
        action: &Self::Action,
        after: &Self,
        api_after: &A,
        result: Result<(), DeviceError>,
    ) -> bool {
        &&& after.id == self.id
        &&& after.last_seen == self.last_seen
        &&& self.specific.acted(api, action, &after.specific, api_after, result)
    }

    fn handle_action(&mut self, api: &mut A, action: &Self::Action) -> (result: Result<
        (),
        DeviceError,
    >) {
        self.specific.handle_action(api, action)
    }
}

} // verus!
