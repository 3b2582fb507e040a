//! The binary alarm node.

use crate::can::CanFrame;
use crate::controller::ControllerAPI;
use crate::device::{DeviceActionTrait, DeviceControllableTrait, DeviceError, DeviceTrait};
use vstd::prelude::*;

verus! {

/// Address of the node that switches the lights.
pub const LIGHTS_NODE: u32 = 1;

/// An alarm: whether it is armed, and how often it was triggered.
#[derive(Debug, Clone, Copy, PartialEq, Eq)]
pub struct AlarmNode {
    pub active: bool,
    pub triggered_count: u32,
}

impl Default for AlarmNode {
    fn default() -> (node: AlarmNode)
        ensures
            node == (AlarmNode { active: false, triggered_count: 0 }),
    {
        AlarmNode { active: false, triggered_count: 0 }
    }
}

/// The frame reports a trigger: the lowest bit of its first payload byte is
/// set.
pub open spec fn reports_trigger(frame: CanFrame) -> bool {
    frame.head() % 2 == 1
}

/// Whether `frame` reports a trigger.
pub fn is_trigger(frame: &CanFrame) -> (yes: bool)
    ensures
        yes == reports_trigger(*frame),
{
    let head: u8 = frame.data[0];
    assert((head & 0x01 != 0) == (head % 2 == 1)) by (bit_vector);
    head & 0x01 != 0
}

impl AlarmNode {
    /// Whether the alarm can take `frame` in: a trigger needs room in the
    /// counter.
    pub fn has_room_for(&self, frame: &CanFrame) -> (ok: bool)
        ensures
            ok == self.accepts(frame),
    {
        !is_trigger(frame) || self.triggered_count < u32::MAX
    }

    /// The alarm after `frame`: a reported trigger is counted.
    pub open spec fn after_frame(self, frame: CanFrame) -> AlarmNode {
        if reports_trigger(frame) {
            AlarmNode { active: self.active, triggered_count: (self.triggered_count + 1) as u32 }
        } else {
            self
        }
    }

    /// The alarm after `action`: arming and disarming change it, switching
    /// the lights does not.
    pub open spec fn after_action(self, action: AlarmAction) -> AlarmNode {
        match action {
            AlarmAction::SetActive(active) => AlarmNode {
                active,
                triggered_count: self.triggered_count,
            },
            AlarmAction::PowerLights(_, _) => self,
        }
    }
}

impl DeviceTrait for AlarmNode {
    open spec fn accepts(&self, frame: &CanFrame) -> bool {
        reports_trigger(*frame) ==> self.triggered_count < u32::MAX
    }

    open spec fn reacted(&self, frame: &CanFrame, after: &Self, result: Result<(), DeviceError>) -> bool {
        *after == self.after_frame(*frame) && result == Ok::<(), DeviceError>(())
    }

    fn handle_frame(&mut self, frame: &CanFrame) -> (result: Result<(), DeviceError>) {
        if is_trigger(frame) {
            self.triggered_count += 1;
        }
        Ok(())
    }
}

/// What an alarm can be told to do.
#[derive(Debug, Clone, Copy, PartialEq, Eq)]
pub enum AlarmAction {
    /// Arms or disarms the alarm.
    SetActive(bool),
    /// Switches the front and the rear lights.
    PowerLights(bool, bool),
}

impl DeviceActionTrait for AlarmAction {

}

impl<A: ControllerAPI> DeviceControllableTrait<A> for AlarmNode {
    type Action = AlarmAction;

    open spec fn can_act(&self, api: &A, action: &AlarmAction) -> bool {
        *action is PowerLights ==> api.can_query(LIGHTS_NODE, Some(0u32))
    }

    open spec fn acted(
        &self,
        api: &A,
        action: &AlarmAction,
        after: &Self,
        api_after: &A,
        result: Result<(), DeviceError>,
    ) -> bool {
        &&& *after == self.after_action(*action)
        &&& result == Ok::<(), DeviceError>(())
        &&& match *action {
            AlarmAction::SetActive(_) => *api_after == *api,
            AlarmAction::PowerLights(_, _) => exists|value: u32|
                api.queried(LIGHTS_NODE, Some(0u32), api_after, value),
        }
    }

    fn handle_action(&mut self, api: &mut A, action: &AlarmAction) -> (result:
        Result<(), DeviceError>) {
        match action {
            AlarmAction::SetActive(active) => {
                self.active = *active;
            },
            AlarmAction::PowerLights(_, _) => {
                let _reply: u32 = api.query(LIGHTS_NODE, Some(0));
            },
        }
        Ok(())
    }
}

} // verus!
