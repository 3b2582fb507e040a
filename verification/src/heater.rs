//! The heating node.

use crate::can::CanFrame;
use crate::controller::ControllerAPI;
use crate::device::{DeviceActionTrait, DeviceControllableTrait, DeviceError, DeviceTrait};
use vstd::prelude::*;

verus! {

/// Address of the node that drives the heating elements.
pub const POWER_NODE: u32 = 1;

/// Output level of one side of the heater.
#[derive(Debug, Clone, Copy, PartialEq, Eq)]
pub enum HeaterState {
    Off,
    Comfort,
    Eco,
    AntiFreeze,
}

/// A heater: whether it is enabled, and the output level of each side.
#[derive(Debug, Clone, Copy, PartialEq, Eq)]
pub struct HeaterNode {
    pub active: bool,
    pub left: HeaterState,
    pub right: HeaterState,
}

impl Default for HeaterNode {
    fn default() -> (node: HeaterNode)
        ensures
            node == (HeaterNode { active: false, left: HeaterState::Off, right: HeaterState::Off }),
    {
        HeaterNode { active: false, left: HeaterState::Off, right: HeaterState::Off }
    }
}

impl HeaterNode {
    /// The heater after `action`.
    pub open spec fn after_action(self, action: HeaterAction) -> HeaterNode {
        match action {
            HeaterAction::SetActive(active) => HeaterNode {
                active,
                left: self.left,
                right: self.right,
            },
            HeaterAction::HeaterPower(left, right) => HeaterNode {
                active: self.active,
                left,
                right,
            },
        }
    }
}

impl DeviceTrait for HeaterNode {
    open spec fn accepts(&self, frame: &CanFrame) -> bool {
        true
    }

    open spec fn reacted(&self, frame: &CanFrame, after: &Self, result: Result<(), DeviceError>) -> bool {
        *after == *self && result == Ok::<(), DeviceError>(())
    }

    fn handle_frame(&mut self, frame: &CanFrame) -> (result: Result<(), DeviceError>) {
        Ok(())
    }
}

/// What a heater can be told to do.
#[derive(Debug, Clone, Copy, PartialEq, Eq)]
pub enum HeaterAction {
    /// Enables or disables the heater.
    SetActive(bool),
    /// Sets the output level of the left and of the right side.
    HeaterPower(HeaterState, HeaterState),
}

impl DeviceActionTrait for HeaterAction {

}

impl<A: ControllerAPI> DeviceControllableTrait<A> for HeaterNode {
    type Action = HeaterAction;

    open spec fn can_act(&self, api: &A, action: &HeaterAction) -> bool {
        *action is HeaterPower ==> api.can_query(POWER_NODE, Some(0u32))
    }

    open spec fn acted(
        &self,
        api: &A,
        action: &HeaterAction,
        after: &Self,
        api_after: &A,
        result: Result<(), DeviceError>,
    ) -> bool {
        &&& *after == self.after_action(*action)
        &&& result == Ok::<(), DeviceError>(())
        &&& match *action {
            HeaterAction::SetActive(_) => *api_after == *api,
            HeaterAction::HeaterPower(_, _) => exists|value: u32|
                api.queried(POWER_NODE, Some(0u32), api_after, value),
        }
    }

    fn handle_action(&mut self, api: &mut A, action: &HeaterAction) -> (result: Result<
        (),
        DeviceError,
    >) {
        match action {
            HeaterAction::SetActive(active) => {
                self.active = *active;
            },
            HeaterAction::HeaterPower(left, right) => {
                let _reply: u32 = api.query(POWER_NODE, Some(0));
                self.left = *left;
                self.right = *right;
            },
        }
        Ok(())
    }
}

} // verus!
