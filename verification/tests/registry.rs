use can_controller::alarm::{AlarmAction, AlarmNode};
use can_controller::can::CanFrame;
use can_controller::controller::ControllerAPI;
use can_controller::device::{Device, DeviceError, DeviceTrait};
use can_controller::heater::{HeaterAction, HeaterNode, HeaterState};
use can_controller::registry::{DeviceNode, DeviceNodeAction, DeviceRegistry};

/// A capability that keeps a record of what it was asked.
struct Recorder {
    asked: Vec<(u32, Option<u32>)>,
}

impl Recorder {
    fn new() -> Recorder {
        Recorder { asked: Vec::new() }
    }
}

impl ControllerAPI for Recorder {
    fn query(&mut self, id: u32, timeout_ms: Option<u32>) -> u32 {
        self.asked.push((id, timeout_ms));
        0
    }
}

fn alarm_at(id: u32) -> Device<DeviceNode> {
    Device { id, last_seen: None, specific: DeviceNode::Alarm(AlarmNode::default()) }
}

fn heater_at(id: u32) -> Device<DeviceNode> {
    Device { id, last_seen: None, specific: DeviceNode::Heater(HeaterNode::default()) }
}

fn frame(id: u32, head: u8) -> CanFrame {
    CanFrame { id, data: [head, 0, 0, 0, 0, 0, 0, 0] }
}

fn house() -> DeviceRegistry {
    let mut registry = DeviceRegistry::new();
    assert!(registry.register(alarm_at(0x123)));
    assert!(registry.register(heater_at(0x200)));
    assert!(registry.register(alarm_at(0x124)));
    registry
}

fn node(registry: &DeviceRegistry, id: u32) -> DeviceNode {
    registry.get(id).unwrap().specific
}

fn stamp(registry: &DeviceRegistry, id: u32) -> Option<i64> {
    registry.get(id).unwrap().last_seen
}

#[test]
fn a_new_registry_is_empty() {
    let registry = DeviceRegistry::new();
    assert!(!registry.contains(0));
    assert!(!registry.contains(0x123));
    assert!(registry.get(0x123).is_none());
}

#[test]
fn register_adds_a_device_under_its_address() {
    let mut registry = DeviceRegistry::new();
    assert!(registry.register(alarm_at(0x123)));
    assert!(registry.contains(0x123));
    assert!(!registry.contains(0x124));
    let device = registry.get(0x123).unwrap();
    assert_eq!(device.id, 0x123);
    assert_eq!(device.last_seen, None);
    assert_eq!(device.specific, DeviceNode::Alarm(AlarmNode::default()));
}

#[test]
fn register_refuses_an_address_that_is_taken() {
    let mut registry = DeviceRegistry::new();
    assert!(registry.register(alarm_at(0x123)));
    assert!(!registry.register(heater_at(0x123)));
    assert_eq!(node(&registry, 0x123), DeviceNode::Alarm(AlarmNode::default()));
}

#[test]
fn the_registry_holds_devices_of_several_kinds() {
    let registry = house();
    assert_eq!(node(&registry, 0x123), DeviceNode::Alarm(AlarmNode::default()));
    assert_eq!(node(&registry, 0x200), DeviceNode::Heater(HeaterNode::default()));
    assert_eq!(node(&registry, 0x124), DeviceNode::Alarm(AlarmNode::default()));
}

#[test]
fn a_frame_reaches_the_device_at_its_address() {
    let mut registry = house();
    let f = frame(0x124, 0x01);
    assert!(registry.accepts(&f));
    registry.dispatch_frame_at(&f, 500);
    assert_eq!(
        node(&registry, 0x124),
        DeviceNode::Alarm(AlarmNode { active: false, triggered_count: 1 })
    );
    assert_eq!(stamp(&registry, 0x124), Some(500));
}

#[test]
fn a_frame_for_an_unknown_address_changes_no_device() {
    let mut registry = house();
    registry.dispatch_frame_at(&frame(0x200, 0x01), 100);
    let f = frame(0x999, 0x01);
    assert!(registry.accepts(&f));
    registry.dispatch_frame_at(&f, 900);
    assert!(!registry.contains(0x999));
    assert_eq!(node(&registry, 0x123), DeviceNode::Alarm(AlarmNode::default()));
    assert_eq!(stamp(&registry, 0x123), None);
    assert_eq!(node(&registry, 0x124), DeviceNode::Alarm(AlarmNode::default()));
    assert_eq!(stamp(&registry, 0x124), None);
    assert_eq!(node(&registry, 0x200), DeviceNode::Heater(HeaterNode::default()));
    assert_eq!(stamp(&registry, 0x200), Some(100));
}

#[test]
fn only_the_device_that_got_the_frame_is_stamped() {
    let mut registry = house();
    registry.dispatch_frame_at(&frame(0x123, 0x00), 10);
    assert_eq!(stamp(&registry, 0x123), Some(10));
    assert_eq!(stamp(&registry, 0x124), None);
    assert_eq!(stamp(&registry, 0x200), None);
    registry.dispatch_frame_at(&frame(0x200, 0x00), 20);
    assert_eq!(stamp(&registry, 0x123), Some(10));
    assert_eq!(stamp(&registry, 0x200), Some(20));
    registry.dispatch_frame_at(&frame(0x123, 0x00), 30);
    assert_eq!(stamp(&registry, 0x123), Some(30));
    assert_eq!(stamp(&registry, 0x200), Some(20));
    assert_eq!(stamp(&registry, 0x124), None);
}

#[test]
fn a_frame_is_stamped_from_the_clock() {
    let mut registry = house();
    registry.dispatch_frame(&frame(0x123, 0x01));
    // 2020-01-01T00:00:00Z in milliseconds.
    assert!(stamp(&registry, 0x123).unwrap() > 1_577_836_800_000);
    assert_eq!(stamp(&registry, 0x124), None);
}

#[test]
fn a_full_alarm_counter_refuses_flagged_frames_only() {
    let mut registry = DeviceRegistry::new();
    let full = Device {
        id: 1,
        last_seen: None,
        specific: DeviceNode::Alarm(AlarmNode { active: false, triggered_count: u32::MAX }),
    };
    assert!(registry.register(full));
    assert!(!registry.accepts(&frame(1, 0x01)));
    assert!(registry.accepts(&frame(1, 0x02)));
    assert!(registry.accepts(&frame(2, 0x01)));
}

#[test]
fn an_action_reaches_the_device_at_its_address() {
    let mut registry = house();
    let mut bus = Recorder::new();
    let arm = DeviceNodeAction::Alarm(AlarmAction::SetActive(true));
    assert!(!registry.queries(0x123, &arm));
    assert_eq!(registry.dispatch_action(&mut bus, 0x123, &arm), Ok(()));
    assert_eq!(
        node(&registry, 0x123),
        DeviceNode::Alarm(AlarmNode { active: true, triggered_count: 0 })
    );
    assert!(bus.asked.is_empty());
}

#[test]
fn an_action_changes_no_other_device() {
    let mut registry = house();
    let mut bus = Recorder::new();
    registry.dispatch_frame_at(&frame(0x124, 0x01), 40);
    let heat = DeviceNodeAction::Heater(HeaterAction::HeaterPower(
        HeaterState::Eco,
        HeaterState::Comfort,
    ));
    assert!(registry.queries(0x200, &heat));
    assert_eq!(registry.dispatch_action(&mut bus, 0x200, &heat), Ok(()));
    assert_eq!(
        node(&registry, 0x200),
        DeviceNode::Heater(HeaterNode {
            active: false,
            left: HeaterState::Eco,
            right: HeaterState::Comfort
        })
    );
    assert_eq!(stamp(&registry, 0x200), None);
    assert_eq!(node(&registry, 0x123), DeviceNode::Alarm(AlarmNode::default()));
    assert_eq!(stamp(&registry, 0x123), None);
    assert_eq!(
        node(&registry, 0x124),
        DeviceNode::Alarm(AlarmNode { active: false, triggered_count: 1 })
    );
    assert_eq!(stamp(&registry, 0x124), Some(40));
    // The action asked the bus once, with no time to wait.
    assert_eq!(bus.asked, vec![(1, Some(0))]);
}

#[test]
fn an_action_for_an_unknown_address_is_not_found() {
    let mut registry = house();
    let mut bus = Recorder::new();
    let lights = DeviceNodeAction::Alarm(AlarmAction::PowerLights(true, true));
    assert!(!registry.queries(0x999, &lights));
    assert_eq!(registry.dispatch_action(&mut bus, 0x999, &lights), Err(DeviceError::NotFound));
    assert!(bus.asked.is_empty());
    assert_eq!(node(&registry, 0x123), DeviceNode::Alarm(AlarmNode::default()));
}

#[test]
fn an_action_of_another_kind_is_a_type_mismatch() {
    let mut registry = house();
    let mut bus = Recorder::new();
    let lights = DeviceNodeAction::Alarm(AlarmAction::PowerLights(true, true));
    assert!(!registry.queries(0x200, &lights));
    assert_eq!(registry.dispatch_action(&mut bus, 0x200, &lights), Err(DeviceError::TypeMismatch));
    let enable = DeviceNodeAction::Heater(HeaterAction::SetActive(true));
    assert_eq!(registry.dispatch_action(&mut bus, 0x123, &enable), Err(DeviceError::TypeMismatch));
    assert!(bus.asked.is_empty());
    assert_eq!(node(&registry, 0x200), DeviceNode::Heater(HeaterNode::default()));
    assert_eq!(node(&registry, 0x123), DeviceNode::Alarm(AlarmNode::default()));
}

#[test]
fn a_node_of_either_kind_reacts_to_frames() {
    let mut alarm = DeviceNode::Alarm(AlarmNode::default());
    assert_eq!(alarm.handle_frame(&frame(1, 0x01)), Ok(()));
    assert_eq!(alarm, DeviceNode::Alarm(AlarmNode { active: false, triggered_count: 1 }));
    let mut heater = DeviceNode::Heater(HeaterNode::default());
    assert_eq!(heater.handle_frame(&frame(1, 0x01)), Ok(()));
    assert_eq!(heater, DeviceNode::Heater(HeaterNode::default()));
}

#[test]
fn the_default_node_is_an_alarm() {
    assert_eq!(DeviceNode::default(), DeviceNode::Alarm(AlarmNode::default()));
}
