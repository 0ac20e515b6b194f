use vk_bootstrap::context::{ApplicationContext, TeardownStep};
use vk_bootstrap::device::PhysicalDeviceCandidate;
use vk_bootstrap::handles::{
    DebugMessengerHandle, InstanceHandle, LogicalDeviceHandle, PhysicalDeviceHandle, QueueHandle,
    SurfaceHandle,
};
use vk_bootstrap::messenger::DebugMessenger;

fn candidate() -> PhysicalDeviceCandidate {
    PhysicalDeviceCandidate { device_index: 0, device: PhysicalDeviceHandle(20), family: 0 }
}

fn context(messenger: Option<u64>) -> ApplicationContext {
    ApplicationContext::assemble(
        messenger.is_some(),
        InstanceHandle(1),
        messenger.map(DebugMessengerHandle),
        candidate(),
        LogicalDeviceHandle(3),
        QueueHandle(4),
        SurfaceHandle(5),
    )
    .unwrap()
}

fn position(plan: &[TeardownStep], wanted: fn(&TeardownStep) -> bool) -> Option<usize> {
    plan.iter().position(wanted)
}

#[test]
fn teardown_with_a_messenger() {
    let mut context = context(Some(2));
    assert_eq!(
        context.destroy(),
        vec![
            TeardownStep::DestroyMessenger(DebugMessengerHandle(2)),
            TeardownStep::DestroyDevice(LogicalDeviceHandle(3)),
            TeardownStep::DestroySurface(SurfaceHandle(5)),
            TeardownStep::DestroyInstance(InstanceHandle(1)),
        ]
    );
}

#[test]
fn teardown_without_a_messenger() {
    let mut context = context(None);
    assert_eq!(
        context.destroy(),
        vec![
            TeardownStep::DestroyDevice(LogicalDeviceHandle(3)),
            TeardownStep::DestroySurface(SurfaceHandle(5)),
            TeardownStep::DestroyInstance(InstanceHandle(1)),
        ]
    );
}

#[test]
fn teardown_ordering() {
    for messenger in [None, Some(2)] {
        let mut context = context(messenger);
        let plan = context.destroy();
        let at_messenger =
            position(&plan, |step| matches!(step, TeardownStep::DestroyMessenger(_)));
        let at_device =
            position(&plan, |step| matches!(step, TeardownStep::DestroyDevice(_))).unwrap();
        let at_surface =
            position(&plan, |step| matches!(step, TeardownStep::DestroySurface(_))).unwrap();
        let at_instance =
            position(&plan, |step| matches!(step, TeardownStep::DestroyInstance(_))).unwrap();
        assert_eq!(at_messenger.is_some(), messenger.is_some());
        if let Some(at_messenger) = at_messenger {
            assert!(at_messenger < at_device);
        }
        assert!(at_device < at_instance);
        assert!(at_surface < at_instance);
        assert_eq!(at_instance, plan.len() - 1);
    }
}

#[test]
fn teardown_happens_once() {
    let mut context = context(Some(2));
    assert!(context.parts().live);
    let first = context.try_destroy();
    assert_eq!(first.map(|plan| plan.len()), Some(4));
    assert!(!context.parts().live);
    let after_first = context.parts();
    assert_eq!(context.try_destroy(), None);
    assert_eq!(context.parts(), after_first);
    assert_eq!(context.try_destroy(), None);
}

#[test]
fn teardown_marks_the_messenger_destroyed() {
    let mut context = context(Some(2));
    assert_eq!(context.parts().messenger, DebugMessenger::Created(DebugMessengerHandle(2)));
    context.destroy();
    let parts = context.parts();
    assert_eq!(parts.messenger, DebugMessenger::Destroyed);
    assert!(!parts.live);
    assert!(parts.validation);
    assert_eq!(parts.instance, InstanceHandle(1));
    assert_eq!(parts.device, LogicalDeviceHandle(3));
    assert_eq!(parts.queue, QueueHandle(4));
    assert_eq!(parts.surface, SurfaceHandle(5));
    assert_eq!(parts.candidate, candidate());
}

#[test]
fn teardown_leaves_a_disabled_messenger_disabled() {
    let mut context = context(None);
    assert_eq!(context.parts().messenger, DebugMessenger::Disabled);
    assert!(!context.parts().validation);
    context.destroy();
    assert_eq!(context.parts().messenger, DebugMessenger::Disabled);
    assert!(!context.parts().live);
}

#[test]
fn a_context_needs_every_handle() {
    let build = |instance: u64, device: u64, queue: u64, surface: u64| {
        ApplicationContext::assemble(
            false,
            InstanceHandle(instance),
            None,
            candidate(),
            LogicalDeviceHandle(device),
            QueueHandle(queue),
            SurfaceHandle(surface),
        )
        .is_some()
    };
    assert!(build(1, 2, 3, 4));
    assert!(!build(0, 2, 3, 4));
    assert!(!build(1, 0, 3, 4));
    assert!(!build(1, 2, 0, 4));
    assert!(!build(1, 2, 3, 0));
}

#[test]
fn a_context_has_a_messenger_exactly_with_validation() {
    let build = |validation: bool, messenger: Option<u64>| {
        ApplicationContext::assemble(
            validation,
            InstanceHandle(1),
            messenger.map(DebugMessengerHandle),
            candidate(),
            LogicalDeviceHandle(3),
            QueueHandle(4),
            SurfaceHandle(5),
        )
        .is_some()
    };
    assert!(build(true, Some(2)));
    assert!(build(false, None));
    assert!(!build(true, None));
    assert!(!build(false, Some(2)));
    assert!(!build(true, Some(0)));
}
