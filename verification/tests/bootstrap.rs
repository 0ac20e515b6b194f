use vk_bootstrap::bootstrap::{Action, Bootstrap, Event, Phase, Setup};
use vk_bootstrap::config::{AppMetadata, Platform, ValidationConfig};
use vk_bootstrap::context::TeardownStep;
use vk_bootstrap::device::{
    DeviceDescriptor, PhysicalDevice, PhysicalDeviceCandidate, QueueFamily, QueueRequest,
};
use vk_bootstrap::error::{BootstrapError, Stage};
use vk_bootstrap::handles::{
    DebugMessengerHandle, InstanceHandle, LogicalDeviceHandle, PhysicalDeviceHandle, QueueHandle,
    SurfaceHandle,
};
use vk_bootstrap::instance::InstanceDescriptor;
use vk_bootstrap::messenger::{DebugMessenger, MessengerDescriptor};

fn metadata() -> AppMetadata {
    AppMetadata {
        application_name: "window_title".to_string(),
        engine_name: "Vulkan Engine".to_string(),
        api_version: 1 << 22,
        engine_version: 1 << 22,
        application_version: 1 << 22,
    }
}

fn extensions() -> Vec<String> {
    vec!["VK_KHR_surface".to_string(), "VK_KHR_xlib_surface".to_string()]
}

fn setup(platform: Platform, validation: bool) -> Setup {
    Setup {
        platform,
        surface_extensions: extensions(),
        metadata: metadata(),
        config: ValidationConfig::new(validation),
    }
}

fn one_device() -> Vec<PhysicalDevice> {
    vec![PhysicalDevice {
        handle: PhysicalDeviceHandle(30),
        families: vec![QueueFamily { flags: 0x1 }],
    }]
}

fn layer() -> String {
    "VK_LAYER_KHRONOS_validation".to_string()
}

/// Runs a bootstrap with validation up to the enumeration of the devices.
fn until_devices() -> Bootstrap {
    let (mut machine, _) = Bootstrap::begin(setup(Platform::Linux, true));
    machine.step(Event::Layers(vec![layer()]));
    machine.step(Event::InstanceCreated(InstanceHandle(1)));
    let action = machine.step(Event::MessengerCreated(DebugMessengerHandle(2)));
    assert_eq!(action, Action::EnumerateDevices);
    machine
}

#[test]
fn end_to_end_without_validation() {
    let (mut machine, first) = Bootstrap::begin(setup(Platform::Linux, false));
    assert_eq!(
        first,
        Action::CreateInstance(InstanceDescriptor {
            metadata: metadata(),
            flags: 0,
            extensions: extensions(),
            layers: vec![],
            messenger: None,
        })
    );
    assert_eq!(machine.progress().phase, Phase::AwaitInstance);
    let mut requests = vec![first];
    requests.push(machine.step(Event::InstanceCreated(InstanceHandle(1))));
    requests.push(machine.step(Event::Devices(one_device())));
    requests.push(machine.step(Event::DeviceCreated(LogicalDeviceHandle(3))));
    requests.push(machine.step(Event::QueueRetrieved(QueueHandle(4))));
    requests.push(machine.step(Event::SurfaceBound(SurfaceHandle(5))));
    assert_eq!(
        requests[1..],
        [
            Action::EnumerateDevices,
            Action::CreateDevice(DeviceDescriptor {
                physical_device: PhysicalDeviceHandle(30),
                queue_family: 0,
                queue_count: 1,
                extensions: vec![],
            }),
            Action::GetQueue(QueueRequest { family: 0, index: 0 }),
            Action::BindSurface,
            Action::Finish,
        ]
    );
    assert!(requests.iter().all(|request| !matches!(request, Action::CreateMessenger(_))));
    assert_eq!(machine.progress().phase, Phase::Ready);

    let parts = machine.finish().ok().unwrap().parts();
    assert_ne!(parts.instance, InstanceHandle(0));
    assert_ne!(parts.device, LogicalDeviceHandle(0));
    assert_ne!(parts.queue, QueueHandle(0));
    assert_ne!(parts.surface, SurfaceHandle(0));
    assert_eq!(parts.instance, InstanceHandle(1));
    assert_eq!(parts.device, LogicalDeviceHandle(3));
    assert_eq!(parts.queue, QueueHandle(4));
    assert_eq!(parts.surface, SurfaceHandle(5));
    assert_eq!(
        parts.candidate,
        PhysicalDeviceCandidate { device_index: 0, device: PhysicalDeviceHandle(30), family: 0 }
    );
    assert_eq!(parts.messenger, DebugMessenger::Disabled);
    assert!(!parts.validation);
    assert!(parts.live);
}

#[test]
fn end_to_end_with_validation() {
    let (mut machine, first) = Bootstrap::begin(setup(Platform::Linux, true));
    assert_eq!(first, Action::EnumerateLayers);
    assert_eq!(machine.progress().phase, Phase::AwaitLayers);
    let supported = vec!["VK_LAYER_other".to_string(), layer()];
    assert_eq!(
        machine.step(Event::Layers(supported)),
        Action::CreateInstance(InstanceDescriptor {
            metadata: metadata(),
            flags: 0,
            extensions: extensions(),
            layers: vec![layer()],
            messenger: Some(MessengerDescriptor { severities: 0x1101, categories: 0x7 }),
        })
    );
    assert_eq!(
        machine.step(Event::InstanceCreated(InstanceHandle(1))),
        Action::CreateMessenger(MessengerDescriptor { severities: 0x1101, categories: 0x7 })
    );
    assert_eq!(machine.progress().messenger, DebugMessenger::Disabled);
    assert_eq!(
        machine.step(Event::MessengerCreated(DebugMessengerHandle(2))),
        Action::EnumerateDevices
    );
    assert_eq!(
        machine.progress().messenger,
        DebugMessenger::Created(DebugMessengerHandle(2))
    );
    machine.step(Event::Devices(one_device()));
    machine.step(Event::DeviceCreated(LogicalDeviceHandle(3)));
    machine.step(Event::QueueRetrieved(QueueHandle(4)));
    assert_eq!(machine.step(Event::SurfaceBound(SurfaceHandle(5))), Action::Finish);

    let mut context = machine.finish().ok().unwrap();
    let parts = context.parts();
    assert!(parts.validation);
    assert_eq!(parts.messenger, DebugMessenger::Created(DebugMessengerHandle(2)));
    assert_eq!(
        context.destroy(),
        vec![
            TeardownStep::DestroyMessenger(DebugMessengerHandle(2)),
            TeardownStep::DestroyDevice(LogicalDeviceHandle(3)),
            TeardownStep::DestroySurface(SurfaceHandle(5)),
            TeardownStep::DestroyInstance(InstanceHandle(1)),
        ]
    );
}

#[test]
fn validation_gating() {
    for validation in [false, true] {
        let (mut machine, first) = Bootstrap::begin(setup(Platform::Linux, validation));
        let mut requests = vec![first];
        let answers = vec![
            Event::Layers(vec![layer()]),
            Event::InstanceCreated(InstanceHandle(1)),
            Event::MessengerCreated(DebugMessengerHandle(2)),
            Event::Devices(one_device()),
            Event::DeviceCreated(LogicalDeviceHandle(3)),
            Event::QueueRetrieved(QueueHandle(4)),
            Event::SurfaceBound(SurfaceHandle(5)),
        ];
        for answer in answers {
            let for_validation =
                matches!(answer, Event::Layers(_) | Event::MessengerCreated(_));
            if validation || !for_validation {
                requests.push(machine.step(answer));
            }
        }
        let asked_for_messenger =
            requests.iter().any(|request| matches!(request, Action::CreateMessenger(_)));
        assert_eq!(asked_for_messenger, validation);

        let mut context = machine.finish().ok().unwrap();
        let created = matches!(context.parts().messenger, DebugMessenger::Created(_));
        assert_eq!(created, validation);
        let plan = context.destroy();
        let destroyed =
            plan.iter().any(|step| matches!(step, TeardownStep::DestroyMessenger(_)));
        assert_eq!(destroyed, validation);
        assert_eq!(plan.len(), if validation { 4 } else { 3 });
    }
}

#[test]
fn macos_asks_for_portability() {
    let (_, first) = Bootstrap::begin(setup(Platform::MacOs, false));
    match first {
        Action::CreateInstance(descriptor) => {
            assert_eq!(descriptor.flags, 1);
            assert_eq!(
                descriptor.extensions,
                vec![
                    "VK_KHR_surface".to_string(),
                    "VK_KHR_xlib_surface".to_string(),
                    "VK_KHR_get_physical_device_properties2".to_string(),
                    "VK_KHR_portability_enumeration".to_string(),
                ]
            );
        }
        other => panic!("{:?}", other),
    }
}

#[test]
fn a_missing_layer_ends_the_bootstrap() {
    let (mut machine, _) = Bootstrap::begin(setup(Platform::Linux, true));
    let action = machine.step(Event::Layers(vec!["VK_LAYER_other".to_string()]));
    assert_eq!(action, Action::Abort(BootstrapError::Configuration));
    assert_eq!(machine.progress().phase, Phase::Failed(BootstrapError::Configuration));
    assert_eq!(machine.progress().instance, None);
    assert!(machine.finish().is_err());
}

#[test]
fn no_graphics_family_ends_the_bootstrap() {
    let mut machine = until_devices();
    let devices = vec![
        PhysicalDevice {
            handle: PhysicalDeviceHandle(30),
            families: vec![QueueFamily { flags: 0x2 }, QueueFamily { flags: 0x4 }],
        },
        PhysicalDevice { handle: PhysicalDeviceHandle(31), families: vec![] },
    ];
    assert_eq!(
        machine.step(Event::Devices(devices)),
        Action::Abort(BootstrapError::DeviceSelection)
    );
    assert_eq!(machine.progress().phase, Phase::Failed(BootstrapError::DeviceSelection));
    assert_eq!(machine.progress().candidate, None);
    for event in [
        Event::DeviceCreated(LogicalDeviceHandle(3)),
        Event::Devices(one_device()),
        Event::QueueRetrieved(QueueHandle(4)),
        Event::SurfaceBound(SurfaceHandle(5)),
        Event::Rejected,
    ] {
        assert_eq!(machine.step(event), Action::Abort(BootstrapError::DeviceSelection));
        assert_eq!(machine.progress().device, None);
    }
    assert!(machine.finish().is_err());
}

#[test]
fn the_first_fit_is_what_the_device_is_created_for() {
    let mut machine = until_devices();
    let devices = vec![
        PhysicalDevice {
            handle: PhysicalDeviceHandle(30),
            families: vec![QueueFamily { flags: 0x2 }],
        },
        PhysicalDevice { handle: PhysicalDeviceHandle(31), families: vec![] },
        PhysicalDevice {
            handle: PhysicalDeviceHandle(32),
            families: vec![QueueFamily { flags: 0x6 }, QueueFamily { flags: 0x3 }],
        },
        PhysicalDevice {
            handle: PhysicalDeviceHandle(33),
            families: vec![QueueFamily { flags: 0xf }],
        },
    ];
    assert_eq!(
        machine.step(Event::Devices(devices)),
        Action::CreateDevice(DeviceDescriptor {
            physical_device: PhysicalDeviceHandle(32),
            queue_family: 1,
            queue_count: 1,
            extensions: vec![],
        })
    );
    assert_eq!(
        machine.step(Event::DeviceCreated(LogicalDeviceHandle(3))),
        Action::GetQueue(QueueRequest { family: 1, index: 0 })
    );
}

#[test]
fn a_refusal_names_its_stage() {
    let stages = [
        Stage::Layers,
        Stage::Instance,
        Stage::Messenger,
        Stage::Devices,
        Stage::Device,
        Stage::Queue,
        Stage::Surface,
    ];
    for (refused_at, stage) in stages.iter().enumerate() {
        let (mut machine, _) = Bootstrap::begin(setup(Platform::Linux, true));
        let answers = vec![
            Event::Layers(vec![layer()]),
            Event::InstanceCreated(InstanceHandle(1)),
            Event::MessengerCreated(DebugMessengerHandle(2)),
            Event::Devices(one_device()),
            Event::DeviceCreated(LogicalDeviceHandle(3)),
            Event::QueueRetrieved(QueueHandle(4)),
            Event::SurfaceBound(SurfaceHandle(5)),
        ];
        for answer in answers.into_iter().take(refused_at) {
            machine.step(answer);
        }
        let error = BootstrapError::Initialization(*stage);
        assert_eq!(machine.step(Event::Rejected), Action::Abort(error));
        assert_eq!(machine.progress().phase, Phase::Failed(error));
        assert_eq!(machine.step(Event::Rejected), Action::Abort(error));
        assert!(machine.finish().is_err());
    }
}

#[test]
fn a_null_handle_counts_as_a_refusal() {
    let (mut machine, _) = Bootstrap::begin(setup(Platform::Linux, false));
    assert_eq!(
        machine.step(Event::InstanceCreated(InstanceHandle(0))),
        Action::Abort(BootstrapError::Initialization(Stage::Instance))
    );

    let mut machine = until_devices();
    machine.step(Event::Devices(one_device()));
    assert_eq!(
        machine.step(Event::DeviceCreated(LogicalDeviceHandle(0))),
        Action::Abort(BootstrapError::Initialization(Stage::Device))
    );

    let mut machine = until_devices();
    machine.step(Event::Devices(one_device()));
    machine.step(Event::DeviceCreated(LogicalDeviceHandle(3)));
    assert_eq!(
        machine.step(Event::QueueRetrieved(QueueHandle(0))),
        Action::Abort(BootstrapError::Initialization(Stage::Queue))
    );

    let mut machine = until_devices();
    machine.step(Event::Devices(one_device()));
    machine.step(Event::DeviceCreated(LogicalDeviceHandle(3)));
    machine.step(Event::QueueRetrieved(QueueHandle(4)));
    assert_eq!(
        machine.step(Event::SurfaceBound(SurfaceHandle(0))),
        Action::Abort(BootstrapError::Initialization(Stage::Surface))
    );

    let (mut machine, _) = Bootstrap::begin(setup(Platform::Linux, true));
    machine.step(Event::Layers(vec![layer()]));
    machine.step(Event::InstanceCreated(InstanceHandle(1)));
    assert_eq!(
        machine.step(Event::MessengerCreated(DebugMessengerHandle(0))),
        Action::Abort(BootstrapError::Initialization(Stage::Messenger))
    );
    assert_eq!(machine.progress().messenger, DebugMessenger::Disabled);
    assert_eq!(machine.progress().instance, Some(InstanceHandle(1)));
}

#[test]
fn an_answer_to_another_request_counts_as_a_refusal() {
    let (mut machine, _) = Bootstrap::begin(setup(Platform::Linux, false));
    assert_eq!(
        machine.step(Event::DeviceCreated(LogicalDeviceHandle(3))),
        Action::Abort(BootstrapError::Initialization(Stage::Instance))
    );
    let (mut machine, _) = Bootstrap::begin(setup(Platform::Linux, false));
    machine.step(Event::InstanceCreated(InstanceHandle(1)));
    assert_eq!(
        machine.step(Event::MessengerCreated(DebugMessengerHandle(2))),
        Action::Abort(BootstrapError::Initialization(Stage::Devices))
    );
    assert_eq!(machine.progress().messenger, DebugMessenger::Disabled);
}

#[test]
fn a_ready_bootstrap_stays_ready() {
    let mut machine = until_devices();
    machine.step(Event::Devices(one_device()));
    machine.step(Event::DeviceCreated(LogicalDeviceHandle(3)));
    machine.step(Event::QueueRetrieved(QueueHandle(4)));
    machine.step(Event::SurfaceBound(SurfaceHandle(5)));
    let ready = machine.progress();
    assert_eq!(machine.step(Event::Rejected), Action::Finish);
    assert_eq!(machine.step(Event::SurfaceBound(SurfaceHandle(9))), Action::Finish);
    assert_eq!(machine.progress(), ready);
    assert_eq!(machine.finish().ok().unwrap().parts().surface, SurfaceHandle(5));
}

#[test]
fn the_context_is_there_only_when_ready() {
    let (mut machine, _) = Bootstrap::begin(setup(Platform::Linux, false));
    let answers = vec![
        Event::InstanceCreated(InstanceHandle(1)),
        Event::Devices(one_device()),
        Event::DeviceCreated(LogicalDeviceHandle(3)),
        Event::QueueRetrieved(QueueHandle(4)),
    ];
    for answer in answers {
        let before = machine.progress();
        machine = match machine.finish() {
            Ok(_) => panic!("a context before the bootstrap is ready"),
            Err(machine) => machine,
        };
        assert_eq!(machine.progress(), before);
        machine.step(answer);
    }
    assert_eq!(machine.progress().phase, Phase::AwaitSurface);
    machine.step(Event::SurfaceBound(SurfaceHandle(5)));
    assert!(machine.finish().is_ok());
}

#[test]
fn errors_are_described() {
    assert_eq!(
        BootstrapError::Configuration.message(),
        "validation layer requested, but not available"
    );
    assert_eq!(
        BootstrapError::DeviceSelection.message(),
        "no physical device with a graphics queue family"
    );
    let requests = [
        (Stage::Layers, "list the supported layers"),
        (Stage::Instance, "create the instance"),
        (Stage::Messenger, "register the debug messenger"),
        (Stage::Devices, "list the physical devices"),
        (Stage::Device, "create the logical device"),
        (Stage::Queue, "retrieve the queue"),
        (Stage::Surface, "bind the surface"),
    ];
    for (stage, request) in requests {
        assert_eq!(stage.describe(), request);
        assert_eq!(
            BootstrapError::Initialization(stage).message(),
            format!("the Vulkan runtime refused to {}", request)
        );
    }
}
