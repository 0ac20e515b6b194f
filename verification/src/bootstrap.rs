//! The bootstrap as a sequence of requests to the runtime. The machine says
//! what to ask for next; the caller asks and reports what came of it. What
//! holds of every bootstrap is stated and proved in `laws`.

use crate::config::{
    clone_names, names, AppMetadata, AppMetadataView, Platform, ValidationConfig,
    ValidationConfigView,
};
use crate::context::{ApplicationContext, ContextParts};
use crate::device::{
    create_logical_device, device_descriptor, graphics_queue, pick_physical_device,
    requested_queue_index, selection, DeviceDescriptor, DeviceDescriptorView, PhysicalDevice,
    PhysicalDeviceCandidate, QueueRequest,
};
use crate::error::{BootstrapError, Stage};
use crate::handles::{
    DebugMessengerHandle, InstanceHandle, LogicalDeviceHandle, QueueHandle, SurfaceHandle,
};
use crate::instance::{
    create_instance, instance_descriptor, layer_supported, InstanceDescriptor,
    InstanceDescriptorView,
};
use crate::messenger::{
    messenger_descriptor, setup_debug_utils, DebugMessenger, MessengerDescriptor,
};
use crate::negotiation::{negotiate, negotiated};
use vstd::prelude::*;

pub mod laws;

verus! {

/// What the bootstrap is started with. It does not change afterwards.
#[derive(Debug, PartialEq, Eq)]
pub struct Setup {
    pub platform: Platform,
    /// The instance extensions that the platform needs for its surfaces.
    pub surface_extensions: Vec<String>,
    pub metadata: AppMetadata,
    pub config: ValidationConfig,
}

/// The mathematical content of a `Setup`.
pub ghost struct SetupView {
    pub platform: Platform,
    pub surface_extensions: Seq<Seq<char>>,
    pub metadata: AppMetadataView,
    pub config: ValidationConfigView,
}

impl View for Setup {
    type V = SetupView;

    open spec fn view(&self) -> SetupView {
        SetupView {
            platform: self.platform,
            surface_extensions: names(self.surface_extensions@),
            metadata: self.metadata@,
            config: self.config@,
        }
    }
}

/// What the machine is waiting for.
#[derive(Clone, Copy, Debug, PartialEq, Eq, Structural)]
pub enum Phase {
    /// The layers that the runtime supports.
    AwaitLayers,
    /// The instance.
    AwaitInstance,
    /// The debug messenger.
    AwaitMessenger,
    /// The physical devices with their queue families.
    AwaitDevices,
    /// The logical device.
    AwaitDevice,
    /// The queue.
    AwaitQueue,
    /// The surface.
    AwaitSurface,
    /// Nothing: every handle is there.
    Ready,
    /// Nothing: the bootstrap failed.
    Failed(BootstrapError),
}

/// How far the bootstrap has come, and the handles that it has so far.
#[derive(Clone, Copy, Debug, PartialEq, Eq)]
pub struct Progress {
    pub phase: Phase,
    pub instance: Option<InstanceHandle>,
    pub messenger: DebugMessenger,
    pub candidate: Option<PhysicalDeviceCandidate>,
    pub device: Option<LogicalDeviceHandle>,
    pub queue: Option<QueueHandle>,
    pub surface: Option<SurfaceHandle>,
}

/// What came of a request.
#[derive(Debug, PartialEq, Eq)]
pub enum Event {
    /// The names of the layers that the runtime supports.
    Layers(Vec<String>),
    InstanceCreated(InstanceHandle),
    MessengerCreated(DebugMessengerHandle),
    /// The physical devices, in the order in which the runtime lists them.
    Devices(Vec<PhysicalDevice>),
    DeviceCreated(LogicalDeviceHandle),
    QueueRetrieved(QueueHandle),
    SurfaceBound(SurfaceHandle),
    /// The runtime refused the request.
    Rejected,
}

/// What to ask of the runtime next.
#[derive(Debug, PartialEq, Eq)]
pub enum Action {
    EnumerateLayers,
    CreateInstance(InstanceDescriptor),
    CreateMessenger(MessengerDescriptor),
    EnumerateDevices,
    CreateDevice(DeviceDescriptor),
    GetQueue(QueueRequest),
    BindSurface,
    /// Nothing more: the context can be taken.
    Finish,
    /// Nothing more: the bootstrap has failed with this error.
    Abort(BootstrapError),
}

/// The mathematical content of an `Action`.
pub ghost enum ActionView {
    EnumerateLayers,
    CreateInstance(InstanceDescriptorView),
    CreateMessenger(MessengerDescriptor),
    EnumerateDevices,
    CreateDevice(DeviceDescriptorView),
    GetQueue(QueueRequest),
    BindSurface,
    Finish,
    Abort(BootstrapError),
}

impl View for Action {
    type V = ActionView;

    open spec fn view(&self) -> ActionView {
        match self {
            Action::EnumerateLayers => ActionView::EnumerateLayers,
            Action::CreateInstance(descriptor) => ActionView::CreateInstance(descriptor@),
            Action::CreateMessenger(descriptor) => ActionView::CreateMessenger(*descriptor),
            Action::EnumerateDevices => ActionView::EnumerateDevices,
            Action::CreateDevice(descriptor) => ActionView::CreateDevice(descriptor@),
            Action::GetQueue(request) => ActionView::GetQueue(*request),
            Action::BindSurface => ActionView::BindSurface,
            Action::Finish => ActionView::Finish,
            Action::Abort(error) => ActionView::Abort(*error),
        }
    }
}

/// The progress of a bootstrap that has acquired nothing yet.
pub open spec fn nothing_yet(phase: Phase) -> Progress {
    Progress {
        phase,
        instance: None,
        messenger: DebugMessenger::Disabled,
        candidate: None,
        device: None,
        queue: None,
        surface: None,
    }
}

/// The request for the instance: what was negotiated for the setup, with the
/// setup's metadata.
pub open spec fn instance_action(setup: SetupView) -> ActionView {
    ActionView::CreateInstance(
        instance_descriptor(
            setup.metadata,
            negotiated(
                setup.platform,
                setup.surface_extensions,
                setup.metadata.api_version,
                setup.config,
            ),
            setup.config.enabled,
        ),
    )
}

/// Where a bootstrap starts: with validation the supported layers are asked
/// for first, without it the instance.
pub open spec fn initial(setup: SetupView) -> (Progress, ActionView) {
    if setup.config.enabled {
        (nothing_yet(Phase::AwaitLayers), ActionView::EnumerateLayers)
    } else {
        (nothing_yet(Phase::AwaitInstance), instance_action(setup))
    }
}

/// The bootstrap fails: what it has is kept, and nothing more is asked for.
pub open spec fn fail(progress: Progress, error: BootstrapError) -> (Progress, ActionView) {
    (Progress { phase: Phase::Failed(error), ..progress }, ActionView::Abort(error))
}

/// What follows the answer to the request for the supported layers.
pub open spec fn after_layers(setup: SetupView, progress: Progress, event: Event) -> (
    Progress,
    ActionView,
) {
    match event {
        Event::Layers(layers) => if layer_supported(names(layers@), setup.config.layer_name) {
            (Progress { phase: Phase::AwaitInstance, ..progress }, instance_action(setup))
        } else {
            fail(progress, BootstrapError::Configuration)
        },
        _ => fail(progress, BootstrapError::Initialization(Stage::Layers)),
    }
}

/// What follows the answer to the request for the instance.
pub open spec fn after_instance(setup: SetupView, progress: Progress, event: Event) -> (
    Progress,
    ActionView,
) {
    match event {
        Event::InstanceCreated(handle) => if handle.0 == 0 {
            fail(progress, BootstrapError::Initialization(Stage::Instance))
        } else if setup.config.enabled {
            (
                Progress { phase: Phase::AwaitMessenger, instance: Some(handle), ..progress },
                ActionView::CreateMessenger(messenger_descriptor()),
            )
        } else {
            (
                Progress { phase: Phase::AwaitDevices, instance: Some(handle), ..progress },
                ActionView::EnumerateDevices,
            )
        },
        _ => fail(progress, BootstrapError::Initialization(Stage::Instance)),
    }
}

/// What follows the answer to the request for the messenger.
pub open spec fn after_messenger(progress: Progress, event: Event) -> (Progress, ActionView) {
    match event {
        Event::MessengerCreated(handle) => if handle.0 == 0 {
            fail(progress, BootstrapError::Initialization(Stage::Messenger))
        } else {
            (
                Progress {
                    phase: Phase::AwaitDevices,
                    messenger: DebugMessenger::Created(handle),
                    ..progress
                },
                ActionView::EnumerateDevices,
            )
        },
        _ => fail(progress, BootstrapError::Initialization(Stage::Messenger)),
    }
}

/// What follows the enumeration of the physical devices.
pub open spec fn after_devices(progress: Progress, event: Event) -> (Progress, ActionView) {
    match event {
        Event::Devices(devices) => match selection(devices@) {
            Ok(candidate) => (
                Progress { phase: Phase::AwaitDevice, candidate: Some(candidate), ..progress },
                ActionView::CreateDevice(device_descriptor(candidate)),
            ),
            Err(error) => fail(progress, error),
        },
        _ => fail(progress, BootstrapError::Initialization(Stage::Devices)),
    }
}

/// What follows the answer to the request for the logical device.
pub open spec fn after_device(progress: Progress, event: Event) -> (Progress, ActionView) {
    match (event, progress.candidate) {
        (Event::DeviceCreated(handle), Some(candidate)) => if handle.0 == 0 {
            fail(progress, BootstrapError::Initialization(Stage::Device))
        } else {
            (
                Progress { phase: Phase::AwaitQueue, device: Some(handle), ..progress },
                ActionView::GetQueue(
                    QueueRequest { family: candidate.family, index: requested_queue_index() },
                ),
            )
        },
        _ => fail(progress, BootstrapError::Initialization(Stage::Device)),
    }
}

/// What follows the answer to the request for the queue.
pub open spec fn after_queue(progress: Progress, event: Event) -> (Progress, ActionView) {
    match event {
        Event::QueueRetrieved(handle) => if handle.0 == 0 {
            fail(progress, BootstrapError::Initialization(Stage::Queue))
        } else {
            (
                Progress { phase: Phase::AwaitSurface, queue: Some(handle), ..progress },
                ActionView::BindSurface,
            )
        },
        _ => fail(progress, BootstrapError::Initialization(Stage::Queue)),
    }
}

/// What follows the answer to the request for the surface.
pub open spec fn after_surface(progress: Progress, event: Event) -> (Progress, ActionView) {
    match event {
        Event::SurfaceBound(handle) => if handle.0 == 0 {
            fail(progress, BootstrapError::Initialization(Stage::Surface))
        } else {
            (Progress { phase: Phase::Ready, surface: Some(handle), ..progress }, ActionView::Finish)
        },
        _ => fail(progress, BootstrapError::Initialization(Stage::Surface)),
    }
}

/// One step of the bootstrap: the progress after the event, and what to ask
/// for next. An event that does not answer the outstanding request, and a
/// null handle, count as a refusal. A bootstrap that is ready or has failed
/// stays as it is.
pub open spec fn step_model(setup: SetupView, progress: Progress, event: Event) -> (
    Progress,
    ActionView,
) {
    match progress.phase {
        Phase::AwaitLayers => after_layers(setup, progress, event),
        Phase::AwaitInstance => after_instance(setup, progress, event),
        Phase::AwaitMessenger => after_messenger(progress, event),
        Phase::AwaitDevices => after_devices(progress, event),
        Phase::AwaitDevice => after_device(progress, event),
        Phase::AwaitQueue => after_queue(progress, event),
        Phase::AwaitSurface => after_surface(progress, event),
        Phase::Ready => (progress, ActionView::Finish),
        Phase::Failed(error) => (progress, ActionView::Abort(error)),
    }
}

/// The number of a phase in the order of the bootstrap.
pub open spec fn rank(phase: Phase) -> int {
    match phase {
        Phase::AwaitLayers => 0,
        Phase::AwaitInstance => 1,
        Phase::AwaitMessenger => 2,
        Phase::AwaitDevices => 3,
        Phase::AwaitDevice => 4,
        Phase::AwaitQueue => 5,
        Phase::AwaitSurface => 6,
        Phase::Ready => 7,
        Phase::Failed(_) => -1,
    }
}

/// Whether the progress fits its phase. No handle that was acquired is null,
/// and a messenger is registered only with validation enabled. Until the
/// bootstrap fails, a handle is there exactly if its request was answered, the
/// messenger is registered exactly if validation is enabled and its request
/// was answered, and the supported layers and the messenger are asked for only
/// with validation enabled. A failed bootstrap keeps what it had.
pub open spec fn consistent(setup: SetupView, progress: Progress) -> bool {
    let at = rank(progress.phase);
    &&& progress.instance matches Some(handle) ==> handle.0 != 0
    &&& progress.device matches Some(handle) ==> handle.0 != 0
    &&& progress.queue matches Some(handle) ==> handle.0 != 0
    &&& progress.surface matches Some(handle) ==> handle.0 != 0
    &&& progress.messenger matches DebugMessenger::Created(handle) ==> handle.0 != 0
        && setup.config.enabled
    &&& !(progress.messenger is Destroyed)
    &&& at >= 0 ==> {
        &&& (at == 0 || at == 2) ==> setup.config.enabled
        &&& progress.instance is Some <==> at >= 2
        &&& progress.messenger is Created <==> (at >= 3 && setup.config.enabled)
        &&& progress.candidate is Some <==> at >= 4
        &&& progress.device is Some <==> at >= 5
        &&& progress.queue is Some <==> at >= 6
        &&& progress.surface is Some <==> at >= 7
    }
}

/// The parts of the context of a bootstrap that is ready.
pub open spec fn context_parts(setup: SetupView, progress: Progress) -> ContextParts {
    ContextParts {
        validation: setup.config.enabled,
        instance: progress.instance->Some_0,
        messenger: progress.messenger,
        candidate: progress.candidate->Some_0,
        device: progress.device->Some_0,
        queue: progress.queue->Some_0,
        surface: progress.surface->Some_0,
        live: true,
    }
}

/// The mathematical content of a `Bootstrap`.
pub ghost struct BootstrapView {
    pub setup: SetupView,
    pub progress: Progress,
}

/// A bootstrap under way.
pub struct Bootstrap {
    setup: Setup,
    progress: Progress,
}

impl View for Bootstrap {
    type V = BootstrapView;

    closed spec fn view(&self) -> BootstrapView {
        BootstrapView { setup: self.setup@, progress: self.progress }
    }
}

impl Bootstrap {
    #[verifier::type_invariant]
    spec fn inv(self) -> bool {
        consistent(self.setup@, self.progress)
    }

    /// The request for the instance, from the setup and the layers that the
    /// runtime supports.
    fn request_instance(setup: &Setup, supported_layers: &Vec<String>) -> (outcome: Result<
        Action,
        BootstrapError,
    >)
        ensures
            match outcome {
                Ok(action) => {
                    &&& action@ == instance_action(setup@)
                    &&& setup@.config.enabled ==> layer_supported(
                        names(supported_layers@),
                        setup@.config.layer_name,
                    )
                },
                Err(error) => {
                    &&& error == BootstrapError::Configuration
                    &&& setup@.config.enabled
                    &&& !layer_supported(names(supported_layers@), setup@.config.layer_name)
                },
            },
    {
        let negotiation = negotiate(
            setup.platform,
            clone_names(&setup.surface_extensions),
            setup.metadata.api_version,
            &setup.config,
        );
        match create_instance(
            setup.metadata.duplicate(),
            negotiation,
            &setup.config,
            supported_layers,
        ) {
            Ok(descriptor) => Ok(Action::CreateInstance(descriptor)),
            Err(error) => Err(error),
        }
    }

    /// Starts a bootstrap and says what to ask of the runtime first.
    pub fn begin(setup: Setup) -> (started: (Bootstrap, Action))
        ensures
            started.0@.setup == setup@,
            (started.0@.progress, started.1@) == initial(setup@),
            consistent(started.0@.setup, started.0@.progress),
    {
        let nothing = Progress {
            phase: Phase::AwaitLayers,
            instance: None,
            messenger: DebugMessenger::Disabled,
            candidate: None,
            device: None,
            queue: None,
            surface: None,
        };
        if setup.config.enabled {
            (Bootstrap { setup, progress: nothing }, Action::EnumerateLayers)
        } else {
            match Self::request_instance(&setup, &Vec::new()) {
                Ok(action) => (
                    Bootstrap {
                        setup,
                        progress: Progress { phase: Phase::AwaitInstance, ..nothing },
                    },
                    action,
                ),
                Err(error) => (
                    Bootstrap {
                        setup,
                        progress: Progress { phase: Phase::Failed(error), ..nothing },
                    },
                    Action::Abort(error),
                ),
            }
        }
    }

    /// How far the bootstrap has come. The progress always fits its phase.
    pub fn progress(&self) -> (progress: Progress)
        ensures
            progress == self@.progress,
            consistent(self@.setup, progress),
    {
        proof {
            use_type_invariant(self);
        }
        self.progress
    }

    /// Takes what came of the outstanding request and says what to ask for
    /// next.
    pub fn step(&mut self, event: Event) -> (action: Action)
        ensures
            final(self)@.setup == old(self)@.setup,
            (final(self)@.progress, action@) == step_model(
                old(self)@.setup,
                old(self)@.progress,
                event,
            ),
            consistent(final(self)@.setup, final(self)@.progress),
    {
        proof {
            use_type_invariant(&*self);
        }
        let progress = self.progress;
        let (next, action) = match progress.phase {
            Phase::AwaitLayers => match event {
                Event::Layers(layers) => match Self::request_instance(&self.setup, &layers) {
                    Ok(action) => (Progress { phase: Phase::AwaitInstance, ..progress }, action),
                    Err(error) => Self::failed(progress, error),
                },
                _ => Self::failed(progress, BootstrapError::Initialization(Stage::Layers)),
            },
            Phase::AwaitInstance => match event {
                Event::InstanceCreated(handle) => if handle.0 == 0 {
                    Self::failed(progress, BootstrapError::Initialization(Stage::Instance))
                } else {
                    match setup_debug_utils(&self.setup.config) {
                        Some(descriptor) => (
                            Progress {
                                phase: Phase::AwaitMessenger,
                                instance: Some(handle),
                                ..progress
                            },
                            Action::CreateMessenger(descriptor),
                        ),
                        None => (
                            Progress {
                                phase: Phase::AwaitDevices,
                                instance: Some(handle),
                                ..progress
                            },
                            Action::EnumerateDevices,
                        ),
                    }
                },
                _ => Self::failed(progress, BootstrapError::Initialization(Stage::Instance)),
            },
            Phase::AwaitMessenger => match event {
                Event::MessengerCreated(handle) => if handle.0 == 0 {
                    Self::failed(progress, BootstrapError::Initialization(Stage::Messenger))
                } else {
                    (
                        Progress {
                            phase: Phase::AwaitDevices,
                            messenger: DebugMessenger::Created(handle),
                            ..progress
                        },
                        Action::EnumerateDevices,
                    )
                },
                _ => Self::failed(progress, BootstrapError::Initialization(Stage::Messenger)),
            },
            Phase::AwaitDevices => match event {
                Event::Devices(devices) => match pick_physical_device(&devices) {
                    Ok(candidate) => (
                        Progress {
                            phase: Phase::AwaitDevice,
                            candidate: Some(candidate),
                            ..progress
                        },
                        Action::CreateDevice(create_logical_device(&candidate)),
                    ),
                    Err(error) => Self::failed(progress, error),
                },
                _ => Self::failed(progress, BootstrapError::Initialization(Stage::Devices)),
            },
            Phase::AwaitDevice => match (event, progress.candidate) {
                (Event::DeviceCreated(handle), Some(candidate)) => if handle.0 == 0 {
                    Self::failed(progress, BootstrapError::Initialization(Stage::Device))
                } else {
                    (
                        Progress { phase: Phase::AwaitQueue, device: Some(handle), ..progress },
                        Action::GetQueue(graphics_queue(&candidate)),
                    )
                },
                _ => Self::failed(progress, BootstrapError::Initialization(Stage::Device)),
            },
            Phase::AwaitQueue => match event {
                Event::QueueRetrieved(handle) => if handle.0 == 0 {
                    Self::failed(progress, BootstrapError::Initialization(Stage::Queue))
                } else {
                    (
                        Progress { phase: Phase::AwaitSurface, queue: Some(handle), ..progress },
                        Action::BindSurface,
                    )
                },
                _ => Self::failed(progress, BootstrapError::Initialization(Stage::Queue)),
            },
            Phase::AwaitSurface => match event {
                Event::SurfaceBound(handle) => if handle.0 == 0 {
                    Self::failed(progress, BootstrapError::Initialization(Stage::Surface))
                } else {
                    (
                        Progress { phase: Phase::Ready, surface: Some(handle), ..progress },
                        Action::Finish,
                    )
                },
                _ => Self::failed(progress, BootstrapError::Initialization(Stage::Surface)),
            },
            Phase::Ready => (progress, Action::Finish),
            Phase::Failed(error) => (progress, Action::Abort(error)),
        };
        self.progress = next;
        action
    }

    /// The failed progress and the action that reports the error.
    fn failed(progress: Progress, error: BootstrapError) -> (next: (Progress, Action))
        ensures
            (next.0, next.1@) == fail(progress, error),
    {
        (Progress { phase: Phase::Failed(error), ..progress }, Action::Abort(error))
    }

    /// Ends a bootstrap that is ready and hands over its context, which owns
    /// the handles from then on. A bootstrap that is not ready comes back as it
    /// is.
    pub fn finish(self) -> (outcome: Result<ApplicationContext, Bootstrap>)
        ensures
            outcome is Ok <==> self@.progress.phase == Phase::Ready,
            outcome matches Ok(context) ==> context@ == context_parts(
                self@.setup,
                self@.progress,
            ),
            outcome matches Err(bootstrap) ==> bootstrap@ == self@,
    {
        proof {
            use_type_invariant(&self);
        }
        let progress = self.progress;
        let assembled = match (
            progress.phase,
            progress.instance,
            progress.candidate,
            progress.device,
            progress.queue,
            progress.surface,
        ) {
            (
                Phase::Ready,
                Some(instance),
                Some(candidate),
                Some(device),
                Some(queue),
                Some(surface),
            ) => ApplicationContext::assemble(
                self.setup.config.enabled,
                instance,
                progress.messenger.handle(),
                candidate,
                device,
                queue,
                surface,
            ),
            _ => None,
        };
        match assembled {
            Some(context) => Ok(context),
            None => Err(self),
        }
    }
}

} // verus!
