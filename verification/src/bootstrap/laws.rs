//! What holds of every bootstrap, whatever the runtime answers.

use crate::bootstrap::{
    consistent, context_parts, fail, initial, rank, step_model, ActionView, Event, Phase,
    Progress, SetupView,
};
use crate::config::names;
use crate::context::{well_formed, ContextParts};
use crate::device::{
    device_descriptor, lemma_selection_exists, lemma_selection_fails_without_candidate,
    lemma_selection_is_selected, no_graphics_family, selection, PhysicalDevice,
    PhysicalDeviceCandidate,
};
use crate::error::BootstrapError;
use crate::handles::{
    DebugMessengerHandle, InstanceHandle, LogicalDeviceHandle, QueueHandle, SurfaceHandle,
};
use crate::instance::layer_supported;
use crate::messenger::DebugMessenger;
use vstd::prelude::*;

verus! {

/// Whether an action is the request that a phase waits for.
pub open spec fn requested_in(phase: Phase, action: ActionView) -> bool {
    match phase {
        Phase::AwaitLayers => action is EnumerateLayers,
        Phase::AwaitInstance => action is CreateInstance,
        Phase::AwaitMessenger => action is CreateMessenger,
        Phase::AwaitDevices => action is EnumerateDevices,
        Phase::AwaitDevice => action is CreateDevice,
        Phase::AwaitQueue => action is GetQueue,
        Phase::AwaitSurface => action is BindSurface,
        Phase::Ready => action is Finish,
        Phase::Failed(error) => action == ActionView::Abort(error),
    }
}

/// The bootstrap starts consistent, with the request that its first phase
/// waits for.
pub proof fn lemma_initial_consistent(setup: SetupView)
    ensures
        consistent(setup, initial(setup).0),
        requested_in(initial(setup).0.phase, initial(setup).1),
{
}

/// Every step keeps the progress consistent, asks for what the new phase
/// waits for, and either fails or moves on in the order instance, messenger,
/// physical device, logical device, queue, surface. No step goes back, and
/// none gives up a handle that was acquired.
pub proof fn lemma_step_in_order(setup: SetupView, progress: Progress, event: Event)
    requires
        consistent(setup, progress),
    ensures
        consistent(setup, step_model(setup, progress, event).0),
        requested_in(
            step_model(setup, progress, event).0.phase,
            step_model(setup, progress, event).1,
        ),
        step_model(setup, progress, event).0.phase is Failed || rank(
            step_model(setup, progress, event).0.phase,
        ) >= rank(progress.phase),
        progress.instance is Some ==> step_model(setup, progress, event).0.instance
            == progress.instance,
        progress.messenger is Created ==> step_model(setup, progress, event).0.messenger
            == progress.messenger,
        progress.candidate is Some ==> step_model(setup, progress, event).0.candidate
            == progress.candidate,
        progress.device is Some ==> step_model(setup, progress, event).0.device
            == progress.device,
        progress.queue is Some ==> step_model(setup, progress, event).0.queue == progress.queue,
        progress.surface is Some ==> step_model(setup, progress, event).0.surface
            == progress.surface,
{
}

/// The progress after a sequence of events, from a given progress on.
pub open spec fn run_from(setup: SetupView, progress: Progress, events: Seq<Event>) -> Progress
    decreases events.len(),
{
    if events.len() == 0 {
        progress
    } else {
        step_model(setup, run_from(setup, progress, events.drop_last()), events.last()).0
    }
}

/// The progress of a bootstrap after a sequence of events.
pub open spec fn run(setup: SetupView, events: Seq<Event>) -> Progress {
    run_from(setup, initial(setup).0, events)
}

/// Whatever is reported, and in whatever order, the progress stays
/// consistent.
pub proof fn lemma_run_consistent(setup: SetupView, progress: Progress, events: Seq<Event>)
    requires
        consistent(setup, progress),
    ensures
        consistent(setup, run_from(setup, progress, events)),
        consistent(setup, run(setup, events)),
    decreases events.len(),
{
    lemma_initial_consistent(setup);
    if events.len() > 0 {
        lemma_run_consistent(setup, progress, events.drop_last());
        lemma_run_consistent(setup, initial(setup).0, events.drop_last());
        lemma_step_in_order(setup, run_from(setup, progress, events.drop_last()), events.last());
        lemma_step_in_order(setup, run(setup, events.drop_last()), events.last());
    }
}

/// A bootstrap that has failed or is ready stays as it is, whatever is
/// reported afterwards.
pub proof fn lemma_end_is_final(setup: SetupView, progress: Progress, events: Seq<Event>)
    requires
        progress.phase is Failed || progress.phase == Phase::Ready,
    ensures
        run_from(setup, progress, events) == progress,
    decreases events.len(),
{
    if events.len() > 0 {
        lemma_end_is_final(setup, progress, events.drop_last());
    }
}

/// One more event takes a run one step further.
pub proof fn lemma_run_push(
    setup: SetupView,
    progress: Progress,
    events: Seq<Event>,
    event: Event,
)
    ensures
        run_from(setup, progress, events.push(event)) == step_model(
            setup,
            run_from(setup, progress, events),
            event,
        ).0,
{
    assert(events.push(event).drop_last() =~= events);
}

/// What the runtime hands out where it grants every request.
pub ghost struct Grants {
    pub layers: Vec<String>,
    pub instance: InstanceHandle,
    pub messenger: DebugMessengerHandle,
    pub devices: Vec<PhysicalDevice>,
    pub device: LogicalDeviceHandle,
    pub queue: QueueHandle,
    pub surface: SurfaceHandle,
}

/// The events of a bootstrap in which every request is granted. The layers
/// and the messenger are reported only with validation enabled.
pub open spec fn granted(setup: SetupView, grants: Grants) -> Seq<Event> {
    let head = if setup.config.enabled {
        seq![
            Event::Layers(grants.layers),
            Event::InstanceCreated(grants.instance),
            Event::MessengerCreated(grants.messenger),
        ]
    } else {
        seq![Event::InstanceCreated(grants.instance)]
    };
    head.push(Event::Devices(grants.devices)).push(Event::DeviceCreated(grants.device)).push(
        Event::QueueRetrieved(grants.queue),
    ).push(Event::SurfaceBound(grants.surface))
}

/// A bootstrap whose requests are all granted gets ready: if no handle is
/// null, some device has a graphics family and, with validation enabled, the
/// runtime supports its layer, then the bootstrap is ready after the last
/// grant, and its context holds the handles that were granted, with the first
/// fit as its candidate and a messenger exactly with validation.
pub proof fn lemma_granted_bootstrap_is_ready(setup: SetupView, grants: Grants)
    requires
        grants.instance.0 != 0,
        grants.messenger.0 != 0,
        grants.device.0 != 0,
        grants.queue.0 != 0,
        grants.surface.0 != 0,
        !no_graphics_family(grants.devices@),
        setup.config.enabled ==> layer_supported(names(grants.layers@), setup.config.layer_name),
    ensures
        run(setup, granted(setup, grants)).phase == Phase::Ready,
        selection(grants.devices@) is Ok,
        context_parts(setup, run(setup, granted(setup, grants))) == (ContextParts {
            validation: setup.config.enabled,
            instance: grants.instance,
            messenger: if setup.config.enabled {
                DebugMessenger::Created(grants.messenger)
            } else {
                DebugMessenger::Disabled
            },
            candidate: selection(grants.devices@)->Ok_0,
            device: grants.device,
            queue: grants.queue,
            surface: grants.surface,
            live: true,
        }),
        well_formed(context_parts(setup, run(setup, granted(setup, grants)))),
{
    let start = initial(setup).0;
    let nothing = Seq::<Event>::empty();
    let head = if setup.config.enabled {
        nothing.push(Event::Layers(grants.layers)).push(
            Event::InstanceCreated(grants.instance),
        ).push(Event::MessengerCreated(grants.messenger))
    } else {
        nothing.push(Event::InstanceCreated(grants.instance))
    };
    assert(run_from(setup, start, nothing) == start);
    if setup.config.enabled {
        let one = nothing.push(Event::Layers(grants.layers));
        let two = one.push(Event::InstanceCreated(grants.instance));
        lemma_run_push(setup, start, nothing, Event::Layers(grants.layers));
        lemma_run_push(setup, start, one, Event::InstanceCreated(grants.instance));
        lemma_run_push(setup, start, two, Event::MessengerCreated(grants.messenger));
        assert(head =~= seq![
            Event::Layers(grants.layers),
            Event::InstanceCreated(grants.instance),
            Event::MessengerCreated(grants.messenger),
        ]);
    } else {
        lemma_run_push(setup, start, nothing, Event::InstanceCreated(grants.instance));
        assert(head =~= seq![Event::InstanceCreated(grants.instance)]);
    }
    assert(run_from(setup, start, head).phase == Phase::AwaitDevices);
    lemma_selection_exists(grants.devices);
    lemma_selection_fails_without_candidate(grants.devices@, selection(grants.devices@));
    let three = head.push(Event::Devices(grants.devices));
    let four = three.push(Event::DeviceCreated(grants.device));
    let five = four.push(Event::QueueRetrieved(grants.queue));
    lemma_run_push(setup, start, head, Event::Devices(grants.devices));
    lemma_run_push(setup, start, three, Event::DeviceCreated(grants.device));
    lemma_run_push(setup, start, four, Event::QueueRetrieved(grants.queue));
    lemma_run_push(setup, start, five, Event::SurfaceBound(grants.surface));
}

/// Gating by validation, step by step: a messenger is asked for only with
/// validation enabled, a messenger is registered only with validation enabled,
/// and a bootstrap that is ready has a registered messenger exactly if
/// validation is enabled. Its parts make a well-formed context.
pub proof fn lemma_messenger_gated_by_validation(
    setup: SetupView,
    progress: Progress,
    event: Event,
)
    requires
        consistent(setup, progress),
    ensures
        !(initial(setup).1 is CreateMessenger),
        step_model(setup, progress, event).1 is CreateMessenger ==> setup.config.enabled,
        progress.messenger is Created ==> setup.config.enabled,
        step_model(setup, progress, event).0.messenger is Created ==> setup.config.enabled,
        progress.phase == Phase::Ready ==> (progress.messenger is Created
            <==> setup.config.enabled),
        progress.phase == Phase::Ready ==> well_formed(context_parts(setup, progress)),
{
}

/// Gating by validation, over a whole bootstrap: whatever is reported, without
/// validation no messenger is ever registered or asked for, and once the
/// bootstrap is ready a messenger is registered exactly if validation is
/// enabled.
pub proof fn lemma_validation_gates_every_run(
    setup: SetupView,
    events: Seq<Event>,
    next: Event,
)
    ensures
        run(setup, events).messenger is Created ==> setup.config.enabled,
        step_model(setup, run(setup, events), next).1 is CreateMessenger
            ==> setup.config.enabled,
        run(setup, events).phase == Phase::Ready ==> (run(setup, events).messenger is Created
            <==> setup.config.enabled),
        run(setup, events).phase == Phase::Ready ==> well_formed(
            context_parts(setup, run(setup, events)),
        ),
{
    lemma_initial_consistent(setup);
    lemma_run_consistent(setup, initial(setup).0, events);
    lemma_messenger_gated_by_validation(setup, run(setup, events), next);
}

/// A logical device is asked for only in answer to an enumeration that holds
/// a graphics family, and then for the first fit.
pub proof fn lemma_device_requested_for_candidate(
    setup: SetupView,
    progress: Progress,
    event: Event,
)
    requires
        consistent(setup, progress),
        step_model(setup, progress, event).1 is CreateDevice,
    ensures
        progress.phase == Phase::AwaitDevices,
        event is Devices,
        selection(event->Devices_0@) is Ok,
        step_model(setup, progress, event).1 == ActionView::CreateDevice(
            device_descriptor(selection(event->Devices_0@)->Ok_0),
        ),
        step_model(setup, progress, event).0.candidate == Some(
            selection(event->Devices_0@)->Ok_0,
        ),
{
}

/// Without a graphics family the bootstrap fails with the selection error,
/// and whatever is reported afterwards, no logical device is asked for and
/// none is taken: the failure stays, with its error.
pub proof fn lemma_no_device_without_candidate(
    setup: SetupView,
    progress: Progress,
    devices: Vec<PhysicalDevice>,
    later: Seq<Event>,
    next: Event,
)
    requires
        consistent(setup, progress),
        progress.phase == Phase::AwaitDevices,
        no_graphics_family(devices@),
    ensures
        step_model(setup, progress, Event::Devices(devices)) == fail(
            progress,
            BootstrapError::DeviceSelection,
        ),
        run_from(setup, fail(progress, BootstrapError::DeviceSelection).0, later) == fail(
            progress,
            BootstrapError::DeviceSelection,
        ).0,
        step_model(
            setup,
            run_from(setup, fail(progress, BootstrapError::DeviceSelection).0, later),
            next,
        ).1 == ActionView::Abort(BootstrapError::DeviceSelection),
        fail(progress, BootstrapError::DeviceSelection).0.candidate is None,
        fail(progress, BootstrapError::DeviceSelection).0.device is None,
{
    lemma_selection_is_selected(
        devices@,
        Err::<PhysicalDeviceCandidate, BootstrapError>(BootstrapError::DeviceSelection),
    );
    lemma_end_is_final(setup, fail(progress, BootstrapError::DeviceSelection).0, later);
}

} // verus!
