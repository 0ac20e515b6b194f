//! The context that owns every handle, and the order in which it gives them
//! up.

use crate::device::PhysicalDeviceCandidate;
use crate::handles::{
    DebugMessengerHandle, InstanceHandle, LogicalDeviceHandle, QueueHandle, SurfaceHandle,
};
use crate::messenger::DebugMessenger;
use vstd::prelude::*;

verus! {

/// What a context holds.
#[derive(Clone, Copy, Debug, PartialEq, Eq, Structural)]
pub struct ContextParts {
    /// Whether the context was built with validation enabled.
    pub validation: bool,
    pub instance: InstanceHandle,
    pub messenger: DebugMessenger,
    pub candidate: PhysicalDeviceCandidate,
    pub device: LogicalDeviceHandle,
    pub queue: QueueHandle,
    pub surface: SurfaceHandle,
    /// Whether the handles are still owned: true until teardown.
    pub live: bool,
}

/// Whether the messenger is in the state that the validation switch and the
/// context's life call for: without validation `Disabled` throughout, with it
/// `Created` under a handle that is not null while the context lives and
/// `Destroyed` after.
pub open spec fn messenger_gated(parts: ContextParts) -> bool {
    if !parts.validation {
        parts.messenger == DebugMessenger::Disabled
    } else if parts.live {
        parts.messenger matches DebugMessenger::Created(handle) && handle.0 != 0
    } else {
        parts.messenger == DebugMessenger::Destroyed
    }
}

/// Whether the parts make a context: the messenger is gated by validation, and
/// no handle is null.
pub open spec fn well_formed(parts: ContextParts) -> bool {
    &&& messenger_gated(parts)
    &&& parts.instance.0 != 0
    &&& parts.device.0 != 0
    &&& parts.queue.0 != 0
    &&& parts.surface.0 != 0
}

/// One call of teardown.
#[derive(Clone, Copy, Debug, PartialEq, Eq, Structural)]
pub enum TeardownStep {
    DestroyMessenger(DebugMessengerHandle),
    DestroyDevice(LogicalDeviceHandle),
    DestroySurface(SurfaceHandle),
    DestroyInstance(InstanceHandle),
}

/// The calls of teardown, in order: the messenger if one is registered, the
/// logical device, the surface, and the instance last.
pub open spec fn teardown_order(parts: ContextParts) -> Seq<TeardownStep> {
    let rest = seq![
        TeardownStep::DestroyDevice(parts.device),
        TeardownStep::DestroySurface(parts.surface),
        TeardownStep::DestroyInstance(parts.instance),
    ];
    match parts.messenger {
        DebugMessenger::Created(handle) => seq![TeardownStep::DestroyMessenger(handle)] + rest,
        _ => rest,
    }
}

/// What a context holds after teardown.
pub open spec fn torn_down(parts: ContextParts) -> ContextParts {
    ContextParts { messenger: parts.messenger.torn_down(), live: false, ..parts }
}

/// The calls that an attempt at teardown hands out: those of teardown for a
/// context that lives, none at all for one that was torn down before.
pub open spec fn attempted(parts: ContextParts) -> Option<Seq<TeardownStep>> {
    if parts.live {
        Some(teardown_order(parts))
    } else {
        None
    }
}

/// What a context holds after an attempt at teardown: a context that was torn
/// down before is left as it is.
pub open spec fn after_attempt(parts: ContextParts) -> ContextParts {
    if parts.live {
        torn_down(parts)
    } else {
        parts
    }
}

/// The single owner of the handles of a bootstrap.
pub struct ApplicationContext {
    parts: ContextParts,
}

impl View for ApplicationContext {
    type V = ContextParts;

    closed spec fn view(&self) -> ContextParts {
        self.parts
    }
}

impl ApplicationContext {
    #[verifier::type_invariant]
    spec fn inv(self) -> bool {
        well_formed(self.parts)
    }

    /// Puts a context together from handles that were acquired. There is a
    /// context exactly if no handle is null and a messenger is given exactly
    /// with validation enabled.
    pub fn assemble(
        validation: bool,
        instance: InstanceHandle,
        messenger: Option<DebugMessengerHandle>,
        candidate: PhysicalDeviceCandidate,
        device: LogicalDeviceHandle,
        queue: QueueHandle,
        surface: SurfaceHandle,
    ) -> (context: Option<ApplicationContext>)
        ensures
            context is Some <==> {
                &&& messenger is Some <==> validation
                &&& messenger matches Some(handle) ==> handle.0 != 0
                &&& instance.0 != 0
                &&& device.0 != 0
                &&& queue.0 != 0
                &&& surface.0 != 0
            },
            context matches Some(c) ==> c@ == (ContextParts {
                validation,
                instance,
                messenger: match messenger {
                    Some(handle) => DebugMessenger::Created(handle),
                    None => DebugMessenger::Disabled,
                },
                candidate,
                device,
                queue,
                surface,
                live: true,
            }),
    {
        let state = match messenger {
            Some(handle) => {
                if !validation || handle.0 == 0 {
                    return None;
                }
                DebugMessenger::Created(handle)
            },
            None => {
                if validation {
                    return None;
                }
                DebugMessenger::Disabled
            },
        };
        if instance.0 == 0 || device.0 == 0 || queue.0 == 0 || surface.0 == 0 {
            return None;
        }
        Some(
            ApplicationContext {
                parts: ContextParts {
                    validation,
                    instance,
                    messenger: state,
                    candidate,
                    device,
                    queue,
                    surface,
                    live: true,
                },
            },
        )
    }

    /// What the context holds. It is always well formed.
    pub fn parts(&self) -> (parts: ContextParts)
        ensures
            parts == self@,
            well_formed(parts),
    {
        proof {
            use_type_invariant(self);
        }
        self.parts
    }

    /// Tears the context down: hands out the calls to make, in order, and
    /// marks the context as destroyed. It is for a context that lives, so it
    /// cannot be called twice on one context: after the first call the
    /// context does not live. A caller that Verus does not check calls
    /// `try_destroy`, which looks at the mark itself.
    pub fn destroy(&mut self) -> (plan: Vec<TeardownStep>)
        requires
            old(self)@.live,
        ensures
            plan@ == teardown_order(old(self)@),
            final(self)@ == torn_down(old(self)@),
    {
        proof {
            use_type_invariant(&*self);
        }
        let mut plan: Vec<TeardownStep> = Vec::new();
        let mut messenger = self.parts.messenger;
        match messenger.destroy() {
            Some(handle) => plan.push(TeardownStep::DestroyMessenger(handle)),
            None => {},
        }
        plan.push(TeardownStep::DestroyDevice(self.parts.device));
        plan.push(TeardownStep::DestroySurface(self.parts.surface));
        plan.push(TeardownStep::DestroyInstance(self.parts.instance));
        assert(plan@ =~= teardown_order(self.parts));
        self.parts = ContextParts { messenger, live: false, ..self.parts };
        plan
    }

    /// Tears the context down unless that was done before. A second call
    /// is refused: it gets no calls to make, and changes nothing.
    pub fn try_destroy(&mut self) -> (plan: Option<Vec<TeardownStep>>)
        ensures
            match plan {
                Some(steps) => attempted(old(self)@) == Some(steps@),
                None => attempted(old(self)@) is None,
            },
            final(self)@ == after_attempt(old(self)@),
    {
        if self.parts.live {
            Some(self.destroy())
        } else {
            None
        }
    }
}

/// Gating by validation: a living context has a registered messenger exactly
/// if it was built with validation, and teardown destroys a messenger exactly
/// then. Without validation the messenger is `Disabled` before and after.
pub proof fn lemma_validation_gating(parts: ContextParts)
    requires
        well_formed(parts),
        parts.live,
    ensures
        parts.messenger is Created <==> parts.validation,
        (exists|i: int|
            0 <= i < teardown_order(parts).len() && #[trigger] teardown_order(parts)[i]
                is DestroyMessenger) <==> parts.validation,
        !parts.validation ==> parts.messenger == DebugMessenger::Disabled && torn_down(
            parts,
        ).messenger == DebugMessenger::Disabled,
        well_formed(torn_down(parts)),
{
    let plan = teardown_order(parts);
    if parts.validation {
        assert(plan[0] is DestroyMessenger);
    }
}

/// Teardown is for one call. After it the context does not live, whatever it
/// held: `destroy` cannot be called on it, an attempt hands out no call, so
/// that none reaches a handle that was destroyed, and nothing changes any
/// more. What is destroyed stays destroyed.
pub proof fn lemma_teardown_single_call(parts: ContextParts)
    ensures
        !torn_down(parts).live,
        !after_attempt(parts).live,
        parts.live ==> attempted(parts) == Some(teardown_order(parts)) && after_attempt(parts)
            == torn_down(parts),
        attempted(torn_down(parts)) is None,
        attempted(after_attempt(parts)) is None,
        after_attempt(torn_down(parts)) == torn_down(parts),
        after_attempt(after_attempt(parts)) == after_attempt(parts),
        !(torn_down(parts).messenger is Created),
        well_formed(parts) ==> well_formed(after_attempt(parts)),
{
}

/// Order of teardown: every handle is destroyed once, the messenger before
/// the device, the device and the surface before the instance, and the
/// instance last, with or without a messenger.
pub proof fn lemma_teardown_ordering(parts: ContextParts, i: int, j: int)
    requires
        0 <= i < teardown_order(parts).len(),
        0 <= j < teardown_order(parts).len(),
    ensures
        teardown_order(parts)[i] is DestroyMessenger && teardown_order(parts)[j] is DestroyDevice
            ==> i < j,
        teardown_order(parts)[i] is DestroyDevice && teardown_order(parts)[j] is DestroyInstance
            ==> i < j,
        teardown_order(parts)[i] is DestroySurface && teardown_order(parts)[j]
            is DestroyInstance ==> i < j,
        teardown_order(parts)[i] is DestroyMessenger ==> parts.messenger
            == DebugMessenger::Created(teardown_order(parts)[i]->DestroyMessenger_0),
        teardown_order(parts)[i] is DestroyDevice ==> teardown_order(parts)[i]
            == TeardownStep::DestroyDevice(parts.device),
        teardown_order(parts)[i] is DestroySurface ==> teardown_order(parts)[i]
            == TeardownStep::DestroySurface(parts.surface),
        teardown_order(parts)[i] is DestroyInstance ==> teardown_order(parts)[i]
            == TeardownStep::DestroyInstance(parts.instance),
        teardown_order(parts)[i] == teardown_order(parts)[j] ==> i == j,
        teardown_order(parts).last() == TeardownStep::DestroyInstance(parts.instance),
        teardown_order(parts).len() == if parts.messenger is Created {
            4int
        } else {
            3int
        },
{
}

} // verus!
