//! The handles that the runtime gives out, as the raw numbers behind them. The
//! null handle is zero.

use vstd::prelude::*;

verus! {

/// The instance. It has to outlive every other handle.
#[derive(Clone, Copy, Debug, PartialEq, Eq, Structural)]
pub struct InstanceHandle(pub u64);

/// A registered debug messenger. It depends on the instance.
#[derive(Clone, Copy, Debug, PartialEq, Eq, Structural)]
pub struct DebugMessengerHandle(pub u64);

/// A physical device, borrowed from the instance's enumeration.
#[derive(Clone, Copy, Debug, PartialEq, Eq, Structural)]
pub struct PhysicalDeviceHandle(pub u64);

/// The logical device. It depends on the physical device and on the instance.
#[derive(Clone, Copy, Debug, PartialEq, Eq, Structural)]
pub struct LogicalDeviceHandle(pub u64);

/// A queue of the logical device. It is gone when the device is.
#[derive(Clone, Copy, Debug, PartialEq, Eq, Structural)]
pub struct QueueHandle(pub u64);

/// The surface of the window. It depends on the instance.
#[derive(Clone, Copy, Debug, PartialEq, Eq, Structural)]
pub struct SurfaceHandle(pub u64);

} // verus!
