//! The ways in which a bootstrap ends without a context.

use vstd::prelude::*;
use vstd::string::*;

verus! {

/// The request that was outstanding when the runtime refused.
#[derive(Clone, Copy, Debug, PartialEq, Eq, Structural)]
pub enum Stage {
    /// Listing the layers that the runtime supports.
    Layers,
    /// Creating the instance.
    Instance,
    /// Registering the debug messenger.
    Messenger,
    /// Listing the physical devices and their queue families.
    Devices,
    /// Creating the logical device.
    Device,
    /// Retrieving the queue.
    Queue,
    /// Binding the surface to the window.
    Surface,
}

/// A fatal error of the bootstrap. None of them is retried.
#[derive(Clone, Copy, Debug, PartialEq, Eq, Structural)]
pub enum BootstrapError {
    /// Validation was asked for and the runtime does not offer the layer.
    Configuration,
    /// The runtime refused the request of the given stage.
    Initialization(Stage),
    /// No physical device has a queue family that takes graphics work.
    DeviceSelection,
}

impl Stage {
    /// What the runtime was asked to do at this stage.
    pub open spec fn request(self) -> Seq<char> {
        match self {
            Stage::Layers => "list the supported layers"@,
            Stage::Instance => "create the instance"@,
            Stage::Messenger => "register the debug messenger"@,
            Stage::Devices => "list the physical devices"@,
            Stage::Device => "create the logical device"@,
            Stage::Queue => "retrieve the queue"@,
            Stage::Surface => "bind the surface"@,
        }
    }

    /// Names what the runtime was asked to do at this stage.
    pub fn describe(&self) -> (text: &'static str)
        ensures
            text@ == self.request(),
    {
        match self {
            Stage::Layers => "list the supported layers",
            Stage::Instance => "create the instance",
            Stage::Messenger => "register the debug messenger",
            Stage::Devices => "list the physical devices",
            Stage::Device => "create the logical device",
            Stage::Queue => "retrieve the queue",
            Stage::Surface => "bind the surface",
        }
    }
}

impl BootstrapError {
    /// The message that reports the error.
    pub open spec fn text(self) -> Seq<char> {
        match self {
            BootstrapError::Configuration => "validation layer requested, but not available"@,
            BootstrapError::Initialization(stage) => "the Vulkan runtime refused to "@
                + stage.request(),
            BootstrapError::DeviceSelection => "no physical device with a graphics queue family"@,
        }
    }

    /// Describes the error for the one who reads the report.
    pub fn message(&self) -> (text: String)
        ensures
            text@ == self.text(),
    {
        match self {
            BootstrapError::Configuration => String::from_str(
                "validation layer requested, but not available",
            ),
            BootstrapError::Initialization(stage) => {
                let mut text = String::from_str("the Vulkan runtime refused to ");
                text.append(stage.describe());
                text
            },
            BootstrapError::DeviceSelection => String::from_str(
                "no physical device with a graphics queue family",
            ),
        }
    }
}

} // verus!
