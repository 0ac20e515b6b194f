//! What the instance is created with.

use crate::config::{names, AppMetadata, AppMetadataView, ValidationConfig, ValidationConfigView};
use crate::error::BootstrapError;
use crate::messenger::{debug_create_info, messenger_descriptor, MessengerDescriptor};
use crate::negotiation::{Negotiation, NegotiationView};
use vstd::prelude::*;

verus! {

/// Whether the runtime offers the layer: whether its name is among those that
/// the runtime lists.
pub open spec fn layer_supported(supported: Seq<Seq<char>>, layer_name: Seq<char>) -> bool {
    exists|i: int| 0 <= i < supported.len() && #[trigger] supported[i] == layer_name
}

/// Whether the instance can be created as configured: validation is off, or
/// the runtime offers the validation layer.
pub open spec fn validation_available(
    config: ValidationConfigView,
    supported: Seq<Seq<char>>,
) -> bool {
    config.enabled ==> layer_supported(supported, config.layer_name)
}

/// Looks for a layer among the layers that the runtime lists.
pub fn check_validation_support(supported: &Vec<String>, layer_name: &str) -> (found: bool)
    ensures
        found == layer_supported(names(supported@), layer_name@),
{
    let wanted: String = layer_name.to_owned();
    let mut i: usize = 0;
    while i < supported.len()
        invariant
            i <= supported.len(),
            wanted@ == layer_name@,
            forall|j: int| 0 <= j < i ==> supported[j]@ != layer_name@,
        decreases supported.len() - i,
    {
        if supported[i] == wanted {
            assert(names(supported@)[i as int] == layer_name@);
            return true;
        }
        i += 1;
    }
    assert forall|j: int| 0 <= j < names(supported@).len() implies #[trigger] names(
        supported@,
    )[j] != layer_name@ by {
        assert(supported[j]@ != layer_name@);
    }
    false
}

/// What an instance is created with.
#[derive(Debug, PartialEq, Eq)]
pub struct InstanceDescriptor {
    /// The application's and the engine's name and version.
    pub metadata: AppMetadata,
    /// Instance creation flags.
    pub flags: u32,
    /// Names of the instance extensions to enable, in order.
    pub extensions: Vec<String>,
    /// Names of the layers to enable.
    pub layers: Vec<String>,
    /// The messenger that listens from the first call for the instance on, if
    /// there is one.
    pub messenger: Option<MessengerDescriptor>,
}

/// The mathematical content of an `InstanceDescriptor`.
pub ghost struct InstanceDescriptorView {
    pub metadata: AppMetadataView,
    pub flags: u32,
    pub extensions: Seq<Seq<char>>,
    pub layers: Seq<Seq<char>>,
    pub messenger: Option<MessengerDescriptor>,
}

impl View for InstanceDescriptor {
    type V = InstanceDescriptorView;

    open spec fn view(&self) -> InstanceDescriptorView {
        InstanceDescriptorView {
            metadata: self.metadata@,
            flags: self.flags,
            extensions: names(self.extensions@),
            layers: names(self.layers@),
            messenger: self.messenger,
        }
    }
}

/// The descriptor for given metadata and negotiated requests. Layers and the
/// chained messenger are there only with validation enabled.
pub open spec fn instance_descriptor(
    metadata: AppMetadataView,
    negotiation: NegotiationView,
    validation: bool,
) -> InstanceDescriptorView {
    InstanceDescriptorView {
        metadata,
        flags: negotiation.flags,
        extensions: negotiation.extensions,
        layers: if validation {
            negotiation.layers
        } else {
            Seq::empty()
        },
        messenger: if validation {
            Some(messenger_descriptor())
        } else {
            None
        },
    }
}

/// What creating the instance comes to: the descriptor, or a configuration
/// error where validation is enabled and the runtime lacks its layer.
pub open spec fn instance_request(
    metadata: AppMetadataView,
    negotiation: NegotiationView,
    config: ValidationConfigView,
    supported: Seq<Seq<char>>,
    outcome: Result<InstanceDescriptor, BootstrapError>,
) -> bool {
    match outcome {
        Ok(descriptor) => {
            &&& validation_available(config, supported)
            &&& descriptor@ == instance_descriptor(metadata, negotiation, config.enabled)
        },
        Err(error) => {
            &&& !validation_available(config, supported)
            &&& error == BootstrapError::Configuration
        },
    }
}

/// Describes the instance to create. `supported_layers` are the layers that
/// the runtime lists; they are looked at only with validation enabled.
pub fn create_instance(
    metadata: AppMetadata,
    negotiation: Negotiation,
    config: &ValidationConfig,
    supported_layers: &Vec<String>,
) -> (outcome: Result<InstanceDescriptor, BootstrapError>)
    ensures
        instance_request(metadata@, negotiation@, config@, names(supported_layers@), outcome),
{
    if config.enabled && !check_validation_support(supported_layers, config.layer_name.as_str()) {
        return Err(BootstrapError::Configuration);
    }
    let Negotiation { extensions, layers, flags } = negotiation;
    let descriptor = if config.enabled {
        InstanceDescriptor {
            metadata,
            flags,
            extensions,
            layers,
            messenger: Some(debug_create_info()),
        }
    } else {
        InstanceDescriptor { metadata, flags, extensions, layers: Vec::new(), messenger: None }
    };
    assert(descriptor@.layers =~= instance_descriptor(
        metadata@,
        negotiation@,
        config@.enabled,
    ).layers);
    Ok(descriptor)
}

} // verus!
