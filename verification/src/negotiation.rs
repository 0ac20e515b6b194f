//! Which instance extensions and layers are requested.

use crate::config::{names, Platform, ValidationConfig, ValidationConfigView};
use crate::vulkan::{
    api_version, enumerate_portability, enumerate_portability_bit,
    get_physical_device_properties2, get_physical_device_properties2_name,
    portability_enumeration, portability_enumeration_name,
};
use vstd::prelude::*;

verus! {

/// The version of the API from which on macOS needs no portability
/// extensions: 1.3.216. Only versions below it need them.
pub open spec fn portability_threshold() -> u32 {
    api_version(0, 1, 3, 216)
}

/// Whether the portability extensions and flag are requested: on macOS, for an
/// API version below the threshold. At the threshold itself they are not.
pub open spec fn needs_portability(platform: Platform, version: u32) -> bool {
    platform == Platform::MacOs && version < portability_threshold()
}

/// What is requested of the instance besides the application's metadata.
#[derive(Debug, PartialEq, Eq)]
pub struct Negotiation {
    /// Instance extension names, in the order in which they are requested.
    pub extensions: Vec<String>,
    /// Layer names.
    pub layers: Vec<String>,
    /// Instance creation flags.
    pub flags: u32,
}

/// The mathematical content of a `Negotiation`.
pub ghost struct NegotiationView {
    pub extensions: Seq<Seq<char>>,
    pub layers: Seq<Seq<char>>,
    pub flags: u32,
}

impl View for Negotiation {
    type V = NegotiationView;

    open spec fn view(&self) -> NegotiationView {
        NegotiationView {
            extensions: names(self.extensions@),
            layers: names(self.layers@),
            flags: self.flags,
        }
    }
}

/// The extensions that are requested: those of the surface, followed on a
/// platform that needs portability by the two portability extensions.
pub open spec fn negotiated_extensions(
    platform: Platform,
    surface_extensions: Seq<Seq<char>>,
    version: u32,
) -> Seq<Seq<char>> {
    if needs_portability(platform, version) {
        surface_extensions.push(get_physical_device_properties2_name()).push(
            portability_enumeration_name(),
        )
    } else {
        surface_extensions
    }
}

/// The layers that are requested: the validation layer if validation is
/// enabled, none otherwise.
pub open spec fn negotiated_layers(config: ValidationConfigView) -> Seq<Seq<char>> {
    if config.enabled {
        seq![config.layer_name]
    } else {
        Seq::empty()
    }
}

/// The outcome of the negotiation as a function of its inputs.
pub open spec fn negotiated(
    platform: Platform,
    surface_extensions: Seq<Seq<char>>,
    version: u32,
    config: ValidationConfigView,
) -> NegotiationView {
    NegotiationView {
        extensions: negotiated_extensions(platform, surface_extensions, version),
        layers: negotiated_layers(config),
        flags: if needs_portability(platform, version) {
            enumerate_portability_bit()
        } else {
            0
        },
    }
}

/// Tells whether the platform needs the portability extensions for the API
/// version that the application asks for.
pub fn portability_required(platform: Platform, version: u32) -> (required: bool)
    ensures
        required == needs_portability(platform, version),
{
    match platform {
        Platform::MacOs => version < ash::vk::make_api_version(0, 1, 3, 216),
        _ => false,
    }
}

/// Decides the extensions, layers and flags that the instance is created
/// with. `surface_extensions` are the extensions that the platform needs for
/// presenting to a window, in the order in which the platform names them.
pub fn negotiate(
    platform: Platform,
    surface_extensions: Vec<String>,
    version: u32,
    config: &ValidationConfig,
) -> (outcome: Negotiation)
    ensures
        outcome@ == negotiated(platform, names(surface_extensions@), version, config@),
{
    let portable = portability_required(platform, version);
    let mut extensions = surface_extensions;
    let mut flags: u32 = 0;
    if portable {
        extensions.push(get_physical_device_properties2());
        extensions.push(portability_enumeration());
        flags = enumerate_portability();
    }
    let mut layers: Vec<String> = Vec::new();
    if config.enabled {
        layers.push(config.layer_name.clone());
    }
    let outcome = Negotiation { extensions, layers, flags };
    proof {
        assert(outcome@.extensions =~= negotiated_extensions(
            platform,
            names(surface_extensions@),
            version,
        ));
        assert(outcome@.layers =~= negotiated_layers(config@));
    }
    outcome
}

/// The threshold is the packed version 1.3.216 of variant 0, and portability
/// is needed on macOS below it and nowhere else: not at the threshold, not
/// above it, and on no other platform.
pub proof fn lemma_portability_threshold(platform: Platform, version: u32)
    ensures
        portability_threshold() == 4_206_808,
        needs_portability(platform, version) <==> platform == Platform::MacOs && version
            < 4_206_808,
        !needs_portability(platform, portability_threshold()),
{
    assert((0u32 << 29) | (1u32 << 22) | (3u32 << 12) | 216u32 == 4_206_808u32) by (bit_vector);
}

/// Negotiation is a function of its inputs: two outcomes for the same
/// platform, surface extensions, version and configuration are the same.
pub proof fn lemma_negotiation_deterministic(
    platform: Platform,
    surface_extensions: Seq<Seq<char>>,
    version: u32,
    config: ValidationConfigView,
    first: Negotiation,
    second: Negotiation,
)
    requires
        first@ == negotiated(platform, surface_extensions, version, config),
        second@ == negotiated(platform, surface_extensions, version, config),
    ensures
        first@ == second@,
        first@.extensions == second@.extensions,
        first@.layers == second@.layers,
{
}

/// The layer list is empty exactly when validation is disabled, and the
/// surface extensions always lead the extension list, in their order.
pub proof fn lemma_negotiated_shape(
    platform: Platform,
    surface_extensions: Seq<Seq<char>>,
    version: u32,
    config: ValidationConfigView,
)
    ensures
        negotiated(platform, surface_extensions, version, config).layers.len() == 0
            <==> !config.enabled,
        surface_extensions.is_prefix_of(
            negotiated(platform, surface_extensions, version, config).extensions,
        ),
        negotiated(platform, surface_extensions, version, config).extensions.len()
            == surface_extensions.len() + (if needs_portability(platform, version) {
            2int
        } else {
            0int
        }),
{
}

} // verus!
