//! What is fixed before the bootstrap starts: the platform, the validation
//! switch and the application's metadata.

use vstd::prelude::*;
use vstd::string::*;

verus! {

/// The platform that the surface is made for.
#[derive(Clone, Copy, Debug, PartialEq, Eq, Structural)]
pub enum Platform {
    Linux,
    MacOs,
    Windows,
}

/// The names held by a list of strings, in order.
pub open spec fn names(list: Seq<String>) -> Seq<Seq<char>> {
    Seq::new(list.len(), |i: int| list[i]@)
}

/// The name of the validation layer that `ValidationConfig::new` asks for.
pub open spec fn validation_layer_name() -> Seq<char> {
    "VK_LAYER_KHRONOS_validation"@
}

/// Whether validation is wanted, and the layer that provides it. It is decided
/// once and handed on by reference.
#[derive(Debug, PartialEq, Eq)]
pub struct ValidationConfig {
    pub enabled: bool,
    pub layer_name: String,
}

/// The mathematical content of a `ValidationConfig`.
pub ghost struct ValidationConfigView {
    pub enabled: bool,
    pub layer_name: Seq<char>,
}

impl View for ValidationConfig {
    type V = ValidationConfigView;

    open spec fn view(&self) -> ValidationConfigView {
        ValidationConfigView { enabled: self.enabled, layer_name: self.layer_name@ }
    }
}

impl ValidationConfig {
    /// A configuration with the standard validation layer.
    pub fn new(enabled: bool) -> (config: ValidationConfig)
        ensures
            config@.enabled == enabled,
            config@.layer_name == validation_layer_name(),
    {
        ValidationConfig { enabled, layer_name: String::from_str("VK_LAYER_KHRONOS_validation") }
    }
}

/// What the application tells the runtime about itself.
#[derive(Debug, PartialEq, Eq)]
pub struct AppMetadata {
    pub application_name: String,
    pub engine_name: String,
    pub api_version: u32,
    pub engine_version: u32,
    pub application_version: u32,
}

/// The mathematical content of an `AppMetadata`.
pub ghost struct AppMetadataView {
    pub application_name: Seq<char>,
    pub engine_name: Seq<char>,
    pub api_version: u32,
    pub engine_version: u32,
    pub application_version: u32,
}

impl View for AppMetadata {
    type V = AppMetadataView;

    open spec fn view(&self) -> AppMetadataView {
        AppMetadataView {
            application_name: self.application_name@,
            engine_name: self.engine_name@,
            api_version: self.api_version,
            engine_version: self.engine_version,
            application_version: self.application_version,
        }
    }
}

impl AppMetadata {
    /// A copy of the metadata.
    pub fn duplicate(&self) -> (copy: AppMetadata)
        ensures
            copy@ == self@,
    {
        AppMetadata {
            application_name: self.application_name.clone(),
            engine_name: self.engine_name.clone(),
            api_version: self.api_version,
            engine_version: self.engine_version,
            application_version: self.application_version,
        }
    }
}

/// A copy of a list of names.
pub fn clone_names(list: &Vec<String>) -> (copy: Vec<String>)
    ensures
        names(copy@) == names(list@),
{
    let mut copy: Vec<String> = Vec::new();
    let mut i: usize = 0;
    while i < list.len()
        invariant
            i <= list.len(),
            copy.len() == i,
            forall|j: int| 0 <= j < i ==> copy[j]@ == list[j]@,
        decreases list.len() - i,
    {
        copy.push(list[i].clone());
        i += 1;
    }
    assert(names(copy@) =~= names(list@));
    copy
}

} // verus!
