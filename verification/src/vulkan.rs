//! What the library takes from the `ash` bindings: version packing, extension
//! names and flag bits. Each function here whose body makes the call states
//! what the binding returns, and that statement is not proved; so it is with
//! what is stated of `make_api_version`.

use vstd::prelude::*;

verus! {

/// A packed Vulkan version: three bits of variant, seven of major, ten of minor
/// and twelve of patch, from the top down.
pub open spec fn api_version(variant: u32, major: u32, minor: u32, patch: u32) -> u32 {
    (variant << 29) | (major << 22) | (minor << 12) | patch
}

/// `ash::vk::make_api_version` shifts the variant by 29, the major number by 22
/// and the minor number by 12 bits and ors them with the patch number, for all
/// arguments.
pub assume_specification[ ash::vk::make_api_version ](
    variant: u32,
    major: u32,
    minor: u32,
    patch: u32,
) -> (version: u32)
    ensures
        version == api_version(variant, major, minor, patch),
;

/// The name of the extension `VK_KHR_get_physical_device_properties2`.
pub open spec fn get_physical_device_properties2_name() -> Seq<char> {
    "VK_KHR_get_physical_device_properties2"@
}

/// The name of the extension `VK_KHR_portability_enumeration`.
pub open spec fn portability_enumeration_name() -> Seq<char> {
    "VK_KHR_portability_enumeration"@
}

/// `ash::vk::KhrGetPhysicalDeviceProperties2Fn::name` returns the C string
/// `VK_KHR_get_physical_device_properties2`, for which
/// `CStr::to_string_lossy` gives a string of the same characters.
#[verifier::external_body]
pub(crate) fn get_physical_device_properties2() -> (name: String)
    ensures
        name@ == get_physical_device_properties2_name(),
{
    ash::vk::KhrGetPhysicalDeviceProperties2Fn::name().to_string_lossy().into_owned()
}

/// `ash::vk::KhrPortabilityEnumerationFn::name` returns the C string
/// `VK_KHR_portability_enumeration`, for which `CStr::to_string_lossy` gives a
/// string of the same characters.
#[verifier::external_body]
pub(crate) fn portability_enumeration() -> (name: String)
    ensures
        name@ == portability_enumeration_name(),
{
    ash::vk::KhrPortabilityEnumerationFn::name().to_string_lossy().into_owned()
}

/// The instance creation flag that makes portability devices visible.
pub open spec fn enumerate_portability_bit() -> u32 {
    0x1
}

/// `ash::vk::InstanceCreateFlags::ENUMERATE_PORTABILITY_KHR` is the lowest
/// bit, and `ash::vk::InstanceCreateFlags::as_raw` hands out the bits of a flag
/// value as they are.
#[verifier::external_body]
pub(crate) fn enumerate_portability() -> (bits: u32)
    ensures
        bits == enumerate_portability_bit(),
{
    ash::vk::InstanceCreateFlags::ENUMERATE_PORTABILITY_KHR.as_raw()
}

/// The queue capability bit for graphics submission.
pub open spec fn graphics_bit() -> u32 {
    0x1
}

/// Whether queue capability flags include graphics submission.
pub open spec fn has_graphics(queue_flags: u32) -> bool {
    queue_flags & graphics_bit() == graphics_bit()
}

/// `ash::vk::QueueFlags::from_raw` takes the bits as they are,
/// `ash::vk::QueueFlags::contains` tells whether every bit of its argument is
/// set in the receiver, and `ash::vk::QueueFlags::GRAPHICS` is the lowest bit.
#[verifier::external_body]
pub(crate) fn supports_graphics(queue_flags: u32) -> (yes: bool)
    ensures
        yes == has_graphics(queue_flags),
{
    ash::vk::QueueFlags::from_raw(queue_flags).contains(ash::vk::QueueFlags::GRAPHICS)
}

/// How severe a diagnostic message is.
#[derive(Clone, Copy, Debug, PartialEq, Eq, Structural)]
pub enum Severity {
    Verbose,
    Info,
    Warning,
    Error,
}

impl Severity {
    /// The bit that stands for this severity.
    pub open spec fn bit(self) -> u32 {
        match self {
            Severity::Verbose => 0x1,
            Severity::Info => 0x10,
            Severity::Warning => 0x100,
            Severity::Error => 0x1000,
        }
    }
}

/// What a diagnostic message is about.
#[derive(Clone, Copy, Debug, PartialEq, Eq, Structural)]
pub enum Category {
    General,
    Validation,
    Performance,
}

impl Category {
    /// The bit that stands for this category.
    pub open spec fn bit(self) -> u32 {
        match self {
            Category::General => 0x1,
            Category::Validation => 0x2,
            Category::Performance => 0x4,
        }
    }
}

/// `ash::vk::DebugUtilsMessageSeverityFlagsEXT::VERBOSE` is bit 0, and
/// `as_raw` hands out the bits of a flag value as they are.
#[verifier::external_body]
fn severity_verbose() -> (bits: u32)
    ensures
        bits == Severity::Verbose.bit(),
{
    ash::vk::DebugUtilsMessageSeverityFlagsEXT::VERBOSE.as_raw()
}

/// `ash::vk::DebugUtilsMessageSeverityFlagsEXT::INFO` is bit 4, and `as_raw`
/// hands out the bits of a flag value as they are.
#[verifier::external_body]
fn severity_info() -> (bits: u32)
    ensures
        bits == Severity::Info.bit(),
{
    ash::vk::DebugUtilsMessageSeverityFlagsEXT::INFO.as_raw()
}

/// `ash::vk::DebugUtilsMessageSeverityFlagsEXT::WARNING` is bit 8, and
/// `as_raw` hands out the bits of a flag value as they are.
#[verifier::external_body]
fn severity_warning() -> (bits: u32)
    ensures
        bits == Severity::Warning.bit(),
{
    ash::vk::DebugUtilsMessageSeverityFlagsEXT::WARNING.as_raw()
}

/// `ash::vk::DebugUtilsMessageSeverityFlagsEXT::ERROR` is bit 12, and `as_raw`
/// hands out the bits of a flag value as they are.
#[verifier::external_body]
fn severity_error() -> (bits: u32)
    ensures
        bits == Severity::Error.bit(),
{
    ash::vk::DebugUtilsMessageSeverityFlagsEXT::ERROR.as_raw()
}

/// `ash::vk::DebugUtilsMessageTypeFlagsEXT::GENERAL` is bit 0, and `as_raw`
/// hands out the bits of a flag value as they are.
#[verifier::external_body]
fn category_general() -> (bits: u32)
    ensures
        bits == Category::General.bit(),
{
    ash::vk::DebugUtilsMessageTypeFlagsEXT::GENERAL.as_raw()
}

/// `ash::vk::DebugUtilsMessageTypeFlagsEXT::VALIDATION` is bit 1, and `as_raw`
/// hands out the bits of a flag value as they are.
#[verifier::external_body]
fn category_validation() -> (bits: u32)
    ensures
        bits == Category::Validation.bit(),
{
    ash::vk::DebugUtilsMessageTypeFlagsEXT::VALIDATION.as_raw()
}

/// `ash::vk::DebugUtilsMessageTypeFlagsEXT::PERFORMANCE` is bit 2, and
/// `as_raw` hands out the bits of a flag value as they are.
#[verifier::external_body]
fn category_performance() -> (bits: u32)
    ensures
        bits == Category::Performance.bit(),
{
    ash::vk::DebugUtilsMessageTypeFlagsEXT::PERFORMANCE.as_raw()
}

/// The bit of a severity, as the bindings have it.
pub fn severity_bit(severity: Severity) -> (bits: u32)
    ensures
        bits == severity.bit(),
{
    match severity {
        Severity::Verbose => severity_verbose(),
        Severity::Info => severity_info(),
        Severity::Warning => severity_warning(),
        Severity::Error => severity_error(),
    }
}

/// The bit of a category, as the bindings have it.
pub fn category_bit(category: Category) -> (bits: u32)
    ensures
        bits == category.bit(),
{
    match category {
        Category::General => category_general(),
        Category::Validation => category_validation(),
        Category::Performance => category_performance(),
    }
}

} // verus!
