use vk_bootstrap::config::{AppMetadata, ValidationConfig};
use vk_bootstrap::error::BootstrapError;
use vk_bootstrap::instance::{check_validation_support, create_instance};
use vk_bootstrap::messenger::MessengerDescriptor;
use vk_bootstrap::negotiation::Negotiation;

fn metadata() -> AppMetadata {
    AppMetadata {
        application_name: "window_title".to_string(),
        engine_name: "Vulkan Engine".to_string(),
        api_version: 1 << 22,
        engine_version: (1 << 22) | 7,
        application_version: (2 << 22) | (1 << 12),
    }
}

fn negotiation(layers: Vec<String>) -> Negotiation {
    Negotiation {
        extensions: vec!["VK_KHR_surface".to_string(), "VK_EXT_debug_utils".to_string()],
        layers,
        flags: 1,
    }
}

fn layer() -> String {
    "VK_LAYER_KHRONOS_validation".to_string()
}

#[test]
fn a_listed_layer_is_supported() {
    let supported = vec!["VK_LAYER_other".to_string(), layer(), "VK_LAYER_last".to_string()];
    assert!(check_validation_support(&supported, "VK_LAYER_KHRONOS_validation"));
    assert!(check_validation_support(&supported, "VK_LAYER_other"));
    assert!(check_validation_support(&supported, "VK_LAYER_last"));
}

#[test]
fn an_unlisted_layer_is_not_supported() {
    let supported = vec!["VK_LAYER_other".to_string()];
    assert!(!check_validation_support(&supported, "VK_LAYER_KHRONOS_validation"));
    assert!(!check_validation_support(&supported, "VK_LAYER_othe"));
    assert!(!check_validation_support(&supported, "VK_LAYER_other "));
    assert!(!check_validation_support(&supported, ""));
}

#[test]
fn no_layer_is_supported_by_an_empty_list() {
    assert!(!check_validation_support(&vec![], "VK_LAYER_KHRONOS_validation"));
}

#[test]
fn a_missing_layer_is_a_configuration_error() {
    let config = ValidationConfig::new(true);
    let outcome = create_instance(
        metadata(),
        negotiation(vec![layer()]),
        &config,
        &vec!["VK_LAYER_other".to_string()],
    );
    assert_eq!(outcome, Err(BootstrapError::Configuration));
}

#[test]
fn a_missing_layer_does_not_matter_without_validation() {
    let config = ValidationConfig::new(false);
    let outcome = create_instance(metadata(), negotiation(vec![]), &config, &vec![]);
    let descriptor = outcome.unwrap();
    assert_eq!(descriptor.metadata, metadata());
    assert_eq!(descriptor.flags, 1);
    assert_eq!(
        descriptor.extensions,
        vec!["VK_KHR_surface".to_string(), "VK_EXT_debug_utils".to_string()]
    );
    assert!(descriptor.layers.is_empty());
    assert_eq!(descriptor.messenger, None);
}

#[test]
fn validation_chains_the_messenger_and_the_layer() {
    let config = ValidationConfig::new(true);
    let supported = vec![layer()];
    let descriptor =
        create_instance(metadata(), negotiation(vec![layer()]), &config, &supported).unwrap();
    assert_eq!(descriptor.layers, vec![layer()]);
    assert_eq!(
        descriptor.messenger,
        Some(MessengerDescriptor { severities: 0x1101, categories: 0x7 })
    );
    assert_eq!(descriptor.metadata.application_name, "window_title");
    assert_eq!(descriptor.metadata.engine_name, "Vulkan Engine");
    assert_eq!(descriptor.metadata.api_version, 4_194_304);
    assert_eq!(descriptor.metadata.engine_version, 4_194_311);
    assert_eq!(descriptor.metadata.application_version, 8_392_704);
}

#[test]
fn layers_are_dropped_without_validation() {
    let config = ValidationConfig::new(false);
    let descriptor =
        create_instance(metadata(), negotiation(vec![layer()]), &config, &vec![layer()]).unwrap();
    assert!(descriptor.layers.is_empty());
    assert_eq!(descriptor.messenger, None);
}

#[test]
fn metadata_is_copied_field_by_field() {
    let first = metadata();
    let copy = first.duplicate();
    assert_eq!(copy, first);
}
