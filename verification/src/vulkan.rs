//! The values this library takes from the `ash` bindings.
//!
//! Each function here hands out one value that `ash` defines. Its contract is
//! read off the `ash` source and is not proved: the rest of the crate is
//! verified against these contracts.

use vstd::prelude::*;

verus! {

/// The 32-bit packing of an API version: from the top down, three bits of
/// variant, seven of major, ten of minor and twelve of patch.
pub open spec fn packed_version(variant: u32, major: u32, minor: u32, patch: u32) -> u32 {
    (variant << 29) | (major << 22) | (minor << 12) | patch
}

/// Name of the debug-utilities instance extension.
pub open spec fn debug_utils_extension() -> Seq<char> {
    "VK_EXT_debug_utils"@
}

/// Name of the extension that lets portability implementations be enumerated.
pub open spec fn portability_enumeration_extension() -> Seq<char> {
    "VK_KHR_portability_enumeration"@
}

/// Name of the extension that the portability subset presupposes.
pub open spec fn physical_device_properties2_extension() -> Seq<char> {
    "VK_KHR_get_physical_device_properties2"@
}

/// The three extension names above are pairwise different.
pub proof fn lemma_extension_names_differ()
    ensures
        debug_utils_extension() != portability_enumeration_extension(),
        debug_utils_extension() != physical_device_properties2_extension(),
        portability_enumeration_extension() != physical_device_properties2_extension(),
{
    reveal_strlit("VK_EXT_debug_utils");
    reveal_strlit("VK_KHR_portability_enumeration");
    reveal_strlit("VK_KHR_get_physical_device_properties2");
    assert(debug_utils_extension().len() == 18);
    assert(portability_enumeration_extension().len() == 30);
    assert(physical_device_properties2_extension().len() == 38);
}

/// Calls `ash::vk::make_api_version`, which shifts the variant left by 29
/// bits, the major number by 22 and the minor number by 12, and combines
/// them and the patch number with bitwise or. Bits shifted out of the word
/// are lost; there is no input on which it fails.
#[verifier::external_body]
pub(crate) fn make_api_version(variant: u32, major: u32, minor: u32, patch: u32) -> (packed: u32)
    ensures
        packed == packed_version(variant, major, minor, patch),
{
    ash::vk::make_api_version(variant, major, minor, patch)
}

/// Reads `ash::ext::debug_utils::NAME`, the C string `VK_EXT_debug_utils`.
#[verifier::external_body]
pub(crate) fn debug_utils_extension_name() -> (name: String)
    ensures
        name@ == debug_utils_extension(),
{
    ash::ext::debug_utils::NAME.to_string_lossy().into_owned()
}

/// Reads `ash::khr::portability_enumeration::NAME`, the C string
/// `VK_KHR_portability_enumeration`.
#[verifier::external_body]
pub(crate) fn portability_enumeration_extension_name() -> (name: String)
    ensures
        name@ == portability_enumeration_extension(),
{
    ash::khr::portability_enumeration::NAME.to_string_lossy().into_owned()
}

/// Reads `ash::khr::get_physical_device_properties2::NAME`, the C string
/// `VK_KHR_get_physical_device_properties2`.
#[verifier::external_body]
pub(crate) fn physical_device_properties2_extension_name() -> (name: String)
    ensures
        name@ == physical_device_properties2_extension(),
{
    ash::khr::get_physical_device_properties2::NAME.to_string_lossy().into_owned()
}

/// Reads `ash::vk::DebugUtilsMessageSeverityFlagsEXT::VERBOSE`, which `ash`
/// defines as bit 0, through `as_raw`, which hands out the wrapped word.
#[verifier::external_body]
pub(crate) fn severity_verbose_bits() -> (bits: u32)
    ensures
        bits == 0x0001,
{
    ash::vk::DebugUtilsMessageSeverityFlagsEXT::VERBOSE.as_raw()
}

/// Reads `ash::vk::DebugUtilsMessageSeverityFlagsEXT::INFO`, which `ash`
/// defines as bit 4, through `as_raw`.
#[verifier::external_body]
pub(crate) fn severity_info_bits() -> (bits: u32)
    ensures
        bits == 0x0010,
{
    ash::vk::DebugUtilsMessageSeverityFlagsEXT::INFO.as_raw()
}

/// Reads `ash::vk::DebugUtilsMessageSeverityFlagsEXT::WARNING`, which `ash`
/// defines as bit 8, through `as_raw`.
#[verifier::external_body]
pub(crate) fn severity_warning_bits() -> (bits: u32)
    ensures
        bits == 0x0100,
{
    ash::vk::DebugUtilsMessageSeverityFlagsEXT::WARNING.as_raw()
}

/// Reads `ash::vk::DebugUtilsMessageSeverityFlagsEXT::ERROR`, which `ash`
/// defines as bit 12, through `as_raw`.
#[verifier::external_body]
pub(crate) fn severity_error_bits() -> (bits: u32)
    ensures
        bits == 0x1000,
{
    ash::vk::DebugUtilsMessageSeverityFlagsEXT::ERROR.as_raw()
}

/// Reads `ash::vk::DebugUtilsMessageTypeFlagsEXT::GENERAL`, which `ash`
/// defines as bit 0, through `as_raw`.
#[verifier::external_body]
pub(crate) fn category_general_bits() -> (bits: u32)
    ensures
        bits == 0x1,
{
    ash::vk::DebugUtilsMessageTypeFlagsEXT::GENERAL.as_raw()
}

/// Reads `ash::vk::DebugUtilsMessageTypeFlagsEXT::VALIDATION`, which `ash`
/// defines as bit 1, through `as_raw`.
#[verifier::external_body]
pub(crate) fn category_validation_bits() -> (bits: u32)
    ensures
        bits == 0x2,
{
    ash::vk::DebugUtilsMessageTypeFlagsEXT::VALIDATION.as_raw()
}

/// Reads `ash::vk::DebugUtilsMessageTypeFlagsEXT::PERFORMANCE`, which `ash`
/// defines as bit 2, through `as_raw`.
#[verifier::external_body]
pub(crate) fn category_performance_bits() -> (bits: u32)
    ensures
        bits == 0x4,
{
    ash::vk::DebugUtilsMessageTypeFlagsEXT::PERFORMANCE.as_raw()
}

/// Reads `ash::vk::InstanceCreateFlags::ENUMERATE_PORTABILITY_KHR`, which
/// `ash` defines as bit 0, through `as_raw`.
#[verifier::external_body]
pub(crate) fn enumerate_portability_bits() -> (bits: u32)
    ensures
        bits == 0x1,
{
    ash::vk::InstanceCreateFlags::ENUMERATE_PORTABILITY_KHR.as_raw()
}

/// Reads the default of `ash::vk::InstanceCreateFlags`, which `ash` defines
/// as the empty set of flags, through `as_raw`.
#[verifier::external_body]
pub(crate) fn default_instance_create_bits() -> (bits: u32)
    ensures
        bits == 0,
{
    ash::vk::InstanceCreateFlags::default().as_raw()
}

} // verus!
