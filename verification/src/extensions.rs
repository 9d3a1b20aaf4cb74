//! Sets of Vulkan device extensions.

use vstd::prelude::*;
use vulkano::device::DeviceExtensions;

verus! {

/// A set of device extensions, as vulkano keeps it: one public flag for each extension.
#[verifier::external_type_specification]
#[verifier::external_body]
pub struct ExDeviceExtensions(vulkano::device::DeviceExtensions);

/// The Vulkan names of the extensions whose flag is set.
pub uninterp spec fn extension_names(extensions: DeviceExtensions) -> Set<Seq<char>>;

/// `DeviceExtensions::none` sets every flag to `false`.
pub assume_specification[ vulkano::device::DeviceExtensions::none ]() -> (extensions:
    DeviceExtensions)
    ensures
        extension_names(extensions) == Set::<Seq<char>>::empty(),
;

/// `DeviceExtensions::is_superset_of` answers whether each flag that is set in `other` is set
/// in `extensions` too.
pub assume_specification[ vulkano::device::DeviceExtensions::is_superset_of ](
    extensions: &DeviceExtensions,
    other: &DeviceExtensions,
) -> (superset: bool)
    ensures
        superset == extension_names(*other).subset_of(extension_names(*extensions)),
;

/// `DeviceExtensions::union` sets the flags that are set in either argument.
pub assume_specification[ vulkano::device::DeviceExtensions::union ](
    extensions: &DeviceExtensions,
    other: &DeviceExtensions,
) -> (united: DeviceExtensions)
    ensures
        extension_names(united) == extension_names(*extensions).union(extension_names(*other)),
;

/// Writes `DeviceExtensions::khr_swapchain`, the flag of the extension `VK_KHR_swapchain`, and
/// leaves the other flags as they are.
#[verifier::external_body]
fn set_khr_swapchain(extensions: &mut DeviceExtensions, enabled: bool)
    ensures
        extension_names(*final(extensions)) == (if enabled {
            extension_names(*old(extensions)).insert("VK_KHR_swapchain"@)
        } else {
            extension_names(*old(extensions)).remove("VK_KHR_swapchain"@)
        }),
{
    extensions.khr_swapchain = enabled;
}

/// What a device must support to be used at all: presenting to a surface.
pub fn required_extensions() -> (extensions: DeviceExtensions)
    ensures
        extension_names(extensions) == set!["VK_KHR_swapchain"@],
{
    let mut extensions = DeviceExtensions::none();
    set_khr_swapchain(&mut extensions, true);
    extensions
}

} // verus!
