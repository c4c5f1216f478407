use vstd::prelude::*;

use crate::extensions::ExtensionNameSet;
use crate::extensions::valid_name_chars;

verus! {

/// Relies on ash::extensions::khr::Swapchain::name: the fixed name of the
/// driver's swapchain extension, a constant C string and therefore free of
/// embedded nulls.
#[verifier::external_body]
pub(crate) fn swapchain_extension_name() -> (name: &'static str)
    ensures
        name@ == "VK_KHR_swapchain"@,
        valid_name_chars(name@),
{
    ash::extensions::khr::Swapchain::name().to_str().unwrap()
}

/// The device extensions the bootstrap always demands: presentation through
/// a swapchain, mandatory for any future presentation work even though
/// swapchain creation itself is out of scope here.
pub fn default_device_extension_names() -> (set: ExtensionNameSet)
    ensures
        set@ == seq!["VK_KHR_swapchain"@],
        set.wf(),
{
    let mut set = ExtensionNameSet::empty();
    match set.push_name(swapchain_extension_name()) {
        Ok(_) => {
            assert(set@ =~= seq!["VK_KHR_swapchain"@]);
            set
        },
        Err(_) => unreached(),
    }
}

/// Everything logical-device creation needs: the chosen queue family, how
/// many queues to request from it, and the device extensions to enable.
/// `enables_any_feature` records the feature-enable policy.
pub struct DevicePlan {
    pub queue_family_index: u32,
    pub queue_count: u32,
    pub extension_names: ExtensionNameSet,
    pub enables_any_feature: bool,
}

/// Assembles the logical-device plan: exactly one queue from the selected
/// family, the caller's required device extensions, and no optional device
/// feature enabled beyond the defaults.
pub fn create_device_plan(queue_family_index: u32, required_extensions: ExtensionNameSet) -> (plan:
    DevicePlan)
    requires
        required_extensions.wf(),
    ensures
        plan.queue_family_index == queue_family_index,
        plan.queue_count == 1,
        plan.extension_names@ == required_extensions@,
        plan.extension_names.wf(),
        !plan.enables_any_feature,
{
    DevicePlan {
        queue_family_index,
        queue_count: 1,
        extension_names: required_extensions,
        enables_any_feature: false,
    }
}

} // verus!
