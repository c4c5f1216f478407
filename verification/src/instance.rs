use vstd::prelude::*;

use crate::error::BootstrapError;
use crate::extensions::ExtensionNameSet;
use crate::extensions::instance_extension_names;
use crate::extensions::name_is_valid;
use crate::extensions::valid_name_chars;
use crate::version::make_version;
use crate::version::version_encoding;

verus! {

/// Relies on ash::extensions::ext::DebugUtils::name: the fixed name of the
/// driver's debug-utils extension, a constant C string and therefore free of
/// embedded nulls.
#[verifier::external_body]
pub(crate) fn debug_utils_extension_name() -> (name: &'static str)
    ensures
        name@ == "VK_EXT_debug_utils"@,
        valid_name_chars(name@),
{
    ash::extensions::ext::DebugUtils::name().to_str().unwrap()
}

/// The validation layer enabled unconditionally during bootstrap.
pub fn validation_layer_names() -> (layers: Vec<String>)
    ensures
        layers.deep_view() == seq!["VK_LAYER_KHRONOS_validation"@],
{
    let mut layers: Vec<String> = Vec::new();
    layers.push(String::from_str("VK_LAYER_KHRONOS_validation"));
    assert(layers.deep_view() =~= seq!["VK_LAYER_KHRONOS_validation"@]);
    layers
}

/// Everything instance creation needs, assembled and validated: application
/// metadata with packed versions, the extension-name list, the layer list,
/// and whether the debug subscription must be chained into the creation call
/// itself so that messages during instance creation are observable too.
pub struct InstancePlan {
    pub application_name: String,
    pub application_version: u32,
    pub api_version: u32,
    pub extension_names: ExtensionNameSet,
    pub layer_names: Vec<String>,
    pub chain_debug_messenger: bool,
}

impl InstancePlan {
    /// The plan only holds names that can be marshaled as C strings.
    pub open spec fn wf(&self) -> bool {
        &&& valid_name_chars(self.application_name@)
        &&& self.extension_names.wf()
    }
}

/// Assembles the instance-creation plan: packs the version triples, unions
/// the windowing collaborator's required extensions with the fixed
/// diagnostics extension when diagnostics are enabled, and appends the
/// validation layer unconditionally. Rejects an application name with an
/// embedded null.
pub fn create_instance_plan(
    application_name: &str,
    application_version: (u32, u32, u32),
    api_version: (u32, u32, u32),
    required_extensions: ExtensionNameSet,
    enable_diagnostics: bool,
) -> (result: Result<InstancePlan, BootstrapError>)
    requires
        required_extensions.wf(),
        application_version.0 < 1024,
        application_version.1 < 1024,
        application_version.2 < 4096,
        api_version.0 < 1024,
        api_version.1 < 1024,
        api_version.2 < 4096,
    ensures
        result is Ok <==> valid_name_chars(application_name@),
        match result {
            Ok(plan) => {
                &&& plan.wf()
                &&& plan.application_name@ == application_name@
                &&& plan.application_version == version_encoding(
                    application_version.0,
                    application_version.1,
                    application_version.2,
                )
                &&& plan.api_version == version_encoding(
                    api_version.0,
                    api_version.1,
                    api_version.2,
                )
                &&& plan.extension_names@ == (if enable_diagnostics {
                    required_extensions@.push("VK_EXT_debug_utils"@)
                } else {
                    required_extensions@
                })
                &&& plan.layer_names.deep_view() == seq!["VK_LAYER_KHRONOS_validation"@]
                &&& plan.chain_debug_messenger == enable_diagnostics
            },
            Err(e) => e == BootstrapError::InvalidName,
        },
{
    if !name_is_valid(application_name) {
        return Err(BootstrapError::InvalidName);
    }
    let extension_names = match instance_extension_names(
        required_extensions,
        enable_diagnostics,
        debug_utils_extension_name(),
    ) {
        Ok(set) => set,
        Err(_) => unreached(),
    };
    Ok(
        InstancePlan {
            application_name: String::from_str(application_name),
            application_version: make_version(
                application_version.0,
                application_version.1,
                application_version.2,
            ),
            api_version: make_version(api_version.0, api_version.1, api_version.2),
            extension_names,
            layer_names: validation_layer_names(),
            chain_debug_messenger: enable_diagnostics,
        },
    )
}

} // verus!
