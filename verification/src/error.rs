use vstd::prelude::*;

verus! {

/// The failure taxonomy of the bootstrap sequence. Every component-level
/// operation reports one of these to its caller instead of aborting the
/// process; all of them are terminal for the bootstrap attempt.
#[derive(Clone, Copy, Debug, PartialEq, Eq, Structural)]
pub enum BootstrapError {
    /// A configuration string holds an embedded null byte.
    InvalidName,
    /// The driver rejected instance creation.
    InstanceCreationFailed,
    /// The debug-message subscription could not be attached.
    DiagnosticsAttachFailed,
    /// The platform could not produce a presentable surface.
    SurfaceCreationFailed,
    /// No candidate device satisfies the suitability policy.
    NoSuitableDevice,
    /// A device passed the device-level checks but exposes no usable
    /// queue family; distinct from `NoSuitableDevice` because it signals a
    /// driver inconsistency rather than hardware absence.
    NoSuitableQueueFamily,
    /// The driver rejected logical-device creation.
    DeviceCreationFailed,
}

} // verus!
