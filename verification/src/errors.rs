//! Error taxonomy: every failure the policy layer can report.
//!
//! All of these are fatal for the run that hits them; the calling program
//! stops with a message rather than retrying.

use vstd::prelude::*;

verus! {

/// Startup failures around the driver instance and logical device.
#[derive(Clone, Copy, Debug, PartialEq, Eq, Structural)]
pub enum InitializationError {
    /// No driver library could be loaded at all.
    MissingDriverLibrary,
    /// A requested validation layer is not installed in the driver.
    MissingValidationLayer,
    /// The driver refused to create an instance.
    InstanceCreationFailed,
    /// The driver refused to create the logical device.
    DeviceCreationFailed,
    /// One of the sub-allocators could not be initialized.
    AllocatorInitFailed,
}

/// Failures of the capability query and the device selector.
#[derive(Clone, Copy, Debug, PartialEq, Eq, Structural)]
pub enum SelectionError {
    /// The driver reported no physical devices at all.
    NoDevicesFound,
    /// Devices exist, but none satisfies the required capability set.
    NoSuitableDevice,
}

/// Failures while building a compute pipeline.
#[derive(Clone, Copy, Debug, PartialEq, Eq, Structural)]
pub enum ResourceError {
    /// The shader module is malformed or lacks the requested entry point.
    ShaderLoadFailed,
    /// The shader stage is incompatible with a pipeline layout.
    PipelineCreationFailed,
}

/// Misuse of the one-shot command recorder.
#[derive(Clone, Copy, Debug, PartialEq, Eq, Structural)]
pub enum RecordError {
    /// A compute pipeline was already bound to this recording.
    PipelineAlreadyBound,
    /// A descriptor set was already bound to this recording.
    DescriptorSetAlreadyBound,
    /// A dispatch was already recorded.
    DispatchAlreadyRecorded,
    /// A readback copy was already recorded.
    CopyAlreadyRecorded,
    /// The recording cannot be finalized without a bound pipeline.
    MissingPipeline,
    /// The recording cannot be finalized without a bound descriptor set.
    MissingDescriptorSet,
    /// The recording cannot be finalized without a dispatch.
    MissingDispatch,
}

/// Failures reported by the driver for submitted work.
#[derive(Clone, Copy, Debug, PartialEq, Eq, Structural)]
pub enum ExecutionError {
    /// The device faulted while executing the submission.
    GpuExecutionFailed,
    /// A finite wait bound elapsed before the fence signaled.
    Timeout,
}

/// Rejected work-group configurations.
#[derive(Clone, Copy, Debug, PartialEq, Eq, Structural)]
pub enum DispatchError {
    /// The local work-group size has a zero component.
    ZeroLocalSize,
    /// The element count is not a multiple of the local work-group size;
    /// truncating the division would leave elements uncovered.
    NotDivisible,
}

} // verus!
