//! Command sequencer: one-shot recording, submission, and the
//! wait-then-read order.
//!
//! A submission unit lives once: it is recorded, finalized, submitted to a
//! queue, waited on, and discarded. The types here make each step consume
//! the previous one, so the order is fixed by ownership alone. In
//! particular, reading destination memory needs a [`ReadAccess`], and the
//! only function that produces one is [`SubmissionUnit::wait`] with a
//! signaled fence: a read that would come before the completion wait cannot
//! be expressed through this interface.
//!
//! The fence outcome itself comes from the driver; the caller performs the
//! blocking wait and hands the reported [`FenceEvent`] in.

use vstd::prelude::*;
use crate::dispatch::GroupCounts;
use crate::errors::{ExecutionError, RecordError};

verus! {

/// A readback copy appended after the dispatch.
#[derive(Clone, Copy, Debug, PartialEq, Eq, Structural)]
pub enum CopyOp {
    /// Copy one buffer into another.
    BufferToBuffer { src: u64, dst: u64 },
    /// Pack an image's texels into a buffer.
    ImageToBuffer { src_image: u64, dst: u64 },
}

impl CopyOp {
    /// Handle of the destination buffer the copy fills.
    pub open spec fn spec_destination(self) -> u64 {
        match self {
            CopyOp::BufferToBuffer { dst, .. } => dst,
            CopyOp::ImageToBuffer { dst, .. } => dst,
        }
    }

    /// Handle of the destination buffer the copy fills.
    pub fn destination(&self) -> (r: u64)
        ensures
            r == self.spec_destination(),
    {
        match *self {
            CopyOp::BufferToBuffer { dst, .. } => dst,
            CopyOp::ImageToBuffer { dst, .. } => dst,
        }
    }
}

/// A descriptor set bound at a set index.
#[derive(Clone, Copy, Debug, PartialEq, Eq, Structural)]
pub struct DescriptorBinding {
    /// Set index the layout expects the set at.
    pub set_index: u32,
    /// Handle of the descriptor set.
    pub set: u64,
}

/// What the driver reports when the host waits on the fence.
#[derive(Clone, Copy, Debug, PartialEq, Eq, Structural)]
pub enum FenceEvent {
    /// The fence signaled: all submitted work finished.
    Signaled,
    /// The driver reported a fault while executing the work.
    DeviceFault,
    /// A finite wait bound elapsed before the fence signaled.
    TimedOut,
}

/// An open one-shot recording: at most one pipeline, one descriptor set,
/// one dispatch and one readback copy, in any order.
pub struct CommandRecorder {
    queue_family_index: u32,
    pipeline: Option<u64>,
    descriptor: Option<DescriptorBinding>,
    groups: Option<GroupCounts>,
    copy: Option<CopyOp>,
}

impl CommandRecorder {
    /// Queue family the finished recording must be submitted on.
    pub closed spec fn spec_queue_family(self) -> u32 {
        self.queue_family_index
    }

    /// The pipeline bound so far, if any.
    pub closed spec fn spec_pipeline(self) -> Option<u64> {
        self.pipeline
    }

    /// The descriptor set bound so far, if any.
    pub closed spec fn spec_descriptor(self) -> Option<DescriptorBinding> {
        self.descriptor
    }

    /// The dispatch recorded so far, if any.
    pub closed spec fn spec_groups(self) -> Option<GroupCounts> {
        self.groups
    }

    /// The readback copy recorded so far, if any.
    pub closed spec fn spec_copy(self) -> Option<CopyOp> {
        self.copy
    }

    /// Open a recording for a queue family, with nothing recorded yet.
    pub fn new(queue_family_index: u32) -> (r: CommandRecorder)
        ensures
            r.spec_queue_family() == queue_family_index,
            r.spec_pipeline() is None,
            r.spec_descriptor() is None,
            r.spec_groups() is None,
            r.spec_copy() is None,
    {
        CommandRecorder {
            queue_family_index,
            pipeline: None,
            descriptor: None,
            groups: None,
            copy: None,
        }
    }

    /// Bind the compute pipeline; a recording holds exactly one.
    pub fn bind_pipeline(&mut self, pipeline: u64) -> (r: Result<(), RecordError>)
        ensures
            r is Ok <==> old(self).spec_pipeline() is None,
            r matches Err(e) ==> e == RecordError::PipelineAlreadyBound && *final(self) == *old(
                self,
            ),
            r is Ok ==> final(self).spec_pipeline() == Some(pipeline),
            final(self).spec_queue_family() == old(self).spec_queue_family(),
            final(self).spec_descriptor() == old(self).spec_descriptor(),
            final(self).spec_groups() == old(self).spec_groups(),
            final(self).spec_copy() == old(self).spec_copy(),
    {
        if self.pipeline.is_some() {
            return Err(RecordError::PipelineAlreadyBound);
        }
        self.pipeline = Some(pipeline);
        Ok(())
    }

    /// Bind the descriptor set at its set index; a recording holds exactly
    /// one.
    pub fn bind_descriptor_set(&mut self, set_index: u32, set: u64) -> (r: Result<(), RecordError>)
        ensures
            r is Ok <==> old(self).spec_descriptor() is None,
            r matches Err(e) ==> e == RecordError::DescriptorSetAlreadyBound && *final(self)
                == *old(self),
            r is Ok ==> final(self).spec_descriptor() == Some(
                DescriptorBinding { set_index, set },
            ),
            final(self).spec_queue_family() == old(self).spec_queue_family(),
            final(self).spec_pipeline() == old(self).spec_pipeline(),
            final(self).spec_groups() == old(self).spec_groups(),
            final(self).spec_copy() == old(self).spec_copy(),
    {
        if self.descriptor.is_some() {
            return Err(RecordError::DescriptorSetAlreadyBound);
        }
        self.descriptor = Some(DescriptorBinding { set_index, set });
        Ok(())
    }

    /// Record the dispatch; a recording holds exactly one.
    pub fn dispatch(&mut self, groups: GroupCounts) -> (r: Result<(), RecordError>)
        ensures
            r is Ok <==> old(self).spec_groups() is None,
            r matches Err(e) ==> e == RecordError::DispatchAlreadyRecorded && *final(self) == *old(
                self,
            ),
            r is Ok ==> final(self).spec_groups() == Some(groups),
            final(self).spec_queue_family() == old(self).spec_queue_family(),
            final(self).spec_pipeline() == old(self).spec_pipeline(),
            final(self).spec_descriptor() == old(self).spec_descriptor(),
            final(self).spec_copy() == old(self).spec_copy(),
    {
        if self.groups.is_some() {
            return Err(RecordError::DispatchAlreadyRecorded);
        }
        self.groups = Some(groups);
        Ok(())
    }

    /// Append the optional readback copy; a recording holds at most one.
    pub fn copy_for_readback(&mut self, copy: CopyOp) -> (r: Result<(), RecordError>)
        ensures
            r is Ok <==> old(self).spec_copy() is None,
            r matches Err(e) ==> e == RecordError::CopyAlreadyRecorded && *final(self) == *old(
                self,
            ),
            r is Ok ==> final(self).spec_copy() == Some(copy),
            final(self).spec_queue_family() == old(self).spec_queue_family(),
            final(self).spec_pipeline() == old(self).spec_pipeline(),
            final(self).spec_descriptor() == old(self).spec_descriptor(),
            final(self).spec_groups() == old(self).spec_groups(),
    {
        if self.copy.is_some() {
            return Err(RecordError::CopyAlreadyRecorded);
        }
        self.copy = Some(copy);
        Ok(())
    }

    /// Finalize the recording. Succeeds exactly when a pipeline, a
    /// descriptor set and a dispatch were all recorded; the copy stays
    /// optional. The recorder is consumed, so nothing can be appended after.
    pub fn build(self) -> (r: Result<RecordedCommands, RecordError>)
        ensures
            r is Ok <==> self.spec_pipeline() is Some && self.spec_descriptor() is Some
                && self.spec_groups() is Some,
            r matches Ok(c) ==> c.spec_queue_family() == self.spec_queue_family()
                && Some(c.spec_pipeline()) == self.spec_pipeline()
                && Some(c.spec_descriptor()) == self.spec_descriptor()
                && Some(c.spec_groups()) == self.spec_groups()
                && c.spec_copy() == self.spec_copy(),
            r matches Err(e) ==> e == (if self.spec_pipeline() is None {
                RecordError::MissingPipeline
            } else if self.spec_descriptor() is None {
                RecordError::MissingDescriptorSet
            } else {
                RecordError::MissingDispatch
            }),
    {
        let pipeline = match self.pipeline {
            Some(p) => p,
            None => {
                return Err(RecordError::MissingPipeline);
            },
        };
        let descriptor = match self.descriptor {
            Some(d) => d,
            None => {
                return Err(RecordError::MissingDescriptorSet);
            },
        };
        let groups = match self.groups {
            Some(g) => g,
            None => {
                return Err(RecordError::MissingDispatch);
            },
        };
        Ok(
            RecordedCommands {
                queue_family_index: self.queue_family_index,
                pipeline,
                descriptor,
                groups,
                copy: self.copy,
            },
        )
    }
}

/// A finalized one-shot command recording. It can only be submitted; no
/// command can be appended and it cannot be recorded again.
pub struct RecordedCommands {
    queue_family_index: u32,
    pipeline: u64,
    descriptor: DescriptorBinding,
    groups: GroupCounts,
    copy: Option<CopyOp>,
}

impl RecordedCommands {
    /// Queue family the recording must be submitted on.
    pub closed spec fn spec_queue_family(self) -> u32 {
        self.queue_family_index
    }

    /// The bound compute pipeline.
    pub closed spec fn spec_pipeline(self) -> u64 {
        self.pipeline
    }

    /// The bound descriptor set.
    pub closed spec fn spec_descriptor(self) -> DescriptorBinding {
        self.descriptor
    }

    /// The recorded dispatch.
    pub closed spec fn spec_groups(self) -> GroupCounts {
        self.groups
    }

    /// The optional readback copy.
    pub closed spec fn spec_copy(self) -> Option<CopyOp> {
        self.copy
    }

    /// Queue family the recording must be submitted on.
    pub fn queue_family(&self) -> (r: u32)
        ensures
            r == self.spec_queue_family(),
    {
        self.queue_family_index
    }

    /// The bound compute pipeline.
    pub fn pipeline(&self) -> (r: u64)
        ensures
            r == self.spec_pipeline(),
    {
        self.pipeline
    }

    /// The bound descriptor set.
    pub fn descriptor(&self) -> (r: DescriptorBinding)
        ensures
            r == self.spec_descriptor(),
    {
        self.descriptor
    }

    /// The recorded dispatch.
    pub fn groups(&self) -> (r: GroupCounts)
        ensures
            r == self.spec_groups(),
    {
        self.groups
    }

    /// The optional readback copy.
    pub fn copy(&self) -> (r: Option<CopyOp>)
        ensures
            r == self.spec_copy(),
    {
        self.copy
    }

    /// Hand the recording to a queue. The recording is consumed — one-time
    /// submit — and the unit must then be waited on.
    pub fn submit(self) -> (r: SubmissionUnit)
        ensures
            r.spec_commands() == self,
    {
        SubmissionUnit { commands: self }
    }
}

/// Work in flight: a submitted recording together with the obligation to
/// wait on its fence before anything it wrote is read.
pub struct SubmissionUnit {
    commands: RecordedCommands,
}

impl SubmissionUnit {
    /// The recording this unit submitted.
    pub closed spec fn spec_commands(self) -> RecordedCommands {
        self.commands
    }

    /// Consume the unit with the fence outcome the driver reported.
    ///
    /// Exactly a signaled fence yields the read access; a device fault or an
    /// elapsed wait bound is an execution failure, and no read access
    /// exists. Either way the unit is gone: it cannot be waited on twice nor
    /// resubmitted.
    pub fn wait(self, event: FenceEvent) -> (r: Result<ReadAccess, ExecutionError>)
        ensures
            r is Ok <==> event == FenceEvent::Signaled,
            r matches Ok(a) ==> a.spec_commands() == self.spec_commands(),
            r matches Err(e) ==> e == (if event == FenceEvent::DeviceFault {
                ExecutionError::GpuExecutionFailed
            } else {
                ExecutionError::Timeout
            }),
    {
        match event {
            FenceEvent::Signaled => Ok(ReadAccess { commands: self.commands }),
            FenceEvent::DeviceFault => Err(ExecutionError::GpuExecutionFailed),
            FenceEvent::TimedOut => Err(ExecutionError::Timeout),
        }
    }
}

/// Proof that the completion wait returned: only now is host-visible
/// destination memory safely readable. Values of this type come from
/// [`SubmissionUnit::wait`] alone.
pub struct ReadAccess {
    commands: RecordedCommands,
}

impl ReadAccess {
    /// The recording whose effects are now visible.
    pub closed spec fn spec_commands(self) -> RecordedCommands {
        self.commands
    }

    /// Destination buffer of the readback copy, when one was recorded: the
    /// buffer the holder may now read.
    pub fn readable_destination(&self) -> (r: Option<u64>)
        ensures
            r matches Some(d) ==> self.spec_commands().spec_copy() matches Some(c)
                && d == c.spec_destination(),
            r is None <==> self.spec_commands().spec_copy() is None,
    {
        match self.commands.copy() {
            Some(c) => Some(c.destination()),
            None => None,
        }
    }
}

} // verus!
