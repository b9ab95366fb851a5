use vulkan_playground::dispatch::GroupCounts;
use vulkan_playground::errors::{ExecutionError, RecordError};
use vulkan_playground::sequencer::{CommandRecorder, CopyOp, FenceEvent};

const GROUPS: GroupCounts = GroupCounts { x: 16, y: 1, z: 1 };

#[test]
fn full_lifecycle_reaches_the_readback_buffer() {
    let mut rec = CommandRecorder::new(3);
    rec.bind_pipeline(100).unwrap();
    rec.bind_descriptor_set(0, 200).unwrap();
    rec.dispatch(GROUPS).unwrap();
    rec.copy_for_readback(CopyOp::ImageToBuffer { src_image: 300, dst: 400 }).unwrap();
    let cmds = rec.build().unwrap();
    assert_eq!(cmds.queue_family(), 3);
    assert_eq!(cmds.pipeline(), 100);
    assert_eq!(cmds.descriptor().set_index, 0);
    assert_eq!(cmds.descriptor().set, 200);
    assert_eq!(cmds.groups(), GROUPS);
    let unit = cmds.submit();
    let access = unit.wait(FenceEvent::Signaled).unwrap();
    assert_eq!(access.readable_destination(), Some(400));
}

#[test]
fn recording_without_a_copy_has_no_readable_destination() {
    let mut rec = CommandRecorder::new(0);
    rec.bind_pipeline(1).unwrap();
    rec.bind_descriptor_set(0, 2).unwrap();
    rec.dispatch(GROUPS).unwrap();
    let access = rec.build().unwrap().submit().wait(FenceEvent::Signaled).unwrap();
    assert_eq!(access.readable_destination(), None);
}

#[test]
fn each_command_may_be_recorded_once() {
    let mut rec = CommandRecorder::new(0);
    rec.bind_pipeline(1).unwrap();
    assert_eq!(rec.bind_pipeline(1), Err(RecordError::PipelineAlreadyBound));
    rec.bind_descriptor_set(0, 2).unwrap();
    assert_eq!(rec.bind_descriptor_set(0, 2), Err(RecordError::DescriptorSetAlreadyBound));
    rec.dispatch(GROUPS).unwrap();
    assert_eq!(rec.dispatch(GROUPS), Err(RecordError::DispatchAlreadyRecorded));
    let copy = CopyOp::BufferToBuffer { src: 3, dst: 4 };
    rec.copy_for_readback(copy).unwrap();
    assert_eq!(rec.copy_for_readback(copy), Err(RecordError::CopyAlreadyRecorded));
}

#[test]
fn build_requires_pipeline_descriptor_and_dispatch() {
    let rec = CommandRecorder::new(0);
    assert_eq!(rec.build().err(), Some(RecordError::MissingPipeline));

    let mut rec = CommandRecorder::new(0);
    rec.bind_pipeline(1).unwrap();
    assert_eq!(rec.build().err(), Some(RecordError::MissingDescriptorSet));

    let mut rec = CommandRecorder::new(0);
    rec.bind_pipeline(1).unwrap();
    rec.bind_descriptor_set(0, 2).unwrap();
    assert_eq!(rec.build().err(), Some(RecordError::MissingDispatch));
}

#[test]
fn device_fault_denies_read_access() {
    let mut rec = CommandRecorder::new(0);
    rec.bind_pipeline(1).unwrap();
    rec.bind_descriptor_set(0, 2).unwrap();
    rec.dispatch(GROUPS).unwrap();
    let unit = rec.build().unwrap().submit();
    match unit.wait(FenceEvent::DeviceFault) {
        Err(e) => assert_eq!(e, ExecutionError::GpuExecutionFailed),
        Ok(_) => panic!("a faulted submission must not grant read access"),
    }
}

#[test]
fn timed_out_wait_denies_read_access() {
    let mut rec = CommandRecorder::new(0);
    rec.bind_pipeline(1).unwrap();
    rec.bind_descriptor_set(0, 2).unwrap();
    rec.dispatch(GROUPS).unwrap();
    let unit = rec.build().unwrap().submit();
    match unit.wait(FenceEvent::TimedOut) {
        Err(e) => assert_eq!(e, ExecutionError::Timeout),
        Ok(_) => panic!("a timed-out wait must not grant read access"),
    }
}

#[test]
fn copy_destination_is_the_buffer_side() {
    let b2b = CopyOp::BufferToBuffer { src: 10, dst: 11 };
    assert_eq!(b2b.destination(), 11);
    let i2b = CopyOp::ImageToBuffer { src_image: 20, dst: 21 };
    assert_eq!(i2b.destination(), 21);
}
