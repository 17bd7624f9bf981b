//! The double-buffered frame pacing protocol and the setup recorder.

use cranberries_backend::logical_device::{
    unique_queue_families, CommandBuffer, Device, DeviceFrame, FrameError, SetupCommandError,
};

fn device() -> Device {
    let frame0 = DeviceFrame::new(
        CommandBuffer::create(10, 11, 12),
        CommandBuffer::create(20, 21, 22),
    );
    let frame1 = DeviceFrame::new(
        CommandBuffer::create(30, 31, 32),
        CommandBuffer::create(40, 41, 42),
    );
    let setup_cb = CommandBuffer::create(50, 51, 52);
    Device::create(0, 1, 100, 101, frame0, frame1, setup_cb)
}

#[test]
fn begin_frame_hands_out_front_slot() {
    let mut dev = device();
    let h = dev.begin_frame().unwrap();
    assert_eq!(h.slot, 0);
    assert_eq!(h.main_command_buffer, 10);
    assert_eq!(h.presentation_command_buffer, 20);
    assert_eq!(h.main_fence, 12);
    assert_eq!(h.presentation_fence, 22);
    // Fences are created signaled: a never-submitted slot needs no wait.
    assert!(!h.wait_needed);
}

#[test]
fn begin_frame_fails_while_slot_is_held() {
    let mut dev = device();
    let _h = dev.begin_frame().unwrap();
    assert!(matches!(dev.begin_frame(), Err(FrameError::SlotHeld)));
}

#[test]
fn finish_frame_swaps_slots() {
    let mut dev = device();
    let h = dev.begin_frame().unwrap();
    dev.finish_frame(h);
    let h = dev.begin_frame().unwrap();
    assert_eq!(h.slot, 1);
    assert_eq!(h.main_command_buffer, 30);
    dev.finish_frame(h);
    let h = dev.begin_frame().unwrap();
    assert_eq!(h.slot, 0);
}

#[test]
fn slot_reused_two_cycles_later_sees_completed_fences_signaled() {
    let mut dev = device();

    // Cycle N on slot 0: record, submit, finish.
    let h = dev.begin_frame().unwrap();
    assert_eq!(h.slot, 0);
    dev.mark_submitted(&h);
    dev.finish_frame(h);

    // Cycle N+1 on slot 1.
    let h = dev.begin_frame().unwrap();
    assert_eq!(h.slot, 1);
    dev.mark_submitted(&h);
    dev.finish_frame(h);

    // Cycle N's submission completed in the meantime.
    dev.record_completion(0);

    // Cycle N+2 is back on slot 0 and must not find its fences unsignaled.
    let h = dev.begin_frame().unwrap();
    assert_eq!(h.slot, 0);
    assert!(!h.wait_needed);
}

#[test]
fn slot_with_pending_submission_requires_wait() {
    let mut dev = device();
    let h = dev.begin_frame().unwrap();
    dev.mark_submitted(&h);
    dev.finish_frame(h);
    let h = dev.begin_frame().unwrap();
    dev.mark_submitted(&h);
    dev.finish_frame(h);
    // No completion was recorded for slot 0: the wait is required.
    let h = dev.begin_frame().unwrap();
    assert_eq!(h.slot, 0);
    assert!(h.wait_needed);
}

#[test]
fn setup_recorder_is_exclusive() {
    let mut dev = device();
    let cb = dev.begin_setup_cb().unwrap();
    assert_eq!(cb, 50);
    assert!(matches!(
        dev.begin_setup_cb(),
        Err(SetupCommandError::SetupRecorderBusy)
    ));
    dev.finish_setup_cb();
    assert_eq!(dev.begin_setup_cb().unwrap(), 50);
}

#[test]
fn unique_queue_families_deduplicates() {
    assert_eq!(unique_queue_families(3, 3), vec![3]);
    assert_eq!(unique_queue_families(0, 2), vec![0, 2]);
}
