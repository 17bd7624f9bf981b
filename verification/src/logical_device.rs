//! The device session: queues, the one-shot setup recorder, and the
//! double-buffered frame pacing protocol.
//!
//! Two frame slots exist; each frame the caller begins on the front slot,
//! records and submits through the driver, finishes, and the slots swap, so
//! CPU recording overlaps GPU execution of the previous frame. The model
//! tracks the completion fences of each slot's recorders; the driver reports
//! submissions and completed fence waits back into the model, and the model
//! proves that the rotation never reuses a slot whose submission completed
//! without seeing its fences signaled.

use vstd::prelude::*;

verus! {

/// A reusable recording context: a command buffer, its owning pool, and its
/// completion fence, all carried as native handles, plus the model's view of
/// whether that fence is signaled.
pub struct CommandBuffer {
    pub raw: u64,
    pub pool: u64,
    pub submit_done_fence: u64,
    /// Whether the completion fence is known signaled; fences are created
    /// signaled, reset at submission, and signaled again when the GPU
    /// finishes the submitted work.
    pub fence_signaled: bool,
}

impl CommandBuffer {
    /// Adopt a recorder the driver created; its fence starts signaled, so a
    /// never-submitted recorder can be reused without waiting.
    pub fn create(raw: u64, pool: u64, submit_done_fence: u64) -> (r: CommandBuffer)
        ensures
            r.raw == raw,
            r.pool == pool,
            r.submit_done_fence == submit_done_fence,
            r.fence_signaled,
    {
        CommandBuffer { raw, pool, submit_done_fence, fence_signaled: true }
    }
}

/// One frame slot: a main and a presentation recorder plus the optional
/// frame-scoped semaphores.
pub struct DeviceFrame {
    pub swapchain_acquired_semaphore: Option<u64>,
    pub rendering_complete_semaphore: Option<u64>,
    pub main_command_buffer: CommandBuffer,
    pub presentation_command_buffer: CommandBuffer,
}

impl DeviceFrame {
    /// A fresh slot around two recorders, with no semaphores attached yet.
    pub fn new(
        main_command_buffer: CommandBuffer,
        presentation_command_buffer: CommandBuffer,
    ) -> (r: DeviceFrame)
        ensures
            r.swapchain_acquired_semaphore is None,
            r.rendering_complete_semaphore is None,
            r.main_command_buffer == main_command_buffer,
            r.presentation_command_buffer == presentation_command_buffer,
    {
        DeviceFrame {
            swapchain_acquired_semaphore: None,
            rendering_complete_semaphore: None,
            main_command_buffer,
            presentation_command_buffer,
        }
    }
}

/// Both of a slot's completion fences are known signaled: the GPU has
/// finished consuming the slot's previous submission.
pub open spec fn frame_fences_signaled(f: DeviceFrame) -> bool {
    f.main_command_buffer.fence_signaled && f.presentation_command_buffer.fence_signaled
}

/// `f` with both completion fences unsignaled, as after a submission.
pub open spec fn frame_unsignaled(f: DeviceFrame) -> DeviceFrame {
    DeviceFrame {
        main_command_buffer: CommandBuffer { fence_signaled: false, ..f.main_command_buffer },
        presentation_command_buffer: CommandBuffer {
            fence_signaled: false,
            ..f.presentation_command_buffer
        },
        ..f
    }
}

/// `f` with both completion fences signaled, as after the GPU finished.
pub open spec fn frame_signaled(f: DeviceFrame) -> DeviceFrame {
    DeviceFrame {
        main_command_buffer: CommandBuffer { fence_signaled: true, ..f.main_command_buffer },
        presentation_command_buffer: CommandBuffer {
            fence_signaled: true,
            ..f.presentation_command_buffer
        },
        ..f
    }
}

/// A reference to the frame slot handed out by [`Device::begin_frame`].
/// Deliberately neither `Clone` nor `Copy`: finishing the frame consumes it,
/// so the slot cannot stay borrowed across the swap.
pub struct FrameHandle {
    /// Which slot is borrowed (the front slot at the time of the call).
    pub slot: usize,
    pub main_command_buffer: u64,
    pub presentation_command_buffer: u64,
    pub main_fence: u64,
    pub presentation_fence: u64,
    /// Whether the caller must still wait on the two fences before touching
    /// the slot's recorders; false when both are already known signaled.
    pub wait_needed: bool,
}

/// Frame-pacing protocol violations.
#[derive(Debug)]
pub enum FrameError {
    /// A frame was begun while the previous frame's handle is still out:
    /// a caller sequencing bug, reported instead of corrupting the slot.
    SlotHeld,
}

/// Setup-recorder protocol violations.
#[derive(Debug)]
pub enum SetupCommandError {
    /// The one-shot setup recorder is already recording.
    SetupRecorderBusy,
}

/// The logical device session: its queues, the two frame slots with the
/// front-slot cursor, and the one-shot setup recorder.
pub struct Device {
    pub graphics_queue_family: u32,
    pub present_queue_family: u32,
    pub graphics_queue: u64,
    pub present_queue: u64,
    pub frame0: DeviceFrame,
    pub frame1: DeviceFrame,
    /// Index of the front slot: 0 or 1.
    pub front: usize,
    /// A [`FrameHandle`] is outstanding.
    pub frame_held: bool,
    pub setup_cb: CommandBuffer,
    /// The setup recorder is between begin and finish.
    pub setup_cb_in_use: bool,
}

impl Device {
    /// The session invariant: the front cursor names one of the two slots.
    pub open spec fn wf(self) -> bool {
        self.front < 2
    }

    /// The slot at `slot` (0 or 1).
    pub open spec fn frame_at(self, slot: int) -> DeviceFrame {
        if slot == 0 {
            self.frame0
        } else {
            self.frame1
        }
    }

    /// The slot `begin_frame` hands out next.
    pub open spec fn front_frame(self) -> DeviceFrame {
        self.frame_at(self.front as int)
    }

    /// `self` with the slot at `slot` replaced.
    pub open spec fn with_frame(self, slot: int, f: DeviceFrame) -> Device {
        if slot == 0 {
            Device { frame0: f, ..self }
        } else {
            Device { frame1: f, ..self }
        }
    }

    /// State after a successful `begin_frame`.
    pub open spec fn spec_begin_frame(self) -> Device {
        Device { frame_held: true, ..self }
    }

    /// Whether `begin_frame` finds a completion fence of the front slot
    /// unsignaled and must block on it.
    pub open spec fn spec_begin_wait_needed(self) -> bool {
        !frame_fences_signaled(self.front_frame())
    }

    /// State after the front slot's recorders were submitted: their fences
    /// were reset and will signal when the GPU finishes.
    pub open spec fn spec_mark_submitted(self) -> Device {
        self.with_frame(self.front as int, frame_unsignaled(self.front_frame()))
    }

    /// State after the driver saw the fences of `slot` signaled.
    pub open spec fn spec_record_completion(self, slot: int) -> Device {
        self.with_frame(slot, frame_signaled(self.frame_at(slot)))
    }

    /// State after `finish_frame`: the slots swap roles.
    pub open spec fn spec_finish_frame(self) -> Device {
        Device { front: if self.front == 0 { 1 } else { 0 }, frame_held: false, ..self }
    }

    /// Assemble the session from driver-created pieces; slot 0 starts as the
    /// front slot, nothing borrowed, the setup recorder idle.
    pub fn create(
        graphics_queue_family: u32,
        present_queue_family: u32,
        graphics_queue: u64,
        present_queue: u64,
        frame0: DeviceFrame,
        frame1: DeviceFrame,
        setup_cb: CommandBuffer,
    ) -> (r: Device)
        ensures
            r.wf(),
            r.graphics_queue_family == graphics_queue_family,
            r.present_queue_family == present_queue_family,
            r.graphics_queue == graphics_queue,
            r.present_queue == present_queue,
            r.frame0 == frame0,
            r.frame1 == frame1,
            r.front == 0,
            !r.frame_held,
            r.setup_cb == setup_cb,
            !r.setup_cb_in_use,
    {
        Device {
            graphics_queue_family,
            present_queue_family,
            graphics_queue,
            present_queue,
            frame0,
            frame1,
            front: 0,
            frame_held: false,
            setup_cb,
            setup_cb_in_use: false,
        }
    }

    /// Hand out the front slot for this frame. Fails exactly when the
    /// previous frame's handle is still out (a caller sequencing bug). The
    /// handle names the slot's recorders and completion fences and says
    /// whether the caller must still block on those fences before recording;
    /// the caller reports the completed wait via [`Device::record_completion`].
    pub fn begin_frame(&mut self) -> (r: Result<FrameHandle, FrameError>)
        requires
            old(self).wf(),
        ensures
            final(self).wf(),
            r is Err <==> old(self).frame_held,
            r is Err ==> *final(self) == *old(self) && (r matches Err(e) && e is SlotHeld),
            r matches Ok(h) ==> {
                &&& *final(self) == old(self).spec_begin_frame()
                &&& h.slot == old(self).front
                &&& h.main_command_buffer == old(self).front_frame().main_command_buffer.raw
                &&& h.presentation_command_buffer == old(
                    self,
                ).front_frame().presentation_command_buffer.raw
                &&& h.main_fence == old(self).front_frame().main_command_buffer.submit_done_fence
                &&& h.presentation_fence == old(
                    self,
                ).front_frame().presentation_command_buffer.submit_done_fence
                &&& h.wait_needed == old(self).spec_begin_wait_needed()
            },
    {
        if self.frame_held {
            return Err(FrameError::SlotHeld);
        }
        let frame = if self.front == 0 {
            &self.frame0
        } else {
            &self.frame1
        };
        let wait_needed = !(frame.main_command_buffer.fence_signaled
            && frame.presentation_command_buffer.fence_signaled);
        let handle = FrameHandle {
            slot: self.front,
            main_command_buffer: frame.main_command_buffer.raw,
            presentation_command_buffer: frame.presentation_command_buffer.raw,
            main_fence: frame.main_command_buffer.submit_done_fence,
            presentation_fence: frame.presentation_command_buffer.submit_done_fence,
            wait_needed,
        };
        self.frame_held = true;
        Ok(handle)
    }

    /// The driver submitted the borrowed slot's recorders, resetting their
    /// completion fences; they stay unsignaled until the GPU finishes.
    pub fn mark_submitted(&mut self, handle: &FrameHandle)
        requires
            old(self).wf(),
            old(self).frame_held,
            handle.slot == old(self).front,
        ensures
            final(self).wf(),
            *final(self) == old(self).spec_mark_submitted(),
    {
        if self.front == 0 {
            self.frame0.main_command_buffer.fence_signaled = false;
            self.frame0.presentation_command_buffer.fence_signaled = false;
        } else {
            self.frame1.main_command_buffer.fence_signaled = false;
            self.frame1.presentation_command_buffer.fence_signaled = false;
        }
    }

    /// The driver saw both completion fences of `slot` signaled — a fence
    /// wait returned, or a fence query reported done.
    pub fn record_completion(&mut self, slot: usize)
        requires
            old(self).wf(),
            slot < 2,
        ensures
            final(self).wf(),
            *final(self) == old(self).spec_record_completion(slot as int),
    {
        if slot == 0 {
            self.frame0.main_command_buffer.fence_signaled = true;
            self.frame0.presentation_command_buffer.fence_signaled = true;
        } else {
            self.frame1.main_command_buffer.fence_signaled = true;
            self.frame1.presentation_command_buffer.fence_signaled = true;
        }
    }

    /// Give the borrowed slot back and swap the slots, so the next frame
    /// begins on what was the back slot. Consumes the handle: the slot
    /// cannot stay borrowed across the swap.
    pub fn finish_frame(&mut self, handle: FrameHandle)
        requires
            old(self).wf(),
            old(self).frame_held,
            handle.slot == old(self).front,
        ensures
            final(self).wf(),
            *final(self) == old(self).spec_finish_frame(),
    {
        let _consumed = handle;
        self.front = if self.front == 0 {
            1
        } else {
            0
        };
        self.frame_held = false;
    }

    /// Borrow the one-shot setup recorder for a blocking transfer. Fails
    /// exactly when it is already recording. The driver begins the command
    /// buffer, records, then ends, submits and blocks until queue and device
    /// are idle before calling [`Device::finish_setup_cb`] — a deliberate
    /// whole-device stall, for setup-time transfers only.
    pub fn begin_setup_cb(&mut self) -> (r: Result<u64, SetupCommandError>)
        requires
            old(self).wf(),
        ensures
            final(self).wf(),
            r is Err <==> old(self).setup_cb_in_use,
            r is Err ==> *final(self) == *old(self),
            r matches Ok(cb) ==> {
                &&& cb == old(self).setup_cb.raw
                &&& *final(self) == (Device { setup_cb_in_use: true, ..*old(self) })
            },
    {
        if self.setup_cb_in_use {
            return Err(SetupCommandError::SetupRecorderBusy);
        }
        self.setup_cb_in_use = true;
        Ok(self.setup_cb.raw)
    }

    /// The blocking submission of the setup recorder returned; the recorder
    /// is idle again.
    pub fn finish_setup_cb(&mut self)
        requires
            old(self).wf(),
            old(self).setup_cb_in_use,
        ensures
            final(self).wf(),
            *final(self) == (Device { setup_cb_in_use: false, ..*old(self) }),
    {
        self.setup_cb_in_use = false;
    }
}

/// The distinct queue families a device must create queues for: one entry
/// when graphics and present share a family, both otherwise, without
/// duplicates.
pub fn unique_queue_families(graphics_family: u32, present_family: u32) -> (r: Vec<u32>)
    ensures
        graphics_family == present_family ==> r@ =~= seq![graphics_family],
        graphics_family != present_family ==> r@ =~= seq![graphics_family, present_family],
        r@.no_duplicates(),
{
    let mut families: Vec<u32> = Vec::new();
    families.push(graphics_family);
    if present_family != graphics_family {
        families.push(present_family);
    }
    families
}

/// Law: the frame rotation is fence-wait correct. The slot used at one
/// cycle is the front slot again two cycles later, and if the driver saw
/// that cycle's submission complete in the meantime, beginning the later
/// frame does not find the slot's completion fences unsignaled — the slot
/// is never reused prematurely.
pub proof fn lemma_fence_wait_correctness(d0: Device)
    requires
        d0.wf(),
        !d0.frame_held,
    ensures
        ({
            let d1 = d0.spec_begin_frame().spec_mark_submitted().spec_finish_frame();
            let d2 = d1.spec_begin_frame().spec_mark_submitted().spec_finish_frame();
            let d3 = d2.spec_record_completion(d0.front as int);
            &&& d3.front == d0.front
            &&& !d3.spec_begin_wait_needed()
        }),
{
}

} // verus!
