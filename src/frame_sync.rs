//! The frame synchronizer: which fence to wait on, which semaphores and
//! command buffer to use, and which swapchain image each frame in flight owns.
//!
//! One frame is driven by four calls, each answering with what the caller
//! must do next on the GPU: `begin_frame` (wait for the slot's fence, then
//! acquire an image), `submit` (wait for the image's previous fence if any,
//! reset the slot's fence, submit), `present` (present the image) and
//! `finish_frame` (advance to the next slot).
use vstd::prelude::*;

verus! {

/// How many frames the CPU may submit before waiting for the GPU.
pub const MAX_FRAMES_IN_FLIGHT: usize = 2;

/// Where the current frame slot stands in its cycle.
#[derive(Debug, Copy, Clone, PartialEq, Eq, Structural)]
pub enum FramePhase {
    Idle,
    Acquiring,
    Submitted { image: usize },
    Presented { image: usize },
}

/// A call made out of its turn, or an image index the swapchain does not have.
#[derive(Debug, Copy, Clone, PartialEq, Eq, Structural)]
pub enum FrameError {
    OutOfOrder,
    ImageOutOfRange,
}

/// Start of a frame: wait (without timeout) for `fence`, then acquire the
/// next image, signalling `image_available`.
#[derive(Debug, Copy, Clone, PartialEq, Eq, Structural)]
pub struct FrameBegin {
    pub fence: u64,
    pub image_available: u64,
}

/// Submission of a frame: wait for `wait_fence` if there is one, reset
/// `fence`, then submit `command_buffer`, waiting on `wait_semaphore` at
/// color output and signalling `signal_semaphore` and `fence`.
#[derive(Debug, Copy, Clone, PartialEq, Eq, Structural)]
pub struct FrameSubmit {
    pub wait_fence: Option<u64>,
    pub fence: u64,
    pub command_buffer: u64,
    pub wait_semaphore: u64,
    pub signal_semaphore: u64,
}

/// Presentation of `image_index`, waiting on `wait_semaphore`.
#[derive(Debug, Copy, Clone, PartialEq, Eq, Structural)]
pub struct FramePresent {
    pub image_index: u32,
    pub wait_semaphore: u64,
}

/// Abstract state of the synchronizer.
pub struct FrameSyncView {
    pub image_available: Seq<u64>,
    pub render_finished: Seq<u64>,
    pub in_flight: Seq<u64>,
    pub command_buffers: Seq<u64>,
    /// For each swapchain image, the slot whose fence guards it, if any.
    pub images_in_flight: Seq<Option<usize>>,
    pub frame: usize,
    pub phase: FramePhase,
}

impl FrameSyncView {
    /// One set of sync objects per slot, one entry per swapchain image, and
    /// every slot or image named in range.
    pub open spec fn wf(self) -> bool {
        &&& self.image_available.len() == MAX_FRAMES_IN_FLIGHT
        &&& self.render_finished.len() == MAX_FRAMES_IN_FLIGHT
        &&& self.in_flight.len() == MAX_FRAMES_IN_FLIGHT
        &&& self.images_in_flight.len() == self.command_buffers.len()
        &&& self.command_buffers.len() <= u32::MAX
        &&& self.frame < MAX_FRAMES_IN_FLIGHT
        &&& forall|i: int|
            0 <= i < self.images_in_flight.len() && (#[trigger] self.images_in_flight[i]) is Some
                ==> self.images_in_flight[i]->0 < MAX_FRAMES_IN_FLIGHT
        &&& match self.phase {
            FramePhase::Submitted { image } => image < self.command_buffers.len(),
            FramePhase::Presented { image } => image < self.command_buffers.len(),
            _ => true,
        }
    }

    /// Same objects, same images, same slot.
    pub open spec fn same_objects(self, other: FrameSyncView) -> bool {
        &&& self.image_available == other.image_available
        &&& self.render_finished == other.render_finished
        &&& self.in_flight == other.in_flight
        &&& self.command_buffers == other.command_buffers
    }
}

/// Per-slot semaphores and fences, per-image command buffers, and the
/// owner of each swapchain image.
pub struct FrameSync {
    image_available: Vec<u64>,
    render_finished: Vec<u64>,
    in_flight: Vec<u64>,
    command_buffers: Vec<u64>,
    images_in_flight: Vec<Option<usize>>,
    frame: usize,
    phase: FramePhase,
}

impl View for FrameSync {
    type V = FrameSyncView;

    closed spec fn view(&self) -> FrameSyncView {
        FrameSyncView {
            image_available: self.image_available@,
            render_finished: self.render_finished@,
            in_flight: self.in_flight@,
            command_buffers: self.command_buffers@,
            images_in_flight: self.images_in_flight@,
            frame: self.frame,
            phase: self.phase,
        }
    }
}

impl FrameSync {
    /// Starts at slot 0 with no image in flight. `command_buffers` holds one
    /// recorded command buffer per swapchain image.
    pub fn new(
        image_available: Vec<u64>,
        render_finished: Vec<u64>,
        in_flight: Vec<u64>,
        command_buffers: Vec<u64>,
    ) -> (r: FrameSync)
        requires
            image_available@.len() == MAX_FRAMES_IN_FLIGHT,
            render_finished@.len() == MAX_FRAMES_IN_FLIGHT,
            in_flight@.len() == MAX_FRAMES_IN_FLIGHT,
            command_buffers@.len() <= u32::MAX,
        ensures
            r@.wf(),
            r@.image_available == image_available@,
            r@.render_finished == render_finished@,
            r@.in_flight == in_flight@,
            r@.command_buffers == command_buffers@,
            r@.images_in_flight == Seq::new(command_buffers@.len(), |i: int| None::<usize>),
            r@.frame == 0,
            r@.phase == FramePhase::Idle,
    {
        let mut images_in_flight: Vec<Option<usize>> = Vec::new();
        let mut i: usize = 0;
        while i < command_buffers.len()
            invariant
                i <= command_buffers@.len(),
                images_in_flight@ == Seq::new(i as nat, |k: int| None::<usize>),
            decreases command_buffers@.len() - i,
        {
            images_in_flight.push(None);
            i = i + 1;
            assert(images_in_flight@ =~= Seq::new(i as nat, |k: int| None::<usize>));
        }
        FrameSync {
            image_available,
            render_finished,
            in_flight,
            command_buffers,
            images_in_flight,
            frame: 0,
            phase: FramePhase::Idle,
        }
    }

    /// Number of swapchain images tracked.
    pub fn image_count(&self) -> (r: usize)
        ensures
            r == self@.command_buffers.len(),
    {
        self.command_buffers.len()
    }

    /// The slot that the next submission uses.
    pub fn frame(&self) -> (r: usize)
        ensures
            r == self@.frame,
    {
        self.frame
    }

    pub fn phase(&self) -> (r: FramePhase)
        ensures
            r == self@.phase,
    {
        self.phase
    }

    /// Which slot, if any, guards swapchain image `image`.
    pub fn image_owner(&self, image: usize) -> (r: Option<usize>)
        requires
            image < self@.images_in_flight.len(),
        ensures
            r == self@.images_in_flight[image as int],
    {
        self.images_in_flight[image]
    }

    /// Idle to acquiring: the caller waits for the slot's fence, then
    /// acquires an image signalling the slot's `image_available` semaphore.
    pub fn begin_frame(&mut self) -> (r: Result<FrameBegin, FrameError>)
        requires
            old(self)@.wf(),
        ensures
            final(self)@.wf(),
            final(self)@.same_objects(old(self)@),
            final(self)@.images_in_flight == old(self)@.images_in_flight,
            final(self)@.frame == old(self)@.frame,
            old(self)@.phase != FramePhase::Idle ==> r == Err::<FrameBegin, FrameError>(
                FrameError::OutOfOrder,
            ) && final(self)@ == old(self)@,
            old(self)@.phase == FramePhase::Idle ==> r == Ok::<FrameBegin, FrameError>(
                FrameBegin {
                    fence: old(self)@.in_flight[old(self)@.frame as int],
                    image_available: old(self)@.image_available[old(self)@.frame as int],
                },
            ) && final(self)@.phase == FramePhase::Acquiring,
    {
        if self.phase != FramePhase::Idle {
            return Err(FrameError::OutOfOrder);
        }
        self.phase = FramePhase::Acquiring;
        Ok(
            FrameBegin {
                fence: self.in_flight[self.frame],
                image_available: self.image_available[self.frame],
            },
        )
    }

    /// Acquiring to submitted, once image `image_index` was acquired. When
    /// another submission still guards that image, the caller waits for its
    /// fence first; the image is then tagged with this slot's fence.
    pub fn submit(&mut self, image_index: u32) -> (r: Result<FrameSubmit, FrameError>)
        requires
            old(self)@.wf(),
        ensures
            final(self)@.wf(),
            final(self)@.same_objects(old(self)@),
            final(self)@.frame == old(self)@.frame,
            old(self)@.phase != FramePhase::Acquiring ==> r == Err::<FrameSubmit, FrameError>(
                FrameError::OutOfOrder,
            ) && final(self)@ == old(self)@,
            old(self)@.phase == FramePhase::Acquiring && image_index
                >= old(self)@.command_buffers.len() ==> r == Err::<FrameSubmit, FrameError>(
                FrameError::ImageOutOfRange,
            ) && final(self)@ == old(self)@,
            old(self)@.phase == FramePhase::Acquiring && image_index
                < old(self)@.command_buffers.len() ==> {
                let old_sync = old(self)@;
                let slot = old_sync.frame as int;
                let image = image_index as int;
                &&& r == Ok::<FrameSubmit, FrameError>(
                    FrameSubmit {
                        wait_fence: match old_sync.images_in_flight[image] {
                            Some(owner) => Some(old_sync.in_flight[owner as int]),
                            None => None,
                        },
                        fence: old_sync.in_flight[slot],
                        command_buffer: old_sync.command_buffers[image],
                        wait_semaphore: old_sync.image_available[slot],
                        signal_semaphore: old_sync.render_finished[slot],
                    },
                )
                &&& final(self)@.images_in_flight == old_sync.images_in_flight.update(
                    image,
                    Some(old_sync.frame),
                )
                &&& final(self)@.phase == FramePhase::Submitted { image: image_index as usize }
            },
    {
        if self.phase != FramePhase::Acquiring {
            return Err(FrameError::OutOfOrder);
        }
        if image_index as usize >= self.command_buffers.len() {
            return Err(FrameError::ImageOutOfRange);
        }
        let image = image_index as usize;
        let wait_fence = match self.images_in_flight[image] {
            Some(owner) => Some(self.in_flight[owner]),
            None => None,
        };
        let slot = self.frame;
        self.images_in_flight[image] = Some(slot);
        self.phase = FramePhase::Submitted { image };
        Ok(
            FrameSubmit {
                wait_fence,
                fence: self.in_flight[slot],
                command_buffer: self.command_buffers[image],
                wait_semaphore: self.image_available[slot],
                signal_semaphore: self.render_finished[slot],
            },
        )
    }

    /// Submitted to presented: the caller presents the image once rendering
    /// to it has finished.
    pub fn present(&mut self) -> (r: Result<FramePresent, FrameError>)
        requires
            old(self)@.wf(),
        ensures
            final(self)@.wf(),
            final(self)@.same_objects(old(self)@),
            final(self)@.images_in_flight == old(self)@.images_in_flight,
            final(self)@.frame == old(self)@.frame,
            !(old(self)@.phase is Submitted) ==> r == Err::<FramePresent, FrameError>(
                FrameError::OutOfOrder,
            ) && final(self)@ == old(self)@,
            old(self)@.phase is Submitted ==> {
                let image = old(self)@.phase->Submitted_image;
                &&& r == Ok::<FramePresent, FrameError>(
                    FramePresent {
                        image_index: image as u32,
                        wait_semaphore: old(self)@.render_finished[old(self)@.frame as int],
                    },
                )
                &&& final(self)@.phase == FramePhase::Presented { image }
            },
    {
        match self.phase {
            FramePhase::Submitted { image } => {
                self.phase = FramePhase::Presented { image };
                Ok(
                    FramePresent {
                        image_index: image as u32,
                        wait_semaphore: self.render_finished[self.frame],
                    },
                )
            },
            _ => Err(FrameError::OutOfOrder),
        }
    }

    /// Presented to idle: the next frame uses the next slot, cyclically.
    pub fn finish_frame(&mut self) -> (r: Result<(), FrameError>)
        requires
            old(self)@.wf(),
        ensures
            final(self)@.wf(),
            final(self)@.same_objects(old(self)@),
            final(self)@.images_in_flight == old(self)@.images_in_flight,
            !(old(self)@.phase is Presented) ==> r == Err::<(), FrameError>(FrameError::OutOfOrder)
                && final(self)@ == old(self)@,
            old(self)@.phase is Presented ==> r == Ok::<(), FrameError>(())
                && final(self)@.phase == FramePhase::Idle && final(self)@.frame == (
            old(self)@.frame + 1) % (MAX_FRAMES_IN_FLIGHT as int),
    {
        match self.phase {
            FramePhase::Presented { .. } => {
                self.phase = FramePhase::Idle;
                self.frame = (self.frame + 1) % MAX_FRAMES_IN_FLIGHT;
                Ok(())
            },
            _ => Err(FrameError::OutOfOrder),
        }
    }
}

} // verus!
