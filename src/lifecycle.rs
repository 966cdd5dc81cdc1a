//! The record of every GPU object created, in creation order, and the
//! teardown that releases them in exactly the reverse order, after the device
//! has gone idle.
use vstd::prelude::*;

verus! {

/// The kinds of objects whose lifetime the ledger tracks.
#[derive(Debug, Copy, Clone, PartialEq, Eq, Structural)]
pub enum ResourceKind {
    Instance,
    DebugMessenger,
    Surface,
    Device,
    Swapchain,
    ImageView,
    RenderPass,
    PipelineLayout,
    Pipeline,
    Framebuffer,
    CommandPool,
    Semaphore,
    Fence,
}

/// One created object: its kind and its raw handle.
#[derive(Debug, Copy, Clone, PartialEq, Eq, Structural)]
pub struct Resource {
    pub kind: ResourceKind,
    pub handle: u64,
}

/// One step of a teardown.
#[derive(Debug, Copy, Clone, PartialEq, Eq, Structural)]
pub enum TeardownStep {
    /// Wait until the device has finished all queued work.
    WaitDeviceIdle,
    /// Destroy this object.
    Destroy(Resource),
}

/// Why an object could not be recorded.
#[derive(Debug, Copy, Clone, PartialEq, Eq, Structural)]
pub enum LifecycleError {
    /// Its parent stage has not been created yet, or a later stage already was.
    OutOfOrder,
    /// Everything was already released.
    TornDown,
}

/// The kinds that may be created right after an object of kind `prev`:
/// context, diagnostics sink (optional), surface, device, swapchain, image
/// views, render pass, pipeline layout, pipeline, framebuffers, command pool,
/// then the semaphores and fences. The per-image and per-frame collections
/// repeat, and may be empty.
pub open spec fn may_follow(prev: ResourceKind, next: ResourceKind) -> bool {
    match prev {
        ResourceKind::Instance => next == ResourceKind::DebugMessenger || next
            == ResourceKind::Surface,
        ResourceKind::DebugMessenger => next == ResourceKind::Surface,
        ResourceKind::Surface => next == ResourceKind::Device,
        ResourceKind::Device => next == ResourceKind::Swapchain,
        ResourceKind::Swapchain => next == ResourceKind::ImageView || next
            == ResourceKind::RenderPass,
        ResourceKind::ImageView => next == ResourceKind::ImageView || next
            == ResourceKind::RenderPass,
        ResourceKind::RenderPass => next == ResourceKind::PipelineLayout,
        ResourceKind::PipelineLayout => next == ResourceKind::Pipeline,
        ResourceKind::Pipeline => next == ResourceKind::Framebuffer || next
            == ResourceKind::CommandPool,
        ResourceKind::Framebuffer => next == ResourceKind::Framebuffer || next
            == ResourceKind::CommandPool,
        ResourceKind::CommandPool => next == ResourceKind::Semaphore || next
            == ResourceKind::Fence,
        ResourceKind::Semaphore => next == ResourceKind::Semaphore || next == ResourceKind::Fence,
        ResourceKind::Fence => next == ResourceKind::Semaphore || next == ResourceKind::Fence,
    }
}

fn kind_may_follow(prev: ResourceKind, next: ResourceKind) -> (r: bool)
    ensures
        r == may_follow(prev, next),
{
    match prev {
        ResourceKind::Instance => next == ResourceKind::DebugMessenger || next
            == ResourceKind::Surface,
        ResourceKind::DebugMessenger => next == ResourceKind::Surface,
        ResourceKind::Surface => next == ResourceKind::Device,
        ResourceKind::Device => next == ResourceKind::Swapchain,
        ResourceKind::Swapchain => next == ResourceKind::ImageView || next
            == ResourceKind::RenderPass,
        ResourceKind::ImageView => next == ResourceKind::ImageView || next
            == ResourceKind::RenderPass,
        ResourceKind::RenderPass => next == ResourceKind::PipelineLayout,
        ResourceKind::PipelineLayout => next == ResourceKind::Pipeline,
        ResourceKind::Pipeline => next == ResourceKind::Framebuffer || next
            == ResourceKind::CommandPool,
        ResourceKind::Framebuffer => next == ResourceKind::Framebuffer || next
            == ResourceKind::CommandPool,
        ResourceKind::CommandPool => next == ResourceKind::Semaphore || next
            == ResourceKind::Fence,
        ResourceKind::Semaphore => next == ResourceKind::Semaphore || next == ResourceKind::Fence,
        ResourceKind::Fence => next == ResourceKind::Semaphore || next == ResourceKind::Fence,
    }
}

/// `created` starts with the context and each object may follow the one before it.
pub open spec fn creation_order_ok(created: Seq<Resource>) -> bool {
    &&& created.len() > 0 ==> created[0].kind == ResourceKind::Instance
    &&& forall|i: int|
        1 <= i < created.len() ==> may_follow(created[i - 1].kind, #[trigger] created[i].kind)
}

pub open spec fn has_device(created: Seq<Resource>) -> bool {
    exists|i: int| 0 <= i < created.len() && (#[trigger] created[i]).kind == ResourceKind::Device
}

/// One destroy step per created object, the last created first.
pub open spec fn destroy_steps(created: Seq<Resource>) -> Seq<TeardownStep> {
    Seq::new(created.len(), |k: int| TeardownStep::Destroy(created[created.len() - 1 - k]))
}

/// Abstract state of a ledger.
pub struct LedgerView {
    pub created: Seq<Resource>,
    pub torn_down: bool,
}

/// What a teardown does: nothing once torn down; otherwise wait for the
/// device (when there is one), destroy everything in reverse, and forget it.
pub open spec fn spec_teardown(v: LedgerView) -> (LedgerView, Seq<TeardownStep>) {
    if v.torn_down {
        (v, seq![])
    } else if has_device(v.created) {
        (
            LedgerView { created: seq![], torn_down: true },
            seq![TeardownStep::WaitDeviceIdle] + destroy_steps(v.created),
        )
    } else {
        (LedgerView { created: seq![], torn_down: true }, destroy_steps(v.created))
    }
}

/// The objects created so far, in creation order.
pub struct ResourceLedger {
    created: Vec<Resource>,
    torn_down: bool,
}

impl View for ResourceLedger {
    type V = LedgerView;

    closed spec fn view(&self) -> LedgerView {
        LedgerView { created: self.created@, torn_down: self.torn_down }
    }
}

impl ResourceLedger {
    pub fn new() -> (r: ResourceLedger)
        ensures
            r@.created == Seq::<Resource>::empty(),
            !r@.torn_down,
    {
        ResourceLedger { created: Vec::new(), torn_down: false }
    }

    /// Records a newly created object. Refused when its place in the
    /// lifecycle order is not next, or after the teardown.
    pub fn record(&mut self, resource: Resource) -> (r: Result<(), LifecycleError>)
        ensures
            old(self)@.torn_down ==> r == Err::<(), LifecycleError>(LifecycleError::TornDown),
            !old(self)@.torn_down && old(self)@.created.len() == 0 ==> (r is Ok <==> resource.kind
                == ResourceKind::Instance),
            !old(self)@.torn_down && old(self)@.created.len() > 0 ==> (r is Ok <==> may_follow(
                old(self)@.created.last().kind,
                resource.kind,
            )),
            !old(self)@.torn_down && r is Err ==> r == Err::<(), LifecycleError>(
                LifecycleError::OutOfOrder,
            ),
            r is Ok ==> final(self)@ == (LedgerView {
                created: old(self)@.created.push(resource),
                torn_down: false,
            }),
            r is Err ==> final(self)@ == old(self)@,
            creation_order_ok(old(self)@.created) ==> creation_order_ok(final(self)@.created),
    {
        if self.torn_down {
            return Err(LifecycleError::TornDown);
        }
        let n = self.created.len();
        let ok = if n == 0 {
            resource.kind == ResourceKind::Instance
        } else {
            kind_may_follow(self.created[n - 1].kind, resource.kind)
        };
        if !ok {
            return Err(LifecycleError::OutOfOrder);
        }
        self.created.push(resource);
        Ok(())
    }

    /// Number of objects recorded and not yet released.
    pub fn len(&self) -> (r: usize)
        ensures
            r == self@.created.len(),
    {
        self.created.len()
    }

    pub fn is_torn_down(&self) -> (r: bool)
        ensures
            r == self@.torn_down,
    {
        self.torn_down
    }

    /// The steps that release everything recorded; a second teardown
    /// returns no step.
    pub fn teardown(&mut self) -> (r: Vec<TeardownStep>)
        ensures
            (final(self)@, r@) == spec_teardown(old(self)@),
    {
        if self.torn_down {
            return Vec::new();
        }
        let n = self.created.len();
        let mut device = false;
        let mut i: usize = 0;
        while i < n
            invariant
                n == self.created@.len(),
                i <= n,
                device <==> exists|k: int|
                    0 <= k < i && (#[trigger] self.created@[k]).kind == ResourceKind::Device,
            decreases n - i,
        {
            if self.created[i].kind == ResourceKind::Device {
                device = true;
            }
            i = i + 1;
        }
        let mut steps: Vec<TeardownStep> = Vec::new();
        if device {
            steps.push(TeardownStep::WaitDeviceIdle);
        }
        let offset: usize = if device { 1 } else { 0 };
        let ghost created = self.created@;
        let mut j: usize = n;
        while j > 0
            invariant
                created == self.created@,
                n == created.len(),
                j <= n,
                offset == (if device { 1usize } else { 0usize }),
                steps@.len() == offset + (n - j),
                device ==> steps@[0] == TeardownStep::WaitDeviceIdle,
                forall|k: int|
                    0 <= k < n - j ==> #[trigger] steps@[offset + k] == TeardownStep::Destroy(
                        created[n - 1 - k],
                    ),
            decreases j,
        {
            j = j - 1;
            steps.push(TeardownStep::Destroy(self.created[j]));
        }
        proof {
            let d = destroy_steps(created);
            assert forall|k: int| 0 <= k < n implies #[trigger] d[k] == steps@[offset + k] by {
                assert(steps@[offset + k] == TeardownStep::Destroy(created[n - 1 - k]));
            }
            if device {
                assert(steps@ =~= seq![TeardownStep::WaitDeviceIdle] + d);
            } else {
                assert(steps@ =~= d);
            }
        }
        self.created = Vec::new();
        self.torn_down = true;
        steps
    }
}

/// A second teardown releases nothing and changes nothing.
pub proof fn lemma_teardown_idempotent(v: LedgerView)
    ensures
        spec_teardown(spec_teardown(v).0).1 == Seq::<TeardownStep>::empty(),
        spec_teardown(spec_teardown(v).0).0 == spec_teardown(v).0,
{
}

/// Once a device exists, a teardown waits for it to go idle before anything
/// else, and then destroys each object exactly once, in the reverse of the
/// order in which they were created.
pub proof fn lemma_teardown_reverses_creation(v: LedgerView)
    requires
        !v.torn_down,
        has_device(v.created),
    ensures
        ({
            let steps = spec_teardown(v).1;
            &&& steps.len() == v.created.len() + 1
            &&& steps[0] == TeardownStep::WaitDeviceIdle
            &&& forall|k: int| 1 <= k < steps.len() ==> (#[trigger] steps[k]) is Destroy
            &&& forall|i: int|
                0 <= i < v.created.len() ==> steps[v.created.len() - i] == TeardownStep::Destroy(
                    #[trigger] v.created[i],
                )
        }),
{
    let steps = spec_teardown(v).1;
    let n = v.created.len();
    assert forall|k: int| 1 <= k < steps.len() implies (#[trigger] steps[k]) is Destroy by {
        assert(steps[k] == destroy_steps(v.created)[k - 1]);
    }
    assert forall|i: int| 0 <= i < n implies steps[n - i] == TeardownStep::Destroy(
        #[trigger] v.created[i],
    ) by {
        assert(steps[n - i] == destroy_steps(v.created)[n - i - 1]);
    }
}

} // verus!
