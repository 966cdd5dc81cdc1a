use sagitario::lifecycle::{LifecycleError, Resource, ResourceKind, ResourceLedger, TeardownStep};

fn res(kind: ResourceKind, handle: u64) -> Resource {
    Resource { kind, handle }
}

fn full_ledger() -> (ResourceLedger, Vec<Resource>) {
    let created = vec![
        res(ResourceKind::Instance, 1),
        res(ResourceKind::DebugMessenger, 2),
        res(ResourceKind::Surface, 3),
        res(ResourceKind::Device, 4),
        res(ResourceKind::Swapchain, 5),
        res(ResourceKind::ImageView, 6),
        res(ResourceKind::ImageView, 7),
        res(ResourceKind::RenderPass, 8),
        res(ResourceKind::PipelineLayout, 9),
        res(ResourceKind::Pipeline, 10),
        res(ResourceKind::Framebuffer, 11),
        res(ResourceKind::Framebuffer, 12),
        res(ResourceKind::CommandPool, 13),
        res(ResourceKind::Semaphore, 14),
        res(ResourceKind::Semaphore, 15),
        res(ResourceKind::Fence, 16),
        res(ResourceKind::Semaphore, 17),
        res(ResourceKind::Semaphore, 18),
        res(ResourceKind::Fence, 19),
    ];
    let mut ledger = ResourceLedger::new();
    for r in &created {
        assert_eq!(ledger.record(*r), Ok(()));
    }
    (ledger, created)
}

#[test]
fn teardown_waits_then_destroys_in_reverse() {
    let (mut ledger, created) = full_ledger();
    let steps = ledger.teardown();
    assert_eq!(steps.len(), created.len() + 1);
    assert_eq!(steps[0], TeardownStep::WaitDeviceIdle);
    let destroyed: Vec<Resource> = steps[1..]
        .iter()
        .map(|s| match s {
            TeardownStep::Destroy(r) => *r,
            TeardownStep::WaitDeviceIdle => panic!("wait after the first step"),
        })
        .collect();
    let mut reversed = created.clone();
    reversed.reverse();
    assert_eq!(destroyed, reversed);
    assert_eq!(destroyed.last().unwrap().kind, ResourceKind::Instance);
    assert_eq!(destroyed[destroyed.len() - 2].kind, ResourceKind::DebugMessenger);
    assert_eq!(destroyed[destroyed.len() - 3].kind, ResourceKind::Surface);
}

#[test]
fn second_teardown_is_a_no_op() {
    let (mut ledger, _) = full_ledger();
    assert!(!ledger.teardown().is_empty());
    assert!(ledger.is_torn_down());
    assert_eq!(ledger.len(), 0);
    assert!(ledger.teardown().is_empty());
    assert!(ledger.teardown().is_empty());
    assert_eq!(ledger.record(res(ResourceKind::Instance, 1)), Err(LifecycleError::TornDown));
}

#[test]
fn teardown_without_device_does_not_wait() {
    let mut ledger = ResourceLedger::new();
    ledger.record(res(ResourceKind::Instance, 1)).unwrap();
    ledger.record(res(ResourceKind::Surface, 2)).unwrap();
    assert_eq!(
        ledger.teardown(),
        vec![TeardownStep::Destroy(res(ResourceKind::Surface, 2)), TeardownStep::Destroy(res(ResourceKind::Instance, 1))]
    );
    assert!(ResourceLedger::new().teardown().is_empty());
}

#[test]
fn creation_out_of_order_is_refused() {
    let mut ledger = ResourceLedger::new();
    assert_eq!(ledger.record(res(ResourceKind::Device, 1)), Err(LifecycleError::OutOfOrder));
    ledger.record(res(ResourceKind::Instance, 1)).unwrap();
    assert_eq!(ledger.record(res(ResourceKind::Swapchain, 2)), Err(LifecycleError::OutOfOrder));
    assert_eq!(ledger.record(res(ResourceKind::Instance, 3)), Err(LifecycleError::OutOfOrder));
    ledger.record(res(ResourceKind::Surface, 2)).unwrap();
    assert_eq!(ledger.record(res(ResourceKind::DebugMessenger, 4)), Err(LifecycleError::OutOfOrder));
    assert_eq!(ledger.len(), 2);
}
