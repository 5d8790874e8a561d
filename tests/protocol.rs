use gpu_memory::error::RendererError;
use gpu_memory::protocol::{
    buffer_desc, create_step, destroy_step, image_desc, location_for, CreateAction, CreateEvent,
    CreateState, DestroyAction, DestroyEvent, DestroyState, MemoryClass, MemoryRequirements,
    PixelFormat, ResourceKind, Tiling,
};

#[derive(Default)]
struct MockDevice {
    fail_create: bool,
    fail_alloc: bool,
    fail_bind: bool,
    fail_free: bool,
    fail_unbind_free: bool,
    created: u32,
    destroyed: u32,
    allocated: u32,
    freed: u32,
    classes: Vec<MemoryClass>,
    next_handle: u64,
}

fn requirements() -> MemoryRequirements {
    MemoryRequirements { size: 256, alignment: 16, memory_type_bits: 1 }
}

impl MockDevice {
    fn create(&mut self, kind: ResourceKind) -> Result<u64, RendererError> {
        let mut state = CreateState::Start;
        let mut event: Option<CreateEvent> = None;
        loop {
            let (next, action) = create_step(kind, state, event.take());
            state = next;
            event = Some(match action {
                CreateAction::CreateRaw => {
                    if self.fail_create {
                        CreateEvent::RawFailed("device refused".to_string())
                    } else {
                        self.created += 1;
                        self.next_handle += 1;
                        CreateEvent::RawCreated { handle: self.next_handle, requirements: requirements() }
                    }
                }
                CreateAction::Allocate { requirements: r, class } => {
                    assert_eq!(r, requirements());
                    self.classes.push(class);
                    if self.fail_alloc {
                        CreateEvent::AllocFailed(RendererError::AllocationExhausted("full".to_string()))
                    } else {
                        self.allocated += 1;
                        CreateEvent::Allocated
                    }
                }
                CreateAction::Bind { .. } => {
                    if self.fail_bind {
                        CreateEvent::BindFailed("bind refused".to_string())
                    } else {
                        CreateEvent::Bound
                    }
                }
                CreateAction::Free => {
                    self.freed += 1;
                    if self.fail_unbind_free {
                        CreateEvent::FreeFailed(RendererError::LockFailure("poisoned".to_string()))
                    } else {
                        CreateEvent::Freed
                    }
                }
                CreateAction::DestroyRaw { .. } => {
                    self.destroyed += 1;
                    CreateEvent::RawDestroyed
                }
                CreateAction::Finish { handle } => return Ok(handle),
                CreateAction::Fail(e) => return Err(e),
                CreateAction::Idle => panic!("protocol stalled"),
            });
        }
    }

    fn destroy(&mut self, handle: u64) -> Result<(), RendererError> {
        let mut state = DestroyState::Start { handle };
        let mut event: Option<DestroyEvent> = None;
        loop {
            let (next, action) = destroy_step(state, event.take());
            state = next;
            event = Some(match action {
                DestroyAction::Free => {
                    self.freed += 1;
                    if self.fail_free {
                        DestroyEvent::FreeFailed(RendererError::LockFailure("poisoned".to_string()))
                    } else {
                        DestroyEvent::Freed
                    }
                }
                DestroyAction::DestroyRaw { handle: h } => {
                    assert_eq!(h, handle);
                    self.destroyed += 1;
                    DestroyEvent::RawDestroyed
                }
                DestroyAction::Finish => return Ok(()),
                DestroyAction::Fail(e) => return Err(e),
                DestroyAction::Idle => panic!("protocol stalled"),
            });
        }
    }
}

#[test]
fn buffers_are_host_visible_and_images_device_local() {
    assert_eq!(location_for(ResourceKind::Buffer), MemoryClass::HostVisibleCoherent);
    assert_eq!(location_for(ResourceKind::Image), MemoryClass::DeviceLocal);
    let mut d = MockDevice::default();
    d.create(ResourceKind::Buffer).unwrap();
    d.create(ResourceKind::Image).unwrap();
    assert_eq!(d.classes, vec![MemoryClass::HostVisibleCoherent, MemoryClass::DeviceLocal]);
}

#[test]
fn successful_create_holds_raw_and_memory() {
    let mut d = MockDevice::default();
    let h = d.create(ResourceKind::Buffer).unwrap();
    assert_eq!(h, 1);
    assert_eq!((d.created, d.allocated, d.freed, d.destroyed), (1, 1, 0, 0));
}

#[test]
fn raw_create_failure_requests_no_memory() {
    let mut d = MockDevice { fail_create: true, ..Default::default() };
    let e = d.create(ResourceKind::Image).unwrap_err();
    assert!(matches!(e, RendererError::DeviceOperationFailure(ref m) if m == "device refused"));
    assert_eq!((d.created, d.allocated, d.destroyed), (0, 0, 0));
    assert!(d.classes.is_empty());
}

#[test]
fn allocation_failure_destroys_the_raw_resource() {
    for kind in [ResourceKind::Buffer, ResourceKind::Image] {
        let mut d = MockDevice { fail_alloc: true, ..Default::default() };
        let e = d.create(kind).unwrap_err();
        assert!(matches!(e, RendererError::AllocationExhausted(ref m) if m == "full"));
        assert_eq!((d.created, d.destroyed), (1, 1));
        assert_eq!((d.allocated, d.freed), (0, 0));
    }
}

#[test]
fn bind_failure_frees_memory_and_destroys_the_raw_resource() {
    let mut d = MockDevice { fail_bind: true, ..Default::default() };
    let e = d.create(ResourceKind::Buffer).unwrap_err();
    assert!(matches!(e, RendererError::DeviceOperationFailure(ref m) if m == "bind refused"));
    assert_eq!((d.created, d.destroyed), (1, 1));
    assert_eq!((d.allocated, d.freed), (1, 1));
}

#[test]
fn create_destroy_pairs_free_exactly_once() {
    let mut d = MockDevice::default();
    let handles: Vec<u64> = (0..8).map(|_| d.create(ResourceKind::Buffer).unwrap()).collect();
    for h in handles {
        d.destroy(h).unwrap();
    }
    assert_eq!((d.allocated, d.freed), (8, 8));
    assert_eq!((d.created, d.destroyed), (8, 8));
}

#[test]
fn failed_free_still_destroys_the_raw_resource() {
    let mut d = MockDevice::default();
    let h = d.create(ResourceKind::Image).unwrap();
    d.fail_free = true;
    let e = d.destroy(h).unwrap_err();
    assert!(matches!(e, RendererError::LockFailure(ref m) if m == "poisoned"));
    assert_eq!((d.freed, d.destroyed), (1, 1));
}

#[test]
fn unexpected_event_is_ignored() {
    let (s, a) = create_step(ResourceKind::Buffer, CreateState::AwaitRaw, Some(CreateEvent::Bound));
    assert!(matches!(s, CreateState::AwaitRaw));
    assert!(matches!(a, CreateAction::Idle));
    let (s, a) = destroy_step(DestroyState::Done, Some(DestroyEvent::Freed));
    assert!(matches!(s, DestroyState::Done));
    assert!(matches!(a, DestroyAction::Idle));
}

#[test]
fn descriptors_follow_the_fixed_policy() {
    let b = buffer_desc(1024, 0x10);
    assert_eq!((b.size, b.usage, b.exclusive), (1024, 0x10, true));
    let i = image_desc(640, 480);
    assert_eq!((i.width, i.height, i.depth, i.mip_levels, i.array_layers, i.samples), (640, 480, 1, 1, 1, 1));
    assert_eq!(i.format, PixelFormat::Rgba8Unorm);
    assert_eq!(i.tiling, Tiling::Optimal);
    assert!(i.transfer_dst && i.sampled && i.exclusive);
    assert_eq!(i.dimensions, 2);
    assert!(i.initial_layout_undefined);
    assert_eq!(i.create_flags, 0);
}

#[test]
fn error_message_and_duplicate() {
    let e = RendererError::UnmappedMemory("no map".to_string());
    assert_eq!(e.message(), "no map");
    assert!(matches!(e.duplicate(), RendererError::UnmappedMemory(ref m) if m == "no map"));
}

#[test]
fn failed_free_after_failed_bind_is_reported() {
    let mut d = MockDevice { fail_bind: true, fail_unbind_free: true, ..Default::default() };
    let e = d.create(ResourceKind::Image).unwrap_err();
    assert!(matches!(e, RendererError::DeviceOperationFailure(ref m)
        if m == "bind refused (returning the memory also failed: poisoned)"));
    assert_eq!((d.created, d.destroyed), (1, 1));
    assert_eq!((d.allocated, d.freed), (1, 1));
}
