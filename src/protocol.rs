use vstd::prelude::*;
use crate::error::RendererError;
use vstd::string::StringExecFns;

verus! {

/// The two kinds of raw GPU resource.
#[derive(Clone, Copy, PartialEq, Eq, Structural, Debug)]
pub enum ResourceKind {
    Buffer,
    Image,
}

/// Where requested memory lives.
#[derive(Clone, Copy, PartialEq, Eq, Structural, Debug)]
pub enum MemoryClass {
    /// CPU-writable and coherent, for data updated from the host.
    HostVisibleCoherent,
    /// GPU-only, fastest for device access, never mapped.
    DeviceLocal,
}

/// Placement policy: buffers are host-visible, images are device-local.
pub open spec fn class_of(kind: ResourceKind) -> MemoryClass {
    match kind {
        ResourceKind::Buffer => MemoryClass::HostVisibleCoherent,
        ResourceKind::Image => MemoryClass::DeviceLocal,
    }
}

/// The memory class requested for a resource of the given kind.
pub fn location_for(kind: ResourceKind) -> (r: MemoryClass)
    ensures
        r == class_of(kind),
{
    match kind {
        ResourceKind::Buffer => MemoryClass::HostVisibleCoherent,
        ResourceKind::Image => MemoryClass::DeviceLocal,
    }
}

} // verus!

verus! {

/// What the device reports that a resource needs from memory.
#[derive(Clone, Copy, PartialEq, Eq, Structural, Debug)]
pub struct MemoryRequirements {
    pub size: u64,
    pub alignment: u64,
    pub memory_type_bits: u32,
}

} // verus!

verus! {

/// Pixel formats an image may take.
#[derive(Clone, Copy, PartialEq, Eq, Structural, Debug)]
pub enum PixelFormat {
    /// Four channels of eight unsigned-normalised bits.
    Rgba8Unorm,
}

/// Texel layouts an image may take.
#[derive(Clone, Copy, PartialEq, Eq, Structural, Debug)]
pub enum Tiling {
    Optimal,
    Linear,
}

/// Descriptor of a raw buffer.
#[derive(Clone, Copy, PartialEq, Eq, Structural, Debug)]
pub struct BufferDesc {
    pub size: u64,
    /// Usage flags, passed to the device as they are.
    pub usage: u32,
    /// Owned by one queue family at a time.
    pub exclusive: bool,
}

/// Descriptor of a raw two-dimensional image.
#[derive(Clone, Copy, PartialEq, Eq, Structural, Debug)]
pub struct ImageDesc {
    /// Number of dimensions of the image: 1, 2 or 3.
    pub dimensions: u32,
    pub width: u32,
    pub height: u32,
    pub depth: u32,
    pub mip_levels: u32,
    pub array_layers: u32,
    pub samples: u32,
    pub format: PixelFormat,
    pub tiling: Tiling,
    /// Usable as the destination of a transfer.
    pub transfer_dst: bool,
    /// Usable as a sampled shader resource.
    pub sampled: bool,
    pub exclusive: bool,
    /// The contents start undefined.
    pub initial_layout_undefined: bool,
    /// Creation flags, passed to the device as they are.
    pub create_flags: u32,
}

/// The descriptor of a buffer of `size` bytes with the given usage, owned
/// exclusively.
pub fn buffer_desc(size: u64, usage: u32) -> (r: BufferDesc)
    ensures
        r == (BufferDesc { size, usage, exclusive: true }),
{
    BufferDesc { size, usage, exclusive: true }
}

/// The descriptor of a `width` by `height` two-dimensional texture: depth
/// one, one mip level, one layer, one sample, optimal tiling, RGBA8 unorm,
/// transfer destination and sampled, owned exclusively, contents initially
/// undefined, no creation flags.
pub fn image_desc(width: u32, height: u32) -> (r: ImageDesc)
    ensures
        r == (ImageDesc {
            dimensions: 2,
            width,
            height,
            depth: 1,
            mip_levels: 1,
            array_layers: 1,
            samples: 1,
            format: PixelFormat::Rgba8Unorm,
            tiling: Tiling::Optimal,
            transfer_dst: true,
            sampled: true,
            exclusive: true,
            initial_layout_undefined: true,
            create_flags: 0,
        }),
{
    ImageDesc {
        dimensions: 2,
        width,
        height,
        depth: 1,
        mip_levels: 1,
        array_layers: 1,
        samples: 1,
        format: PixelFormat::Rgba8Unorm,
        tiling: Tiling::Optimal,
        transfer_dst: true,
        sampled: true,
        exclusive: true,
        initial_layout_undefined: true,
        create_flags: 0,
    }
}

/// Progress of one create-and-bind operation. The driver holds the
/// allocation itself; the state records what it has been asked to hold.
#[derive(Debug)]
pub enum CreateState {
    /// Nothing done yet.
    Start,
    /// The raw resource has been requested.
    AwaitRaw,
    /// The raw resource exists; memory has been requested.
    AwaitAlloc { handle: u64 },
    /// Memory is held; binding has been requested.
    AwaitBind { handle: u64 },
    /// Binding failed with `bind_message`; the memory is being returned.
    Unbinding { handle: u64, bind_message: String },
    /// A later step failed; the raw resource is being destroyed.
    Unwinding { error: RendererError },
    /// The resource is created and bound.
    Done { handle: u64 },
    /// The operation failed and nothing it acquired is held.
    Failed { error: RendererError },
}

/// What the driver reports after performing an action.
#[derive(Debug)]
pub enum CreateEvent {
    RawCreated { handle: u64, requirements: MemoryRequirements },
    RawFailed(String),
    Allocated,
    AllocFailed(RendererError),
    Bound,
    BindFailed(String),
    Freed,
    FreeFailed(RendererError),
    RawDestroyed,
}

/// What the driver is asked to do next.
#[derive(Debug)]
pub enum CreateAction {
    /// Nothing: the event was not the one awaited.
    Idle,
    /// Create the raw resource.
    CreateRaw,
    /// Request memory for the given requirements and class.
    Allocate { requirements: MemoryRequirements, class: MemoryClass },
    /// Bind the held memory to the raw resource.
    Bind { handle: u64 },
    /// Return the held memory to the pool.
    Free,
    /// Destroy the raw resource.
    DestroyRaw { handle: u64 },
    /// Hand the resource and its memory to the caller.
    Finish { handle: u64 },
    /// Report the error to the caller.
    Fail(RendererError),
}

/// The message reported when binding failed with `bind` and returning the
/// memory afterwards failed with `free`.
pub open spec fn bind_and_free_text(bind: Seq<char>, free: RendererError) -> Seq<char> {
    bind + " (returning the memory also failed: "@ + free.text() + ")"@
}

/// The creation protocol for a resource of kind `kind`, on every event but
/// a failure to return the memory after a failed bind (see `create_moves`).
pub open spec fn create_next(kind: ResourceKind, s: CreateState, e: Option<CreateEvent>) -> (CreateState, CreateAction) {
    match (s, e) {
        (CreateState::Start, None) => (CreateState::AwaitRaw, CreateAction::CreateRaw),
        (CreateState::AwaitRaw, Some(CreateEvent::RawCreated { handle, requirements })) =>
            (CreateState::AwaitAlloc { handle }, CreateAction::Allocate { requirements, class: class_of(kind) }),
        (CreateState::AwaitRaw, Some(CreateEvent::RawFailed(m))) => {
            let error = RendererError::DeviceOperationFailure(m);
            (CreateState::Failed { error }, CreateAction::Fail(error))
        },
        (CreateState::AwaitAlloc { handle }, Some(CreateEvent::Allocated)) =>
            (CreateState::AwaitBind { handle }, CreateAction::Bind { handle }),
        (CreateState::AwaitAlloc { handle }, Some(CreateEvent::AllocFailed(error))) =>
            (CreateState::Unwinding { error }, CreateAction::DestroyRaw { handle }),
        (CreateState::AwaitBind { handle }, Some(CreateEvent::Bound)) =>
            (CreateState::Done { handle }, CreateAction::Finish { handle }),
        (CreateState::AwaitBind { handle }, Some(CreateEvent::BindFailed(m))) =>
            (CreateState::Unbinding { handle, bind_message: m }, CreateAction::Free),
        (CreateState::Unbinding { handle, bind_message }, Some(CreateEvent::Freed)) =>
            (CreateState::Unwinding { error: RendererError::DeviceOperationFailure(bind_message) },
             CreateAction::DestroyRaw { handle }),
        (CreateState::Unwinding { error }, Some(CreateEvent::RawDestroyed)) =>
            (CreateState::Failed { error }, CreateAction::Fail(error)),
        (s, _) => (s, CreateAction::Idle),
    }
}

/// The creation protocol: `r` is the state and action that follow `s` on
/// event `e`. When binding fails its error is the one reported, and a
/// failure to return the memory afterwards is added to its message.
pub open spec fn create_moves(kind: ResourceKind, s: CreateState, e: Option<CreateEvent>, r: (CreateState, CreateAction)) -> bool {
    match (s, e) {
        (CreateState::Unbinding { handle, bind_message }, Some(CreateEvent::FreeFailed(f))) => {
            &&& r.0 matches CreateState::Unwinding { error: RendererError::DeviceOperationFailure(t) }
                && t@ == bind_and_free_text(bind_message@, f)
            &&& r.1 == (CreateAction::DestroyRaw { handle })
        },
        _ => r == create_next(kind, s, e),
    }
}

/// Advances the creation protocol by one event (`None` starts it). An event
/// that the state does not await changes nothing and asks for nothing.
pub fn create_step(kind: ResourceKind, s: CreateState, e: Option<CreateEvent>) -> (r: (CreateState, CreateAction))
    ensures
        create_moves(kind, s, e, r),
{
    match (s, e) {
        (CreateState::Start, None) => (CreateState::AwaitRaw, CreateAction::CreateRaw),
        (CreateState::AwaitRaw, Some(CreateEvent::RawCreated { handle, requirements })) =>
            (CreateState::AwaitAlloc { handle }, CreateAction::Allocate { requirements, class: location_for(kind) }),
        (CreateState::AwaitRaw, Some(CreateEvent::RawFailed(m))) => {
            (CreateState::Failed { error: RendererError::DeviceOperationFailure(m.clone()) },
             CreateAction::Fail(RendererError::DeviceOperationFailure(m)))
        },
        (CreateState::AwaitAlloc { handle }, Some(CreateEvent::Allocated)) =>
            (CreateState::AwaitBind { handle }, CreateAction::Bind { handle }),
        (CreateState::AwaitAlloc { handle }, Some(CreateEvent::AllocFailed(error))) =>
            (CreateState::Unwinding { error }, CreateAction::DestroyRaw { handle }),
        (CreateState::AwaitBind { handle }, Some(CreateEvent::Bound)) =>
            (CreateState::Done { handle }, CreateAction::Finish { handle }),
        (CreateState::AwaitBind { handle }, Some(CreateEvent::BindFailed(m))) =>
            (CreateState::Unbinding { handle, bind_message: m }, CreateAction::Free),
        (CreateState::Unbinding { handle, bind_message }, Some(CreateEvent::Freed)) =>
            (CreateState::Unwinding { error: RendererError::DeviceOperationFailure(bind_message) },
             CreateAction::DestroyRaw { handle }),
        (CreateState::Unbinding { handle, bind_message }, Some(CreateEvent::FreeFailed(f))) => {
            let mut t = bind_message;
            t.append(" (returning the memory also failed: ");
            t.append(f.message().as_str());
            t.append(")");
            (CreateState::Unwinding { error: RendererError::DeviceOperationFailure(t) },
             CreateAction::DestroyRaw { handle })
        },
        (CreateState::Unwinding { error }, Some(CreateEvent::RawDestroyed)) => {
            let copy = error.duplicate();
            (CreateState::Failed { error }, CreateAction::Fail(copy))
        },
        (s, _) => (s, CreateAction::Idle),
    }
}

} // verus!

verus! {

/// Progress of one free-and-destroy operation.
#[derive(Debug)]
pub enum DestroyState {
    /// Nothing done yet; the resource and its memory are held.
    Start { handle: u64 },
    /// The memory is being returned.
    AwaitFree { handle: u64 },
    /// The raw resource is being destroyed; `free_error` is what freeing
    /// reported.
    AwaitDestroy { free_error: Option<RendererError> },
    /// Both steps succeeded.
    Done,
    /// Both steps ran and one of them failed.
    Failed { error: RendererError },
}

/// What the driver reports after performing an action.
#[derive(Debug)]
pub enum DestroyEvent {
    Freed,
    FreeFailed(RendererError),
    RawDestroyed,
}

/// What the driver is asked to do next.
#[derive(Debug)]
pub enum DestroyAction {
    Idle,
    Free,
    DestroyRaw { handle: u64 },
    Finish,
    Fail(RendererError),
}

/// The destruction protocol: free the memory, then destroy the raw resource
/// whatever freeing reported, then report freeing's error if there was one.
pub open spec fn destroy_next(s: DestroyState, e: Option<DestroyEvent>) -> (DestroyState, DestroyAction) {
    match (s, e) {
        (DestroyState::Start { handle }, None) => (DestroyState::AwaitFree { handle }, DestroyAction::Free),
        (DestroyState::AwaitFree { handle }, Some(DestroyEvent::Freed)) =>
            (DestroyState::AwaitDestroy { free_error: None }, DestroyAction::DestroyRaw { handle }),
        (DestroyState::AwaitFree { handle }, Some(DestroyEvent::FreeFailed(error))) =>
            (DestroyState::AwaitDestroy { free_error: Some(error) }, DestroyAction::DestroyRaw { handle }),
        (DestroyState::AwaitDestroy { free_error: None }, Some(DestroyEvent::RawDestroyed)) =>
            (DestroyState::Done, DestroyAction::Finish),
        (DestroyState::AwaitDestroy { free_error: Some(error) }, Some(DestroyEvent::RawDestroyed)) =>
            (DestroyState::Failed { error }, DestroyAction::Fail(error)),
        (s, _) => (s, DestroyAction::Idle),
    }
}

/// Advances the destruction protocol by one event (`None` starts it). An
/// event that the state does not await changes nothing and asks for nothing.
pub fn destroy_step(s: DestroyState, e: Option<DestroyEvent>) -> (r: (DestroyState, DestroyAction))
    ensures
        r == destroy_next(s, e),
{
    match (s, e) {
        (DestroyState::Start { handle }, None) => (DestroyState::AwaitFree { handle }, DestroyAction::Free),
        (DestroyState::AwaitFree { handle }, Some(DestroyEvent::Freed)) =>
            (DestroyState::AwaitDestroy { free_error: None }, DestroyAction::DestroyRaw { handle }),
        (DestroyState::AwaitFree { handle }, Some(DestroyEvent::FreeFailed(error))) =>
            (DestroyState::AwaitDestroy { free_error: Some(error) }, DestroyAction::DestroyRaw { handle }),
        (DestroyState::AwaitDestroy { free_error: None }, Some(DestroyEvent::RawDestroyed)) =>
            (DestroyState::Done, DestroyAction::Finish),
        (DestroyState::AwaitDestroy { free_error: Some(error) }, Some(DestroyEvent::RawDestroyed)) => {
            let copy = error.duplicate();
            (DestroyState::Failed { error }, DestroyAction::Fail(copy))
        },
        (s, _) => (s, DestroyAction::Idle),
    }
}

/// What the driver holds on behalf of one operation.
#[derive(Debug)]
pub struct Held {
    pub raw: bool,
    pub memory: bool,
}

/// What the driver holds in each state of the creation protocol.
pub open spec fn create_held(s: CreateState) -> Held {
    match s {
        CreateState::AwaitAlloc { .. } | CreateState::Unwinding { .. } => Held { raw: true, memory: false },
        CreateState::AwaitBind { .. } | CreateState::Unbinding { .. } | CreateState::Done { .. } =>
            Held { raw: true, memory: true },
        _ => Held { raw: false, memory: false },
    }
}

/// What the driver holds in each state of the destruction protocol.
pub open spec fn destroy_held(s: DestroyState) -> Held {
    match s {
        DestroyState::Start { .. } | DestroyState::AwaitFree { .. } => Held { raw: true, memory: true },
        DestroyState::AwaitDestroy { .. } => Held { raw: true, memory: false },
        _ => Held { raw: false, memory: false },
    }
}

/// How a creation event changes what the driver holds.
pub open spec fn create_effect(h: Held, e: Option<CreateEvent>) -> Held {
    match e {
        Some(CreateEvent::RawCreated { .. }) => Held { raw: true, ..h },
        Some(CreateEvent::Allocated) => Held { memory: true, ..h },
        Some(CreateEvent::Freed) | Some(CreateEvent::FreeFailed(_)) => Held { memory: false, ..h },
        Some(CreateEvent::RawDestroyed) => Held { raw: false, ..h },
        _ => h,
    }
}

/// How a destruction event changes what the driver holds. Freeing consumes
/// the allocation whether or not it reports an error.
pub open spec fn destroy_effect(h: Held, e: Option<DestroyEvent>) -> Held {
    match e {
        Some(DestroyEvent::Freed) | Some(DestroyEvent::FreeFailed(_)) => Held { memory: false, ..h },
        Some(DestroyEvent::RawDestroyed) => Held { raw: false, ..h },
        None => h,
    }
}

/// No leak on partial failure: every awaited event moves the creation
/// protocol to a state that accounts exactly for what the driver then holds;
/// memory is returned and raw resources destroyed only while held; and a
/// failed creation holds nothing, so a raw resource created before a failure
/// is destroyed before the error is reported.
pub proof fn create_accounts_for_resources(kind: ResourceKind, s: CreateState, e: Option<CreateEvent>, r: (CreateState, CreateAction))
    requires
        create_moves(kind, s, e, r),
    ensures
        ({
            let (t, a) = r;
            &&& !(a is Idle) ==> create_held(t) == create_effect(create_held(s), e)
            &&& a is Idle ==> t == s
            &&& a is Free ==> create_held(t).memory
            &&& a is DestroyRaw ==> create_held(t).raw && !create_held(t).memory
            &&& a is Fail ==> t is Failed && create_held(t) == (Held { raw: false, memory: false })
            &&& a is Finish ==> t is Done && create_held(t) == (Held { raw: true, memory: true })
            &&& (create_held(s).raw && (e matches Some(CreateEvent::AllocFailed(_))
                || e matches Some(CreateEvent::BindFailed(_)))) ==> (a is Free || a is DestroyRaw || a is Idle)
        }),
{
}

/// Exactly-once free: the destruction protocol asks for the memory to be
/// freed once, only while it is held, asks for nothing more while the free
/// is pending but the raw destroy, always destroys the raw resource after
/// the free whatever it reported, and ends holding nothing.
pub proof fn destroy_frees_exactly_once(s: DestroyState, e: Option<DestroyEvent>)
    ensures
        ({
            let (t, a) = destroy_next(s, e);
            &&& !(a is Idle) ==> destroy_held(t) == destroy_effect(destroy_held(s), e)
            &&& a is Idle ==> t == s
            &&& a is Free ==> s is Start && t is AwaitFree && destroy_held(s).memory
            &&& s is AwaitFree && e is Some ==> (a is DestroyRaw || a is Idle)
            &&& !(s is Start) ==> !(a is Free)
            &&& (a is Finish || a is Fail) ==> destroy_held(t) == (Held { raw: false, memory: false })
        }),
{
}

/// Location policy: every allocation that the creation protocol requests is
/// for the class that the placement policy gives the resource kind, so
/// buffers ask for host-visible memory and images for device-local memory.
pub proof fn creation_requests_policy_class(kind: ResourceKind, s: CreateState, e: Option<CreateEvent>, r: (CreateState, CreateAction))
    requires
        create_moves(kind, s, e, r),
    ensures
        r.1 matches CreateAction::Allocate { class, .. } ==> class == class_of(kind),
        kind is Buffer ==> class_of(kind) is HostVisibleCoherent,
        kind is Image ==> class_of(kind) is DeviceLocal,
{
}

} // verus!

verus! {

/// The state reached and the actions asked for when the destruction
/// protocol is run from `s` over `events`.
pub open spec fn destroy_run(s: DestroyState, events: Seq<Option<DestroyEvent>>) -> (DestroyState, Seq<DestroyAction>)
    decreases events.len(),
{
    if events.len() == 0 {
        (s, Seq::empty())
    } else {
        let (t, a) = destroy_next(s, events[0]);
        let (u, rest) = destroy_run(t, events.drop_first());
        (u, seq![a] + rest)
    }
}

/// How many of `actions` ask for memory to be freed.
pub open spec fn free_requests(actions: Seq<DestroyAction>) -> nat
    decreases actions.len(),
{
    if actions.len() == 0 {
        0
    } else {
        (if actions[0] is Free { 1nat } else { 0nat }) + free_requests(actions.drop_first())
    }
}

proof fn free_requests_concat(a: DestroyAction, rest: Seq<DestroyAction>)
    ensures
        free_requests(seq![a] + rest) == (if a is Free { 1nat } else { 0nat }) + free_requests(rest),
{
    assert((seq![a] + rest).drop_first() =~= rest);
}

proof fn no_free_after_start(s: DestroyState, events: Seq<Option<DestroyEvent>>)
    requires
        !(s is Start),
    ensures
        free_requests(destroy_run(s, events).1) == 0,
        !(destroy_run(s, events).0 is Start),
    decreases events.len(),
{
    if events.len() > 0 {
        let (t, a) = destroy_next(s, events[0]);
        no_free_after_start(t, events.drop_first());
        free_requests_concat(a, destroy_run(t, events.drop_first()).1);
    }
}

/// Exactly-once free over whole runs: whatever events a driver reports, one
/// run of the destruction protocol asks for the memory to be freed at most
/// once, and exactly once when it has left its starting state, as every
/// finished run has. So N resources destroyed by N runs see N frees, and no
/// allocation is freed twice.
pub proof fn destroy_run_frees_once(handle: u64, events: Seq<Option<DestroyEvent>>)
    ensures
        ({
            let (end, actions) = destroy_run(DestroyState::Start { handle }, events);
            &&& free_requests(actions) <= 1
            &&& !(end is Start) ==> free_requests(actions) == 1
            &&& (end is Done || end is Failed) ==> free_requests(actions) == 1
        }),
    decreases events.len(),
{
    if events.len() > 0 {
        let s = DestroyState::Start { handle };
        let (t, a) = destroy_next(s, events[0]);
        free_requests_concat(a, destroy_run(t, events.drop_first()).1);
        if t is Start {
            destroy_run_frees_once(handle, events.drop_first());
        } else {
            no_free_after_start(t, events.drop_first());
        }
    }
}

} // verus!
