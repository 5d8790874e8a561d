use vstd::prelude::*;
use vstd::arithmetic::power2::pow2;
use vstd::string::StringExecFns;
use std::sync::{Arc, Mutex, MutexGuard};
use gpu_allocator::vulkan::{Allocation, Allocator};
use crate::error::RendererError;
use crate::protocol::{MemoryClass, MemoryRequirements};
use crate::write::mapped_len_of;

verus! {

/// std's `Mutex`, carried opaquely.
#[verifier::external_type_specification]
#[verifier::external_body]
#[verifier::reject_recursive_types(T)]
pub struct ExMutex<T: ?Sized>(Mutex<T>);

/// std's `MutexGuard`: exclusive access while it lives.
#[verifier::external_type_specification]
#[verifier::external_body]
#[verifier::reject_recursive_types(T)]
pub struct ExMutexGuard<'a, T: ?Sized + 'a>(MutexGuard<'a, T>);

/// gpu_allocator's Vulkan sub-allocation pool, carried opaquely.
#[verifier::external_type_specification]
#[verifier::external_body]
pub struct ExAllocator(Allocator);

/// gpu_allocator's handle on one region of device memory, carried opaquely.
#[verifier::external_type_specification]
#[verifier::external_body]
pub struct ExAllocation(Allocation);

/// True when `a` is a power of two.
pub open spec fn is_pow2(a: u64) -> bool {
    exists|k: nat| k < 64 && a == pow2(k)
}

/// gpu_allocator's error type, carried opaquely.
#[verifier::external_type_specification]
#[verifier::external_body]
pub struct ExAllocationError(gpu_allocator::AllocationError);

/// Why the sub-allocator refused a request.
#[derive(Clone, Copy, PartialEq, Eq, Structural, Debug)]
pub enum PoolFailureKind {
    OutOfMemory,
    NoCompatibleMemoryType,
    InvalidRequest,
    InvalidAllocator,
    MapFailed,
    Internal,
}

/// A refusal of the sub-allocator: its reason and its text.
pub struct PoolFailure {
    pub kind: PoolFailureKind,
    pub text: String,
}

/// The pool that a mutex guards.
pub uninterp spec fn pool_of_mutex(m: Mutex<Allocator>) -> int;

/// The pool that a lock guard gives access to.
pub uninterp spec fn pool_of_guard(g: MutexGuard<'_, Allocator>) -> int;

/// The size in bytes of an allocation's region.
pub uninterp spec fn region_size_of(a: Allocation) -> u64;

/// The pool that handed out an allocation.
pub uninterp spec fn issuer_of(a: Allocation) -> int;

/// Relies on `Mutex::lock`: it blocks until the lock is free and fails only
/// when a former holder panicked; the error is returned as its text. The
/// guard gives access to the pool inside `m`. Its one caller holds no guard
/// on `m` (see `GpuAllocator`), so the call does return.
#[verifier::external_body]
fn lock_pool(m: &Mutex<Allocator>) -> (r: Result<MutexGuard<'_, Allocator>, String>)
    ensures
        r matches Ok(g) ==> pool_of_guard(g) == pool_of_mutex(*m),
{
    match m.lock() {
        Ok(g) => Ok(g),
        Err(e) => Err(e.to_string()),
    }
}

/// Relies on gpu_allocator's `AllocationError` and its `Display`: its
/// variant, one arm each, and its text.
#[verifier::external_body]
fn pool_failure(e: gpu_allocator::AllocationError) -> PoolFailure {
    let text = e.to_string();
    let kind = match e {
        gpu_allocator::AllocationError::OutOfMemory => PoolFailureKind::OutOfMemory,
        gpu_allocator::AllocationError::FailedToMap(_) => PoolFailureKind::MapFailed,
        gpu_allocator::AllocationError::NoCompatibleMemoryTypeFound => PoolFailureKind::NoCompatibleMemoryType,
        gpu_allocator::AllocationError::InvalidAllocationCreateDesc => PoolFailureKind::InvalidRequest,
        gpu_allocator::AllocationError::InvalidAllocatorCreateDesc(_) => PoolFailureKind::InvalidAllocator,
        gpu_allocator::AllocationError::Internal(_) => PoolFailureKind::Internal,
    };
    PoolFailure { kind, text }
}

/// Relies on gpu_allocator's `Allocator::allocate` (vulkan), which refuses a
/// zero size or an alignment that is not a power of two before touching the
/// pool; the error is returned as its text. A region it hands out belongs
/// to that pool, which the guard leaves in place, and has exactly the
/// requested size. For `CpuToGpu` every memory type it may pick is
/// host-visible, and memory of such a type is mapped or the call fails, so
/// the region is host-mapped over its whole size.
#[verifier::external_body]
fn pool_allocate(
    g: &mut MutexGuard<'_, Allocator>,
    req: MemoryRequirements,
    class: MemoryClass,
    linear: bool,
) -> (r: Result<Allocation, PoolFailure>)
    ensures
        (req.size == 0 || !is_pow2(req.alignment)) ==> (r is Err && r->Err_0.kind is InvalidRequest),
        pool_of_guard(*final(g)) == pool_of_guard(*old(g)),
        r matches Ok(a) ==> issuer_of(a) == pool_of_guard(*old(g)),
        r matches Ok(a) ==> region_size_of(a) == req.size,
        r matches Ok(a) ==> (class is HostVisibleCoherent ==> mapped_len_of(a) == Some((req.size as usize) as nat)),
{
    let location = match class {
        MemoryClass::HostVisibleCoherent => gpu_allocator::MemoryLocation::CpuToGpu,
        MemoryClass::DeviceLocal => gpu_allocator::MemoryLocation::GpuOnly,
    };
    let requirements = ash::vk::MemoryRequirements {
        size: req.size,
        alignment: req.alignment,
        memory_type_bits: req.memory_type_bits,
    };
    let desc = gpu_allocator::vulkan::AllocationCreateDesc { name: "", requirements, location, linear };
    match g.allocate(&desc) {
        Ok(a) => Ok(a),
        Err(e) => Err(pool_failure(e)),
    }
}

/// Relies on gpu_allocator's `Allocator::free` (vulkan), which consumes the
/// allocation; the error is returned as its text. It indexes the pool's own
/// tables by the allocation's indices, so the allocation must come from
/// this pool.
#[verifier::external_body]
fn pool_free(g: &mut MutexGuard<'_, Allocator>, a: Allocation) -> (r: Result<(), PoolFailure>)
    requires
        issuer_of(a) == pool_of_guard(*old(g)),
    ensures
        pool_of_guard(*final(g)) == pool_of_guard(*old(g)),
{
    match g.free(a) {
        Ok(()) => Ok(()),
        Err(e) => Err(pool_failure(e)),
    }
}

/// How a refusal of the pool is reported: a failure to map the memory is
/// the device's; every other refusal is the pool's inability to serve the
/// request.
pub open spec fn pool_error(f: PoolFailure) -> RendererError {
    match f.kind {
        PoolFailureKind::MapFailed => RendererError::DeviceOperationFailure(f.text),
        _ => RendererError::AllocationExhausted(f.text),
    }
}

/// How the pool's answer is reported.
pub fn pool_outcome<A>(r: Result<A, PoolFailure>) -> (out: Result<A, RendererError>)
    ensures
        r matches Ok(a) ==> out == Ok::<A, RendererError>(a),
        r matches Err(f) ==> out == Err::<A, RendererError>(pool_error(f)),
{
    match r {
        Ok(a) => Ok(a),
        Err(f) => match f.kind {
            PoolFailureKind::MapFailed => Err(RendererError::DeviceOperationFailure(f.text)),
            _ => Err(RendererError::AllocationExhausted(f.text)),
        },
    }
}

/// The text that opens every lock-failure message.
pub open spec fn lock_failure_prefix() -> Seq<char> {
    "Failed to acquire lock on allocator: "@
}

/// How the answer of the lock is reported: a failed lock is a
/// `LockFailure` whose message is the prefix followed by the lock's text.
pub fn lock_outcome<G>(r: Result<G, String>) -> (out: Result<G, RendererError>)
    ensures
        r matches Ok(g) ==> out == Ok::<G, RendererError>(g),
        r matches Err(m) ==> out matches Err(RendererError::LockFailure(t)) && t@ == lock_failure_prefix() + m@,
{
    match r {
        Ok(g) => Ok(g),
        Err(m) => {
            let mut t = String::from_str("Failed to acquire lock on allocator: ");
            t.append(m.as_str());
            Err(RendererError::LockFailure(t))
        },
    }
}

/// Relies on `Mutex::new`: a fresh, unlocked mutex around the pool.
#[verifier::external_body]
fn pool_mutex(a: Allocator) -> (r: Mutex<Allocator>) {
    Mutex::new(a)
}

/// Relies on `Arc::clone`: a second handle on the same mutex, hence on the
/// same pool.
#[verifier::external_body]
fn share_pool(a: &Arc<Mutex<Allocator>>) -> (r: Arc<Mutex<Allocator>>)
    ensures
        pool_of_mutex(*r) == pool_of_mutex(**a),
{
    Arc::clone(a)
}

/// A shared handle on the sub-allocator whose every use takes the lock.
/// The mutex is reachable only through such handles, and a guard on it
/// lives only inside `allocate` and `free`, which call nothing that locks:
/// so no thread asks for the lock while holding it.
pub struct GpuAllocator {
    allocator: Arc<Mutex<Allocator>>,
}

impl GpuAllocator {
    /// Takes sole ownership of a pool.
    pub fn new(allocator: Allocator) -> (r: GpuAllocator) {
        GpuAllocator { allocator: Arc::new(pool_mutex(allocator)) }
    }

    /// Another handle on the same pool, for another binder or thread.
    pub fn share(&self) -> (r: GpuAllocator)
        ensures
            r.pool() == self.pool(),
    {
        GpuAllocator { allocator: share_pool(&self.allocator) }
    }

    /// The pool this handle shares.
    pub closed spec fn pool(&self) -> int {
        pool_of_mutex(*self.allocator)
    }

    /// Takes the lock on the pool; a poisoned lock is a `LockFailure`.
    fn get_allocator(&self) -> (r: Result<MutexGuard<'_, Allocator>, RendererError>)
        ensures
            r matches Ok(g) ==> pool_of_guard(g) == self.pool(),
            r is Err ==> r->Err_0 is LockFailure,
            r matches Err(RendererError::LockFailure(t)) ==> t@.take(lock_failure_prefix().len() as int) == lock_failure_prefix(),
    {
        let r = lock_outcome(lock_pool(&*self.allocator));
        if let Err(RendererError::LockFailure(t)) = &r {
            assert(t@.take(lock_failure_prefix().len() as int) =~= lock_failure_prefix());
        }
        r
    }

    /// Obtains a region that meets `req` in memory of class `class`. The lock
    /// is held for the call only. A zero size or an alignment that is not a
    /// power of two is refused by the pool as exhaustion.
    pub fn allocate(&self, req: MemoryRequirements, class: MemoryClass) -> (r: Result<Allocation, RendererError>)
        ensures
            (req.size == 0 || !is_pow2(req.alignment)) ==> r matches Err(RendererError::LockFailure(_))
                || r matches Err(RendererError::AllocationExhausted(_)),
            r is Err ==> (r->Err_0 is LockFailure || r->Err_0 is AllocationExhausted || r->Err_0 is DeviceOperationFailure),
            r matches Ok(a) ==> issuer_of(a) == self.pool(),
            r matches Ok(a) ==> region_size_of(a) == req.size,
            r matches Ok(a) ==> (class is HostVisibleCoherent ==> mapped_len_of(a) == Some((req.size as usize) as nat)),
            r matches Err(RendererError::LockFailure(t)) ==> t@.take(lock_failure_prefix().len() as int) == lock_failure_prefix(),
    {
        let mut g = self.get_allocator()?;
        // Every region is requested with the linear-layout hint.
        pool_outcome(pool_allocate(&mut g, req, class, true))
    }

    /// Returns `a`, which this pool handed out, to the pool. The allocation
    /// is consumed, so it cannot be freed twice.
    pub fn free(&self, a: Allocation) -> (r: Result<(), RendererError>)
        requires
            issuer_of(a) == self.pool(),
        ensures
            r is Err ==> (r->Err_0 is LockFailure || r->Err_0 is AllocationExhausted || r->Err_0 is DeviceOperationFailure),
            r matches Err(RendererError::LockFailure(t)) ==> t@.take(lock_failure_prefix().len() as int) == lock_failure_prefix(),
    {
        let mut g = self.get_allocator()?;
        pool_outcome(pool_free(&mut g, a))
    }
}

} // verus!
