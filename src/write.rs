use vstd::prelude::*;
use gpu_allocator::vulkan::Allocation;
use crate::error::RendererError;

verus! {

/// Copies `data` into the front of `region`, leaving the rest as it was.
/// Refused, with nothing written, when `data` does not fit.
pub fn copy_into(region: &mut [u8], data: &[u8]) -> (r: Result<(), RendererError>)
    ensures
        r is Ok <==> data@.len() <= old(region)@.len(),
        r is Ok ==> final(region)@ == data@ + old(region)@.skip(data@.len() as int),
        r is Err ==> final(region)@ == old(region)@ && r->Err_0 is UnmappedMemory,
{
    if data.len() > region.len() {
        return Err(RendererError::UnmappedMemory("the mapped region is smaller than the data".to_string()));
    }
    let mut i: usize = 0;
    while i < data.len()
        invariant
            i <= data@.len() <= region@.len(),
            region@.len() == old(region)@.len(),
            forall|j: int| 0 <= j < i ==> region@[j] == data@[j],
            forall|j: int| i <= j < region@.len() ==> region@[j] == old(region)@[j],
        decreases data@.len() - i,
    {
        region[i] = data[i];
        i = i + 1;
    }
    assert(region@ =~= data@ + old(region)@.skip(data@.len() as int));
    Ok(())
}

/// Writes `data` into a host-mapped region. With no mapping the write is
/// refused with `UnmappedMemory` and nothing is accessed.
pub fn write_mapped(region: Option<&mut [u8]>, data: &[u8]) -> (r: Result<(), RendererError>)
    ensures
        region is None ==> r matches Err(RendererError::UnmappedMemory(_)),
        region matches Some(s) ==> {
            &&& r is Ok <==> data@.len() <= (*s)@.len()
            &&& r is Ok ==> final(s)@ == data@ + (*s)@.skip(data@.len() as int)
            &&& r is Err ==> final(s)@ == (*s)@ && r->Err_0 is UnmappedMemory
        },
{
    match region {
        None => Err(RendererError::UnmappedMemory("the allocation has no host mapping".to_string())),
        Some(s) => copy_into(s, data),
    }
}

/// The length of an allocation's host mapping, or none when its memory is
/// not host-mapped.
pub uninterp spec fn mapped_len_of(a: Allocation) -> Option<nat>;

/// Relies on gpu_allocator's `Allocation::mapped_slice_mut` (vulkan): the
/// allocation's own bytes when its memory is host-mapped, none otherwise.
/// The allocation itself is not modified.
#[verifier::external_body]
fn mapped_bytes(a: &mut Allocation) -> (r: Option<&mut [u8]>)
    ensures
        r is None <==> mapped_len_of(*old(a)) is None,
        r matches Some(s) ==> mapped_len_of(*old(a)) == Some((*s)@.len()),
        *final(a) == *old(a),
{
    a.mapped_slice_mut()
}

/// Writes `data` into the host-mapped memory of `memory`. Memory with no
/// host mapping is refused with `UnmappedMemory` and is not touched; so is
/// data longer than the mapped region. The allocation is left as it was.
pub fn update_buffer(memory: &mut Allocation, data: &[u8]) -> (r: Result<(), RendererError>)
    ensures
        r is Ok <==> (mapped_len_of(*old(memory)) matches Some(n) && data@.len() <= n),
        mapped_len_of(*old(memory)) is None ==> r matches Err(RendererError::UnmappedMemory(_)),
        r is Err ==> r->Err_0 is UnmappedMemory,
        *final(memory) == *old(memory),
{
    write_mapped(mapped_bytes(memory), data)
}

} // verus!
