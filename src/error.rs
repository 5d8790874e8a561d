use vstd::prelude::*;

verus! {

/// The failures that the layer reports, one variant per failure domain, each
/// with a human-readable message.
#[derive(Debug)]
pub enum RendererError {
    /// Exclusive access to the shared pool could not be acquired.
    LockFailure(String),
    /// The sub-allocator could not satisfy a request.
    AllocationExhausted(String),
    /// The device rejected a create, bind or destroy call.
    DeviceOperationFailure(String),
    /// A write was requested against memory with no host-visible mapping.
    UnmappedMemory(String),
}

impl RendererError {
    /// The message carried by the error.
    pub open spec fn text(&self) -> Seq<char> {
        match self {
            RendererError::LockFailure(m) => m@,
            RendererError::AllocationExhausted(m) => m@,
            RendererError::DeviceOperationFailure(m) => m@,
            RendererError::UnmappedMemory(m) => m@,
        }
    }

    /// A copy of the error, of the same kind and with the same message.
    pub fn duplicate(&self) -> (r: RendererError)
        ensures
            r == *self,
    {
        match self {
            RendererError::LockFailure(m) => RendererError::LockFailure(m.clone()),
            RendererError::AllocationExhausted(m) => RendererError::AllocationExhausted(m.clone()),
            RendererError::DeviceOperationFailure(m) => RendererError::DeviceOperationFailure(m.clone()),
            RendererError::UnmappedMemory(m) => RendererError::UnmappedMemory(m.clone()),
        }
    }

    /// The message carried by the error.
    pub fn message(&self) -> (r: &String)
        ensures
            r == match self {
                RendererError::LockFailure(m) => m,
                RendererError::AllocationExhausted(m) => m,
                RendererError::DeviceOperationFailure(m) => m,
                RendererError::UnmappedMemory(m) => m,
            },
    {
        match self {
            RendererError::LockFailure(m) => m,
            RendererError::AllocationExhausted(m) => m,
            RendererError::DeviceOperationFailure(m) => m,
            RendererError::UnmappedMemory(m) => m,
        }
    }
}

} // verus!
