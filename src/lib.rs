//! Coordination layer between a renderer and a GPU sub-allocator: memory
//! placement policy, the create/bind and free/destroy protocols, a serialised
//! allocator handle, and checked writes into host-mapped memory.
pub mod error;
pub mod protocol;
pub mod pool;
pub mod write;
