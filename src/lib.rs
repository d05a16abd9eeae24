//! Lifecycle management for a Vulkan context: the descriptors that an
//! instance is created from, the ordered construction of the instance and its
//! debug messenger with rollback on failure, device selection, teardown in
//! reverse order of creation, and the text of diagnostic lines.
pub mod version;
pub mod descriptor;
pub mod context;
pub mod lifecycle;
pub mod sink;
