//! Host side of virtio block and file-system devices.
//!
//! The library holds the decisions of three cooperating parts of a virtual machine monitor:
//! direct I/O on block images, the vhost-user session with an external backend process, and the
//! virtio-fs device built on top of such a session. System calls, sockets and memory mappings
//! belong to the program around it.

pub mod align;
pub mod direct_io;
pub mod dirty_log;
pub mod exchange;
pub mod fs_config;
pub mod fs_laws;
pub mod fs_model;
pub mod fs_request;
pub mod guest_memory;
pub mod outside;
pub mod persist;
pub mod transfer_model;
pub mod vhost_flags;
pub mod vhost_user;
pub mod virtio_fs;
