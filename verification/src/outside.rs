//! Types of other crates that values of this library carry without looking inside them.
use vstd::prelude::*;

verus! {

/// The error of the `vhost` crate.
#[verifier::external_type_specification]
#[verifier::external_body]
pub struct ExVhostError(vhost::Error);

/// The I/O error of the standard library.
#[verifier::external_type_specification]
#[verifier::external_body]
pub struct ExIoError(std::io::Error);

/// The event notifier of the `vmm-sys-util` crate.
#[verifier::external_type_specification]
#[verifier::external_body]
pub struct ExEventFd(vmm_sys_util::eventfd::EventFd);

/// The error of the `memfd` crate.
#[verifier::external_type_specification]
#[verifier::external_body]
pub struct ExMemfdError(memfd::Error);

/// The error of the `serde_json` crate.
#[verifier::external_type_specification]
#[verifier::external_body]
pub struct ExSerdeJsonError(serde_json::Error);

/// The owned path of the standard library.
#[verifier::external_type_specification]
#[verifier::external_body]
pub struct ExPathBuf(std::path::PathBuf);

} // verus!
