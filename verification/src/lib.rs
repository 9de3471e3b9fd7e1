//! Enumerates the physical storage devices of a host into normalized
//! `DeviceDescriptor` values: capacity, bus type, partition-table scheme,
//! classification flags and the mounted filesystems of each device.
//!
//! The crate holds the logic of two probes. The native-query probe's
//! decisions live in [`windows`]: classification of bus codes, partition
//! layouts and enumerator names, device-number resolution, mount-point
//! correlation and the per-device property battery, a state machine whose
//! failures stay inside the descriptor they concern. The structured-listing
//! probe's record mapping lives in [`listing`]. [`text`] holds the string
//! utilities both build on. The callers that issue the native queries and
//! run the external listing tool hand their raw outcomes to these functions
//! as plain values.

use vstd::prelude::*;

pub mod device;
pub mod listing;
pub mod text;
pub mod windows;

pub use device::DeviceDescriptor;
pub use device::MountPoint;
pub use device::is_default_descriptor;

verus! {

} // verus!
