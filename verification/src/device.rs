//! Device placement descriptors.
//!
//! A [`DeviceDescriptor`] says where the numeric engine should place
//! tensors and run computations.  The binding exposes only the
//! processor device.

use vstd::prelude::*;

verus! {

/// A device placement token handed to evaluation and training calls.
#[derive(Clone, Copy, PartialEq, Eq, Structural)]
pub struct DeviceDescriptor {
    cpu: bool,
}

impl DeviceDescriptor {
    /// The processor device.
    pub fn cpu() -> (r: DeviceDescriptor)
        ensures
            r.is_cpu(),
    {
        DeviceDescriptor { cpu: true }
    }

    /// Whether this descriptor names the processor device.
    pub closed spec fn is_cpu(self) -> bool {
        self.cpu
    }
}

} // verus!
