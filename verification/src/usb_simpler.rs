//! Statically sized buffers a USB device needs for its descriptors.
//!
//! A USB device builder borrows these for the device's lifetime; keeping them
//! in one owned struct lets the caller allocate them all in one place.

use vstd::prelude::*;

verus! {

/// The descriptor and control buffers one USB device needs.
pub struct ForDevice {
    pub config_descriptor: [u8; 256],
    pub bos_descriptor: [u8; 256],
    pub msos_descriptor: [u8; 256],
    pub control_buf: [u8; 64],
}

impl ForDevice {
    /// Fresh buffers, all zeroed.
    pub fn new() -> (r: Self)
        ensures
            forall|i: int| 0 <= i < 256 ==> r.config_descriptor@[i] == 0,
            forall|i: int| 0 <= i < 256 ==> r.bos_descriptor@[i] == 0,
            forall|i: int| 0 <= i < 256 ==> r.msos_descriptor@[i] == 0,
            forall|i: int| 0 <= i < 64 ==> r.control_buf@[i] == 0,
    {
        proof {
            broadcast use vstd::array::group_array_axioms;

        }
        ForDevice {
            config_descriptor: [0u8; 256],
            bos_descriptor: [0u8; 256],
            msos_descriptor: [0u8; 256],
            control_buf: [0u8; 64],
        }
    }
}

} // verus!
