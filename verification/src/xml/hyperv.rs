//! Settings of the Hyper-V enlightenments.

use crate::xml::OnOff;
use vstd::prelude::*;

verus! {

#[derive(Debug, PartialEq, Eq)]
pub struct SpinLocks {
    pub status: OnOff,
    pub retries: usize,
}

#[derive(Debug, PartialEq, Eq)]
pub struct STimer {
    pub status: OnOff,
    pub direct: OnOff,
}

#[derive(Debug, PartialEq, Eq)]
pub struct VendorId {
    pub status: OnOff,
    pub value: String,
}

} // verus!
