//! The descriptor of a virtual network.

use crate::xml::YesNo;
use vstd::prelude::*;

verus! {

#[derive(Debug, PartialEq, Eq)]
pub struct Network {
    pub name: String,
    pub uuid: Option<u128>,
    pub ipv6: Option<YesNo>,
    pub trust_guest_rx_filters: Option<YesNo>,
}

} // verus!
