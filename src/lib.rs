use vstd::prelude::*;

pub mod dhcp;
pub mod host_net;
pub mod hostname;
pub mod ipv4;
pub mod mount;
pub mod text;

verus! {

} // verus!
