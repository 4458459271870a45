//! Verified core of a fault-injection monitor for network simulations: the message
//! record that the simulator sends, the monitor's decisions on those messages, and
//! the decisions that the simulated syscall handler takes on the monitor's replies.
use vstd::prelude::*;

pub mod call_monitor;
pub mod message;
pub mod monitor_service;
pub mod packet_monitor;
pub mod pcap;
pub mod syscall_fault;
pub mod tcp_demo;
pub mod text;
pub mod tracker;

verus! {

/// Adds two integers; the sum must fit in an `i32`.
pub fn my_rust_function(a: i32, b: i32) -> (sum: i32)
    requires
        i32::MIN <= a + b <= i32::MAX,
    ensures
        sum == a + b,
{
    a + b
}

} // verus!
