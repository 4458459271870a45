//! Packet-capture options of a simulated network interface.
use std::path::PathBuf;
use vstd::prelude::*;

verus! {

/// A filesystem path of std; its contents are not looked into here.
#[verifier::external_type_specification]
#[verifier::external_body]
pub struct ExPathBuf(PathBuf);

/// Where a network interface writes its packet captures, and how many bytes of
/// each packet it keeps.
#[derive(Debug)]
pub struct PcapOptions {
    pub path: PathBuf,
    pub capture_size_bytes: u32,
}

/// The capture size handed to the interface: the configured one, or 0 when
/// capturing is off.
pub fn pcap_capture_size(options: &Option<PcapOptions>) -> (size: u32)
    ensures
        size == match options {
            Some(o) => o.capture_size_bytes,
            None => 0u32,
        },
{
    match options {
        Some(o) => o.capture_size_bytes,
        None => 0,
    }
}

/// The directory handed to the interface for its captures, when capturing is on.
pub fn pcap_directory(options: &Option<PcapOptions>) -> (dir: Option<&PathBuf>)
    ensures
        match options {
            Some(o) => dir == Some(&o.path),
            None => dir is None,
        },
{
    match options {
        Some(o) => Some(&o.path),
        None => None,
    }
}

} // verus!
