//! The fixed-size record that the simulator hands to the fault-injection monitor.
use vstd::prelude::*;
use vstd::string::StringSliceAdditionalSpecFns;

verus! {

/// Number of payload bytes carried by a [`Message`].
pub const PAYLOAD_LEN: usize = 32;

/// The value that a Java `boolean` takes when it is true.
pub const JAVA_TRUE: u8 = 1;

/// The value that a Java `boolean` takes when it is false.
pub const JAVA_FALSE: u8 = 0;

/// One event reported to the monitor: a code (usually a syscall number),
/// the source and destination addresses (as raw network-order words),
/// a short text payload and a flag.
#[derive(Clone, Copy, Debug, PartialEq, Eq)]
pub struct Message {
    pub code: u32,
    pub ip_src: u32,
    pub ip_dest: u32,
    pub msg: [u8; 32],
    pub return_status: bool,
}

/// The payload obtained from `bytes`: its first `PAYLOAD_LEN` bytes, and zeros
/// after the end of `bytes`.
pub open spec fn padded_payload(bytes: Seq<u8>) -> Seq<u8> {
    Seq::new(PAYLOAD_LEN as nat, |i: int| if i < bytes.len() { bytes[i] } else { 0u8 })
}

/// A payload has 32 bytes: the bytes of its source up to the 32nd, then zeros.
pub proof fn lemma_padded_payload(bytes: Seq<u8>)
    ensures
        padded_payload(bytes).len() == 32,
        forall|i: int| 0 <= i < 32 && i < bytes.len() ==> #[trigger] padded_payload(bytes)[i] == bytes[i],
        forall|i: int| bytes.len() <= i < 32 ==> #[trigger] padded_payload(bytes)[i] == 0,
{
}

/// A payload of zeros only.
pub open spec fn zero_payload() -> Seq<u8> {
    Seq::new(PAYLOAD_LEN as nat, |i: int| 0u8)
}

/// Copies the first (at most `PAYLOAD_LEN`) bytes of `bytes` into a zeroed payload.
pub fn payload_from_bytes(bytes: &[u8]) -> (payload: [u8; 32])
    ensures
        payload@ == padded_payload(bytes@),
{
    let mut payload = [0u8; 32];
    let n: usize = if bytes.len() < PAYLOAD_LEN { bytes.len() } else { PAYLOAD_LEN };
    let mut i: usize = 0;
    while i < n
        invariant
            n <= PAYLOAD_LEN,
            n <= bytes@.len(),
            n == bytes@.len() || n == PAYLOAD_LEN,
            i <= n,
            payload@.len() == PAYLOAD_LEN,
            forall|j: int| 0 <= j < i ==> payload@[j] == bytes@[j],
            forall|j: int| i <= j < PAYLOAD_LEN ==> payload@[j] == 0u8,
        decreases n - i,
    {
        payload[i] = bytes[i];
        i = i + 1;
    }
    assert(payload@ =~= padded_payload(bytes@));
    payload
}

/// The UTF-8 bytes of `string`, cut or zero-padded to `PAYLOAD_LEN` bytes.
pub fn string_to_u8_32(string: &str) -> (payload: [u8; 32])
    ensures
        payload@ == padded_payload(string.spec_bytes()),
{
    payload_from_bytes(string.as_bytes())
}

/// A message whose fields are all zero and whose flag is false.
pub fn new_message() -> (message: Message)
    ensures
        message.code == 0,
        message.ip_src == 0,
        message.ip_dest == 0,
        message.msg@ == zero_payload(),
        !message.return_status,
{
    let message = Message { code: 0, ip_src: 0, ip_dest: 0, msg: [0u8; 32], return_status: false };
    assert(message.msg@ =~= zero_payload());
    message
}

/// The message built from the fields that a Java caller passes: the integers keep
/// their bit patterns, the bytes fill the payload from its start, and the flag is set
/// when the Java boolean is true. More than `PAYLOAD_LEN` bytes are not accepted.
pub fn message_from_java(code: i32, ip_src: i32, ip_dest: i32, bytes: &[u8], return_status: u8) -> (message: Message)
    requires
        bytes@.len() <= PAYLOAD_LEN,
    ensures
        message.code == code as u32,
        message.ip_src == ip_src as u32,
        message.ip_dest == ip_dest as u32,
        message.msg@ == padded_payload(bytes@),
        message.return_status == (return_status == JAVA_TRUE),
{
    Message {
        code: code as u32,
        ip_src: ip_src as u32,
        ip_dest: ip_dest as u32,
        msg: payload_from_bytes(bytes),
        return_status: return_status == JAVA_TRUE,
    }
}

/// What a sender reports of one exchange with the monitor: the monitor's reply
/// when there is one, and 0 when the exchange failed.
pub fn reply_or_zero(outcome: Option<i32>) -> (code: i32)
    ensures
        code == match outcome {
            Some(reply) => reply,
            None => 0i32,
        },
{
    match outcome {
        Some(reply) => reply,
        None => 0,
    }
}


/// The boolean that a sender hands back to its C, Python or Java caller: true
/// exactly when the monitor replied and its reply is non-zero (a C `bool` read
/// from an integer).
pub fn monitor_said_yes(outcome: Option<i32>) -> (yes: bool)
    ensures
        yes == match outcome {
            Some(reply) => reply != 0,
            None => false,
        },
{
    match outcome {
        Some(reply) => reply != 0,
        None => false,
    }
}

/// The Java `boolean` (`JAVA_TRUE` or `JAVA_FALSE`) for `value`.
pub fn java_boolean(value: bool) -> (b: u8)
    ensures
        b == if value { JAVA_TRUE } else { JAVA_FALSE },
{
    if value {
        JAVA_TRUE
    } else {
        JAVA_FALSE
    }
}

} // verus!
