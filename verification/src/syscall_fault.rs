//! The decisions that the simulated syscall handler takes around each syscall:
//! which code it reports to the monitor, the report it sends, and what it does
//! with the monitor's reply.
use crate::call_monitor::{call_reply, DUPLICATED_SENDTO};
use crate::message::{padded_payload, payload_from_bytes, Message};
use crate::text::{decimal, with_number};
use vstd::prelude::*;
use vstd::string::StringExecFns;
use vstd::utf8::encode_utf8;

verus! {

/// Syscall number of `sendto`.
pub const SYS_SENDTO: i64 = 44;

/// Syscall number of `recvfrom`.
pub const SYS_RECVFROM: i64 = 45;

/// Syscall number that is reported under a code of its own.
pub const SYS_MSGGET: i64 = 68;

/// The code under which `SYS_MSGGET` is reported.
pub const MSGGET_REPORT_CODE: u32 = 68686868;

/// The destination address written in every syscall report.
pub const REPORT_DESTINATION: u32 = 987654321;

/// Monitor reply: fail the syscall with "not connected".
pub const REPLY_NOT_CONNECTED: i32 = 1;

/// Monitor reply: return the syscall's length argument without doing it.
pub const REPLY_RETURN_LENGTH: i32 = 2;

/// Monitor reply: return zero without doing the syscall.
pub const REPLY_RETURN_ZERO: i32 = 3;

/// Monitor reply: do the `sendto` twice.
pub const REPLY_SEND_TWICE: i32 = 6;

/// What the handler does with a syscall once the monitor has replied.
#[derive(Clone, Copy, Debug, PartialEq, Eq)]
pub enum FaultAction {
    /// Run the syscall as usual.
    Proceed,
    /// Fail it with `ENOTCONN`.
    FailNotConnected,
    /// Return its third argument (the buffer length) without running it.
    ReturnLength,
    /// Return zero without running it.
    ReturnZero,
    /// Run it twice and return the result of the first run.
    SendTwice,
}

/// Whether syscall `number` can be reported: its number fits in a report code.
pub open spec fn reportable(number: i64) -> bool {
    0 <= number <= u32::MAX
}

/// The code under which syscall `number` is reported.
pub open spec fn spec_report_code(number: i64) -> u32
    recommends
        reportable(number),
{
    if number == SYS_MSGGET {
        MSGGET_REPORT_CODE
    } else {
        number as u32
    }
}

/// The code under which syscall `number` is reported. A number that does not fit
/// in a report code is not accepted.
pub fn report_code(number: i64) -> (code: u32)
    requires
        reportable(number),
    ensures
        code == spec_report_code(number),
        number == 68 ==> code == 68686868,
        number != 68 ==> code == number,
{
    if number == SYS_MSGGET {
        MSGGET_REPORT_CODE
    } else {
        number as u32
    }
}

/// The action for syscall `number` after the monitor replied `reply`.
pub open spec fn spec_fault_action(number: i64, reply: i32) -> FaultAction {
    if number == SYS_SENDTO || number == SYS_RECVFROM {
        if reply == REPLY_NOT_CONNECTED {
            FaultAction::FailNotConnected
        } else if reply == REPLY_RETURN_LENGTH {
            FaultAction::ReturnLength
        } else if reply == REPLY_RETURN_ZERO {
            FaultAction::ReturnZero
        } else if reply == REPLY_SEND_TWICE && number == SYS_SENDTO {
            FaultAction::SendTwice
        } else {
            FaultAction::Proceed
        }
    } else {
        FaultAction::Proceed
    }
}

/// Decides what to do with syscall `number` given the monitor's `reply`: only
/// `sendto` and `recvfrom` heed the reply, and only `sendto` can be doubled.
pub fn fault_action(number: i64, reply: i32) -> (action: FaultAction)
    ensures
        action == spec_fault_action(number, reply),
        number != 44 && number != 45 ==> action == FaultAction::Proceed,
        (number == 44 || number == 45) && reply == 1 ==> action == FaultAction::FailNotConnected,
        (number == 44 || number == 45) && reply == 2 ==> action == FaultAction::ReturnLength,
        (number == 44 || number == 45) && reply == 3 ==> action == FaultAction::ReturnZero,
        action == FaultAction::SendTwice <==> (number == 44 && reply == 6),
        (number == 44 || number == 45) && reply != 1 && reply != 2 && reply != 3 && !(number == 44
            && reply == 6) ==> action == FaultAction::Proceed,
{
    if number == SYS_SENDTO || number == SYS_RECVFROM {
        if reply == REPLY_NOT_CONNECTED {
            FaultAction::FailNotConnected
        } else if reply == REPLY_RETURN_LENGTH {
            FaultAction::ReturnLength
        } else if reply == REPLY_RETURN_ZERO {
            FaultAction::ReturnZero
        } else if reply == REPLY_SEND_TWICE && number == SYS_SENDTO {
            FaultAction::SendTwice
        } else {
            FaultAction::Proceed
        }
    } else {
        FaultAction::Proceed
    }
}

/// The text that describes a syscall report.
pub open spec fn syscall_description(code: u32) -> Seq<char> {
    "[handler/mod.rs] Uma syscall, número "@ + decimal(code as nat) + ", está a ser agora feita"@
}

/// Writes the text that describes a syscall report.
pub fn describe_syscall(code: u32) -> (text: String)
    ensures
        text@ == syscall_description(code),
{
    let mut text = with_number("[handler/mod.rs] Uma syscall, número ", code);
    text.append(", está a ser agora feita");
    text
}

/// The report that the handler sends for a syscall reported under `code` on a
/// host with address `ip_src`: the payload holds the start of the UTF-8 text
/// that describes the syscall.
pub fn syscall_report(code: u32, ip_src: u32) -> (message: Message)
    ensures
        message.code == code,
        message.ip_src == ip_src,
        message.ip_dest == REPORT_DESTINATION,
        message.msg@ == padded_payload(encode_utf8(syscall_description(code))),
        !message.return_status,
{
    let text = describe_syscall(code);
    let bytes = text.as_str().as_bytes();
    Message {
        code,
        ip_src,
        ip_dest: REPORT_DESTINATION,
        msg: payload_from_bytes(bytes),
        return_status: false,
    }
}


/// The report that the handler sends before syscall `number` on a host with
/// address `ip_src`. A number that does not fit in a report code is not accepted.
pub fn report_for_syscall(number: i64, ip_src: u32) -> (message: Message)
    requires
        reportable(number),
    ensures
        message.code == spec_report_code(number),
        number == 68 ==> message.code == 68686868,
        number != 68 ==> message.code == number,
        message.ip_src == ip_src,
        message.ip_dest == REPORT_DESTINATION,
        message.msg@ == padded_payload(encode_utf8(syscall_description(spec_report_code(number)))),
        !message.return_status,
{
    syscall_report(report_code(number), ip_src)
}

/// When the handler's reports are answered by the call monitor, the only fault
/// injected is the doubling of the third `sendto`: every other syscall runs as
/// usual, whatever the monitor has seen before.
pub proof fn lemma_monitor_doubles_third_sendto(calls: int, number: i64)
    requires
        reportable(number),
    ensures
        spec_fault_action(number, call_reply(calls, spec_report_code(number))) == if number
            == SYS_SENDTO && calls + 1 == DUPLICATED_SENDTO {
            FaultAction::SendTwice
        } else {
            FaultAction::Proceed
        },
{
}


/// Every reportable syscall is reported under its own number, except `msgget`
/// (68), which alone is reported under 68686868.
pub proof fn lemma_report_code_is_the_number(number: i64)
    requires
        reportable(number),
    ensures
        number == 68 ==> spec_report_code(number) == 68686868,
        number != 68 ==> spec_report_code(number) == number,
        spec_report_code(number) == 68686868 ==> number == 68 || number == 68686868,
{
}

/// Only `sendto` (44) and `recvfrom` (45) heed the monitor's reply: every other
/// syscall runs as usual whatever the reply. For those two, replies 1, 2 and 3
/// fail with "not connected", return the length, and return zero; reply 6
/// doubles `sendto` only; every other reply lets the syscall run.
pub proof fn lemma_only_sendto_and_recvfrom_heed_the_reply(number: i64, reply: i32)
    ensures
        number != 44 && number != 45 ==> spec_fault_action(number, reply) == FaultAction::Proceed,
        (number == 44 || number == 45) && reply == 1 ==> spec_fault_action(number, reply)
            == FaultAction::FailNotConnected,
        (number == 44 || number == 45) && reply == 2 ==> spec_fault_action(number, reply)
            == FaultAction::ReturnLength,
        (number == 44 || number == 45) && reply == 3 ==> spec_fault_action(number, reply)
            == FaultAction::ReturnZero,
        spec_fault_action(number, reply) == FaultAction::SendTwice <==> (number == 44 && reply
            == 6),
        (number == 44 || number == 45) && reply != 1 && reply != 2 && reply != 3 && !(number
            == 44 && reply == 6) ==> spec_fault_action(number, reply) == FaultAction::Proceed,
{
}

} // verus!
