//! The monitor that answers the simulator's syscall reports: it counts the
//! `sendto` calls and asks the simulator to duplicate the third one.
use crate::message::Message;
use vstd::prelude::*;

verus! {

/// Report code of a `sendto` syscall.
pub const SYSCALL_SENDTO: u32 = 44;

/// Report code of a `recvfrom` syscall.
pub const SYSCALL_RCVFROM: u32 = 45;

/// Report code of a data packet that left a host.
pub const CORRUPT_DATA_PACKET: u32 = 88883;

/// Report code that ends the simulation.
pub const END_OF_SIMULATION: u32 = 9999;

/// The ordinal of the `sendto` call that the monitor asks to duplicate.
pub const DUPLICATED_SENDTO: u32 = 3;

/// Reply that lets the syscall proceed unchanged.
pub const REPLY_PROCEED: i32 = 0;

/// Reply that asks the simulator to perform the `sendto` twice.
pub const REPLY_DUPLICATE: i32 = 6;

/// What kind of report a code stands for.
#[derive(Clone, Copy, Debug, PartialEq, Eq)]
pub enum CallKind {
    SendTo,
    RecvFrom,
    DataPacket,
    Other,
}

/// The kind of report that `code` stands for.
pub open spec fn spec_call_kind(code: u32) -> CallKind {
    if code == SYSCALL_SENDTO {
        CallKind::SendTo
    } else if code == SYSCALL_RCVFROM {
        CallKind::RecvFrom
    } else if code == CORRUPT_DATA_PACKET {
        CallKind::DataPacket
    } else {
        CallKind::Other
    }
}

/// Classifies a report code.
pub fn classify_call(code: u32) -> (kind: CallKind)
    ensures
        kind == spec_call_kind(code),
        kind == CallKind::SendTo <==> code == 44,
        kind == CallKind::RecvFrom <==> code == 45,
        kind == CallKind::DataPacket <==> code == 88883,
        kind == CallKind::Other <==> (code != 44 && code != 45 && code != 88883),
{
    if code == SYSCALL_SENDTO {
        CallKind::SendTo
    } else if code == SYSCALL_RCVFROM {
        CallKind::RecvFrom
    } else if code == CORRUPT_DATA_PACKET {
        CallKind::DataPacket
    } else {
        CallKind::Other
    }
}

/// Each report code has exactly one kind: 44 is a `sendto`, 45 a `recvfrom`,
/// 88883 a data packet, and every other code is of no special kind.
pub proof fn lemma_call_kinds(code: u32)
    ensures
        spec_call_kind(code) == CallKind::SendTo <==> code == 44,
        spec_call_kind(code) == CallKind::RecvFrom <==> code == 45,
        spec_call_kind(code) == CallKind::DataPacket <==> code == 88883,
        spec_call_kind(code) == CallKind::Other <==> (code != 44 && code != 45 && code != 88883),
{
}

/// The number of `sendto` calls seen after a report with `code`, when `calls`
/// had been seen before it.
pub open spec fn calls_after(calls: int, code: u32) -> int {
    if code == SYSCALL_SENDTO {
        calls + 1
    } else {
        calls
    }
}

/// The reply to a report with `code` when `calls` `sendto` calls had been seen before it.
pub open spec fn call_reply(calls: int, code: u32) -> i32 {
    if code == SYSCALL_SENDTO && calls + 1 == DUPLICATED_SENDTO {
        REPLY_DUPLICATE
    } else {
        REPLY_PROCEED
    }
}

/// The monitor replies 6 to a `sendto` (44) report that comes after exactly two
/// earlier ones, and 0 to every other report; only `sendto` reports advance its
/// counter, by one each.
pub proof fn lemma_reply_and_count(calls: int, code: u32)
    ensures
        call_reply(calls, code) == 6 <==> (code == 44 && calls == 2),
        call_reply(calls, code) != 6 ==> call_reply(calls, code) == 0,
        code == 44 ==> calls_after(calls, code) == calls + 1,
        code != 44 ==> calls_after(calls, code) == calls,
{
}

/// The monitor's state: how many `sendto` calls it has been told of.
#[derive(Clone, Copy, Debug)]
pub struct CallMonitor {
    pub sendto_calls: u32,
}

/// What the monitor does with one report: the reply it sends back and whether
/// the simulation ends with it.
#[derive(Clone, Copy, Debug, PartialEq, Eq)]
pub struct MonitorStep {
    pub reply: i32,
    pub stop: bool,
}

impl CallMonitor {
    /// A monitor that has seen no call yet.
    pub fn new() -> (monitor: CallMonitor)
        ensures
            monitor.sendto_calls == 0,
    {
        CallMonitor { sendto_calls: 0 }
    }

    /// Counts the report and returns the reply for it: `REPLY_DUPLICATE` for the
    /// third `sendto`, `REPLY_PROCEED` otherwise.
    pub fn treat_call(&mut self, message: &Message) -> (reply: i32)
        requires
            message.code == SYSCALL_SENDTO ==> old(self).sendto_calls < u32::MAX,
        ensures
            final(self).sendto_calls == calls_after(old(self).sendto_calls as int, message.code),
            reply == call_reply(old(self).sendto_calls as int, message.code),
    {
        if message.code == SYSCALL_SENDTO {
            self.sendto_calls = self.sendto_calls + 1;
            if self.sendto_calls == DUPLICATED_SENDTO {
                return REPLY_DUPLICATE;
            }
        }
        REPLY_PROCEED
    }

    /// Handles one received report: the reply to send back, and whether it ends
    /// the simulation.
    pub fn step(&mut self, message: &Message) -> (step: MonitorStep)
        requires
            message.code == SYSCALL_SENDTO ==> old(self).sendto_calls < u32::MAX,
        ensures
            final(self).sendto_calls == calls_after(old(self).sendto_calls as int, message.code),
            step.reply == call_reply(old(self).sendto_calls as int, message.code),
            step.stop == (message.code == END_OF_SIMULATION),
    {
        let reply = self.treat_call(message);
        MonitorStep { reply, stop: message.code == END_OF_SIMULATION }
    }
}

/// The number of `sendto` reports among `codes`.
pub open spec fn sendto_count(codes: Seq<u32>) -> nat
    decreases codes.len(),
{
    if codes.len() == 0 {
        0
    } else {
        sendto_count(codes.drop_last()) + if codes.last() == SYSCALL_SENDTO { 1nat } else { 0nat }
    }
}

/// The number of duplicate replies that a fresh monitor gives to the reports `codes`,
/// answered in order.
pub open spec fn duplicate_replies(codes: Seq<u32>) -> nat
    decreases codes.len(),
{
    if codes.len() == 0 {
        0
    } else {
        let prefix = codes.drop_last();
        duplicate_replies(prefix) + if call_reply(sendto_count(prefix) as int, codes.last())
            == REPLY_DUPLICATE {
            1nat
        } else {
            0nat
        }
    }
}

/// A fresh monitor that answers a sequence of reports asks for exactly one
/// duplicated `sendto` when the sequence holds at least three `sendto` reports,
/// and for none otherwise.
pub proof fn lemma_single_duplicate(codes: Seq<u32>)
    ensures
        duplicate_replies(codes) == if sendto_count(codes) >= DUPLICATED_SENDTO { 1nat } else { 0nat },
    decreases codes.len(),
{
    if codes.len() > 0 {
        lemma_single_duplicate(codes.drop_last());
    }
}

/// The counter of a fresh monitor after it answered the reports `codes` in order.
pub open spec fn run_calls(codes: Seq<u32>) -> int
    decreases codes.len(),
{
    if codes.len() == 0 {
        0
    } else {
        calls_after(run_calls(codes.drop_last()), codes.last())
    }
}

/// The reply of a fresh monitor to the report `codes[i]`, after it answered the
/// reports before it.
pub open spec fn reply_at(codes: Seq<u32>, i: int) -> i32 {
    call_reply(run_calls(codes.take(i)), codes[i])
}

/// After a fresh monitor has answered the reports `codes` in order, its counter
/// holds the number of `sendto` reports among them.
pub proof fn lemma_counter_tracks_sendto(codes: Seq<u32>)
    ensures
        run_calls(codes) == sendto_count(codes),
    decreases codes.len(),
{
    if codes.len() > 0 {
        lemma_counter_tracks_sendto(codes.drop_last());
    }
}

/// A fresh monitor answering reports in order replies `REPLY_DUPLICATE` to a
/// report exactly when it is the third `sendto`, and `REPLY_PROCEED` to all others.
pub proof fn lemma_reply_at(codes: Seq<u32>, i: int)
    requires
        0 <= i < codes.len(),
    ensures
        reply_at(codes, i) == REPLY_DUPLICATE <==> (codes[i] == SYSCALL_SENDTO && sendto_count(
            codes.take(i),
        ) + 1 == DUPLICATED_SENDTO),
        reply_at(codes, i) == REPLY_DUPLICATE || reply_at(codes, i) == REPLY_PROCEED,
{
    lemma_counter_tracks_sendto(codes.take(i));
}

/// A fresh monitor can answer the reports `codes` in order without its counter
/// wrapping, as long as they hold at most `u32::MAX` `sendto` reports: before each
/// `sendto` report, its counter is below `u32::MAX`.
pub proof fn lemma_run_never_overflows(codes: Seq<u32>, i: int)
    requires
        0 <= i < codes.len(),
        sendto_count(codes) <= u32::MAX,
    ensures
        codes[i] == SYSCALL_SENDTO ==> run_calls(codes.take(i)) < u32::MAX,
    decreases codes.len(),
{
    lemma_counter_tracks_sendto(codes.take(i));
    if i + 1 < codes.len() {
        lemma_run_never_overflows(codes.drop_last(), i);
        assert(codes.drop_last().take(i) =~= codes.take(i));
    } else {
        assert(codes.drop_last() =~= codes.take(i));
    }
}

} // verus!
