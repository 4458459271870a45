//! The packet monitor: it counts the data packets exchanged by each pair of
//! hosts and holds back the packets of a pair once forty of them were seen.
use crate::message::Message;
use std::collections::HashMap;
use vstd::prelude::*;

verus! {

broadcast use vstd::std_specs::hash::group_hash_axioms;

/// Report code of a data packet; only these are counted.
pub const COUNTED_CODE: u32 = 3;

/// The count at which the packets of a pair are held back.
pub const HOLD_THRESHOLD: u32 = 40;

/// The diagnostic shown when a packet is held back, chosen by the report code.
#[derive(Clone, Copy, Debug, PartialEq, Eq)]
pub enum Alert {
    /// Code 18: the network interface should not send.
    NetworkInterface,
    /// Codes 28 and 23: the TCP layer should not send.
    Tcp,
    /// Code 2222.
    CyanTrain,
    /// Code 79323: drop from the CoDel queue.
    CodelQueue,
    /// Code 11111.
    DesperateYellow,
    /// Code 111112.
    DesperateRed,
    /// Codes 11113 and 111114.
    DesperatePurple,
    /// Codes 77777 and 77778.
    DesperateBlue,
    /// Code 999323.
    DropHere,
    /// Code 101010101.
    Success,
    /// Any other code: the payload is to be altered.
    AlterPayload,
}

/// The diagnostic for a held packet with report code `code`.
pub open spec fn spec_alert_for(code: u32) -> Alert {
    if code == 18 {
        Alert::NetworkInterface
    } else if code == 28 || code == 23 {
        Alert::Tcp
    } else if code == 2222 {
        Alert::CyanTrain
    } else if code == 79323 {
        Alert::CodelQueue
    } else if code == 11111 {
        Alert::DesperateYellow
    } else if code == 111112 {
        Alert::DesperateRed
    } else if code == 11113 || code == 111114 {
        Alert::DesperatePurple
    } else if code == 77777 || code == 77778 {
        Alert::DesperateBlue
    } else if code == 999323 {
        Alert::DropHere
    } else if code == 101010101 {
        Alert::Success
    } else {
        Alert::AlterPayload
    }
}

/// Chooses the diagnostic for a held packet.
pub fn alert_for(code: u32) -> (alert: Alert)
    ensures
        alert == spec_alert_for(code),
{
    if code == 18 {
        Alert::NetworkInterface
    } else if code == 28 || code == 23 {
        Alert::Tcp
    } else if code == 2222 {
        Alert::CyanTrain
    } else if code == 79323 {
        Alert::CodelQueue
    } else if code == 11111 {
        Alert::DesperateYellow
    } else if code == 111112 {
        Alert::DesperateRed
    } else if code == 11113 || code == 111114 {
        Alert::DesperatePurple
    } else if code == 77777 || code == 77778 {
        Alert::DesperateBlue
    } else if code == 999323 {
        Alert::DropHere
    } else if code == 101010101 {
        Alert::Success
    } else {
        Alert::AlterPayload
    }
}

/// What becomes of a packet.
#[derive(Clone, Copy, Debug, PartialEq, Eq)]
pub enum PacketVerdict {
    /// Sent: no packet of its pair has been counted.
    ForwardUntracked,
    /// Sent: its pair is counted, and the count is not the threshold.
    ForwardTracked,
    /// Held back: its pair's count is the threshold.
    Hold(Alert),
}

impl PacketVerdict {
    /// Whether the packet is to be sent.
    pub fn forwards(&self) -> (send: bool)
        ensures
            send == !(self is Hold),
    {
        match self {
            PacketVerdict::Hold(_) => false,
            _ => true,
        }
    }
}

/// The key under which the pair (`src`, `dst`) is counted.
pub open spec fn spec_pair_key(src: u32, dst: u32) -> u64 {
    (src * 0x1_0000_0000 + dst) as u64
}

/// The key under which the pair (`src`, `dst`) is counted.
pub fn pair_key(src: u32, dst: u32) -> (key: u64)
    ensures
        key == spec_pair_key(src, dst),
        key == src * 0x1_0000_0000 + dst,
{
    assert((src as u64) * 0x1_0000_0000u64 <= 0xFFFF_FFFF_0000_0000u64) by (nonlinear_arith)
        requires
            src <= 0xFFFF_FFFFu32,
    ;
    (src as u64) * 0x1_0000_0000u64 + (dst as u64)
}

/// The key of the pair that `message` travels between.
pub open spec fn message_key(message: Message) -> u64 {
    spec_pair_key(message.ip_src, message.ip_dest)
}

/// The counts after `message` has been seen, when they were `counts` before.
pub open spec fn counts_after(counts: Map<u64, u32>, message: Message) -> Map<u64, u32> {
    let key = message_key(message);
    if message.code == COUNTED_CODE {
        counts.insert(key, (if counts.contains_key(key) { counts[key] + 1 } else { 1 }) as u32)
    } else {
        counts
    }
}

/// The verdict on `message` when the counts, with it included, are `counts`.
pub open spec fn verdict_for(counts: Map<u64, u32>, message: Message) -> PacketVerdict {
    let key = message_key(message);
    if counts.contains_key(key) {
        if counts[key] == HOLD_THRESHOLD {
            PacketVerdict::Hold(spec_alert_for(message.code))
        } else {
            PacketVerdict::ForwardTracked
        }
    } else {
        PacketVerdict::ForwardUntracked
    }
}

/// The key of the pair (`src`, `dst`), written out: the source in the high 32 bits
/// and the destination in the low 32 bits.
pub open spec fn pair_key_of(src: u32, dst: u32) -> u64 {
    (src as int * 4294967296 + dst as int) as u64
}

/// The verdict on a packet is decided by its pair's count alone, whatever the
/// packet's code: no count means sent untracked, a count of 40 means held with the
/// alert for the packet's code, and any other count means sent tracked.
pub proof fn lemma_verdict_by_count(counts: Map<u64, u32>, message: Message)
    ensures
        ({
            let key = pair_key_of(message.ip_src, message.ip_dest);
            &&& verdict_for(counts, message) == PacketVerdict::ForwardUntracked <==> !counts.contains_key(key)
            &&& counts.contains_key(key) && counts[key] != 40 ==> verdict_for(counts, message)
                == PacketVerdict::ForwardTracked
            &&& counts.contains_key(key) && counts[key] == 40 ==> verdict_for(counts, message)
                == PacketVerdict::Hold(spec_alert_for(message.code))
        }),
{
}

/// Distinct pairs of hosts are counted under distinct keys.
pub proof fn lemma_pair_keys_distinct(s1: u32, d1: u32, s2: u32, d2: u32)
    ensures
        spec_pair_key(s1, d1) == spec_pair_key(s2, d2) <==> (s1 == s2 && d1 == d2),
        spec_pair_key(s1, d1) == pair_key_of(s1, d1),
{
    assert(s1 * 0x1_0000_0000 + d1 <= 0xFFFF_FFFF_FFFF_FFFF) by (nonlinear_arith)
        requires
            s1 <= 0xFFFF_FFFFu32,
            d1 <= 0xFFFF_FFFFu32,
    ;
    assert(s2 * 0x1_0000_0000 + d2 <= 0xFFFF_FFFF_FFFF_FFFF) by (nonlinear_arith)
        requires
            s2 <= 0xFFFF_FFFFu32,
            d2 <= 0xFFFF_FFFFu32,
    ;
    if s1 * 0x1_0000_0000 + d1 == s2 * 0x1_0000_0000 + d2 {
        assert(s1 == s2 && d1 == d2) by (nonlinear_arith)
            requires
                s1 * 0x1_0000_0000 + d1 == s2 * 0x1_0000_0000 + d2,
                d1 < 0x1_0000_0000,
                d2 < 0x1_0000_0000,
                s1 >= 0,
                s2 >= 0,
        ;
    }
}

/// Seeing a packet of code 3 adds one to its pair's count (starting from zero);
/// a packet of any other code leaves the counts unchanged; and the counts of
/// other pairs never change.
pub proof fn lemma_counting(counts: Map<u64, u32>, message: Message, other: u64)
    requires
        counts.contains_key(pair_key_of(message.ip_src, message.ip_dest)) ==> counts[pair_key_of(
            message.ip_src,
            message.ip_dest,
        )] < u32::MAX,
    ensures
        ({
            let key = pair_key_of(message.ip_src, message.ip_dest);
            let after = counts_after(counts, message);
            &&& message.code != 3 ==> after == counts
            &&& message.code == 3 ==> after.contains_key(key) && after[key] == (if counts.contains_key(
                key,
            ) {
                counts[key] + 1
            } else {
                1
            })
            &&& other != key ==> (after.contains_key(other) == counts.contains_key(other) && (
            counts.contains_key(other) ==> after[other] == counts[other]))
        }),
{
}

/// Which alert a held packet raises, by its code: 18 the network interface;
/// 23 and 28 TCP; 2222 the cyan train; 79323 the CoDel queue; 11111, 111112,
/// 11113 or 111114, and 77777 or 77778 the yellow, red, purple and blue
/// "desperate" alerts; 999323 drop-here; 101010101 success; any other code
/// the payload alteration.
pub proof fn lemma_alert_table(code: u32)
    ensures
        spec_alert_for(code) == Alert::NetworkInterface <==> code == 18,
        spec_alert_for(code) == Alert::Tcp <==> (code == 23 || code == 28),
        spec_alert_for(code) == Alert::CyanTrain <==> code == 2222,
        spec_alert_for(code) == Alert::CodelQueue <==> code == 79323,
        spec_alert_for(code) == Alert::DesperateYellow <==> code == 11111,
        spec_alert_for(code) == Alert::DesperateRed <==> code == 111112,
        spec_alert_for(code) == Alert::DesperatePurple <==> (code == 11113 || code == 111114),
        spec_alert_for(code) == Alert::DesperateBlue <==> (code == 77777 || code == 77778),
        spec_alert_for(code) == Alert::DropHere <==> code == 999323,
        spec_alert_for(code) == Alert::Success <==> code == 101010101,
        spec_alert_for(code) == Alert::AlterPayload <==> !(code == 18 || code == 23 || code == 28
            || code == 2222 || code == 79323 || code == 11111 || code == 111112 || code == 11113
            || code == 111114 || code == 77777 || code == 77778 || code == 999323 || code
            == 101010101),
{
}

/// The monitor's state: for each pair of hosts that exchanged a counted packet,
/// the number of such packets.
#[derive(Debug)]
pub struct PacketCounter {
    pub counts: HashMap<u64, u32>,
}

impl PacketCounter {
    /// A counter that has seen no packet.
    pub fn new() -> (counter: PacketCounter)
        ensures
            counter.counts@ == Map::<u64, u32>::empty(),
    {
        PacketCounter { counts: HashMap::new() }
    }

    /// The number of counted packets between `src` and `dst`, if any was counted.
    pub fn count_for(&self, src: u32, dst: u32) -> (count: Option<u32>)
        ensures
            count == (if self.counts@.contains_key(spec_pair_key(src, dst)) {
                Some(self.counts@[spec_pair_key(src, dst)])
            } else {
                None
            }),
    {
        let key = pair_key(src, dst);
        match self.counts.get(&key) {
            Some(count) => Some(*count),
            None => None,
        }
    }

    /// Counts the packet if it is a data packet, then decides whether it is sent.
    pub fn treat_data_packets(&mut self, message: &Message) -> (verdict: PacketVerdict)
        requires
            message.code == COUNTED_CODE && old(self).counts@.contains_key(message_key(*message))
                ==> old(self).counts@[message_key(*message)] < u32::MAX,
        ensures
            final(self).counts@ == counts_after(old(self).counts@, *message),
            verdict == verdict_for(final(self).counts@, *message),
            verdict == PacketVerdict::ForwardUntracked <==> !final(self).counts@.contains_key(
                pair_key_of(message.ip_src, message.ip_dest),
            ),
            final(self).counts@.contains_key(pair_key_of(message.ip_src, message.ip_dest))
                && final(self).counts@[pair_key_of(message.ip_src, message.ip_dest)] != 40
                ==> verdict == PacketVerdict::ForwardTracked,
            final(self).counts@.contains_key(pair_key_of(message.ip_src, message.ip_dest))
                && final(self).counts@[pair_key_of(message.ip_src, message.ip_dest)] == 40
                ==> verdict == PacketVerdict::Hold(spec_alert_for(message.code)),
    {
        let key = pair_key(message.ip_src, message.ip_dest);
        if message.code == COUNTED_CODE {
            let current: u32 = match self.counts.get(&key) {
                Some(count) => *count,
                None => 0,
            };
            self.counts.insert(key, current + 1);
        }
        match self.counts.get(&key) {
            Some(count) => {
                if *count == HOLD_THRESHOLD {
                    PacketVerdict::Hold(alert_for(message.code))
                } else {
                    PacketVerdict::ForwardTracked
                }
            },
            None => PacketVerdict::ForwardUntracked,
        }
    }
}


/// The counts after the packets `messages` have been seen, in order, by a fresh counter.
pub open spec fn run_counts(messages: Seq<Message>) -> Map<u64, u32>
    decreases messages.len(),
{
    if messages.len() == 0 {
        Map::empty()
    } else {
        counts_after(run_counts(messages.drop_last()), messages.last())
    }
}

/// The number of counted packets among `messages` that travel under `key`.
pub open spec fn pair_count(messages: Seq<Message>, key: u64) -> nat
    decreases messages.len(),
{
    if messages.len() == 0 {
        0
    } else {
        pair_count(messages.drop_last(), key) + if messages.last().code == COUNTED_CODE
            && message_key(messages.last()) == key {
            1nat
        } else {
            0nat
        }
    }
}

/// A pair's count over a run is at least its count over any first part of the run.
pub proof fn lemma_pair_count_grows(messages: Seq<Message>, key: u64, i: int)
    requires
        0 <= i <= messages.len(),
    ensures
        pair_count(messages.take(i), key) <= pair_count(messages, key),
    decreases messages.len() - i,
{
    if i < messages.len() {
        lemma_pair_count_grows(messages, key, i + 1);
        assert(messages.take(i + 1).drop_last() =~= messages.take(i));
    } else {
        assert(messages.take(i) =~= messages);
    }
}

/// A fresh counter fed the packets `messages` in order holds, for a pair whose
/// count does not wrap, exactly the number of counted packets of that pair, and
/// holds no entry for a pair none of whose packets was counted.
pub proof fn lemma_run_counts(messages: Seq<Message>, key: u64)
    requires
        pair_count(messages, key) <= u32::MAX,
    ensures
        run_counts(messages).contains_key(key) <==> pair_count(messages, key) > 0,
        run_counts(messages).contains_key(key) ==> run_counts(messages)[key] == pair_count(
            messages,
            key,
        ),
    decreases messages.len(),
{
    if messages.len() > 0 {
        lemma_run_counts(messages.drop_last(), key);
    }
}

/// Packets fed in order to a fresh counter: as long as the count of its pair does
/// not wrap, a packet is held back exactly when, counting it, forty counted
/// packets of its pair have been seen; the packets before and after that point
/// are sent.
pub proof fn lemma_hold_exactly_at_threshold(messages: Seq<Message>, i: int)
    requires
        0 <= i < messages.len(),
        pair_count(messages.take(i + 1), message_key(messages[i])) <= u32::MAX,
    ensures
        (verdict_for(run_counts(messages.take(i + 1)), messages[i]) is Hold) <==> pair_count(
            messages.take(i + 1),
            message_key(messages[i]),
        ) == HOLD_THRESHOLD,
{
    lemma_run_counts(messages.take(i + 1), message_key(messages[i]));
}

/// Feeding the packets of `messages` one by one to a fresh counter never breaks
/// the precondition of `treat_data_packets` as long as no pair's count wraps.
pub proof fn lemma_run_never_overflows(messages: Seq<Message>, i: int)
    requires
        0 <= i < messages.len(),
        pair_count(messages.take(i + 1), message_key(messages[i])) <= u32::MAX,
    ensures
        ({
            let before = run_counts(messages.take(i));
            let key = message_key(messages[i]);
            messages[i].code == COUNTED_CODE && before.contains_key(key) ==> before[key] < u32::MAX
        }),
{
    let key = message_key(messages[i]);
    assert(messages.take(i + 1).drop_last() =~= messages.take(i));
    lemma_pair_count_grows(messages.take(i + 1), key, i);
    assert(messages.take(i + 1).take(i) =~= messages.take(i));
    lemma_run_counts(messages.take(i), key);
}

} // verus!
