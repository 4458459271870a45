use zermia::message::{new_message, Message};
use zermia::packet_monitor::{alert_for, pair_key, Alert, PacketCounter, PacketVerdict};

fn packet(code: u32, src: u32, dst: u32) -> Message {
    let mut m = new_message();
    m.code = code;
    m.ip_src = src;
    m.ip_dest = dst;
    m
}

#[test]
fn untracked_pair_is_forwarded() {
    let mut counter = PacketCounter::new();
    let v = counter.treat_data_packets(&packet(18, 1, 2));
    assert_eq!(v, PacketVerdict::ForwardUntracked);
    assert!(v.forwards());
    assert_eq!(counter.count_for(1, 2), None);
}

#[test]
fn fortieth_data_packet_is_held() {
    let mut counter = PacketCounter::new();
    for i in 1..40u32 {
        let v = counter.treat_data_packets(&packet(3, 10, 20));
        assert_eq!(v, PacketVerdict::ForwardTracked);
        assert_eq!(counter.count_for(10, 20), Some(i));
    }
    let v = counter.treat_data_packets(&packet(3, 10, 20));
    assert_eq!(v, PacketVerdict::Hold(Alert::AlterPayload));
    assert!(!v.forwards());
    assert_eq!(counter.count_for(10, 20), Some(40));
    let v = counter.treat_data_packets(&packet(3, 10, 20));
    assert_eq!(v, PacketVerdict::ForwardTracked);
    assert_eq!(counter.count_for(10, 20), Some(41));
}

#[test]
fn uncounted_packet_of_held_pair_is_held_with_its_alert() {
    let mut counter = PacketCounter::new();
    for _ in 0..40 {
        counter.treat_data_packets(&packet(3, 5, 6));
    }
    assert_eq!(counter.treat_data_packets(&packet(18, 5, 6)), PacketVerdict::Hold(Alert::NetworkInterface));
    assert_eq!(counter.treat_data_packets(&packet(28, 5, 6)), PacketVerdict::Hold(Alert::Tcp));
    assert_eq!(counter.count_for(5, 6), Some(40));
}

#[test]
fn pairs_are_directed_and_separate() {
    let mut counter = PacketCounter::new();
    counter.treat_data_packets(&packet(3, 1, 2));
    assert_eq!(counter.count_for(1, 2), Some(1));
    assert_eq!(counter.count_for(2, 1), None);
    assert_eq!(counter.treat_data_packets(&packet(3, 2, 1)), PacketVerdict::ForwardTracked);
    assert_eq!(counter.count_for(1, 2), Some(1));
    assert_eq!(counter.count_for(2, 1), Some(1));
}

#[test]
fn pair_keys() {
    assert_eq!(pair_key(0, 0), 0);
    assert_eq!(pair_key(1, 2), (1u64 << 32) + 2);
    assert_eq!(pair_key(u32::MAX, u32::MAX), u64::MAX);
}

#[test]
fn alerts_by_code() {
    assert_eq!(alert_for(18), Alert::NetworkInterface);
    assert_eq!(alert_for(23), Alert::Tcp);
    assert_eq!(alert_for(28), Alert::Tcp);
    assert_eq!(alert_for(2222), Alert::CyanTrain);
    assert_eq!(alert_for(79323), Alert::CodelQueue);
    assert_eq!(alert_for(11111), Alert::DesperateYellow);
    assert_eq!(alert_for(111112), Alert::DesperateRed);
    assert_eq!(alert_for(11113), Alert::DesperatePurple);
    assert_eq!(alert_for(111114), Alert::DesperatePurple);
    assert_eq!(alert_for(77777), Alert::DesperateBlue);
    assert_eq!(alert_for(77778), Alert::DesperateBlue);
    assert_eq!(alert_for(999323), Alert::DropHere);
    assert_eq!(alert_for(101010101), Alert::Success);
    assert_eq!(alert_for(2345), Alert::AlterPayload);
}
