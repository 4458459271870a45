use zermia::call_monitor::{classify_call, CallKind, CallMonitor, REPLY_DUPLICATE, REPLY_PROCEED};
use zermia::message::{new_message, Message};

fn report(code: u32) -> Message {
    let mut m = new_message();
    m.code = code;
    m
}

#[test]
fn third_sendto_is_duplicated() {
    let mut monitor = CallMonitor::new();
    let replies: Vec<i32> = (0..5).map(|_| monitor.treat_call(&report(44))).collect();
    assert_eq!(replies, vec![0, 0, 6, 0, 0]);
    assert_eq!(monitor.sendto_calls, 5);
}

#[test]
fn other_reports_do_not_count() {
    let mut monitor = CallMonitor::new();
    assert_eq!(monitor.treat_call(&report(45)), REPLY_PROCEED);
    assert_eq!(monitor.treat_call(&report(88883)), REPLY_PROCEED);
    assert_eq!(monitor.treat_call(&report(7)), REPLY_PROCEED);
    assert_eq!(monitor.sendto_calls, 0);
}

#[test]
fn interleaved_reports_duplicate_once() {
    let mut monitor = CallMonitor::new();
    let codes = [44, 45, 44, 1, 45, 44, 44, 45, 44];
    let replies: Vec<i32> = codes.iter().map(|c| monitor.treat_call(&report(*c))).collect();
    assert_eq!(replies.iter().filter(|r| **r == REPLY_DUPLICATE).count(), 1);
    assert_eq!(replies[5], REPLY_DUPLICATE);
}

#[test]
fn fewer_than_three_sendto_never_duplicate() {
    let mut monitor = CallMonitor::new();
    for c in [44, 45, 44, 45, 9] {
        assert_eq!(monitor.treat_call(&report(c)), REPLY_PROCEED);
    }
}

#[test]
fn step_stops_on_end_code() {
    let mut monitor = CallMonitor::new();
    let s = monitor.step(&report(9999));
    assert!(s.stop);
    assert_eq!(s.reply, 0);
    let s = monitor.step(&report(44));
    assert!(!s.stop);
}

#[test]
fn classification() {
    assert_eq!(classify_call(44), CallKind::SendTo);
    assert_eq!(classify_call(45), CallKind::RecvFrom);
    assert_eq!(classify_call(88883), CallKind::DataPacket);
    assert_eq!(classify_call(0), CallKind::Other);
}
