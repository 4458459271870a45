use zermia::monitor_service::MyMonitor;
use zermia::pcap::{pcap_capture_size, pcap_directory, PcapOptions};
use zermia::tcp_demo::{client_message, client_report, echo_step, report_client_message, EchoStep};
use zermia::text::{decimal_string, with_number};
use zermia::tracker::TrackerCounters;

#[test]
fn numbers_in_decimal() {
    assert_eq!(with_number("n=", 0), "n=0");
    assert_eq!(with_number("", 10), "10");
    assert_eq!(with_number("x", u32::MAX), "x4294967295");
}

#[test]
fn client_texts() {
    assert_eq!(client_message(1), "shadow simulator mensagem num 1");
    assert_eq!(client_message(9), "shadow simulator mensagem num 9");
    assert_eq!(report_client_message(3), "mensagem 3");
}

#[test]
fn client_report_fields() {
    let m = client_report("shadow simulator mensagem num 1");
    assert_eq!(m.code, 1023412);
    assert_eq!(m.ip_src, 94);
    assert_eq!(m.ip_dest, 223);
    assert!(!m.return_status);
    assert_eq!(&m.msg[..31], b"shadow simulator mensagem num 1");
    assert_eq!(m.msg[31], 0);
}

#[test]
fn echo_uppercases() {
    match echo_step(b"mensagem 1") {
        EchoStep::Reply(r) => assert_eq!(r, "MENSAGEM 1"),
        other => panic!("unexpected {:?}", other),
    }
    match echo_step("número".as_bytes()) {
        EchoStep::Reply(r) => assert_eq!(r, "NÚMERO"),
        other => panic!("unexpected {:?}", other),
    }
}

#[test]
fn echo_closes_on_empty_chunk() {
    assert!(matches!(echo_step(b""), EchoStep::Close));
}

#[test]
fn greeting_counts_clients() {
    let mut monitor = MyMonitor::default();
    assert_eq!(monitor.contact("Tonic"), "Hello Tonic!");
    assert_eq!(monitor.contact(""), "Hello !");
    assert_eq!(monitor.clients, 2);
    assert_eq!(MyMonitor::new().clients, 0);
}

#[test]
fn tracker_counters() {
    let mut c = TrackerCounters::new();
    assert_eq!(c.start_tracker(), 1);
    assert_eq!(c.new_socket(), 1);
    assert_eq!(c.send_data(), 2);
    assert_eq!(c.start_tracker(), 2);
    assert_eq!(c, TrackerCounters { events: 4, trackers: 2, sockets: 2 });
}

#[test]
fn pcap_options() {
    let opts = Some(PcapOptions { path: std::path::PathBuf::from("/tmp/pcap"), capture_size_bytes: 65535 });
    assert_eq!(pcap_capture_size(&opts), 65535);
    assert_eq!(pcap_directory(&opts), Some(&std::path::PathBuf::from("/tmp/pcap")));
    assert_eq!(pcap_capture_size(&None), 0);
    assert_eq!(pcap_directory(&None), None);
}

#[test]
fn decimal_rendering() {
    assert_eq!(decimal_string(0), "0");
    assert_eq!(decimal_string(7), "7");
    assert_eq!(decimal_string(10), "10");
    assert_eq!(decimal_string(1023412), "1023412");
    assert_eq!(decimal_string(u32::MAX), "4294967295");
}
