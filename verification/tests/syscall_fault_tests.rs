use zermia::call_monitor::CallMonitor;
use zermia::syscall_fault::{describe_syscall, fault_action, report_code, report_for_syscall, syscall_report, FaultAction};

#[test]
fn report_codes() {
    assert_eq!(report_code(68), 68686868);
    assert_eq!(report_code(44), 44);
    assert_eq!(report_code(45), 45);
    assert_eq!(report_code(0), 0);
    assert_eq!(report_code(u32::MAX as i64), u32::MAX);
}

#[test]
fn sendto_actions() {
    assert_eq!(fault_action(44, 1), FaultAction::FailNotConnected);
    assert_eq!(fault_action(44, 2), FaultAction::ReturnLength);
    assert_eq!(fault_action(44, 3), FaultAction::ReturnZero);
    assert_eq!(fault_action(44, 6), FaultAction::SendTwice);
    assert_eq!(fault_action(44, 0), FaultAction::Proceed);
    assert_eq!(fault_action(44, 5), FaultAction::Proceed);
}

#[test]
fn recvfrom_actions() {
    assert_eq!(fault_action(45, 1), FaultAction::FailNotConnected);
    assert_eq!(fault_action(45, 2), FaultAction::ReturnLength);
    assert_eq!(fault_action(45, 3), FaultAction::ReturnZero);
    assert_eq!(fault_action(45, 6), FaultAction::Proceed);
    assert_eq!(fault_action(45, -1), FaultAction::Proceed);
}

#[test]
fn other_syscalls_ignore_the_reply() {
    for reply in [0, 1, 2, 3, 6] {
        assert_eq!(fault_action(68, reply), FaultAction::Proceed);
        assert_eq!(fault_action(0, reply), FaultAction::Proceed);
        assert_eq!(fault_action(46, reply), FaultAction::Proceed);
    }
}

#[test]
fn description_text() {
    assert_eq!(describe_syscall(44), "[handler/mod.rs] Uma syscall, número 44, está a ser agora feita");
    assert_eq!(describe_syscall(68686868), "[handler/mod.rs] Uma syscall, número 68686868, está a ser agora feita");
}

#[test]
fn report_message() {
    let m = syscall_report(45, 0x0a00_0001);
    assert_eq!(m.code, 45);
    assert_eq!(m.ip_src, 0x0a00_0001);
    assert_eq!(m.ip_dest, 987654321);
    assert!(!m.return_status);
    let text = "[handler/mod.rs] Uma syscall, número 45, está a ser agora feita";
    assert_eq!(&m.msg[..], &text.as_bytes()[..32]);
    assert_eq!(m.msg[31], 0xC3);
}

#[test]
fn monitor_replies_double_only_the_third_sendto() {
    let mut monitor = CallMonitor::new();
    let numbers = [45i64, 44, 68, 44, 1, 44, 44, 45];
    let actions: Vec<FaultAction> = numbers
        .iter()
        .map(|n| {
            let report = report_for_syscall(*n, 7);
            fault_action(*n, monitor.treat_call(&report))
        })
        .collect();
    let doubled: Vec<usize> = actions.iter().enumerate().filter(|(_, a)| **a == FaultAction::SendTwice).map(|(i, _)| i).collect();
    assert_eq!(doubled, vec![5]);
    assert!(actions.iter().all(|a| *a == FaultAction::SendTwice || *a == FaultAction::Proceed));
}

#[test]
fn report_for_msgget_uses_its_own_code() {
    let m = report_for_syscall(68, 1);
    assert_eq!(m.code, 68686868);
    assert_eq!(m.ip_src, 1);
}
