use printer_event_handler::{
    ErrorState, MonitorableProperty, Printer, PrinterError, PrinterMonitor, PrinterStatus,
    PropertyChange,
};

fn printer(name: &str, status: PrinterStatus, offline: bool) -> Printer {
    Printer::new(name.to_string(), status, ErrorState::NoError, offline, false)
}

fn failure() -> PrinterError {
    PrinterError::CupsError("lpstat failed".to_string())
}

// One printer: idle, then idle again, then printing.
#[test]
fn initial_then_unchanged_then_status_change() {
    let mut monitor = PrinterMonitor::new("Printer1".to_string());

    let first = monitor
        .monitor_printer_changes(Ok(Some(printer("Printer1", PrinterStatus::Idle, false))))
        .unwrap()
        .expect("the first observation is reported");
    assert_eq!(first.printer_name, "Printer1");
    assert_eq!(first.change_count(), 0);

    let second = monitor
        .monitor_printer_changes(Ok(Some(printer("Printer1", PrinterStatus::Idle, false))))
        .unwrap();
    assert!(second.is_none());

    let third = monitor
        .monitor_printer_changes(Ok(Some(printer("Printer1", PrinterStatus::Printing, false))))
        .unwrap()
        .expect("a change is reported");
    assert_eq!(
        third.changes,
        vec![PropertyChange::Status { old: PrinterStatus::Idle, new: PrinterStatus::Printing }]
    );
}

#[test]
fn initial_then_unchanged_then_status_change_whole_snapshots() {
    let mut monitor = PrinterMonitor::new("Printer1".to_string());

    let first = monitor
        .monitor_printer(Ok(Some(printer("Printer1", PrinterStatus::Idle, false))))
        .unwrap()
        .expect("the first observation is reported");
    assert_eq!(first.current.status(), &PrinterStatus::Idle);
    assert!(first.previous.is_none());

    let second = monitor
        .monitor_printer(Ok(Some(printer("Printer1", PrinterStatus::Idle, false))))
        .unwrap();
    assert!(second.is_none());

    let third = monitor
        .monitor_printer(Ok(Some(printer("Printer1", PrinterStatus::Printing, false))))
        .unwrap()
        .expect("a change is reported");
    assert_eq!(third.current.status(), &PrinterStatus::Printing);
    assert_eq!(third.previous.unwrap().status(), &PrinterStatus::Idle);
}

// One printer: present, absent, present again with another status.
#[test]
fn disappearance_and_reappearance() {
    let mut monitor = PrinterMonitor::new("Printer1".to_string());

    let first = monitor
        .monitor_printer_changes(Ok(Some(printer("Printer1", PrinterStatus::Idle, false))))
        .unwrap()
        .unwrap();
    assert_eq!(first.change_count(), 0);

    let gone = monitor.monitor_printer_changes(Ok(None)).unwrap().unwrap();
    assert_eq!(gone.printer_name, "Printer1");
    assert_eq!(gone.changes, vec![PropertyChange::IsOffline { old: false, new: true }]);
    assert!(monitor.previous_printer().is_none());

    let still_gone = monitor.monitor_printer_changes(Ok(None)).unwrap();
    assert!(still_gone.is_none());

    let back = monitor
        .monitor_printer_changes(Ok(Some(printer("Printer1", PrinterStatus::Printing, false))))
        .unwrap()
        .unwrap();
    assert_eq!(back.change_count(), 0);
    assert_eq!(
        monitor.previous_printer().unwrap().status(),
        &PrinterStatus::Printing
    );
}

#[test]
fn disappearance_of_an_offline_printer_is_reported_as_going_offline() {
    let mut monitor = PrinterMonitor::new("Printer1".to_string());
    monitor
        .monitor_printer_changes(Ok(Some(printer("Printer1", PrinterStatus::Offline, true))))
        .unwrap();
    let gone = monitor.monitor_printer_changes(Ok(None)).unwrap().unwrap();
    assert_eq!(gone.changes, vec![PropertyChange::IsOffline { old: false, new: true }]);
}

#[test]
fn disappearance_is_named_after_the_monitored_name() {
    let mut monitor = PrinterMonitor::new("printer1".to_string());
    monitor
        .monitor_printer_changes(Ok(Some(printer("PRINTER1", PrinterStatus::Idle, false))))
        .unwrap();
    let gone = monitor.monitor_printer_changes(Ok(None)).unwrap().unwrap();
    assert_eq!(gone.printer_name, "printer1");
}

#[test]
fn disappearance_whole_snapshots_reports_a_stand_in() {
    let mut monitor = PrinterMonitor::new("Printer1".to_string());
    assert!(monitor.monitor_printer(Ok(None)).unwrap().is_none());
    monitor
        .monitor_printer(Ok(Some(printer("Printer1", PrinterStatus::Idle, false))))
        .unwrap();
    let gone = monitor.monitor_printer(Ok(None)).unwrap().unwrap();
    assert_eq!(gone.current.name(), "Printer1");
    assert_eq!(gone.current.status(), &PrinterStatus::StatusUnknown);
    assert_eq!(gone.current.error_state(), &ErrorState::UnknownError);
    assert!(gone.current.is_offline());
    assert!(!gone.current.is_default());
    assert_eq!(gone.previous.unwrap().status(), &PrinterStatus::Idle);
    assert!(monitor.monitor_printer(Ok(None)).unwrap().is_none());
    let back = monitor
        .monitor_printer(Ok(Some(printer("Printer1", PrinterStatus::Idle, false))))
        .unwrap()
        .unwrap();
    assert!(back.previous.is_none());
}

#[test]
fn nothing_to_report_when_an_unknown_printer_stays_unknown() {
    let mut monitor = PrinterMonitor::new("Ghost".to_string());
    assert!(monitor.monitor_printer_changes(Ok(None)).unwrap().is_none());
    assert!(monitor.monitor_printer_changes(Ok(None)).unwrap().is_none());
    assert!(monitor.previous_printer().is_none());
    assert_eq!(monitor.printer_name(), "Ghost");
}

#[test]
fn failed_query_is_handed_back_and_changes_nothing() {
    let mut monitor = PrinterMonitor::new("Printer1".to_string());
    monitor
        .monitor_printer_changes(Ok(Some(printer("Printer1", PrinterStatus::Idle, false))))
        .unwrap();
    let error = monitor.monitor_printer_changes(Err(failure())).unwrap_err();
    assert!(matches!(error, PrinterError::CupsError(ref m) if m == "lpstat failed"));
    assert_eq!(monitor.previous_printer().unwrap().status(), &PrinterStatus::Idle);

    let error = monitor.monitor_printer(Err(failure())).unwrap_err();
    assert!(matches!(error, PrinterError::CupsError(_)));
    let error = monitor
        .monitor_property(MonitorableProperty::Status, Err(failure()))
        .unwrap_err();
    assert!(matches!(error, PrinterError::CupsError(_)));
    assert_eq!(monitor.previous_printer().unwrap().status(), &PrinterStatus::Idle);
}

#[test]
fn whole_snapshot_monitoring_reports_the_default_flag() {
    let mut monitor = PrinterMonitor::new("P".to_string());
    monitor.monitor_printer(Ok(Some(printer("P", PrinterStatus::Idle, false)))).unwrap();
    let now_default =
        Printer::new("P".to_string(), PrinterStatus::Idle, ErrorState::NoError, false, true);
    let report = monitor.monitor_printer(Ok(Some(now_default))).unwrap().unwrap();
    assert!(report.current.is_default());
    assert!(!report.previous.unwrap().is_default());
    assert!(monitor.previous_printer().unwrap().is_default());
}

#[test]
fn change_monitoring_reports_the_default_flag() {
    let mut monitor = PrinterMonitor::new("P".to_string());
    monitor.monitor_printer_changes(Ok(Some(printer("P", PrinterStatus::Idle, false)))).unwrap();
    let now_default =
        Printer::new("P".to_string(), PrinterStatus::Idle, ErrorState::NoError, false, true);
    let changes = monitor.monitor_printer_changes(Ok(Some(now_default))).unwrap().unwrap();
    assert_eq!(changes.changes, vec![PropertyChange::IsDefault { old: false, new: true }]);
    assert!(monitor.previous_printer().unwrap().is_default());
}

#[test]
fn property_monitoring_forwards_only_that_property() {
    let mut monitor = PrinterMonitor::new("P".to_string());
    // the first observation has no changes: nothing is forwarded
    let first = monitor
        .monitor_property(
            MonitorableProperty::IsOffline,
            Ok(Some(printer("P", PrinterStatus::Idle, false))),
        )
        .unwrap();
    assert!(first.is_none());
    // a status change alone: the change set would be empty after filtering
    let second = monitor
        .monitor_property(
            MonitorableProperty::IsOffline,
            Ok(Some(printer("P", PrinterStatus::Printing, false))),
        )
        .unwrap();
    assert!(second.is_none());
    assert_eq!(monitor.previous_printer().unwrap().status(), &PrinterStatus::Printing);
    // status and offline flag change: only the flag is forwarded
    let third = monitor
        .monitor_property(
            MonitorableProperty::IsOffline,
            Ok(Some(printer("P", PrinterStatus::Offline, true))),
        )
        .unwrap()
        .unwrap();
    assert_eq!(third.changes, vec![PropertyChange::IsOffline { old: false, new: true }]);
    // nothing changes
    let fourth = monitor
        .monitor_property(
            MonitorableProperty::IsOffline,
            Ok(Some(printer("P", PrinterStatus::Offline, true))),
        )
        .unwrap();
    assert!(fourth.is_none());
}

#[test]
fn property_monitoring_sees_a_disappearance_as_an_offline_change() {
    let mut monitor = PrinterMonitor::new("P".to_string());
    monitor
        .monitor_property(
            MonitorableProperty::IsOffline,
            Ok(Some(printer("P", PrinterStatus::Idle, false))),
        )
        .unwrap();
    let gone = monitor
        .monitor_property(MonitorableProperty::IsOffline, Ok(None))
        .unwrap()
        .unwrap();
    assert_eq!(gone.changes, vec![PropertyChange::IsOffline { old: false, new: true }]);

    let mut monitor = PrinterMonitor::new("P".to_string());
    monitor
        .monitor_property(
            MonitorableProperty::Status,
            Ok(Some(printer("P", PrinterStatus::Idle, false))),
        )
        .unwrap();
    let gone = monitor.monitor_property(MonitorableProperty::Status, Ok(None)).unwrap();
    assert!(gone.is_none());
    assert!(monitor.previous_printer().is_none());
}

// Two printers, and a lasting failure on the first.
#[test]
fn first_failure_ends_the_monitoring_of_all() {
    let mut group =
        PrinterMonitor::monitor_multiple_printers(vec!["A".to_string(), "B".to_string()]);
    assert_eq!(group.len(), 2);
    assert_eq!(group.printer_name(0), Some("A"));
    assert_eq!(group.printer_name(1), Some("B"));
    assert_eq!(group.printer_name(2), None);
    assert!(!group.is_stopped());

    let b1 = group.observe(1, Ok(Some(printer("B", PrinterStatus::Idle, false)))).unwrap();
    assert_eq!(b1.unwrap().printer_name, "B");

    let error = group
        .observe(0, Err(PrinterError::WmiError("access denied".to_string())))
        .unwrap_err();
    assert!(matches!(error, PrinterError::WmiError(ref m) if m == "access denied"));
    assert!(group.is_stopped());

    // the other printer is abandoned: nothing more is reported
    let b2 = group.observe(1, Ok(Some(printer("B", PrinterStatus::Printing, false)))).unwrap();
    assert!(b2.is_none());
    let a2 = group.observe(0, Err(failure())).unwrap();
    assert!(a2.is_none());
}

#[test]
fn printers_of_a_group_are_monitored_independently() {
    let mut group =
        PrinterMonitor::monitor_multiple_printers(vec!["A".to_string(), "B".to_string()]);
    let a1 = group.observe(0, Ok(Some(printer("A", PrinterStatus::Idle, false)))).unwrap();
    assert_eq!(a1.unwrap().change_count(), 0);
    // B's first observation is an initial one, whatever A has seen
    let b1 = group.observe(1, Ok(Some(printer("B", PrinterStatus::Printing, false)))).unwrap();
    let b1 = b1.unwrap();
    assert_eq!(b1.printer_name, "B");
    assert_eq!(b1.change_count(), 0);
    // A changes; B's polls in between do not disturb A's state
    assert!(group
        .observe(1, Ok(Some(printer("B", PrinterStatus::Printing, false))))
        .unwrap()
        .is_none());
    let a2 = group.observe(0, Ok(Some(printer("A", PrinterStatus::Printing, false)))).unwrap();
    assert_eq!(
        a2.unwrap().changes,
        vec![PropertyChange::Status { old: PrinterStatus::Idle, new: PrinterStatus::Printing }]
    );
    // B disappears, A does not notice
    let b3 = group.observe(1, Ok(None)).unwrap().unwrap();
    assert_eq!(b3.printer_name, "B");
    assert_eq!(b3.changes, vec![PropertyChange::IsOffline { old: false, new: true }]);
    assert!(group
        .observe(0, Ok(Some(printer("A", PrinterStatus::Printing, false))))
        .unwrap()
        .is_none());
}

#[test]
fn group_ignores_polls_of_printers_it_does_not_have() {
    let mut group = PrinterMonitor::monitor_multiple_printers(vec!["A".to_string()]);
    assert!(group
        .observe(5, Ok(Some(printer("Z", PrinterStatus::Idle, false))))
        .unwrap()
        .is_none());
    assert!(group.observe(1, Err(failure())).unwrap().is_none());
    assert!(!group.is_stopped());
    let mut empty = PrinterMonitor::monitor_multiple_printers(Vec::new());
    assert_eq!(empty.len(), 0);
    assert!(empty.observe(0, Ok(None)).unwrap().is_none());
}

#[test]
fn stopped_group_reports_nothing() {
    let mut group = PrinterMonitor::monitor_multiple_printers(vec!["A".to_string()]);
    group.stop();
    assert!(group.is_stopped());
    assert!(group
        .observe(0, Ok(Some(printer("A", PrinterStatus::Idle, false))))
        .unwrap()
        .is_none());
    assert!(group.observe(0, Err(failure())).unwrap().is_none());
}

#[test]
fn end_of_a_task_decides_for_the_group() {
    let mut group = PrinterMonitor::monitor_multiple_printers(vec!["A".to_string()]);
    assert!(group.task_ended(Ok(Ok(()))).is_ok());
    assert!(!group.is_stopped());

    let error = group.task_ended(Ok(Err(failure()))).unwrap_err();
    assert!(matches!(error, PrinterError::CupsError(_)));
    assert!(group.is_stopped());

    let mut group = PrinterMonitor::monitor_multiple_printers(vec!["A".to_string()]);
    let error = group.task_ended(Err("task 7 panicked".to_string())).unwrap_err();
    match error {
        PrinterError::Other(message) => assert_eq!(message, "Task panicked: task 7 panicked"),
        other => panic!("unexpected error: {:?}", other),
    }
    assert!(group.is_stopped());
}

#[test]
fn error_messages() {
    assert_eq!(
        PrinterError::WmiError("no connection".to_string()).to_string(),
        "WMI error: no connection"
    );
    assert_eq!(
        PrinterError::CupsError("no lpstat".to_string()).to_string(),
        "CUPS error: no lpstat"
    );
    assert_eq!(
        PrinterError::PrinterNotFound("HP".to_string()).to_string(),
        "Printer 'HP' not found"
    );
    assert_eq!(
        PrinterError::PlatformNotSupported.to_string(),
        "This platform is not supported"
    );
    assert_eq!(PrinterError::Other("plain".to_string()).to_string(), "plain");
    let io = std::io::Error::new(std::io::ErrorKind::NotFound, "gone");
    assert_eq!(PrinterError::from(io).to_string(), "I/O error: gone");
    let io = std::io::Error::new(std::io::ErrorKind::Other, "disk full");
    assert!(matches!(PrinterError::from(io), PrinterError::IoError(_)));
    match PrinterError::task_panicked("boom") {
        PrinterError::Other(message) => assert_eq!(message, "Task panicked: boom"),
        other => panic!("unexpected error: {:?}", other),
    }
}
