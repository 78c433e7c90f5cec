use printer_event_handler::{
    ErrorState, MonitorableProperty, PrinterChanges, PrinterState, PrinterStatus, PropertyChange,
    Timestamp,
};

fn sample() -> PrinterChanges {
    let mut changes = PrinterChanges::new("P".to_string());
    changes.changes = vec![
        PropertyChange::Status { old: PrinterStatus::Idle, new: PrinterStatus::Printing },
        PropertyChange::IsOffline { old: false, new: true },
        PropertyChange::PrinterStatusCode { old: Some(3), new: Some(4) },
    ];
    changes
}

#[test]
fn new_change_set_is_empty() {
    let changes = PrinterChanges::new("Printer1".to_string());
    assert_eq!(changes.printer_name, "Printer1");
    assert!(changes.changes.is_empty());
    assert!(!changes.has_changes());
    assert_eq!(changes.change_count(), 0);
    assert_eq!(changes.summary(), "No changes detected");
    assert!(!changes.has_property_change("Status"));
    assert!(changes.get_property_changes("Status").is_empty());
}

#[test]
fn new_change_set_is_stamped_with_the_current_time() {
    let before = chrono::Utc::now();
    let changes = PrinterChanges::new("P".to_string());
    let after = chrono::Utc::now();
    let stamp = chrono::DateTime::from_timestamp(
        changes.timestamp.seconds,
        changes.timestamp.nanoseconds,
    )
    .unwrap();
    assert!(before <= stamp);
    assert!(stamp <= after);
    // 2020-01-01: the stamp is a time, not a zero
    assert!(changes.timestamp.seconds > 1_577_836_800);
}

#[test]
fn current_time_has_less_than_a_second_of_nanoseconds() {
    for _ in 0..1000 {
        let stamp = Timestamp::now();
        assert!(stamp.nanoseconds < 1_000_000_000);
        assert!(
            chrono::DateTime::from_timestamp(stamp.seconds, stamp.nanoseconds).is_some()
        );
    }
}

#[test]
fn counting_and_finding_changes() {
    let changes = sample();
    assert!(changes.has_changes());
    assert_eq!(changes.change_count(), 3);
    assert!(changes.has_property_change("Status"));
    assert!(changes.has_property_change("IsOffline"));
    assert!(changes.has_property_change("PrinterStatusCode"));
    assert!(!changes.has_property_change("Name"));
    assert!(!changes.has_property_change("status"));
    assert!(!changes.has_property_change(""));
    assert!(!changes.has_property_change("PrinterStateCode"));
    assert_eq!(
        changes.get_property_changes("IsOffline"),
        vec![&PropertyChange::IsOffline { old: false, new: true }]
    );
    assert!(changes.get_property_changes("IsDefault").is_empty());
}

#[test]
fn get_property_changes_keeps_order_and_duplicates() {
    let mut changes = PrinterChanges::new("P".to_string());
    changes.changes = vec![
        PropertyChange::IsOffline { old: false, new: true },
        PropertyChange::IsDefault { old: false, new: true },
        PropertyChange::IsOffline { old: true, new: false },
    ];
    assert_eq!(
        changes.get_property_changes("IsOffline"),
        vec![
            &PropertyChange::IsOffline { old: false, new: true },
            &PropertyChange::IsOffline { old: true, new: false },
        ]
    );
}

#[test]
fn summary_counts_and_names_the_changes() {
    assert_eq!(
        sample().summary(),
        "3 properties changed: Status, IsOffline, PrinterStatusCode"
    );
    let mut one = PrinterChanges::new("P".to_string());
    one.changes = vec![PropertyChange::Name { old: "a".to_string(), new: "b".to_string() }];
    assert_eq!(one.summary(), "1 properties changed: Name");
}

#[test]
fn summary_writes_numbers_with_several_digits() {
    let mut many = PrinterChanges::new("P".to_string());
    for _ in 0..120 {
        many.changes.push(PropertyChange::IsDefault { old: false, new: true });
    }
    let summary = many.summary();
    assert!(summary.starts_with("120 properties changed: IsDefault, IsDefault, "));
    assert!(summary.ends_with(", IsDefault"));
    assert_eq!(summary.matches("IsDefault").count(), 120);
}

#[test]
fn only_keeps_the_changes_of_one_property() {
    let kept = sample().only(MonitorableProperty::IsOffline).unwrap();
    assert_eq!(kept.printer_name, "P");
    assert_eq!(kept.changes, vec![PropertyChange::IsOffline { old: false, new: true }]);
    assert!(sample().only(MonitorableProperty::Name).is_none());
    assert!(PrinterChanges::new("P".to_string()).only(MonitorableProperty::Status).is_none());
    let full = sample();
    let stamp = full.timestamp;
    assert_eq!(full.only(MonitorableProperty::Status).unwrap().timestamp, stamp);
}

#[test]
fn property_names_match_the_monitorable_properties() {
    let changes = vec![
        PropertyChange::Name { old: String::new(), new: String::new() },
        PropertyChange::Status { old: PrinterStatus::Idle, new: PrinterStatus::Idle },
        PropertyChange::State { old: None, new: None },
        PropertyChange::ErrorState { old: ErrorState::NoError, new: ErrorState::NoError },
        PropertyChange::IsOffline { old: false, new: false },
        PropertyChange::IsDefault { old: false, new: false },
        PropertyChange::PrinterStatusCode { old: None, new: None },
        PropertyChange::PrinterStateCode { old: None, new: None },
        PropertyChange::DetectedErrorStateCode { old: None, new: None },
        PropertyChange::ExtendedDetectedErrorStateCode { old: None, new: None },
        PropertyChange::ExtendedPrinterStatusCode { old: None, new: None },
        PropertyChange::WmiStatus { old: None, new: None },
    ];
    let all = MonitorableProperty::all();
    assert_eq!(all.len(), 12);
    for (change, property) in changes.iter().zip(all.iter()) {
        assert_eq!(change.property_name(), property.as_str());
        assert_eq!(change.property(), *property);
    }
}

#[test]
fn monitorable_property_names_and_descriptions() {
    assert_eq!(MonitorableProperty::Name.as_str(), "Name");
    assert_eq!(MonitorableProperty::IsOffline.as_str(), "IsOffline");
    assert_eq!(
        MonitorableProperty::ExtendedDetectedErrorStateCode.as_str(),
        "ExtendedDetectedErrorStateCode"
    );
    assert_eq!(MonitorableProperty::Name.description(), "Printer name");
    assert_eq!(
        MonitorableProperty::Status.description(),
        "Current printer status (recommended)"
    );
    assert_eq!(
        MonitorableProperty::State.description(),
        "Printer state (legacy Windows property)"
    );
    assert_eq!(MonitorableProperty::ErrorState.description(), "Current error condition");
    assert_eq!(MonitorableProperty::IsOffline.description(), "Online/offline status");
    assert_eq!(MonitorableProperty::IsDefault.description(), "Default printer designation");
    assert_eq!(
        MonitorableProperty::PrinterStatusCode.description(),
        "Raw printer status code (1-7)"
    );
    assert_eq!(
        MonitorableProperty::PrinterStateCode.description(),
        "Raw printer state code (.NET flags)"
    );
    assert_eq!(
        MonitorableProperty::DetectedErrorStateCode.description(),
        "Raw detected error state code (0-11)"
    );
    assert_eq!(
        MonitorableProperty::ExtendedDetectedErrorStateCode.description(),
        "Extended error state code"
    );
    assert_eq!(
        MonitorableProperty::ExtendedPrinterStatusCode.description(),
        "Extended printer status code"
    );
    assert_eq!(MonitorableProperty::WmiStatus.description(), "WMI status property");
    assert_eq!(
        MonitorableProperty::all(),
        vec![
            MonitorableProperty::Name,
            MonitorableProperty::Status,
            MonitorableProperty::State,
            MonitorableProperty::ErrorState,
            MonitorableProperty::IsOffline,
            MonitorableProperty::IsDefault,
            MonitorableProperty::PrinterStatusCode,
            MonitorableProperty::PrinterStateCode,
            MonitorableProperty::DetectedErrorStateCode,
            MonitorableProperty::ExtendedDetectedErrorStateCode,
            MonitorableProperty::ExtendedPrinterStatusCode,
            MonitorableProperty::WmiStatus,
        ]
    );
}

#[test]
fn change_descriptions() {
    assert_eq!(
        PropertyChange::Name { old: "HP".to_string(), new: "HP 2".to_string() }.description(),
        "Name: 'HP' → 'HP 2'"
    );
    assert_eq!(
        PropertyChange::Status { old: PrinterStatus::Idle, new: PrinterStatus::Warmup }
            .description(),
        "Status: Idle → Warming Up"
    );
    assert_eq!(
        PropertyChange::State { old: None, new: Some(PrinterState::PaperJam) }.description(),
        "State: None → Paper Jam"
    );
    assert_eq!(
        PropertyChange::State { old: Some(PrinterState::NoStatus), new: None }.description(),
        "State: None → None"
    );
    assert_eq!(
        PropertyChange::ErrorState { old: ErrorState::NoError, new: ErrorState::Jammed }
            .description(),
        "ErrorState: No Error → Jammed"
    );
    assert_eq!(
        PropertyChange::IsOffline { old: false, new: true }.description(),
        "IsOffline: false → true"
    );
    assert_eq!(
        PropertyChange::IsDefault { old: true, new: false }.description(),
        "IsDefault: true → false"
    );
    assert_eq!(
        PropertyChange::PrinterStatusCode { old: None, new: Some(4) }.description(),
        "PrinterStatusCode: None → Some(4)"
    );
    assert_eq!(
        PropertyChange::PrinterStateCode { old: Some(0), new: Some(16777216) }.description(),
        "PrinterStateCode: Some(0) → Some(16777216)"
    );
    assert_eq!(
        PropertyChange::DetectedErrorStateCode { old: Some(10), new: Some(4294967295) }
            .description(),
        "DetectedErrorStateCode: Some(10) → Some(4294967295)"
    );
    assert_eq!(
        PropertyChange::ExtendedDetectedErrorStateCode { old: Some(109), new: None }
            .description(),
        "ExtendedDetectedErrorStateCode: Some(109) → None"
    );
    assert_eq!(
        PropertyChange::ExtendedPrinterStatusCode { old: Some(7), new: Some(1000) }.description(),
        "ExtendedPrinterStatusCode: Some(7) → Some(1000)"
    );
    assert_eq!(
        PropertyChange::WmiStatus { old: None, new: Some("OK".to_string()) }.description(),
        "WmiStatus: None → Some(\"OK\")"
    );
}

#[test]
fn health_string_is_quoted_and_escaped_in_descriptions() {
    let change = PropertyChange::WmiStatus {
        old: Some("Lost \"Comm\"".to_string()),
        new: Some("a\\b\n".to_string()),
    };
    assert_eq!(
        change.description(),
        "WmiStatus: Some(\"Lost \\\"Comm\\\"\") → Some(\"a\\\\b\\n\")"
    );
    let expected = format!(
        "WmiStatus: {:?} → {:?}",
        Some("Lost \"Comm\"".to_string()),
        Some("a\\b\n".to_string())
    );
    assert_eq!(change.description(), expected);
}

#[test]
fn clone_of_a_change_is_equal() {
    let change = PropertyChange::WmiStatus { old: None, new: Some("OK".to_string()) };
    assert_eq!(change.clone(), change);
    let change = PropertyChange::Name { old: "a".to_string(), new: "b".to_string() };
    assert_eq!(change.clone(), change);
}
