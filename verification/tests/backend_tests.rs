use printer_event_handler::backend::{find_by_name, lines, parse_lpstat_line, take_out};
use printer_event_handler::text::{
    chars_of, code_string, decimal_string, flag_string, found_at, found_from, optional_string,
    same_ignoring_case, same_text, to_ascii_lower, wrap_optional,
};
use printer_event_handler::{
    ErrorState, LinuxBackend, Printer, PrinterMonitor, PrinterStatus, Win32Printer,
    WindowsBackend,
};

fn printer(name: &str) -> Printer {
    Printer::new(name.to_string(), PrinterStatus::Idle, ErrorState::NoError, false, false)
}

#[test]
fn lpstat_line_idle() {
    let p = parse_lpstat_line(
        "printer HP_LaserJet_1020 is idle.  enabled since Mon 01 Jan 2024 12:00:00 PM UTC",
    )
    .unwrap();
    assert_eq!(p.name(), "HP_LaserJet_1020");
    assert_eq!(p.status(), &PrinterStatus::Idle);
    assert_eq!(p.error_state(), &ErrorState::NoError);
    assert!(!p.is_offline());
    assert!(!p.is_default());
    assert_eq!(p.state(), None);
    assert_eq!(p.printer_status_code(), None);
}

#[test]
fn lpstat_line_printing() {
    let p = parse_lpstat_line("printer Canon now printing Canon-12.  enabled since ...").unwrap();
    assert_eq!(p.name(), "Canon");
    assert_eq!(p.status(), &PrinterStatus::Printing);
    assert_eq!(p.error_state(), &ErrorState::NoError);
    assert!(!p.is_offline());
}

#[test]
fn lpstat_line_stopped_or_disabled() {
    let p = parse_lpstat_line("printer Old is stopped since yesterday").unwrap();
    assert_eq!(p.status(), &PrinterStatus::Offline);
    assert_eq!(p.error_state(), &ErrorState::Other);
    assert!(p.is_offline());
    let p = parse_lpstat_line("printer Old disabled since Tue 02 Jan 2024 -").unwrap();
    assert_eq!(p.name(), "Old");
    assert_eq!(p.status(), &PrinterStatus::Offline);
    assert!(p.is_offline());
}

#[test]
fn lpstat_line_unknown_words() {
    let p = parse_lpstat_line("printer X waiting for job").unwrap();
    assert_eq!(p.name(), "X");
    assert_eq!(p.status(), &PrinterStatus::StatusUnknown);
    assert_eq!(p.error_state(), &ErrorState::UnknownError);
    assert!(!p.is_offline());
    // the words are case-sensitive
    let p = parse_lpstat_line("printer X is Idle").unwrap();
    assert_eq!(p.status(), &PrinterStatus::StatusUnknown);
}

#[test]
fn lpstat_line_order_of_the_words() {
    // idle is looked for first, then printing, then stopped and disabled
    let p = parse_lpstat_line("printer X disabled, was printing, now idle").unwrap();
    assert_eq!(p.status(), &PrinterStatus::Idle);
    let p = parse_lpstat_line("printer X disabled while printing").unwrap();
    assert_eq!(p.status(), &PrinterStatus::Printing);
}

#[test]
fn lpstat_line_words_in_the_name_do_not_count() {
    let p = parse_lpstat_line("printer idle_printer is busy").unwrap();
    assert_eq!(p.name(), "idle_printer");
    assert_eq!(p.status(), &PrinterStatus::StatusUnknown);
}

#[test]
fn lpstat_line_edge_cases() {
    assert!(parse_lpstat_line("").is_none());
    assert!(parse_lpstat_line("printer").is_none());
    assert!(parse_lpstat_line("printer ").is_none());
    assert!(parse_lpstat_line("printer NoSpaceAfterName").is_none());
    assert!(parse_lpstat_line("Printer X is idle").is_none());
    assert!(parse_lpstat_line(" printer X is idle").is_none());
    assert!(parse_lpstat_line("system default destination: X").is_none());
    // an empty name, and nothing after the space
    let p = parse_lpstat_line("printer  is idle").unwrap();
    assert_eq!(p.name(), "");
    assert_eq!(p.status(), &PrinterStatus::Idle);
    let p = parse_lpstat_line("printer X ").unwrap();
    assert_eq!(p.name(), "X");
    assert_eq!(p.status(), &PrinterStatus::StatusUnknown);
    // names are not limited to ASCII
    let p = parse_lpstat_line("printer Büro_Drücker is idle").unwrap();
    assert_eq!(p.name(), "Büro_Drücker");
    assert_eq!(p.status(), &PrinterStatus::Idle);
}

#[test]
fn lines_are_split_as_the_standard_library_does() {
    let texts = [
        "",
        "\n",
        "a",
        "a\n",
        "a\nb",
        "a\r\nb\r\n",
        "a\rb\n",
        "a\n\nb\n",
        "\r\n",
        "a\r",
        "a\r\r\n",
        "\n\n",
        "ä\nö\r\nü",
        "last\n\r",
    ];
    for text in texts {
        let expected: Vec<&str> = text.lines().collect();
        assert_eq!(lines(text), expected, "lines of {:?}", text);
    }
}

#[test]
fn take_out_removes_every_occurrence() {
    let texts = [
        ("system default destination: HP", "system default destination: ", "HP"),
        ("abcabc", "bc", "aa"),
        ("aaa", "aa", "a"),
        ("abc", "", "abc"),
        ("abc", "abcd", "abc"),
        ("", "x", ""),
        ("xxx", "x", ""),
        ("äöü", "ö", "äü"),
    ];
    for (text, words, expected) in texts {
        assert_eq!(take_out(text, words), expected);
        assert_eq!(take_out(text, words), text.replace(words, ""));
    }
}

#[test]
fn default_printer_is_read_from_lpstat() {
    assert_eq!(
        LinuxBackend::get_default_printer("system default destination: HP_LaserJet\n"),
        Some("HP_LaserJet".to_string())
    );
    assert_eq!(
        LinuxBackend::get_default_printer("no system default destination\n"),
        None
    );
    assert_eq!(LinuxBackend::get_default_printer(""), None);
    assert_eq!(LinuxBackend::get_default_printer("something else\n"), None);
    // the first line that decides counts
    assert_eq!(
        LinuxBackend::get_default_printer(
            "printer A is idle.\nsystem default destination: A\nsystem default destination: B\n"
        ),
        Some("A".to_string())
    );
    assert_eq!(
        LinuxBackend::get_default_printer(
            "no system default destination\nsystem default destination: B\n"
        ),
        None
    );
    assert_eq!(
        LinuxBackend::get_default_printer("system default destination: \r\n"),
        Some(String::new())
    );
}

#[test]
fn printers_are_listed_from_lpstat_output() {
    let output = "printer A is idle.  enabled since Mon\n\
                  printer B now printing B-1.  enabled since Tue\n\
                  \tPaused\n\
                  printer C disabled since Wed -\n\
                  printer NoWords\n\
                  system default destination: B\n";
    let printers = LinuxBackend::list_printers(output, None);
    assert_eq!(printers.len(), 3);
    assert_eq!(printers[0].name(), "A");
    assert_eq!(printers[0].status(), &PrinterStatus::Idle);
    assert_eq!(printers[1].name(), "B");
    assert_eq!(printers[1].status(), &PrinterStatus::Printing);
    assert_eq!(printers[2].name(), "C");
    assert_eq!(printers[2].status(), &PrinterStatus::Offline);
    assert!(printers[2].is_offline());
    assert!(printers.iter().all(|p| !p.is_default()));

    let printers = LinuxBackend::list_printers(output, Some("B"));
    assert_eq!(printers.len(), 3);
    assert!(!printers[0].is_default());
    assert!(printers[1].is_default());
    assert_eq!(printers[1].status(), &PrinterStatus::Printing);
    assert_eq!(printers[1].error_state(), &ErrorState::NoError);
    assert!(!printers[2].is_default());

    // the default printer's name is compared exactly
    let printers = LinuxBackend::list_printers(output, Some("b"));
    assert!(printers.iter().all(|p| !p.is_default()));

    assert!(LinuxBackend::list_printers("", Some("B")).is_empty());
    assert!(LinuxBackend::list_printers("no printers here\n", None).is_empty());
}

#[test]
fn alternative_detection() {
    assert!(LinuxBackend::detect_printers_alternative(false).is_empty());
    let printers = LinuxBackend::detect_printers_alternative(true);
    assert_eq!(printers.len(), 1);
    assert_eq!(printers[0].name(), "Parallel Port Printer");
    assert_eq!(printers[0].status(), &PrinterStatus::StatusUnknown);
    assert_eq!(printers[0].error_state(), &ErrorState::UnknownError);
    assert!(!printers[0].is_offline());
    assert!(!printers[0].is_default());
}

#[test]
fn printers_are_found_by_name_without_regard_to_ascii_case() {
    let list = || vec![printer("Alpha"), printer("beta"), printer("BETA"), printer("Ünïcode")];
    assert_eq!(find_by_name(list(), "alpha").unwrap().name(), "Alpha");
    assert_eq!(find_by_name(list(), "ALPHA").unwrap().name(), "Alpha");
    // the first match is returned
    assert_eq!(find_by_name(list(), "Beta").unwrap().name(), "beta");
    assert_eq!(LinuxBackend::find_printer(list(), "BETA").unwrap().name(), "beta");
    assert_eq!(WindowsBackend::find_printer(list(), "bEtA").unwrap().name(), "beta");
    assert!(find_by_name(list(), "gamma").is_none());
    assert!(find_by_name(list(), "alph").is_none());
    assert!(find_by_name(list(), "").is_none());
    assert!(find_by_name(Vec::new(), "alpha").is_none());
    // only ASCII letters are compared without regard to case
    assert_eq!(find_by_name(list(), "Ünïcode").unwrap().name(), "Ünïcode");
    assert!(find_by_name(list(), "üNÏCODE").is_none());
}

#[test]
fn records_are_turned_into_printers_in_order() {
    let record = |name: &str, status: u32| Win32Printer {
        name: Some(name.to_string()),
        printer_status: Some(status),
        detected_error_state: Some(2),
        work_offline: None,
        printer_state: None,
        default: Some(status == 4),
        extended_printer_status: None,
        extended_detected_error_state: None,
        status: None,
    };
    let printers =
        WindowsBackend::list_printers(vec![record("A", 3), record("B", 4), record("C", 7)]);
    assert_eq!(printers.len(), 3);
    assert_eq!(printers[0].name(), "A");
    assert_eq!(printers[0].status(), &PrinterStatus::Idle);
    assert_eq!(printers[1].name(), "B");
    assert_eq!(printers[1].status(), &PrinterStatus::Printing);
    assert!(printers[1].is_default());
    assert_eq!(printers[2].name(), "C");
    assert_eq!(printers[2].status(), &PrinterStatus::Offline);
    assert!(printers[2].is_offline());
    assert!(WindowsBackend::list_printers(Vec::new()).is_empty());
    let converted: Printer = record("D", 5).into();
    assert_eq!(converted.status(), &PrinterStatus::Warmup);
    assert_eq!(Printer::from(record("E", 6)).status(), &PrinterStatus::StoppedPrinting);
}

#[test]
fn summary_has_one_entry_for_each_name() {
    let printers = vec![
        Printer::new("A".to_string(), PrinterStatus::Idle, ErrorState::NoError, false, true),
        Printer::new("B".to_string(), PrinterStatus::Offline, ErrorState::Jammed, true, false),
        Printer::new("A".to_string(), PrinterStatus::Printing, ErrorState::LowToner, false, false),
    ];
    let summary = PrinterMonitor::printer_summary(&printers);
    assert_eq!(summary.len(), 2);
    let a = &summary.iter().find(|(name, _)| name == "A").unwrap().1;
    // the last printer of the name counts
    assert_eq!(a.status, PrinterStatus::Printing);
    assert_eq!(a.error_state, ErrorState::LowToner);
    assert!(a.has_error);
    assert!(!a.is_default);
    assert!(!a.is_offline);
    let b = &summary.iter().find(|(name, _)| name == "B").unwrap().1;
    assert_eq!(b.status, PrinterStatus::Offline);
    assert_eq!(b.error_state, ErrorState::Jammed);
    assert!(b.has_error);
    assert!(b.is_offline);
    assert!(PrinterMonitor::printer_summary(&Vec::new()).is_empty());
    let as_map: std::collections::HashMap<_, _> = summary.into_iter().collect();
    assert_eq!(as_map.len(), 2);
}

#[test]
fn numbers_flags_and_codes_as_text() {
    assert_eq!(decimal_string(0), "0");
    assert_eq!(decimal_string(7), "7");
    assert_eq!(decimal_string(10), "10");
    assert_eq!(decimal_string(109), "109");
    assert_eq!(decimal_string(4294967295), "4294967295");
    assert_eq!(decimal_string(u64::MAX), "18446744073709551615");
    assert_eq!(flag_string(true), "true");
    assert_eq!(flag_string(false), "false");
    assert_eq!(code_string(None), "None");
    assert_eq!(code_string(Some(0)), "Some(0)");
    assert_eq!(code_string(Some(65536)), "Some(65536)");
    assert_eq!(wrap_optional(None), "None");
    assert_eq!(wrap_optional(Some("\"x\"".to_string())), "Some(\"x\")");
    assert_eq!(optional_string(&None), "None");
    assert_eq!(optional_string(&Some("OK".to_string())), "Some(\"OK\")");
    assert_eq!(optional_string(&Some("tab\there".to_string())), "Some(\"tab\\there\")");
}

#[test]
fn comparing_and_searching_text() {
    assert_eq!(chars_of("aä€"), vec!['a', 'ä', '€']);
    assert!(same_text("abc", "abc"));
    assert!(same_text("", ""));
    assert!(!same_text("abc", "abd"));
    assert!(!same_text("abc", "ab"));
    assert!(!same_text("abc", "ABC"));
    assert!(same_ignoring_case("abc", "ABC"));
    assert!(same_ignoring_case("HP LaserJet", "hp laserjet"));
    assert!(!same_ignoring_case("abc", "abd"));
    assert!(!same_ignoring_case("abc", "abcd"));
    assert!(!same_ignoring_case("[", "{"));
    assert!(!same_ignoring_case("@", "`"));
    assert_eq!(to_ascii_lower('A'), 'a');
    assert_eq!(to_ascii_lower('Z'), 'z');
    assert_eq!(to_ascii_lower('a'), 'a');
    assert_eq!(to_ascii_lower('['), '[');
    assert_eq!(to_ascii_lower('@'), '@');
    assert_eq!(to_ascii_lower('Ä'), 'Ä');
    let hay = chars_of("is idle now");
    assert!(found_at(&chars_of("idle"), &hay, 3));
    assert!(!found_at(&chars_of("idle"), &hay, 2));
    assert!(!found_at(&chars_of("idle"), &hay, 9));
    assert!(!found_at(&chars_of("idle"), &hay, 100));
    assert!(found_at(&chars_of(""), &hay, 11));
    assert!(!found_at(&chars_of(""), &hay, 12));
    assert!(found_from(&chars_of("idle"), &hay, 0));
    assert!(found_from(&chars_of("idle"), &hay, 3));
    assert!(!found_from(&chars_of("idle"), &hay, 4));
    assert!(found_from(&chars_of("now"), &hay, 8));
    assert!(!found_from(&chars_of("nowhere"), &hay, 0));
    assert!(found_from(&chars_of(""), &hay, 11));
    assert!(!found_from(&chars_of(""), &hay, 12));
}
