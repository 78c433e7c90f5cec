use printer_event_handler::{ErrorState, PrinterState, PrinterStatus};

#[test]
fn test_library_compiles() {
    assert_eq!(2 + 2, 4);
}

#[test]
fn test_printer_status_display() {
    assert_eq!(PrinterStatus::Idle.to_string(), "Idle");
    assert_eq!(PrinterStatus::Printing.to_string(), "Printing");
}

#[test]
fn test_printer_state_display() {
    assert_eq!(PrinterState::PaperJam.to_string(), "Paper Jam");
    assert_eq!(PrinterState::TonerLow.to_string(), "Toner Low");
}

#[test]
fn test_error_state_is_error() {
    assert!(!ErrorState::NoError.is_error());
    assert!(ErrorState::Jammed.is_error());
    assert!(ErrorState::NoPaper.is_error());
}

#[test]
fn test_printer_state_to_status_conversion() {
    assert_eq!(PrinterState::NoStatus.to_printer_status(), PrinterStatus::Idle);
    assert_eq!(
        PrinterState::Printing.to_printer_status(),
        PrinterStatus::Printing
    );
    assert_eq!(
        PrinterState::PaperJam.to_printer_status(),
        PrinterStatus::Other
    );
}

#[test]
fn status_from_code_covers_every_code() {
    assert_eq!(PrinterStatus::from_u32(Some(1)), PrinterStatus::Other);
    assert_eq!(PrinterStatus::from_u32(Some(2)), PrinterStatus::Unknown);
    assert_eq!(PrinterStatus::from_u32(Some(3)), PrinterStatus::Idle);
    assert_eq!(PrinterStatus::from_u32(Some(4)), PrinterStatus::Printing);
    assert_eq!(PrinterStatus::from_u32(Some(5)), PrinterStatus::Warmup);
    assert_eq!(PrinterStatus::from_u32(Some(6)), PrinterStatus::StoppedPrinting);
    assert_eq!(PrinterStatus::from_u32(Some(7)), PrinterStatus::Offline);
    assert_eq!(PrinterStatus::from_u32(Some(0)), PrinterStatus::StatusUnknown);
    assert_eq!(PrinterStatus::from_u32(Some(8)), PrinterStatus::StatusUnknown);
    assert_eq!(PrinterStatus::from_u32(None), PrinterStatus::StatusUnknown);
}

#[test]
fn status_descriptions() {
    assert_eq!(PrinterStatus::Other.description(), "Other");
    assert_eq!(PrinterStatus::Unknown.description(), "Unknown");
    assert_eq!(PrinterStatus::Warmup.description(), "Warming Up");
    assert_eq!(PrinterStatus::StoppedPrinting.description(), "Stopped Printing");
    assert_eq!(PrinterStatus::Offline.description(), "Offline");
    assert_eq!(PrinterStatus::StatusUnknown.description(), "Status Unknown");
}

#[test]
fn state_from_code_single_flags() {
    assert_eq!(PrinterState::from_u32(0), PrinterState::NoStatus);
    assert_eq!(PrinterState::from_u32(1), PrinterState::Paused);
    assert_eq!(PrinterState::from_u32(2), PrinterState::Error);
    assert_eq!(PrinterState::from_u32(4), PrinterState::PendingDeletion);
    assert_eq!(PrinterState::from_u32(8), PrinterState::PaperJam);
    assert_eq!(PrinterState::from_u32(16), PrinterState::PaperOut);
    assert_eq!(PrinterState::from_u32(32), PrinterState::ManualFeed);
    assert_eq!(PrinterState::from_u32(64), PrinterState::PaperProblem);
    assert_eq!(PrinterState::from_u32(128), PrinterState::Offline);
    assert_eq!(PrinterState::from_u32(256), PrinterState::IOActive);
    assert_eq!(PrinterState::from_u32(512), PrinterState::Busy);
    assert_eq!(PrinterState::from_u32(1024), PrinterState::Printing);
    assert_eq!(PrinterState::from_u32(2048), PrinterState::OutputBinFull);
    assert_eq!(PrinterState::from_u32(4096), PrinterState::NotAvailable);
    assert_eq!(PrinterState::from_u32(8192), PrinterState::Waiting);
    assert_eq!(PrinterState::from_u32(16384), PrinterState::Processing);
    assert_eq!(PrinterState::from_u32(32768), PrinterState::Initializing);
    assert_eq!(PrinterState::from_u32(65536), PrinterState::WarmingUp);
    assert_eq!(PrinterState::from_u32(131072), PrinterState::TonerLow);
    assert_eq!(PrinterState::from_u32(262144), PrinterState::NoToner);
    assert_eq!(PrinterState::from_u32(524288), PrinterState::PagePunt);
    assert_eq!(PrinterState::from_u32(1048576), PrinterState::UserInterventionRequired);
    assert_eq!(PrinterState::from_u32(2097152), PrinterState::OutOfMemory);
    assert_eq!(PrinterState::from_u32(4194304), PrinterState::DoorOpen);
    assert_eq!(PrinterState::from_u32(8388608), PrinterState::ServerUnknown);
    assert_eq!(PrinterState::from_u32(16777216), PrinterState::PowerSave);
}

#[test]
fn state_from_code_most_urgent_flag_wins() {
    // printing and paper jam: the problem is reported
    assert_eq!(PrinterState::from_u32(1024 | 8), PrinterState::PaperJam);
    // door open beats everything
    assert_eq!(PrinterState::from_u32(4194304 | 2 | 8 | 1024), PrinterState::DoorOpen);
    // error beats paper jam
    assert_eq!(PrinterState::from_u32(2 | 8), PrinterState::Error);
    // printing beats processing, busy and paused
    assert_eq!(PrinterState::from_u32(16384 | 1024 | 512 | 1), PrinterState::Printing);
    // paused beats waiting
    assert_eq!(PrinterState::from_u32(1 | 8192), PrinterState::Paused);
    // power save beats pending deletion
    assert_eq!(PrinterState::from_u32(16777216 | 4), PrinterState::PowerSave);
    // all flags
    assert_eq!(PrinterState::from_u32(0x1ff_ffff), PrinterState::DoorOpen);
}

#[test]
fn state_from_code_without_known_flag_is_unknown() {
    assert_eq!(PrinterState::from_u32(1 << 25), PrinterState::StatusUnknown);
    assert_eq!(PrinterState::from_u32(0x8000_0000), PrinterState::StatusUnknown);
    assert_eq!(PrinterState::from_u32(0xfe00_0000), PrinterState::StatusUnknown);
    assert_eq!(PrinterState::from_u32(0xfe00_0001), PrinterState::Paused);
}

#[test]
fn state_descriptions() {
    assert_eq!(PrinterState::NoStatus.description(), "None");
    assert_eq!(PrinterState::ManualFeed.description(), "Manual Feed Required");
    assert_eq!(PrinterState::IOActive.description(), "I/O Active");
    assert_eq!(PrinterState::Processing.description(), "Processing Job");
    assert_eq!(PrinterState::ServerUnknown.description(), "Print Server Unknown");
    assert_eq!(PrinterState::PowerSave.description(), "Power Save Mode");
    assert_eq!(PrinterState::StatusUnknown.description(), "Status Unknown");
    assert_eq!(PrinterState::OutOfMemory.to_string(), "Out of Memory");
}

#[test]
fn state_to_status_for_every_state() {
    assert_eq!(PrinterState::WarmingUp.to_printer_status(), PrinterStatus::Warmup);
    assert_eq!(PrinterState::Offline.to_printer_status(), PrinterStatus::Offline);
    assert_eq!(PrinterState::Paused.to_printer_status(), PrinterStatus::StoppedPrinting);
    assert_eq!(PrinterState::Error.to_printer_status(), PrinterStatus::Other);
    assert_eq!(PrinterState::PaperOut.to_printer_status(), PrinterStatus::Other);
    assert_eq!(PrinterState::DoorOpen.to_printer_status(), PrinterStatus::Other);
    assert_eq!(PrinterState::TonerLow.to_printer_status(), PrinterStatus::StatusUnknown);
    assert_eq!(PrinterState::Busy.to_printer_status(), PrinterStatus::StatusUnknown);
    assert_eq!(PrinterState::StatusUnknown.to_printer_status(), PrinterStatus::StatusUnknown);
}

#[test]
fn state_error_and_offline_classes() {
    let errors = [
        PrinterState::Error,
        PrinterState::PaperJam,
        PrinterState::PaperOut,
        PrinterState::PaperProblem,
        PrinterState::DoorOpen,
        PrinterState::OutOfMemory,
        PrinterState::NoToner,
        PrinterState::UserInterventionRequired,
    ];
    for state in errors {
        assert!(state.is_error());
        assert!(!state.is_offline());
    }
    let offline = [
        PrinterState::Offline,
        PrinterState::NotAvailable,
        PrinterState::ServerUnknown,
    ];
    for state in offline {
        assert!(state.is_offline());
        assert!(!state.is_error());
    }
    assert!(!PrinterState::TonerLow.is_error());
    assert!(!PrinterState::NoStatus.is_error());
    assert!(!PrinterState::Printing.is_offline());
}

#[test]
fn error_state_from_code() {
    assert_eq!(ErrorState::from_u32(Some(0)), ErrorState::NoError);
    assert_eq!(ErrorState::from_u32(Some(1)), ErrorState::Other);
    assert_eq!(ErrorState::from_u32(Some(2)), ErrorState::NoError);
    assert_eq!(ErrorState::from_u32(Some(3)), ErrorState::LowPaper);
    assert_eq!(ErrorState::from_u32(Some(4)), ErrorState::NoPaper);
    assert_eq!(ErrorState::from_u32(Some(5)), ErrorState::LowToner);
    assert_eq!(ErrorState::from_u32(Some(6)), ErrorState::NoToner);
    assert_eq!(ErrorState::from_u32(Some(7)), ErrorState::DoorOpen);
    assert_eq!(ErrorState::from_u32(Some(8)), ErrorState::Jammed);
    assert_eq!(ErrorState::from_u32(Some(9)), ErrorState::Other);
    assert_eq!(ErrorState::from_u32(Some(10)), ErrorState::ServiceRequested);
    assert_eq!(ErrorState::from_u32(Some(11)), ErrorState::OutputBinFull);
    assert_eq!(ErrorState::from_u32(Some(12)), ErrorState::UnknownError);
    assert_eq!(ErrorState::from_u32(None), ErrorState::UnknownError);
}

#[test]
fn error_state_descriptions() {
    assert_eq!(ErrorState::NoError.description(), "No Error");
    assert_eq!(ErrorState::NoPaper.description(), "No Paper");
    assert_eq!(ErrorState::ServiceRequested.description(), "Service Requested");
    assert_eq!(ErrorState::UnknownError.description(), "Unknown Error State");
    assert_eq!(ErrorState::OutputBinFull.to_string(), "Output Bin Full");
    assert!(ErrorState::UnknownError.is_error());
    assert!(ErrorState::Other.is_error());
}
