//! Status, state and error classifications of a printer, and the raw codes
//! they are derived from.

use vstd::prelude::*;
use vstd::string::*;

verus! {

/// Operational status of a printer, as given by the primary status code
/// (values 1 to 7).
#[derive(Debug, Clone, Copy, PartialEq, Eq, Structural)]
pub enum PrinterStatus {
    Other,
    Unknown,
    Idle,
    Printing,
    Warmup,
    StoppedPrinting,
    Offline,
    /// No code, or a code outside 1 to 7.
    StatusUnknown,
}

/// State of a print queue, one variant per queue status flag.
#[derive(Debug, Clone, Copy, PartialEq, Eq, Structural)]
pub enum PrinterState {
    /// Code 0: no flag is set.
    NoStatus,
    Paused,
    Error,
    PendingDeletion,
    PaperJam,
    PaperOut,
    ManualFeed,
    PaperProblem,
    Offline,
    IOActive,
    Busy,
    Printing,
    OutputBinFull,
    NotAvailable,
    Waiting,
    Processing,
    Initializing,
    WarmingUp,
    TonerLow,
    NoToner,
    PagePunt,
    UserInterventionRequired,
    OutOfMemory,
    DoorOpen,
    ServerUnknown,
    PowerSave,
    /// A non-zero code in which no known flag is set.
    StatusUnknown,
}

/// Error condition detected on a printer.
#[derive(Debug, Clone, Copy, PartialEq, Eq, Structural)]
pub enum ErrorState {
    NoError,
    Other,
    LowPaper,
    NoPaper,
    LowToner,
    NoToner,
    DoorOpen,
    Jammed,
    ServiceRequested,
    OutputBinFull,
    UnknownError,
}

impl PrinterStatus {
    /// The status that a raw status code stands for.
    pub open spec fn spec_from_u32(status: Option<u32>) -> PrinterStatus {
        match status {
            Some(code) => if code == 1 {
                PrinterStatus::Other
            } else if code == 2 {
                PrinterStatus::Unknown
            } else if code == 3 {
                PrinterStatus::Idle
            } else if code == 4 {
                PrinterStatus::Printing
            } else if code == 5 {
                PrinterStatus::Warmup
            } else if code == 6 {
                PrinterStatus::StoppedPrinting
            } else if code == 7 {
                PrinterStatus::Offline
            } else {
                PrinterStatus::StatusUnknown
            },
            None => PrinterStatus::StatusUnknown,
        }
    }

    /// The human-readable name of this status.
    pub open spec fn spec_description(self) -> Seq<char> {
        match self {
            PrinterStatus::Other => "Other"@,
            PrinterStatus::Unknown => "Unknown"@,
            PrinterStatus::Idle => "Idle"@,
            PrinterStatus::Printing => "Printing"@,
            PrinterStatus::Warmup => "Warming Up"@,
            PrinterStatus::StoppedPrinting => "Stopped Printing"@,
            PrinterStatus::Offline => "Offline"@,
            PrinterStatus::StatusUnknown => "Status Unknown"@,
        }
    }

    /// Maps a raw status code to its status; an absent or unlisted code
    /// gives `StatusUnknown`.
    pub fn from_u32(status: Option<u32>) -> (r: PrinterStatus)
        ensures
            r == Self::spec_from_u32(status),
    {
        match status {
            Some(1) => PrinterStatus::Other,
            Some(2) => PrinterStatus::Unknown,
            Some(3) => PrinterStatus::Idle,
            Some(4) => PrinterStatus::Printing,
            Some(5) => PrinterStatus::Warmup,
            Some(6) => PrinterStatus::StoppedPrinting,
            Some(7) => PrinterStatus::Offline,
            _ => PrinterStatus::StatusUnknown,
        }
    }

    /// Returns the human-readable name of this status.
    pub fn description(&self) -> (s: &'static str)
        ensures
            s@ == self.spec_description(),
    {
        match self {
            PrinterStatus::Other => "Other",
            PrinterStatus::Unknown => "Unknown",
            PrinterStatus::Idle => "Idle",
            PrinterStatus::Printing => "Printing",
            PrinterStatus::Warmup => "Warming Up",
            PrinterStatus::StoppedPrinting => "Stopped Printing",
            PrinterStatus::Offline => "Offline",
            PrinterStatus::StatusUnknown => "Status Unknown",
        }
    }

    /// Returns the description as an owned string.
    pub fn to_string(&self) -> (s: String)
        ensures
            s@ == self.spec_description(),
    {
        String::from_str(self.description())
    }
}

impl PrinterState {
    /// The bit that stands for this state in a raw state code; 0 for the two
    /// states that no bit stands for.
    pub open spec fn flag(self) -> u32 {
        match self {
            PrinterState::NoStatus => 0,
            PrinterState::Paused => 1,
            PrinterState::Error => 2,
            PrinterState::PendingDeletion => 4,
            PrinterState::PaperJam => 8,
            PrinterState::PaperOut => 16,
            PrinterState::ManualFeed => 32,
            PrinterState::PaperProblem => 64,
            PrinterState::Offline => 128,
            PrinterState::IOActive => 256,
            PrinterState::Busy => 512,
            PrinterState::Printing => 1024,
            PrinterState::OutputBinFull => 2048,
            PrinterState::NotAvailable => 4096,
            PrinterState::Waiting => 8192,
            PrinterState::Processing => 16384,
            PrinterState::Initializing => 32768,
            PrinterState::WarmingUp => 65536,
            PrinterState::TonerLow => 131072,
            PrinterState::NoToner => 262144,
            PrinterState::PagePunt => 524288,
            PrinterState::UserInterventionRequired => 1048576,
            PrinterState::OutOfMemory => 2097152,
            PrinterState::DoorOpen => 4194304,
            PrinterState::ServerUnknown => 8388608,
            PrinterState::PowerSave => 16777216,
            PrinterState::StatusUnknown => 0,
        }
    }

    /// Rank of this state when several flags are set at once: the state with
    /// the lowest rank is the one reported.  Problems come first, then
    /// activity, then waiting, then maintenance.
    pub open spec fn urgency(self) -> nat {
        match self {
            PrinterState::DoorOpen => 0,
            PrinterState::Error => 1,
            PrinterState::PaperJam => 2,
            PrinterState::PaperOut => 3,
            PrinterState::PaperProblem => 4,
            PrinterState::TonerLow => 5,
            PrinterState::NoToner => 6,
            PrinterState::OutOfMemory => 7,
            PrinterState::UserInterventionRequired => 8,
            PrinterState::PagePunt => 9,
            PrinterState::Offline => 10,
            PrinterState::NotAvailable => 11,
            PrinterState::ServerUnknown => 12,
            PrinterState::Printing => 13,
            PrinterState::Processing => 14,
            PrinterState::Initializing => 15,
            PrinterState::WarmingUp => 16,
            PrinterState::Busy => 17,
            PrinterState::IOActive => 18,
            PrinterState::Paused => 19,
            PrinterState::Waiting => 20,
            PrinterState::ManualFeed => 21,
            PrinterState::OutputBinFull => 22,
            PrinterState::PowerSave => 23,
            PrinterState::PendingDeletion => 24,
            PrinterState::NoStatus => 25,
            PrinterState::StatusUnknown => 25,
        }
    }

    /// Whether the bit of `self` is set in `code`.
    pub open spec fn raised_in(self, code: u32) -> bool {
        code & self.flag() != 0
    }

    /// The state that a raw state code stands for.
    pub open spec fn spec_from_u32(state: u32) -> PrinterState {
        if state == 0 {
            PrinterState::NoStatus
        } else if state & 4194304 != 0 {
            PrinterState::DoorOpen
        } else if state & 2 != 0 {
            PrinterState::Error
        } else if state & 8 != 0 {
            PrinterState::PaperJam
        } else if state & 16 != 0 {
            PrinterState::PaperOut
        } else if state & 64 != 0 {
            PrinterState::PaperProblem
        } else if state & 131072 != 0 {
            PrinterState::TonerLow
        } else if state & 262144 != 0 {
            PrinterState::NoToner
        } else if state & 2097152 != 0 {
            PrinterState::OutOfMemory
        } else if state & 1048576 != 0 {
            PrinterState::UserInterventionRequired
        } else if state & 524288 != 0 {
            PrinterState::PagePunt
        } else if state & 128 != 0 {
            PrinterState::Offline
        } else if state & 4096 != 0 {
            PrinterState::NotAvailable
        } else if state & 8388608 != 0 {
            PrinterState::ServerUnknown
        } else if state & 1024 != 0 {
            PrinterState::Printing
        } else if state & 16384 != 0 {
            PrinterState::Processing
        } else if state & 32768 != 0 {
            PrinterState::Initializing
        } else if state & 65536 != 0 {
            PrinterState::WarmingUp
        } else if state & 512 != 0 {
            PrinterState::Busy
        } else if state & 256 != 0 {
            PrinterState::IOActive
        } else if state & 1 != 0 {
            PrinterState::Paused
        } else if state & 8192 != 0 {
            PrinterState::Waiting
        } else if state & 32 != 0 {
            PrinterState::ManualFeed
        } else if state & 2048 != 0 {
            PrinterState::OutputBinFull
        } else if state & 16777216 != 0 {
            PrinterState::PowerSave
        } else if state & 4 != 0 {
            PrinterState::PendingDeletion
        } else {
            PrinterState::StatusUnknown
        }
    }

    /// The human-readable name of this state.
    pub open spec fn spec_description(self) -> Seq<char> {
        match self {
            PrinterState::NoStatus => "None"@,
            PrinterState::Paused => "Paused"@,
            PrinterState::Error => "Error"@,
            PrinterState::PendingDeletion => "Pending Deletion"@,
            PrinterState::PaperJam => "Paper Jam"@,
            PrinterState::PaperOut => "Paper Out"@,
            PrinterState::ManualFeed => "Manual Feed Required"@,
            PrinterState::PaperProblem => "Paper Problem"@,
            PrinterState::Offline => "Offline"@,
            PrinterState::IOActive => "I/O Active"@,
            PrinterState::Busy => "Busy"@,
            PrinterState::Printing => "Printing"@,
            PrinterState::OutputBinFull => "Output Bin Full"@,
            PrinterState::NotAvailable => "Not Available"@,
            PrinterState::Waiting => "Waiting"@,
            PrinterState::Processing => "Processing Job"@,
            PrinterState::Initializing => "Initializing"@,
            PrinterState::WarmingUp => "Warming Up"@,
            PrinterState::TonerLow => "Toner Low"@,
            PrinterState::NoToner => "No Toner"@,
            PrinterState::PagePunt => "Page Punt"@,
            PrinterState::UserInterventionRequired => "User Intervention Required"@,
            PrinterState::OutOfMemory => "Out of Memory"@,
            PrinterState::DoorOpen => "Door Open"@,
            PrinterState::ServerUnknown => "Print Server Unknown"@,
            PrinterState::PowerSave => "Power Save Mode"@,
            PrinterState::StatusUnknown => "Status Unknown"@,
        }
    }

    /// The status that corresponds to this state, `StatusUnknown` where none
    /// does.
    pub open spec fn spec_to_printer_status(self) -> PrinterStatus {
        match self {
            PrinterState::NoStatus => PrinterStatus::Idle,
            PrinterState::Printing => PrinterStatus::Printing,
            PrinterState::WarmingUp => PrinterStatus::Warmup,
            PrinterState::Offline => PrinterStatus::Offline,
            PrinterState::Paused => PrinterStatus::StoppedPrinting,
            PrinterState::Error => PrinterStatus::Other,
            PrinterState::PaperJam => PrinterStatus::Other,
            PrinterState::PaperOut => PrinterStatus::Other,
            PrinterState::DoorOpen => PrinterStatus::Other,
            _ => PrinterStatus::StatusUnknown,
        }
    }

    /// Whether this state is an error condition.
    pub open spec fn spec_is_error(self) -> bool {
        ||| self == PrinterState::Error
        ||| self == PrinterState::PaperJam
        ||| self == PrinterState::PaperOut
        ||| self == PrinterState::PaperProblem
        ||| self == PrinterState::DoorOpen
        ||| self == PrinterState::OutOfMemory
        ||| self == PrinterState::NoToner
        ||| self == PrinterState::UserInterventionRequired
    }

    /// Whether this state means that the printer cannot be reached.
    pub open spec fn spec_is_offline(self) -> bool {
        ||| self == PrinterState::Offline
        ||| self == PrinterState::NotAvailable
        ||| self == PrinterState::ServerUnknown
    }

    /// Maps a raw state code, a set of queue status flags, to the most urgent
    /// state whose flag is set.  Code 0 is `None`; a non-zero code without a
    /// known flag is `StatusUnknown`.
    pub fn from_u32(state: u32) -> (r: PrinterState)
        ensures
            r == Self::spec_from_u32(state),
    {
        if state == 0 {
            return PrinterState::NoStatus;
        }
        if state & 4194304 != 0 {
            PrinterState::DoorOpen
        } else if state & 2 != 0 {
            PrinterState::Error
        } else if state & 8 != 0 {
            PrinterState::PaperJam
        } else if state & 16 != 0 {
            PrinterState::PaperOut
        } else if state & 64 != 0 {
            PrinterState::PaperProblem
        } else if state & 131072 != 0 {
            PrinterState::TonerLow
        } else if state & 262144 != 0 {
            PrinterState::NoToner
        } else if state & 2097152 != 0 {
            PrinterState::OutOfMemory
        } else if state & 1048576 != 0 {
            PrinterState::UserInterventionRequired
        } else if state & 524288 != 0 {
            PrinterState::PagePunt
        } else if state & 128 != 0 {
            PrinterState::Offline
        } else if state & 4096 != 0 {
            PrinterState::NotAvailable
        } else if state & 8388608 != 0 {
            PrinterState::ServerUnknown
        } else if state & 1024 != 0 {
            PrinterState::Printing
        } else if state & 16384 != 0 {
            PrinterState::Processing
        } else if state & 32768 != 0 {
            PrinterState::Initializing
        } else if state & 65536 != 0 {
            PrinterState::WarmingUp
        } else if state & 512 != 0 {
            PrinterState::Busy
        } else if state & 256 != 0 {
            PrinterState::IOActive
        } else if state & 1 != 0 {
            PrinterState::Paused
        } else if state & 8192 != 0 {
            PrinterState::Waiting
        } else if state & 32 != 0 {
            PrinterState::ManualFeed
        } else if state & 2048 != 0 {
            PrinterState::OutputBinFull
        } else if state & 16777216 != 0 {
            PrinterState::PowerSave
        } else if state & 4 != 0 {
            PrinterState::PendingDeletion
        } else {
            PrinterState::StatusUnknown
        }
    }

    /// Returns the human-readable name of this state.
    pub fn description(&self) -> (s: &'static str)
        ensures
            s@ == self.spec_description(),
    {
        match self {
            PrinterState::NoStatus => "None",
            PrinterState::Paused => "Paused",
            PrinterState::Error => "Error",
            PrinterState::PendingDeletion => "Pending Deletion",
            PrinterState::PaperJam => "Paper Jam",
            PrinterState::PaperOut => "Paper Out",
            PrinterState::ManualFeed => "Manual Feed Required",
            PrinterState::PaperProblem => "Paper Problem",
            PrinterState::Offline => "Offline",
            PrinterState::IOActive => "I/O Active",
            PrinterState::Busy => "Busy",
            PrinterState::Printing => "Printing",
            PrinterState::OutputBinFull => "Output Bin Full",
            PrinterState::NotAvailable => "Not Available",
            PrinterState::Waiting => "Waiting",
            PrinterState::Processing => "Processing Job",
            PrinterState::Initializing => "Initializing",
            PrinterState::WarmingUp => "Warming Up",
            PrinterState::TonerLow => "Toner Low",
            PrinterState::NoToner => "No Toner",
            PrinterState::PagePunt => "Page Punt",
            PrinterState::UserInterventionRequired => "User Intervention Required",
            PrinterState::OutOfMemory => "Out of Memory",
            PrinterState::DoorOpen => "Door Open",
            PrinterState::ServerUnknown => "Print Server Unknown",
            PrinterState::PowerSave => "Power Save Mode",
            PrinterState::StatusUnknown => "Status Unknown",
        }
    }

    /// Returns the description as an owned string.
    pub fn to_string(&self) -> (s: String)
        ensures
            s@ == self.spec_description(),
    {
        String::from_str(self.description())
    }

    /// Converts this state to the status it corresponds to, `StatusUnknown`
    /// where none does.
    pub fn to_printer_status(&self) -> (r: PrinterStatus)
        ensures
            r == self.spec_to_printer_status(),
    {
        match self {
            PrinterState::NoStatus => PrinterStatus::Idle,
            PrinterState::Printing => PrinterStatus::Printing,
            PrinterState::WarmingUp => PrinterStatus::Warmup,
            PrinterState::Offline => PrinterStatus::Offline,
            PrinterState::Paused => PrinterStatus::StoppedPrinting,
            PrinterState::Error
            | PrinterState::PaperJam
            | PrinterState::PaperOut
            | PrinterState::DoorOpen => PrinterStatus::Other,
            _ => PrinterStatus::StatusUnknown,
        }
    }

    /// Tells whether this state is an error condition.
    pub fn is_error(&self) -> (b: bool)
        ensures
            b == self.spec_is_error(),
    {
        match self {
            PrinterState::Error
            | PrinterState::PaperJam
            | PrinterState::PaperOut
            | PrinterState::PaperProblem
            | PrinterState::DoorOpen
            | PrinterState::OutOfMemory
            | PrinterState::NoToner
            | PrinterState::UserInterventionRequired => true,
            _ => false,
        }
    }

    /// Tells whether this state means that the printer cannot be reached.
    pub fn is_offline(&self) -> (b: bool)
        ensures
            b == self.spec_is_offline(),
    {
        match self {
            PrinterState::Offline | PrinterState::NotAvailable | PrinterState::ServerUnknown => true,
            _ => false,
        }
    }

    /// What `from_u32` computes, said without its order of tests: code 0 and
    /// no other gives `None`; a state with a flag is returned only if its flag
    /// is set; whenever a known flag is set, the result has a flag and no
    /// state whose flag is set is more urgent; and the result is
    /// `StatusUnknown` exactly for a non-zero code without any known flag.
    pub proof fn lemma_from_u32_most_urgent(state: u32)
        ensures
            Self::spec_from_u32(state) == PrinterState::NoStatus <==> state == 0,
            Self::spec_from_u32(state).flag() != 0 ==> Self::spec_from_u32(state).raised_in(state),
            forall|s: PrinterState|
                s.flag() != 0 && #[trigger] s.raised_in(state) ==> Self::spec_from_u32(state).flag()
                    != 0 && Self::spec_from_u32(state).urgency() <= s.urgency(),
            Self::spec_from_u32(state) == PrinterState::StatusUnknown <==> state != 0 && state
                & 0x1ff_ffff == 0,
    {
        assert(state & 0 == 0) by (bit_vector);
        assert(state & 0x1ff_ffff == 0 <==> state & 1 == 0 && state & 2 == 0 && state & 4 == 0
            && state & 8 == 0 && state & 16 == 0 && state & 32 == 0 && state & 64 == 0 && state
            & 128 == 0 && state & 256 == 0 && state & 512 == 0 && state & 1024 == 0 && state
            & 2048 == 0 && state & 4096 == 0 && state & 8192 == 0 && state & 16384 == 0 && state
            & 32768 == 0 && state & 65536 == 0 && state & 131072 == 0 && state & 262144 == 0
            && state & 524288 == 0 && state & 1048576 == 0 && state & 2097152 == 0 && state
            & 4194304 == 0 && state & 8388608 == 0 && state & 16777216 == 0) by (bit_vector);
        assert(state == 0 ==> state & 0x1ff_ffff == 0) by (bit_vector);
    }
}

impl ErrorState {
    /// The error state that a raw detected-error code stands for.  Code 0,
    /// documented as unknown, counts as no error, as does code 2; code 9,
    /// offline, counts as `Other`.
    pub open spec fn spec_from_u32(error: Option<u32>) -> ErrorState {
        match error {
            Some(code) => if code == 0 {
                ErrorState::NoError
            } else if code == 1 {
                ErrorState::Other
            } else if code == 2 {
                ErrorState::NoError
            } else if code == 3 {
                ErrorState::LowPaper
            } else if code == 4 {
                ErrorState::NoPaper
            } else if code == 5 {
                ErrorState::LowToner
            } else if code == 6 {
                ErrorState::NoToner
            } else if code == 7 {
                ErrorState::DoorOpen
            } else if code == 8 {
                ErrorState::Jammed
            } else if code == 9 {
                ErrorState::Other
            } else if code == 10 {
                ErrorState::ServiceRequested
            } else if code == 11 {
                ErrorState::OutputBinFull
            } else {
                ErrorState::UnknownError
            },
            None => ErrorState::UnknownError,
        }
    }

    /// The human-readable name of this error state.
    pub open spec fn spec_description(self) -> Seq<char> {
        match self {
            ErrorState::NoError => "No Error"@,
            ErrorState::Other => "Other"@,
            ErrorState::LowPaper => "Low Paper"@,
            ErrorState::NoPaper => "No Paper"@,
            ErrorState::LowToner => "Low Toner"@,
            ErrorState::NoToner => "No Toner"@,
            ErrorState::DoorOpen => "Door Open"@,
            ErrorState::Jammed => "Jammed"@,
            ErrorState::ServiceRequested => "Service Requested"@,
            ErrorState::OutputBinFull => "Output Bin Full"@,
            ErrorState::UnknownError => "Unknown Error State"@,
        }
    }

    /// Maps a raw detected-error code to its error state; an absent or
    /// unlisted code gives `UnknownError`.
    pub fn from_u32(error: Option<u32>) -> (r: ErrorState)
        ensures
            r == Self::spec_from_u32(error),
    {
        match error {
            Some(0) => ErrorState::NoError,
            Some(1) => ErrorState::Other,
            Some(2) => ErrorState::NoError,
            Some(3) => ErrorState::LowPaper,
            Some(4) => ErrorState::NoPaper,
            Some(5) => ErrorState::LowToner,
            Some(6) => ErrorState::NoToner,
            Some(7) => ErrorState::DoorOpen,
            Some(8) => ErrorState::Jammed,
            Some(9) => ErrorState::Other,
            Some(10) => ErrorState::ServiceRequested,
            Some(11) => ErrorState::OutputBinFull,
            _ => ErrorState::UnknownError,
        }
    }

    /// Returns the human-readable name of this error state.
    pub fn description(&self) -> (s: &'static str)
        ensures
            s@ == self.spec_description(),
    {
        match self {
            ErrorState::NoError => "No Error",
            ErrorState::Other => "Other",
            ErrorState::LowPaper => "Low Paper",
            ErrorState::NoPaper => "No Paper",
            ErrorState::LowToner => "Low Toner",
            ErrorState::NoToner => "No Toner",
            ErrorState::DoorOpen => "Door Open",
            ErrorState::Jammed => "Jammed",
            ErrorState::ServiceRequested => "Service Requested",
            ErrorState::OutputBinFull => "Output Bin Full",
            ErrorState::UnknownError => "Unknown Error State",
        }
    }

    /// Returns the description as an owned string.
    pub fn to_string(&self) -> (s: String)
        ensures
            s@ == self.spec_description(),
    {
        String::from_str(self.description())
    }

    /// Tells whether this is an error that needs attention: every state but
    /// `NoError`.
    pub fn is_error(&self) -> (b: bool)
        ensures
            b == (*self != ErrorState::NoError),
    {
        match self {
            ErrorState::NoError => false,
            _ => true,
        }
    }
}

} // verus!
