//! A snapshot of one printer's observable state, how it is derived from raw
//! codes, and how two snapshots are compared.

use vstd::prelude::*;
use vstd::string::*;

use crate::change::{
    changes_of, clone_optional, events_of, note_change, optional_event, optional_view,
    ChangeView, PrinterChanges, PropertyChange,
};
use crate::monitor::MonitorableProperty;
use crate::status::{ErrorState, PrinterState, PrinterStatus};
use crate::text::same_text;

verus! {

/// The raw codes and the health string that accompany a snapshot.
#[derive(Debug)]
pub struct WmiStatusCodes {
    pub printer_status_code: Option<u32>,
    pub printer_state_code: Option<u32>,
    pub detected_error_state_code: Option<u32>,
    pub extended_detected_error_state_code: Option<u32>,
    pub extended_printer_status_code: Option<u32>,
    pub wmi_status: Option<String>,
}

/// One record as the platform service reports it: every field may be
/// missing.
#[derive(Debug)]
pub struct Win32Printer {
    pub name: Option<String>,
    pub printer_status: Option<u32>,
    pub detected_error_state: Option<u32>,
    pub work_offline: Option<bool>,
    pub printer_state: Option<u32>,
    pub default: Option<bool>,
    pub extended_printer_status: Option<u32>,
    pub extended_detected_error_state: Option<u32>,
    pub status: Option<String>,
}

/// What a `Win32Printer` holds, with strings as character sequences.
pub struct RawRecord {
    pub name: Option<Seq<char>>,
    pub printer_status: Option<u32>,
    pub detected_error_state: Option<u32>,
    pub work_offline: Option<bool>,
    pub printer_state: Option<u32>,
    pub default: Option<bool>,
    pub extended_printer_status: Option<u32>,
    pub extended_detected_error_state: Option<u32>,
    pub status: Option<Seq<char>>,
}

impl View for Win32Printer {
    type V = RawRecord;

    open spec fn view(&self) -> RawRecord {
        RawRecord {
            name: optional_view(self.name),
            printer_status: self.printer_status,
            detected_error_state: self.detected_error_state,
            work_offline: self.work_offline,
            printer_state: self.printer_state,
            default: self.default,
            extended_printer_status: self.extended_printer_status,
            extended_detected_error_state: self.extended_detected_error_state,
            status: optional_view(self.status),
        }
    }
}

/// A printer and its state at one instant.
#[derive(Debug)]
pub struct Printer {
    name: String,
    status: PrinterStatus,
    state: Option<PrinterState>,
    error_state: ErrorState,
    is_offline: bool,
    is_default: bool,
    printer_status_code: Option<u32>,
    printer_state_code: Option<u32>,
    detected_error_state_code: Option<u32>,
    extended_detected_error_state_code: Option<u32>,
    extended_printer_status_code: Option<u32>,
    wmi_status: Option<String>,
}

/// What a `Printer` holds, with strings as character sequences.
pub struct Snapshot {
    pub name: Seq<char>,
    pub status: PrinterStatus,
    pub state: Option<PrinterState>,
    pub error_state: ErrorState,
    pub is_offline: bool,
    pub is_default: bool,
    pub printer_status_code: Option<u32>,
    pub printer_state_code: Option<u32>,
    pub detected_error_state_code: Option<u32>,
    pub extended_detected_error_state_code: Option<u32>,
    pub extended_printer_status_code: Option<u32>,
    pub wmi_status: Option<Seq<char>>,
}

impl View for Printer {
    type V = Snapshot;

    closed spec fn view(&self) -> Snapshot {
        Snapshot {
            name: self.name@,
            status: self.status,
            state: self.state,
            error_state: self.error_state,
            is_offline: self.is_offline,
            is_default: self.is_default,
            printer_status_code: self.printer_status_code,
            printer_state_code: self.printer_state_code,
            detected_error_state_code: self.detected_error_state_code,
            extended_detected_error_state_code: self.extended_detected_error_state_code,
            extended_printer_status_code: self.extended_printer_status_code,
            wmi_status: optional_view(self.wmi_status),
        }
    }
}

/// The snapshot of an optional printer.
pub open spec fn optional_snapshot(printer: Option<Printer>) -> Option<Snapshot> {
    match printer {
        Some(p) => Some(p@),
        None => None,
    }
}

/// The name given to a record that comes without one.
pub open spec fn placeholder_name() -> Seq<char> {
    "Unknown Printer"@
}

/// The extended status code that says that the printer is offline.
pub const EXTENDED_STATUS_OFFLINE: u32 = 7;

/// The text of a raw status code.
pub open spec fn status_code_text(code: u32) -> Seq<char> {
    if code == 1 {
        "Other"@
    } else if code == 2 {
        "Unknown"@
    } else if code == 3 {
        "Idle"@
    } else if code == 4 {
        "Printing"@
    } else if code == 5 {
        "Warmup"@
    } else if code == 6 {
        "Stopped Printing"@
    } else if code == 7 {
        "Offline"@
    } else {
        "Unknown Status Code"@
    }
}

/// The text of a raw state code that is one of the listed values.
pub open spec fn listed_state_code_text(code: u32) -> Option<Seq<char>> {
    if code == 0 {
        Some("Idle"@)
    } else if code == 1 {
        Some("Paused"@)
    } else if code == 2 {
        Some("Error"@)
    } else if code == 3 {
        Some("Pending Deletion"@)
    } else if code == 4 {
        Some("Paper Jam"@)
    } else if code == 5 {
        Some("Paper Out"@)
    } else if code == 6 {
        Some("Manual Feed"@)
    } else if code == 7 {
        Some("Paper Problem"@)
    } else if code == 8 {
        Some("Offline"@)
    } else if code == 9 {
        Some("I/O Active"@)
    } else if code == 10 {
        Some("Busy"@)
    } else if code == 11 {
        Some("Printing"@)
    } else if code == 12 {
        Some("Output Bin Full"@)
    } else if code == 13 {
        Some("Not Available"@)
    } else if code == 14 {
        Some("Waiting"@)
    } else if code == 15 {
        Some("Processing"@)
    } else if code == 16 {
        Some("Initialization"@)
    } else if code == 17 {
        Some("Warming Up"@)
    } else if code == 18 {
        Some("Toner Low"@)
    } else if code == 19 {
        Some("No Toner"@)
    } else if code == 20 {
        Some("Page Punt"@)
    } else if code == 21 {
        Some("User Intervention Required"@)
    } else if code == 22 {
        Some("Out of Memory"@)
    } else if code == 23 {
        Some("Door Open"@)
    } else if code == 24 {
        Some("Server Unknown"@)
    } else if code == 25 {
        Some("Power Save"@)
    } else if code == 128 {
        Some("Offline (Legacy)"@)
    } else if code == 1024 {
        Some("Printing (Flag)"@)
    } else if code == 16384 {
        Some("Initialization (Flag)"@)
    } else if code == 2048 {
        Some("Processing (Flag)"@)
    } else if code == 4096 {
        Some("Busy (Flag)"@)
    } else if code == 8192 {
        Some("Warming Up (Flag)"@)
    } else if code == 32768 {
        Some("Paper Out (Flag)"@)
    } else if code == 65536 {
        Some("Error (Flag)"@)
    } else {
        None
    }
}

/// The text of a raw state code that is none of the listed values, read as
/// a set of flags: the first flag found names it.
pub open spec fn flagged_state_code_text(code: u32) -> Seq<char> {
    if code & 1024 != 0 {
        "Printing (Multi-flag)"@
    } else if code & 16384 != 0 {
        "Initialization (Multi-flag)"@
    } else if code & 2048 != 0 {
        "Processing (Multi-flag)"@
    } else if code & 4096 != 0 {
        "Busy (Multi-flag)"@
    } else if code & 8192 != 0 {
        "Warming Up (Multi-flag)"@
    } else if code & 32768 != 0 {
        "Paper Out (Multi-flag)"@
    } else if code & 65536 != 0 {
        "Error (Multi-flag)"@
    } else if code & 1 != 0 {
        "Paused (Multi-flag)"@
    } else {
        "Unknown State Code"@
    }
}

/// The text of a raw state code.
pub open spec fn state_code_text(code: u32) -> Seq<char> {
    match listed_state_code_text(code) {
        Some(text) => text,
        None => flagged_state_code_text(code),
    }
}

/// The text of a raw detected-error code.
pub open spec fn error_code_text(code: u32) -> Seq<char> {
    if code == 0 {
        "Unknown (often No Error in practice)"@
    } else if code == 1 {
        "Other"@
    } else if code == 2 {
        "No Error"@
    } else if code == 3 {
        "Low Paper"@
    } else if code == 4 {
        "No Paper"@
    } else if code == 5 {
        "Low Toner"@
    } else if code == 6 {
        "No Toner"@
    } else if code == 7 {
        "Door Open"@
    } else if code == 8 {
        "Jammed"@
    } else if code == 9 {
        "Offline"@
    } else if code == 10 {
        "Service Requested"@
    } else if code == 11 {
        "Output Bin Full"@
    } else {
        "Unknown Error Code"@
    }
}

/// The text of a raw extended status code.
pub open spec fn extended_status_code_text(code: u32) -> Seq<char> {
    if code == 1 {
        "Other"@
    } else if code == 2 {
        "Unknown"@
    } else if code == 3 {
        "Idle"@
    } else if code == 4 {
        "Printing"@
    } else if code == 5 {
        "Warmup"@
    } else if code == 6 {
        "Stopped Printing"@
    } else if code == 7 {
        "Offline"@
    } else if code == 8 {
        "Paused"@
    } else if code == 9 {
        "Error"@
    } else if code == 10 {
        "Busy"@
    } else if code == 11 {
        "Not Available"@
    } else if code == 12 {
        "Waiting"@
    } else if code == 13 {
        "Processing"@
    } else if code == 14 {
        "Initialization"@
    } else if code == 15 {
        "Power Save"@
    } else {
        "Unknown Extended Status Code"@
    }
}

/// What an optional text says of an optional code: the text of the code
/// where there is one, nothing where there is none.
pub open spec fn describes(
    text: Option<&'static str>,
    code: Option<u32>,
    table: spec_fn(u32) -> Seq<char>,
) -> bool {
    match code {
        Some(c) => text matches Some(t) && t@ == table(c),
        None => text is None,
    }
}

/// Whether a health string is one of those that report a degraded printer.
pub open spec fn is_degraded_health(text: Seq<char>) -> bool {
    ||| text == "Degraded"@
    ||| text == "Error"@
    ||| text == "No Contact"@
    ||| text == "Lost Comm"@
    ||| text == "NonRecover"@
}

/// The queue state of a record: that of its state code, if it has one.
pub open spec fn derived_state(raw: RawRecord) -> Option<PrinterState> {
    match raw.printer_state {
        Some(code) => Some(PrinterState::spec_from_u32(code)),
        None => None,
    }
}

/// The status of a record.  The state code decides where it is present and
/// its state corresponds to a status; otherwise the status code decides;
/// where neither says anything the status is `StatusUnknown`.
pub open spec fn derived_status(raw: RawRecord) -> PrinterStatus {
    match derived_state(raw) {
        Some(state) => if state.spec_to_printer_status() != PrinterStatus::StatusUnknown {
            state.spec_to_printer_status()
        } else {
            PrinterStatus::spec_from_u32(raw.printer_status)
        },
        None => PrinterStatus::spec_from_u32(raw.printer_status),
    }
}

/// Whether a queue state means that the printer cannot be reached or
/// cannot work.
pub open spec fn is_unreachable_state(state: PrinterState) -> bool {
    ||| state == PrinterState::Offline
    ||| state == PrinterState::Error
    ||| state == PrinterState::NotAvailable
    ||| state == PrinterState::ServerUnknown
}

/// Whether a record is that of an offline printer: any one of its signals
/// saying so is enough.
pub open spec fn derived_offline(raw: RawRecord) -> bool {
    ||| raw.work_offline == Some(true)
    ||| derived_status(raw) == PrinterStatus::Offline
    ||| (derived_state(raw) matches Some(state) && is_unreachable_state(state))
    ||| raw.extended_printer_status == Some(EXTENDED_STATUS_OFFLINE)
    ||| (raw.status matches Some(text) && is_degraded_health(text))
}

/// The snapshot that a record gives.
pub open spec fn derived_snapshot(raw: RawRecord) -> Snapshot {
    Snapshot {
        name: match raw.name {
            Some(name) => name,
            None => placeholder_name(),
        },
        status: derived_status(raw),
        state: derived_state(raw),
        error_state: ErrorState::spec_from_u32(raw.detected_error_state),
        is_offline: derived_offline(raw),
        is_default: raw.default == Some(true),
        printer_status_code: raw.printer_status,
        printer_state_code: raw.printer_state,
        detected_error_state_code: raw.detected_error_state,
        extended_detected_error_state_code: raw.extended_detected_error_state,
        extended_printer_status_code: raw.extended_printer_status,
        wmi_status: raw.status,
    }
}

/// Where the state code is present and its state corresponds to a status,
/// that status is the one derived, whatever the status code says.
pub proof fn lemma_state_code_decides_status(raw: RawRecord, code: u32)
    requires
        raw.printer_state == Some(code),
        PrinterState::spec_from_u32(code).spec_to_printer_status() != PrinterStatus::StatusUnknown,
    ensures
        derived_status(raw) == PrinterState::spec_from_u32(code).spec_to_printer_status(),
        derived_snapshot(raw).status == PrinterState::spec_from_u32(
            code,
        ).spec_to_printer_status(),
{
}

/// Where the state code is absent, or its state corresponds to no status,
/// the status code decides; without a listed status code the status is
/// `StatusUnknown`.
pub proof fn lemma_status_code_is_the_fallback(raw: RawRecord)
    requires
        match raw.printer_state {
            Some(code) => PrinterState::spec_from_u32(code).spec_to_printer_status()
                == PrinterStatus::StatusUnknown,
            None => true,
        },
    ensures
        derived_status(raw) == PrinterStatus::spec_from_u32(raw.printer_status),
        (match raw.printer_status {
            Some(code) => !(1 <= code <= 7),
            None => true,
        }) ==> derived_status(raw) == PrinterStatus::StatusUnknown,
{
}

/// The properties that a sequence of changes concerns, in order.
pub open spec fn properties_of(changes: Seq<ChangeView>) -> Seq<MonitorableProperty> {
    changes.map_values(|c: ChangeView| c.property())
}

/// The properties of two sequences of changes put together are the
/// properties of the one followed by those of the other.
pub proof fn lemma_properties_of_sum(first: Seq<ChangeView>, second: Seq<ChangeView>)
    ensures
        properties_of(first + second) == properties_of(first) + properties_of(second),
{
    assert(properties_of(first + second) =~= properties_of(first) + properties_of(second));
}

impl Snapshot {
    /// Whether two snapshots differ in the given property.
    pub open spec fn differs_in(self, other: Snapshot, property: MonitorableProperty) -> bool {
        match property {
            MonitorableProperty::Name => self.name != other.name,
            MonitorableProperty::Status => self.status != other.status,
            MonitorableProperty::State => self.state != other.state,
            MonitorableProperty::ErrorState => self.error_state != other.error_state,
            MonitorableProperty::IsOffline => self.is_offline != other.is_offline,
            MonitorableProperty::IsDefault => self.is_default != other.is_default,
            MonitorableProperty::PrinterStatusCode => self.printer_status_code
                != other.printer_status_code,
            MonitorableProperty::PrinterStateCode => self.printer_state_code
                != other.printer_state_code,
            MonitorableProperty::DetectedErrorStateCode => self.detected_error_state_code
                != other.detected_error_state_code,
            MonitorableProperty::ExtendedDetectedErrorStateCode =>
                self.extended_detected_error_state_code
                    != other.extended_detected_error_state_code,
            MonitorableProperty::ExtendedPrinterStatusCode => self.extended_printer_status_code
                != other.extended_printer_status_code,
            MonitorableProperty::WmiStatus => self.wmi_status != other.wmi_status,
        }
    }

    /// The change event for the given property: its value in `self` as the
    /// old one, its value in `other` as the new one.
    pub open spec fn change_in(self, other: Snapshot, property: MonitorableProperty) -> ChangeView {
        match property {
            MonitorableProperty::Name => ChangeView::Name { old: self.name, new: other.name },
            MonitorableProperty::Status => ChangeView::Status {
                old: self.status,
                new: other.status,
            },
            MonitorableProperty::State => ChangeView::State { old: self.state, new: other.state },
            MonitorableProperty::ErrorState => ChangeView::ErrorState {
                old: self.error_state,
                new: other.error_state,
            },
            MonitorableProperty::IsOffline => ChangeView::IsOffline {
                old: self.is_offline,
                new: other.is_offline,
            },
            MonitorableProperty::IsDefault => ChangeView::IsDefault {
                old: self.is_default,
                new: other.is_default,
            },
            MonitorableProperty::PrinterStatusCode => ChangeView::PrinterStatusCode {
                old: self.printer_status_code,
                new: other.printer_status_code,
            },
            MonitorableProperty::PrinterStateCode => ChangeView::PrinterStateCode {
                old: self.printer_state_code,
                new: other.printer_state_code,
            },
            MonitorableProperty::DetectedErrorStateCode => ChangeView::DetectedErrorStateCode {
                old: self.detected_error_state_code,
                new: other.detected_error_state_code,
            },
            MonitorableProperty::ExtendedDetectedErrorStateCode =>
                ChangeView::ExtendedDetectedErrorStateCode {
                    old: self.extended_detected_error_state_code,
                    new: other.extended_detected_error_state_code,
                },
            MonitorableProperty::ExtendedPrinterStatusCode =>
                ChangeView::ExtendedPrinterStatusCode {
                    old: self.extended_printer_status_code,
                    new: other.extended_printer_status_code,
                },
            MonitorableProperty::WmiStatus => ChangeView::WmiStatus {
                old: self.wmi_status,
                new: other.wmi_status,
            },
        }
    }

    /// The change event for the given property if the snapshots differ in
    /// it, nothing if they do not.
    pub open spec fn delta(self, other: Snapshot, property: MonitorableProperty) -> Seq<
        ChangeView,
    > {
        if self.differs_in(other, property) {
            seq![self.change_in(other, property)]
        } else {
            Seq::empty()
        }
    }

    /// The changes from `self` to `other`: one event for each property in
    /// which they differ, in the order in which the properties are declared.
    pub open spec fn diff(self, other: Snapshot) -> Seq<ChangeView> {
        self.delta(other, MonitorableProperty::Name) + self.delta(
            other,
            MonitorableProperty::Status,
        ) + self.delta(other, MonitorableProperty::State) + self.delta(
            other,
            MonitorableProperty::ErrorState,
        ) + self.delta(other, MonitorableProperty::IsOffline) + self.delta(
            other,
            MonitorableProperty::IsDefault,
        ) + self.delta(other, MonitorableProperty::PrinterStatusCode) + self.delta(
            other,
            MonitorableProperty::PrinterStateCode,
        ) + self.delta(other, MonitorableProperty::DetectedErrorStateCode) + self.delta(
            other,
            MonitorableProperty::ExtendedDetectedErrorStateCode,
        ) + self.delta(other, MonitorableProperty::ExtendedPrinterStatusCode) + self.delta(
            other,
            MonitorableProperty::WmiStatus,
        )
    }

    /// Whether a sequence of changes reports true differences between two
    /// snapshots, each with the values of the two, in the order in which the
    /// properties are declared, and only of properties that stand before
    /// `bound` in that order.
    pub open spec fn reports_faithfully(
        self,
        other: Snapshot,
        changes: Seq<ChangeView>,
        bound: nat,
    ) -> bool {
        &&& forall|i: int|
            0 <= i < changes.len() ==> {
                let property = (#[trigger] changes[i]).property();
                &&& property.position() < bound
                &&& self.differs_in(other, property)
                &&& changes[i] == self.change_in(other, property)
            }
        &&& forall|i: int, j: int|
            0 <= i < j < changes.len() ==> (#[trigger] changes[i]).property().position() < (
            #[trigger] changes[j]).property().position()
    }

    /// Adding what is to be said of one more property keeps a report
    /// faithful.
    proof fn lemma_faithful_step(
        self,
        other: Snapshot,
        changes: Seq<ChangeView>,
        property: MonitorableProperty,
    )
        requires
            self.reports_faithfully(other, changes, property.position()),
        ensures
            self.reports_faithfully(
                other,
                changes + self.delta(other, property),
                property.position() + 1,
            ),
    {
        let longer = changes + self.delta(other, property);
        assert forall|i: int| 0 <= i < longer.len() implies {
            let p = (#[trigger] longer[i]).property();
            &&& p.position() < property.position() + 1
            &&& self.differs_in(other, p)
            &&& longer[i] == self.change_in(other, p)
        } by {
            if i < changes.len() {
                assert(longer[i] == changes[i]);
            } else {
                assert(longer[i] == self.change_in(other, property));
            }
        }
        assert forall|i: int, j: int| 0 <= i < j < longer.len() implies (
        #[trigger] longer[i]).property().position() < (#[trigger] longer[j]).property().position() by {
            assert(longer[i] == changes[i]);
            if j < changes.len() {
                assert(longer[j] == changes[j]);
            } else {
                assert(longer[j] == self.change_in(other, property));
            }
        }
    }

    /// Of what is said of one property, the changes of another property are
    /// none, and those of the same property are all.
    proof fn lemma_delta_of(self, other: Snapshot, said: MonitorableProperty, asked: MonitorableProperty)
        ensures
            changes_of(self.delta(other, said), asked) == if said == asked {
                self.delta(other, said)
            } else {
                Seq::<ChangeView>::empty()
            },
    {
        reveal_with_fuel(Seq::filter, 2);
        let d = self.delta(other, said);
        if d.len() == 1 {
            assert(d.drop_last().len() == 0);
            assert(d.last() == self.change_in(other, said));
            assert(changes_of(d, asked) =~= if said == asked {
                d
            } else {
                Seq::<ChangeView>::empty()
            });
        }
    }

    /// The comparison of two snapshots detects every difference and nothing
    /// else.  It reports something exactly when the two snapshots are not
    /// equal; for each property, what it reports of that property is one
    /// change with the two values if the snapshots differ in it and nothing
    /// if they do not, so that a property that differs appears exactly
    /// once; and the changes stand in the order in which the properties are
    /// declared.
    pub proof fn lemma_diff_detects_every_difference(self, other: Snapshot)
        ensures
            self.diff(other).len() > 0 <==> self != other,
            forall|property: MonitorableProperty| #[trigger]
                changes_of(self.diff(other), property) == self.delta(other, property),
            self.reports_faithfully(other, self.diff(other), 12),
    {
        self.lemma_diff_is_ordered(other);
        assert forall|property: MonitorableProperty| #[trigger]
            changes_of(self.diff(other), property) == self.delta(other, property) by {
            self.lemma_diff_of(other, property);
        }
        if self.diff(other).len() == 0 {
            assert(self.name == other.name);
            assert(self.wmi_status == other.wmi_status);
            assert(self == other);
        }
    }

    /// Detection is symmetric, the values are not: compared in the other
    /// direction, two snapshots give changes of the same properties, in the
    /// same order, each with its two values exchanged.
    pub proof fn lemma_diff_is_symmetric_in_detection(self, other: Snapshot)
        ensures
            forall|property: MonitorableProperty|
                self.differs_in(other, property) == other.differs_in(self, property),
            self.diff(other).len() == other.diff(self).len(),
            properties_of(self.diff(other)) == properties_of(other.diff(self)),
            forall|i: int|
                0 <= i < self.diff(other).len() ==> (#[trigger] other.diff(self)[i])
                    == other.change_in(self, self.diff(other)[i].property()),
    {
        self.lemma_properties_of_diff(other);
        other.lemma_properties_of_diff(self);
        self.lemma_differing_is_symmetric(other);
        other.lemma_diff_is_ordered(self);
        let there = properties_of(self.diff(other));
        let back = properties_of(other.diff(self));
        assert(there.len() == self.diff(other).len());
        assert(back.len() == other.diff(self).len());
        assert forall|i: int| 0 <= i < self.diff(other).len() implies (
        #[trigger] other.diff(self)[i]) == other.change_in(
            self,
            self.diff(other)[i].property(),
        ) by {
            assert(there[i] == self.diff(other)[i].property());
            assert(back[i] == other.diff(self)[i].property());
        }
    }

    /// Two snapshots differ in the same properties, whichever comes first.
    proof fn lemma_differing_is_symmetric(self, other: Snapshot)
        ensures
            forall|property: MonitorableProperty|
                self.differs_in(other, property) == other.differs_in(self, property),
            self.differing(other) == other.differing(self),
    {
        assert forall|property: MonitorableProperty| #[trigger]
            self.differing_in(other, property) == other.differing_in(self, property) by {}
    }

    /// The properties in which two snapshots differ, in the order in which
    /// the properties are declared.
    pub open spec fn differing(self, other: Snapshot) -> Seq<MonitorableProperty> {
        self.differing_in(other, MonitorableProperty::Name) + self.differing_in(
            other,
            MonitorableProperty::Status,
        ) + self.differing_in(other, MonitorableProperty::State) + self.differing_in(
            other,
            MonitorableProperty::ErrorState,
        ) + self.differing_in(other, MonitorableProperty::IsOffline) + self.differing_in(
            other,
            MonitorableProperty::IsDefault,
        ) + self.differing_in(other, MonitorableProperty::PrinterStatusCode) + self.differing_in(
            other,
            MonitorableProperty::PrinterStateCode,
        ) + self.differing_in(other, MonitorableProperty::DetectedErrorStateCode)
            + self.differing_in(other, MonitorableProperty::ExtendedDetectedErrorStateCode)
            + self.differing_in(other, MonitorableProperty::ExtendedPrinterStatusCode)
            + self.differing_in(other, MonitorableProperty::WmiStatus)
    }

    /// The given property if the snapshots differ in it, nothing if they
    /// do not.
    pub open spec fn differing_in(self, other: Snapshot, property: MonitorableProperty) -> Seq<
        MonitorableProperty,
    > {
        if self.differs_in(other, property) {
            seq![property]
        } else {
            Seq::empty()
        }
    }

    /// The changes from one snapshot to another concern the properties in
    /// which the two differ.
    pub proof fn lemma_properties_of_diff(self, other: Snapshot)
        ensures
            properties_of(self.diff(other)) == self.differing(other),
    {
        let d1 = self.delta(other, MonitorableProperty::Name);
        lemma_properties_of_sum(Seq::empty(), d1);
        let d2 = d1 + self.delta(other, MonitorableProperty::Status);
        lemma_properties_of_sum(d1, self.delta(other, MonitorableProperty::Status));
        let d3 = d2 + self.delta(other, MonitorableProperty::State);
        lemma_properties_of_sum(d2, self.delta(other, MonitorableProperty::State));
        let d4 = d3 + self.delta(other, MonitorableProperty::ErrorState);
        lemma_properties_of_sum(d3, self.delta(other, MonitorableProperty::ErrorState));
        let d5 = d4 + self.delta(other, MonitorableProperty::IsOffline);
        lemma_properties_of_sum(d4, self.delta(other, MonitorableProperty::IsOffline));
        let d6 = d5 + self.delta(other, MonitorableProperty::IsDefault);
        lemma_properties_of_sum(d5, self.delta(other, MonitorableProperty::IsDefault));
        let d7 = d6 + self.delta(other, MonitorableProperty::PrinterStatusCode);
        lemma_properties_of_sum(d6, self.delta(other, MonitorableProperty::PrinterStatusCode));
        let d8 = d7 + self.delta(other, MonitorableProperty::PrinterStateCode);
        lemma_properties_of_sum(d7, self.delta(other, MonitorableProperty::PrinterStateCode));
        let d9 = d8 + self.delta(other, MonitorableProperty::DetectedErrorStateCode);
        lemma_properties_of_sum(
            d8,
            self.delta(other, MonitorableProperty::DetectedErrorStateCode),
        );
        let d10 = d9 + self.delta(other, MonitorableProperty::ExtendedDetectedErrorStateCode);
        lemma_properties_of_sum(
            d9,
            self.delta(other, MonitorableProperty::ExtendedDetectedErrorStateCode),
        );
        let d11 = d10 + self.delta(other, MonitorableProperty::ExtendedPrinterStatusCode);
        lemma_properties_of_sum(
            d10,
            self.delta(other, MonitorableProperty::ExtendedPrinterStatusCode),
        );
        lemma_properties_of_sum(d11, self.delta(other, MonitorableProperty::WmiStatus));
        assert forall|property: MonitorableProperty| #[trigger]
            properties_of(self.delta(other, property)) == self.differing_in(other, property) by {
            assert(properties_of(self.delta(other, property)) =~= self.differing_in(
                other,
                property,
            ));
        }
        assert(Seq::<ChangeView>::empty() + d1 =~= d1);
        assert(properties_of(Seq::<ChangeView>::empty()) =~= Seq::<MonitorableProperty>::empty());
        assert(Seq::<MonitorableProperty>::empty() + self.differing_in(
            other,
            MonitorableProperty::Name,
        ) =~= self.differing_in(other, MonitorableProperty::Name));
    }

    /// The changes from one snapshot to another are faithful and in order.
    proof fn lemma_diff_is_ordered(self, other: Snapshot)
        ensures
            self.reports_faithfully(other, self.diff(other), 12),
    {
        let d0 = Seq::<ChangeView>::empty();
        let d1 = d0 + self.delta(other, MonitorableProperty::Name);
        self.lemma_faithful_step(other, d0, MonitorableProperty::Name);
        let d2 = d1 + self.delta(other, MonitorableProperty::Status);
        self.lemma_faithful_step(other, d1, MonitorableProperty::Status);
        let d3 = d2 + self.delta(other, MonitorableProperty::State);
        self.lemma_faithful_step(other, d2, MonitorableProperty::State);
        let d4 = d3 + self.delta(other, MonitorableProperty::ErrorState);
        self.lemma_faithful_step(other, d3, MonitorableProperty::ErrorState);
        let d5 = d4 + self.delta(other, MonitorableProperty::IsOffline);
        self.lemma_faithful_step(other, d4, MonitorableProperty::IsOffline);
        let d6 = d5 + self.delta(other, MonitorableProperty::IsDefault);
        self.lemma_faithful_step(other, d5, MonitorableProperty::IsDefault);
        let d7 = d6 + self.delta(other, MonitorableProperty::PrinterStatusCode);
        self.lemma_faithful_step(other, d6, MonitorableProperty::PrinterStatusCode);
        let d8 = d7 + self.delta(other, MonitorableProperty::PrinterStateCode);
        self.lemma_faithful_step(other, d7, MonitorableProperty::PrinterStateCode);
        let d9 = d8 + self.delta(other, MonitorableProperty::DetectedErrorStateCode);
        self.lemma_faithful_step(other, d8, MonitorableProperty::DetectedErrorStateCode);
        let d10 = d9 + self.delta(other, MonitorableProperty::ExtendedDetectedErrorStateCode);
        self.lemma_faithful_step(other, d9, MonitorableProperty::ExtendedDetectedErrorStateCode);
        let d11 = d10 + self.delta(other, MonitorableProperty::ExtendedPrinterStatusCode);
        self.lemma_faithful_step(other, d10, MonitorableProperty::ExtendedPrinterStatusCode);
        let d12 = d11 + self.delta(other, MonitorableProperty::WmiStatus);
        self.lemma_faithful_step(other, d11, MonitorableProperty::WmiStatus);
        assert(d1 =~= self.delta(other, MonitorableProperty::Name));
        assert(d12 == self.diff(other));
    }

    /// Of the changes from one snapshot to another, those of one property
    /// are what is said of that property.
    proof fn lemma_diff_of(self, other: Snapshot, asked: MonitorableProperty)
        ensures
            changes_of(self.diff(other), asked) == self.delta(other, asked),
    {
        broadcast use Seq::filter_distributes_over_add;

        let pred = |c: ChangeView| c.property() == asked;
        self.lemma_delta_of(other, MonitorableProperty::Name, asked);
        self.lemma_delta_of(other, MonitorableProperty::Status, asked);
        self.lemma_delta_of(other, MonitorableProperty::State, asked);
        self.lemma_delta_of(other, MonitorableProperty::ErrorState, asked);
        self.lemma_delta_of(other, MonitorableProperty::IsOffline, asked);
        self.lemma_delta_of(other, MonitorableProperty::IsDefault, asked);
        self.lemma_delta_of(other, MonitorableProperty::PrinterStatusCode, asked);
        self.lemma_delta_of(other, MonitorableProperty::PrinterStateCode, asked);
        self.lemma_delta_of(other, MonitorableProperty::DetectedErrorStateCode, asked);
        self.lemma_delta_of(other, MonitorableProperty::ExtendedDetectedErrorStateCode, asked);
        self.lemma_delta_of(other, MonitorableProperty::ExtendedPrinterStatusCode, asked);
        self.lemma_delta_of(other, MonitorableProperty::WmiStatus, asked);
        assert(changes_of(self.diff(other), asked) =~= self.delta(other, asked));
    }

    /// A snapshot without raw codes and without a queue state.
    pub open spec fn plain(
        name: Seq<char>,
        status: PrinterStatus,
        error_state: ErrorState,
        is_offline: bool,
        is_default: bool,
    ) -> Snapshot {
        Snapshot {
            name,
            status,
            state: None,
            error_state,
            is_offline,
            is_default,
            printer_status_code: None,
            printer_state_code: None,
            detected_error_state_code: None,
            extended_detected_error_state_code: None,
            extended_printer_status_code: None,
            wmi_status: None,
        }
    }
}

/// Tells whether two optional strings hold the same characters, or are
/// both absent.
pub fn same_optional_text(a: &Option<String>, b: &Option<String>) -> (r: bool)
    ensures
        r == (optional_view(*a) == optional_view(*b)),
{
    match (a, b) {
        (Some(x), Some(y)) => same_text(x.as_str(), y.as_str()),
        (None, None) => true,
        _ => false,
    }
}

/// Tells whether a health string is one of those that report a degraded
/// printer.
pub fn degraded_health(text: &str) -> (r: bool)
    ensures
        r == is_degraded_health(text@),
{
    same_text(text, "Degraded") || same_text(text, "Error") || same_text(text, "No Contact")
        || same_text(text, "Lost Comm") || same_text(text, "NonRecover")
}

impl Clone for Printer {
    fn clone(&self) -> (r: Printer)
        ensures
            r == *self,
    {
        Printer {
            name: self.name.clone(),
            status: self.status,
            state: self.state,
            error_state: self.error_state,
            is_offline: self.is_offline,
            is_default: self.is_default,
            printer_status_code: self.printer_status_code,
            printer_state_code: self.printer_state_code,
            detected_error_state_code: self.detected_error_state_code,
            extended_detected_error_state_code: self.extended_detected_error_state_code,
            extended_printer_status_code: self.extended_printer_status_code,
            wmi_status: clone_optional(&self.wmi_status),
        }
    }
}

impl PartialEq for Printer {
    /// Two printers are equal when they agree in every field.
    fn eq(&self, other: &Printer) -> (r: bool) {
        same_text(self.name.as_str(), other.name.as_str()) && self.status == other.status
            && self.state == other.state && self.error_state == other.error_state
            && self.is_offline == other.is_offline && self.is_default == other.is_default
            && self.printer_status_code == other.printer_status_code && self.printer_state_code
            == other.printer_state_code
            && self.detected_error_state_code == other.detected_error_state_code
            && self.extended_detected_error_state_code
            == other.extended_detected_error_state_code && self.extended_printer_status_code
            == other.extended_printer_status_code && same_optional_text(
            &self.wmi_status,
            &other.wmi_status,
        )
    }
}

impl vstd::std_specs::cmp::PartialEqSpecImpl for Printer {
    open spec fn obeys_eq_spec() -> bool {
        true
    }

    open spec fn eq_spec(&self, other: &Printer) -> bool {
        self@ == other@
    }
}

impl From<Win32Printer> for Printer {
    /// Derives a snapshot from a raw record, as `from_record` does.
    fn from(record: Win32Printer) -> (p: Printer)
        ensures
            p@ == derived_snapshot(record@),
    {
        Printer::from_record(record)
    }
}

/// The conversion is described by the snapshot that it gives, in the
/// contract of `from`: a printer holds strings, of which only the characters
/// are determined, so no value can be named for `from_spec`.
impl vstd::std_specs::convert::FromSpecImpl<Win32Printer> for Printer {
    open spec fn obeys_from_spec() -> bool {
        false
    }

    open spec fn from_spec(record: Win32Printer) -> Printer {
        arbitrary()
    }
}

impl Printer {
    /// Creates a snapshot without raw codes and without a queue state.
    pub fn new(
        name: String,
        status: PrinterStatus,
        error_state: ErrorState,
        is_offline: bool,
        is_default: bool,
    ) -> (p: Printer)
        ensures
            p@ == Snapshot::plain(name@, status, error_state, is_offline, is_default),
    {
        Printer {
            name,
            status,
            state: None,
            error_state,
            is_offline,
            is_default,
            printer_status_code: None,
            printer_state_code: None,
            detected_error_state_code: None,
            extended_detected_error_state_code: None,
            extended_printer_status_code: None,
            wmi_status: None,
        }
    }

    /// Creates a snapshot with a queue state and without raw codes.
    pub fn new_with_state(
        name: String,
        status: PrinterStatus,
        state: Option<PrinterState>,
        error_state: ErrorState,
        is_offline: bool,
        is_default: bool,
    ) -> (p: Printer)
        ensures
            p@ == (Snapshot {
                state,
                ..Snapshot::plain(name@, status, error_state, is_offline, is_default)
            }),
    {
        Printer {
            name,
            status,
            state,
            error_state,
            is_offline,
            is_default,
            printer_status_code: None,
            printer_state_code: None,
            detected_error_state_code: None,
            extended_detected_error_state_code: None,
            extended_printer_status_code: None,
            wmi_status: None,
        }
    }

    /// Creates a snapshot from all of its parts.  Nothing is derived here:
    /// the status, state and flags are taken as given.
    pub fn new_with_wmi(
        name: String,
        status: PrinterStatus,
        state: Option<PrinterState>,
        error_state: ErrorState,
        is_offline: bool,
        is_default: bool,
        wmi_codes: WmiStatusCodes,
    ) -> (p: Printer)
        ensures
            p@ == (Snapshot {
                name: name@,
                status,
                state,
                error_state,
                is_offline,
                is_default,
                printer_status_code: wmi_codes.printer_status_code,
                printer_state_code: wmi_codes.printer_state_code,
                detected_error_state_code: wmi_codes.detected_error_state_code,
                extended_detected_error_state_code: wmi_codes.extended_detected_error_state_code,
                extended_printer_status_code: wmi_codes.extended_printer_status_code,
                wmi_status: optional_view(wmi_codes.wmi_status),
            }),
    {
        Printer {
            name,
            status,
            state,
            error_state,
            is_offline,
            is_default,
            printer_status_code: wmi_codes.printer_status_code,
            printer_state_code: wmi_codes.printer_state_code,
            detected_error_state_code: wmi_codes.detected_error_state_code,
            extended_detected_error_state_code: wmi_codes.extended_detected_error_state_code,
            extended_printer_status_code: wmi_codes.extended_printer_status_code,
            wmi_status: wmi_codes.wmi_status,
        }
    }

    /// Returns the printer's name.
    pub fn name(&self) -> (s: &str)
        ensures
            s@ == self@.name,
    {
        self.name.as_str()
    }

    /// Returns the operational status.
    pub fn status(&self) -> (r: &PrinterStatus)
        ensures
            *r == self@.status,
    {
        &self.status
    }

    /// Returns the queue state, if the snapshot has one.
    pub fn state(&self) -> (r: Option<&PrinterState>)
        ensures
            match r {
                Some(state) => self@.state == Some(*state),
                None => self@.state is None,
            },
    {
        match &self.state {
            Some(state) => Some(state),
            None => None,
        }
    }

    /// Returns the description of the operational status.
    pub fn status_description(&self) -> (s: &'static str)
        ensures
            s@ == self@.status.spec_description(),
    {
        self.status.description()
    }

    /// Returns the error condition.
    pub fn error_state(&self) -> (r: &ErrorState)
        ensures
            *r == self@.error_state,
    {
        &self.error_state
    }

    /// Returns the description of the error condition.
    pub fn error_description(&self) -> (s: &'static str)
        ensures
            s@ == self@.error_state.spec_description(),
    {
        self.error_state.description()
    }

    /// Tells whether the printer is offline.
    pub fn is_offline(&self) -> (b: bool)
        ensures
            b == self@.is_offline,
    {
        self.is_offline
    }

    /// Tells whether the printer is the default printer.
    pub fn is_default(&self) -> (b: bool)
        ensures
            b == self@.is_default,
    {
        self.is_default
    }

    /// Tells whether the printer has an error condition.
    pub fn has_error(&self) -> (b: bool)
        ensures
            b == (self@.error_state != ErrorState::NoError),
    {
        self.error_state.is_error()
    }

    /// Returns the raw status code.
    pub fn printer_status_code(&self) -> (code: Option<u32>)
        ensures
            code == self@.printer_status_code,
    {
        self.printer_status_code
    }

    /// Returns the raw state code.
    pub fn printer_state_code(&self) -> (code: Option<u32>)
        ensures
            code == self@.printer_state_code,
    {
        self.printer_state_code
    }

    /// Returns the raw detected-error code.
    pub fn detected_error_state_code(&self) -> (code: Option<u32>)
        ensures
            code == self@.detected_error_state_code,
    {
        self.detected_error_state_code
    }

    /// Returns the raw extended detected-error code.
    pub fn extended_detected_error_state_code(&self) -> (code: Option<u32>)
        ensures
            code == self@.extended_detected_error_state_code,
    {
        self.extended_detected_error_state_code
    }

    /// Returns the raw extended status code.
    pub fn extended_printer_status_code(&self) -> (code: Option<u32>)
        ensures
            code == self@.extended_printer_status_code,
    {
        self.extended_printer_status_code
    }

    /// Returns the health string, if the snapshot has one.
    pub fn wmi_status(&self) -> (r: Option<&str>)
        ensures
            match r {
                Some(text) => self@.wmi_status == Some(text@),
                None => self@.wmi_status is None,
            },
    {
        match &self.wmi_status {
            Some(text) => Some(text.as_str()),
            None => None,
        }
    }

    /// Returns the text of the raw status code, if there is a code.
    pub fn printer_status_description(&self) -> (r: Option<&'static str>)
        ensures
            describes(r, self@.printer_status_code, |c: u32| status_code_text(c)),
    {
        match self.printer_status_code {
            Some(code) => Some(
                match code {
                    1 => "Other",
                    2 => "Unknown",
                    3 => "Idle",
                    4 => "Printing",
                    5 => "Warmup",
                    6 => "Stopped Printing",
                    7 => "Offline",
                    _ => "Unknown Status Code",
                },
            ),
            None => None,
        }
    }

    /// Returns the text of the raw state code, if there is a code.  A code
    /// that is none of the listed values is read as a set of flags.
    pub fn printer_state_description(&self) -> (r: Option<&'static str>)
        ensures
            describes(r, self@.printer_state_code, |c: u32| state_code_text(c)),
    {
        match self.printer_state_code {
            Some(code) => Some(
                match code {
                    0 => "Idle",
                    1 => "Paused",
                    2 => "Error",
                    3 => "Pending Deletion",
                    4 => "Paper Jam",
                    5 => "Paper Out",
                    6 => "Manual Feed",
                    7 => "Paper Problem",
                    8 => "Offline",
                    9 => "I/O Active",
                    10 => "Busy",
                    11 => "Printing",
                    12 => "Output Bin Full",
                    13 => "Not Available",
                    14 => "Waiting",
                    15 => "Processing",
                    16 => "Initialization",
                    17 => "Warming Up",
                    18 => "Toner Low",
                    19 => "No Toner",
                    20 => "Page Punt",
                    21 => "User Intervention Required",
                    22 => "Out of Memory",
                    23 => "Door Open",
                    24 => "Server Unknown",
                    25 => "Power Save",
                    128 => "Offline (Legacy)",
                    1024 => "Printing (Flag)",
                    16384 => "Initialization (Flag)",
                    2048 => "Processing (Flag)",
                    4096 => "Busy (Flag)",
                    8192 => "Warming Up (Flag)",
                    32768 => "Paper Out (Flag)",
                    65536 => "Error (Flag)",
                    _ => {
                        if code & 1024 != 0 {
                            "Printing (Multi-flag)"
                        } else if code & 16384 != 0 {
                            "Initialization (Multi-flag)"
                        } else if code & 2048 != 0 {
                            "Processing (Multi-flag)"
                        } else if code & 4096 != 0 {
                            "Busy (Multi-flag)"
                        } else if code & 8192 != 0 {
                            "Warming Up (Multi-flag)"
                        } else if code & 32768 != 0 {
                            "Paper Out (Multi-flag)"
                        } else if code & 65536 != 0 {
                            "Error (Multi-flag)"
                        } else if code & 1 != 0 {
                            "Paused (Multi-flag)"
                        } else {
                            "Unknown State Code"
                        }
                    },
                },
            ),
            None => None,
        }
    }

    /// Returns the text of the raw detected-error code, if there is a code.
    pub fn detected_error_state_description(&self) -> (r: Option<&'static str>)
        ensures
            describes(r, self@.detected_error_state_code, |c: u32| error_code_text(c)),
    {
        match self.detected_error_state_code {
            Some(code) => Some(
                match code {
                    0 => "Unknown (often No Error in practice)",
                    1 => "Other",
                    2 => "No Error",
                    3 => "Low Paper",
                    4 => "No Paper",
                    5 => "Low Toner",
                    6 => "No Toner",
                    7 => "Door Open",
                    8 => "Jammed",
                    9 => "Offline",
                    10 => "Service Requested",
                    11 => "Output Bin Full",
                    _ => "Unknown Error Code",
                },
            ),
            None => None,
        }
    }

    /// Returns the text of the raw extended status code, if there is a code.
    pub fn extended_printer_status_description(&self) -> (r: Option<&'static str>)
        ensures
            describes(
                r,
                self@.extended_printer_status_code,
                |c: u32| extended_status_code_text(c),
            ),
    {
        match self.extended_printer_status_code {
            Some(code) => Some(
                match code {
                    1 => "Other",
                    2 => "Unknown",
                    3 => "Idle",
                    4 => "Printing",
                    5 => "Warmup",
                    6 => "Stopped Printing",
                    7 => "Offline",
                    8 => "Paused",
                    9 => "Error",
                    10 => "Busy",
                    11 => "Not Available",
                    12 => "Waiting",
                    13 => "Processing",
                    14 => "Initialization",
                    15 => "Power Save",
                    _ => "Unknown Extended Status Code",
                },
            ),
            None => None,
        }
    }

    /// Compares one property of this snapshot with that of a later one and
    /// returns the change, if the two differ in it.
    pub fn change_in(&self, other: &Printer, property: MonitorableProperty) -> (r: Option<
        PropertyChange,
    >)
        ensures
            optional_event(r) == self@.delta(other@, property),
    {
        match property {
            MonitorableProperty::Name => if !same_text(self.name.as_str(), other.name.as_str()) {
                Some(PropertyChange::Name { old: self.name.clone(), new: other.name.clone() })
            } else {
                None
            },
            MonitorableProperty::Status => if self.status != other.status {
                Some(PropertyChange::Status { old: self.status, new: other.status })
            } else {
                None
            },
            MonitorableProperty::State => if self.state != other.state {
                Some(PropertyChange::State { old: self.state, new: other.state })
            } else {
                None
            },
            MonitorableProperty::ErrorState => if self.error_state != other.error_state {
                Some(PropertyChange::ErrorState { old: self.error_state, new: other.error_state })
            } else {
                None
            },
            MonitorableProperty::IsOffline => if self.is_offline != other.is_offline {
                Some(PropertyChange::IsOffline { old: self.is_offline, new: other.is_offline })
            } else {
                None
            },
            MonitorableProperty::IsDefault => if self.is_default != other.is_default {
                Some(PropertyChange::IsDefault { old: self.is_default, new: other.is_default })
            } else {
                None
            },
            MonitorableProperty::PrinterStatusCode => if self.printer_status_code
                != other.printer_status_code {
                Some(
                    PropertyChange::PrinterStatusCode {
                        old: self.printer_status_code,
                        new: other.printer_status_code,
                    },
                )
            } else {
                None
            },
            MonitorableProperty::PrinterStateCode => if self.printer_state_code
                != other.printer_state_code {
                Some(
                    PropertyChange::PrinterStateCode {
                        old: self.printer_state_code,
                        new: other.printer_state_code,
                    },
                )
            } else {
                None
            },
            MonitorableProperty::DetectedErrorStateCode => if self.detected_error_state_code
                != other.detected_error_state_code {
                Some(
                    PropertyChange::DetectedErrorStateCode {
                        old: self.detected_error_state_code,
                        new: other.detected_error_state_code,
                    },
                )
            } else {
                None
            },
            MonitorableProperty::ExtendedDetectedErrorStateCode => if self.extended_detected_error_state_code
                != other.extended_detected_error_state_code {
                Some(
                    PropertyChange::ExtendedDetectedErrorStateCode {
                        old: self.extended_detected_error_state_code,
                        new: other.extended_detected_error_state_code,
                    },
                )
            } else {
                None
            },
            MonitorableProperty::ExtendedPrinterStatusCode => if self.extended_printer_status_code
                != other.extended_printer_status_code {
                Some(
                    PropertyChange::ExtendedPrinterStatusCode {
                        old: self.extended_printer_status_code,
                        new: other.extended_printer_status_code,
                    },
                )
            } else {
                None
            },
            MonitorableProperty::WmiStatus => if !same_optional_text(
                &self.wmi_status,
                &other.wmi_status,
            ) {
                Some(
                    PropertyChange::WmiStatus {
                        old: clone_optional(&self.wmi_status),
                        new: clone_optional(&other.wmi_status),
                    },
                )
            } else {
                None
            },
        }
    }

    /// Compares this snapshot with a later one and returns the changes: one
    /// event for each property in which the two differ, in the order in
    /// which the properties are declared.  Every property is compared.
    pub fn compare_with(&self, other: &Printer) -> (r: PrinterChanges)
        ensures
            r.printer_name@ == self@.name,
            r.events() == self@.diff(other@),
    {
        let mut changes = PrinterChanges::new(self.name.clone());
        let mut list: Vec<PropertyChange> = Vec::new();
        assert(events_of(list@) =~= Seq::empty());
        note_change(&mut list, self.change_in(other, MonitorableProperty::Name));
        note_change(&mut list, self.change_in(other, MonitorableProperty::Status));
        note_change(&mut list, self.change_in(other, MonitorableProperty::State));
        note_change(&mut list, self.change_in(other, MonitorableProperty::ErrorState));
        note_change(&mut list, self.change_in(other, MonitorableProperty::IsOffline));
        note_change(&mut list, self.change_in(other, MonitorableProperty::IsDefault));
        note_change(&mut list, self.change_in(other, MonitorableProperty::PrinterStatusCode));
        note_change(&mut list, self.change_in(other, MonitorableProperty::PrinterStateCode));
        note_change(&mut list, self.change_in(other, MonitorableProperty::DetectedErrorStateCode));
        note_change(
            &mut list,
            self.change_in(other, MonitorableProperty::ExtendedDetectedErrorStateCode),
        );
        note_change(
            &mut list,
            self.change_in(other, MonitorableProperty::ExtendedPrinterStatusCode),
        );
        note_change(&mut list, self.change_in(other, MonitorableProperty::WmiStatus));
        assert(Seq::<ChangeView>::empty() + self@.delta(other@, MonitorableProperty::Name)
            =~= self@.delta(other@, MonitorableProperty::Name));
        changes.changes = list;
        changes
    }

    /// Derives a snapshot from a raw record.  A record without a name gets
    /// the placeholder name.  The status follows the state code where that
    /// code is present and its state corresponds to a status, and the status
    /// code otherwise.  The printer counts as offline as soon as one signal
    /// says so.
    pub fn from_record(record: Win32Printer) -> (p: Printer)
        ensures
            p@ == derived_snapshot(record@),
    {
        let state = match record.printer_state {
            Some(code) => Some(PrinterState::from_u32(code)),
            None => None,
        };
        let by_code = PrinterStatus::from_u32(record.printer_status);
        let status = match state {
            Some(st) => {
                let by_state = st.to_printer_status();
                if by_state != PrinterStatus::StatusUnknown {
                    by_state
                } else {
                    by_code
                }
            },
            None => by_code,
        };
        let unreachable = match state {
            Some(PrinterState::Offline)
            | Some(PrinterState::Error)
            | Some(PrinterState::NotAvailable)
            | Some(PrinterState::ServerUnknown) => true,
            _ => false,
        };
        let degraded = match &record.status {
            Some(text) => degraded_health(text.as_str()),
            None => false,
        };
        let is_offline = record.work_offline == Some(true) || status == PrinterStatus::Offline
            || unreachable || record.extended_printer_status == Some(EXTENDED_STATUS_OFFLINE)
            || degraded;
        let name = match record.name {
            Some(name) => name,
            None => String::from_str("Unknown Printer"),
        };
        Printer {
            name,
            status,
            state,
            error_state: ErrorState::from_u32(record.detected_error_state),
            is_offline,
            is_default: record.default == Some(true),
            printer_status_code: record.printer_status,
            printer_state_code: record.printer_state,
            detected_error_state_code: record.detected_error_state,
            extended_detected_error_state_code: record.extended_detected_error_state,
            extended_printer_status_code: record.extended_printer_status,
            wmi_status: record.status,
        }
    }
}

} // verus!
