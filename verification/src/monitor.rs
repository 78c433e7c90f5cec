//! Monitoring of printers by polling: which properties can be watched, and
//! what each poll of a printer reports.

use vstd::prelude::*;
use vstd::string::*;

use crate::change::{changes_of, ChangeView, PrinterChanges, PropertyChange};
use crate::error::PrinterError;
use crate::group::{GroupState, MonitorGroup};
use crate::printer::{optional_snapshot, Printer, Snapshot};
use crate::status::{ErrorState, PrinterStatus};
use crate::text::same_text;

verus! {

/// A property of a printer that can be watched for changes.  The variants
/// stand in the order in which changes are reported.
#[derive(Debug, Clone, Copy, PartialEq, Eq, Structural)]
pub enum MonitorableProperty {
    /// The printer's name.
    Name,
    /// The operational status.
    Status,
    /// The queue state.
    State,
    /// The error condition.
    ErrorState,
    /// Whether the printer is offline.
    IsOffline,
    /// Whether the printer is the default printer.
    IsDefault,
    /// The raw status code (1 to 7).
    PrinterStatusCode,
    /// The raw state code (queue status flags).
    PrinterStateCode,
    /// The raw detected-error code (0 to 11).
    DetectedErrorStateCode,
    /// The raw extended detected-error code.
    ExtendedDetectedErrorStateCode,
    /// The raw extended status code.
    ExtendedPrinterStatusCode,
    /// The free-text health string.
    WmiStatus,
}

impl MonitorableProperty {
    /// The name of this property, as change events carry it.
    pub open spec fn spec_as_str(self) -> Seq<char> {
        match self {
            MonitorableProperty::Name => "Name"@,
            MonitorableProperty::Status => "Status"@,
            MonitorableProperty::State => "State"@,
            MonitorableProperty::ErrorState => "ErrorState"@,
            MonitorableProperty::IsOffline => "IsOffline"@,
            MonitorableProperty::IsDefault => "IsDefault"@,
            MonitorableProperty::PrinterStatusCode => "PrinterStatusCode"@,
            MonitorableProperty::PrinterStateCode => "PrinterStateCode"@,
            MonitorableProperty::DetectedErrorStateCode => "DetectedErrorStateCode"@,
            MonitorableProperty::ExtendedDetectedErrorStateCode => "ExtendedDetectedErrorStateCode"@,
            MonitorableProperty::ExtendedPrinterStatusCode => "ExtendedPrinterStatusCode"@,
            MonitorableProperty::WmiStatus => "WmiStatus"@,
        }
    }

    /// What this property stands for, in words.
    pub open spec fn spec_description(self) -> Seq<char> {
        match self {
            MonitorableProperty::Name => "Printer name"@,
            MonitorableProperty::Status => "Current printer status (recommended)"@,
            MonitorableProperty::State => "Printer state (legacy Windows property)"@,
            MonitorableProperty::ErrorState => "Current error condition"@,
            MonitorableProperty::IsOffline => "Online/offline status"@,
            MonitorableProperty::IsDefault => "Default printer designation"@,
            MonitorableProperty::PrinterStatusCode => "Raw printer status code (1-7)"@,
            MonitorableProperty::PrinterStateCode => "Raw printer state code (.NET flags)"@,
            MonitorableProperty::DetectedErrorStateCode => "Raw detected error state code (0-11)"@,
            MonitorableProperty::ExtendedDetectedErrorStateCode => "Extended error state code"@,
            MonitorableProperty::ExtendedPrinterStatusCode => "Extended printer status code"@,
            MonitorableProperty::WmiStatus => "WMI status property"@,
        }
    }

    /// The place of this property in the order in which changes are
    /// reported.
    pub open spec fn position(self) -> nat {
        match self {
            MonitorableProperty::Name => 0,
            MonitorableProperty::Status => 1,
            MonitorableProperty::State => 2,
            MonitorableProperty::ErrorState => 3,
            MonitorableProperty::IsOffline => 4,
            MonitorableProperty::IsDefault => 5,
            MonitorableProperty::PrinterStatusCode => 6,
            MonitorableProperty::PrinterStateCode => 7,
            MonitorableProperty::DetectedErrorStateCode => 8,
            MonitorableProperty::ExtendedDetectedErrorStateCode => 9,
            MonitorableProperty::ExtendedPrinterStatusCode => 10,
            MonitorableProperty::WmiStatus => 11,
        }
    }

    /// All properties, in reporting order.
    pub open spec fn spec_all() -> Seq<MonitorableProperty> {
        seq![
            MonitorableProperty::Name,
            MonitorableProperty::Status,
            MonitorableProperty::State,
            MonitorableProperty::ErrorState,
            MonitorableProperty::IsOffline,
            MonitorableProperty::IsDefault,
            MonitorableProperty::PrinterStatusCode,
            MonitorableProperty::PrinterStateCode,
            MonitorableProperty::DetectedErrorStateCode,
            MonitorableProperty::ExtendedDetectedErrorStateCode,
            MonitorableProperty::ExtendedPrinterStatusCode,
            MonitorableProperty::WmiStatus,
        ]
    }

    /// Returns the name of this property, as change events carry it.
    pub fn as_str(&self) -> (s: &'static str)
        ensures
            s@ == self.spec_as_str(),
    {
        match self {
            MonitorableProperty::Name => "Name",
            MonitorableProperty::Status => "Status",
            MonitorableProperty::State => "State",
            MonitorableProperty::ErrorState => "ErrorState",
            MonitorableProperty::IsOffline => "IsOffline",
            MonitorableProperty::IsDefault => "IsDefault",
            MonitorableProperty::PrinterStatusCode => "PrinterStatusCode",
            MonitorableProperty::PrinterStateCode => "PrinterStateCode",
            MonitorableProperty::DetectedErrorStateCode => "DetectedErrorStateCode",
            MonitorableProperty::ExtendedDetectedErrorStateCode => "ExtendedDetectedErrorStateCode",
            MonitorableProperty::ExtendedPrinterStatusCode => "ExtendedPrinterStatusCode",
            MonitorableProperty::WmiStatus => "WmiStatus",
        }
    }

    /// Returns a description of what this property stands for.
    pub fn description(&self) -> (s: &'static str)
        ensures
            s@ == self.spec_description(),
    {
        match self {
            MonitorableProperty::Name => "Printer name",
            MonitorableProperty::Status => "Current printer status (recommended)",
            MonitorableProperty::State => "Printer state (legacy Windows property)",
            MonitorableProperty::ErrorState => "Current error condition",
            MonitorableProperty::IsOffline => "Online/offline status",
            MonitorableProperty::IsDefault => "Default printer designation",
            MonitorableProperty::PrinterStatusCode => "Raw printer status code (1-7)",
            MonitorableProperty::PrinterStateCode => "Raw printer state code (.NET flags)",
            MonitorableProperty::DetectedErrorStateCode => "Raw detected error state code (0-11)",
            MonitorableProperty::ExtendedDetectedErrorStateCode => "Extended error state code",
            MonitorableProperty::ExtendedPrinterStatusCode => "Extended printer status code",
            MonitorableProperty::WmiStatus => "WMI status property",
        }
    }

    /// Returns all properties, in reporting order.
    pub fn all() -> (v: Vec<MonitorableProperty>)
        ensures
            v@ == Self::spec_all(),
    {
        let mut v: Vec<MonitorableProperty> = Vec::new();
        v.push(MonitorableProperty::Name);
        v.push(MonitorableProperty::Status);
        v.push(MonitorableProperty::State);
        v.push(MonitorableProperty::ErrorState);
        v.push(MonitorableProperty::IsOffline);
        v.push(MonitorableProperty::IsDefault);
        v.push(MonitorableProperty::PrinterStatusCode);
        v.push(MonitorableProperty::PrinterStateCode);
        v.push(MonitorableProperty::DetectedErrorStateCode);
        v.push(MonitorableProperty::ExtendedDetectedErrorStateCode);
        v.push(MonitorableProperty::ExtendedPrinterStatusCode);
        v.push(MonitorableProperty::WmiStatus);
        assert(v@ =~= Self::spec_all());
        v
    }

    /// Every property stands in `spec_all` at its position, and nowhere
    /// else.
    pub proof fn lemma_all_is_complete(p: MonitorableProperty)
        ensures
            Self::spec_all().len() == 12,
            p.position() < 12,
            Self::spec_all()[p.position() as int] == p,
            forall|i: int|
                0 <= i < 12 && #[trigger] Self::spec_all()[i] == p ==> i == p.position(),
    {
    }

    /// Two properties with the same name are the same property.
    pub proof fn lemma_as_str_injective(p: MonitorableProperty, q: MonitorableProperty)
        requires
            p.spec_as_str() == q.spec_as_str(),
        ensures
            p == q,
    {
        reveal_strlit("Name");
        reveal_strlit("Status");
        reveal_strlit("State");
        reveal_strlit("ErrorState");
        reveal_strlit("IsOffline");
        reveal_strlit("IsDefault");
        reveal_strlit("PrinterStatusCode");
        reveal_strlit("PrinterStateCode");
        reveal_strlit("DetectedErrorStateCode");
        reveal_strlit("ExtendedDetectedErrorStateCode");
        reveal_strlit("ExtendedPrinterStatusCode");
        reveal_strlit("WmiStatus");
        let a = p.spec_as_str();
        let b = q.spec_as_str();
        assert(a.len() == b.len());
        if a.len() == 9 {
            assert(a[2] == b[2]);
        }
    }
}

/// What a poll of one printer brought: the snapshot if the printer was
/// found, nothing if it is not known, or the error of a failed query.
pub type Lookup = Result<Option<Printer>, PrinterError>;

/// The essentials of a printer's state.
#[derive(Debug, Clone, Copy, PartialEq, Eq, Structural)]
pub struct PrinterSummary {
    /// The operational status.
    pub status: PrinterStatus,
    /// The error condition.
    pub error_state: ErrorState,
    /// Whether the printer is offline.
    pub is_offline: bool,
    /// Whether the printer is the default printer.
    pub is_default: bool,
    /// Whether the printer has an error condition.
    pub has_error: bool,
}

/// The summary of a snapshot.
pub open spec fn summary_of(snapshot: Snapshot) -> PrinterSummary {
    PrinterSummary {
        status: snapshot.status,
        error_state: snapshot.error_state,
        is_offline: snapshot.is_offline,
        is_default: snapshot.is_default,
        has_error: snapshot.error_state != ErrorState::NoError,
    }
}

/// The summaries of a list of printers by name.  Where a name occurs more
/// than once, the last printer of that name counts.
pub open spec fn summaries_of(printers: Seq<Snapshot>) -> Map<Seq<char>, PrinterSummary>
    decreases printers.len(),
{
    if printers.len() == 0 {
        Map::empty()
    } else {
        summaries_of(printers.drop_last()).insert(
            printers.last().name,
            summary_of(printers.last()),
        )
    }
}

/// Whether a list of named summaries holds exactly what a map holds: no
/// name twice, every entry in the map, and every name of the map in an
/// entry.
pub open spec fn lists_exactly(
    entries: Seq<(String, PrinterSummary)>,
    summaries: Map<Seq<char>, PrinterSummary>,
) -> bool {
    &&& forall|i: int, j: int|
        0 <= i < j < entries.len() ==> (#[trigger] entries[i]).0@ != (#[trigger] entries[j]).0@
    &&& forall|i: int|
        0 <= i < entries.len() ==> summaries.contains_key((#[trigger] entries[i]).0@)
            && summaries[entries[i].0@] == entries[i].1
    &&& forall|name: Seq<char>| #[trigger]
        summaries.contains_key(name) ==> exists|i: int|
            0 <= i < entries.len() && (#[trigger] entries[i]).0@ == name
}

/// A report of the whole-snapshot kind: the snapshot that is current now,
/// and the one that was held before, if any.
#[derive(Debug)]
pub struct StatusReport {
    /// The current snapshot; a stand-in marked offline when the printer has
    /// gone.
    pub current: Printer,
    /// The snapshot held before this poll.
    pub previous: Option<Printer>,
}

/// What a report holds, as snapshots.
pub struct ReportView {
    pub current: Snapshot,
    pub previous: Option<Snapshot>,
}

/// What a change set says, without its time stamp.
pub struct ChangeReport {
    pub printer_name: Seq<char>,
    pub events: Seq<ChangeView>,
}

/// The content of an optional status report.
pub open spec fn status_reported(report: Option<StatusReport>) -> Option<ReportView> {
    match report {
        Some(r) => Some(ReportView { current: r.current@, previous: optional_snapshot(r.previous) }),
        None => None,
    }
}

/// The content of an optional change set.
pub open spec fn changes_reported(report: Option<PrinterChanges>) -> Option<ChangeReport> {
    match report {
        Some(r) => Some(ChangeReport { printer_name: r.printer_name@, events: r.events() }),
        None => None,
    }
}

/// Polling state of one monitored printer: its name, and the snapshot seen
/// at the last poll that found it.  Each poll's result is handed to one of
/// the `monitor_` methods, which says what is to be reported to the
/// listener and keeps the snapshot for the next poll.
#[derive(Debug)]
pub struct PrinterMonitor {
    printer_name: String,
    previous_printer: Option<Printer>,
}

/// What a `PrinterMonitor` holds.
pub struct MonitorState {
    pub printer_name: Seq<char>,
    pub previous: Option<Snapshot>,
}

impl View for PrinterMonitor {
    type V = MonitorState;

    closed spec fn view(&self) -> MonitorState {
        MonitorState {
            printer_name: self.printer_name@,
            previous: optional_snapshot(self.previous_printer),
        }
    }
}

impl MonitorState {
    /// The state in which monitoring of the named printer starts.
    pub open spec fn initial(printer_name: Seq<char>) -> MonitorState {
        MonitorState { printer_name, previous: None }
    }

    /// The snapshot that stands for a printer that has gone: unknown status,
    /// unknown error, offline.
    pub open spec fn gone(self) -> Snapshot {
        Snapshot::plain(
            self.printer_name,
            PrinterStatus::StatusUnknown,
            ErrorState::UnknownError,
            true,
            false,
        )
    }

    /// What whole-snapshot monitoring reports for a poll.  A found printer
    /// is reported the first time and whenever it differs from the snapshot
    /// held; a printer that has gone is reported once, by a stand-in.
    pub open spec fn status_report(self, found: Option<Snapshot>) -> Option<ReportView> {
        match found {
            Some(current) => match self.previous {
                Some(previous) => if previous == current {
                    None
                } else {
                    Some(ReportView { current, previous: Some(previous) })
                },
                None => Some(ReportView { current, previous: None }),
            },
            None => match self.previous {
                Some(previous) => Some(
                    ReportView { current: self.gone(), previous: Some(previous) },
                ),
                None => None,
            },
        }
    }

    /// What change monitoring reports for a poll.  The first snapshot of a
    /// printer gives a change set without changes; a later one gives its
    /// differences from the snapshot held, if there are any; a printer that
    /// has gone gives one change, its offline flag going from false to true.
    pub open spec fn change_report(self, found: Option<Snapshot>) -> Option<ChangeReport> {
        match found {
            Some(current) => match self.previous {
                Some(previous) => if previous.diff(current).len() > 0 {
                    Some(
                        ChangeReport {
                            printer_name: previous.name,
                            events: previous.diff(current),
                        },
                    )
                } else {
                    None
                },
                None => Some(ChangeReport { printer_name: current.name, events: Seq::empty() }),
            },
            None => match self.previous {
                Some(previous) => Some(
                    ChangeReport {
                        printer_name: self.printer_name,
                        events: seq![ChangeView::IsOffline { old: false, new: true }],
                    },
                ),
                None => None,
            },
        }
    }

    /// The state after a poll, in either kind of monitoring: what was found
    /// is held.
    pub open spec fn after_poll(self, found: Option<Snapshot>) -> MonitorState {
        MonitorState { previous: found, ..self }
    }

    /// What monitoring of one property reports for a poll: of the change
    /// set that change monitoring reports, the changes of that property, if
    /// there are any.
    pub open spec fn property_report(
        self,
        property: MonitorableProperty,
        found: Option<Snapshot>,
    ) -> Option<ChangeReport> {
        match self.change_report(found) {
            Some(report) => if changes_of(report.events, property).len() > 0 {
                Some(
                    ChangeReport {
                        printer_name: report.printer_name,
                        events: changes_of(report.events, property),
                    },
                )
            } else {
                None
            },
            None => None,
        }
    }
}

impl MonitorState {
    /// The change sets that change monitoring reports over a run of polls,
    /// in order.
    pub open spec fn change_reports(self, polls: Seq<Option<Snapshot>>) -> Seq<ChangeReport>
        decreases polls.len(),
    {
        if polls.len() == 0 {
            Seq::empty()
        } else {
            (match self.change_report(polls[0]) {
                Some(report) => seq![report],
                None => Seq::empty(),
            }) + self.after_poll(polls[0]).change_reports(polls.skip(1))
        }
    }

    /// Whether a change set is that of a first observation of some printer:
    /// it has no changes.
    pub open spec fn is_first_observation(report: ChangeReport) -> bool {
        report.events.len() == 0
    }

    /// Monitoring that starts with the same snapshot twice reports once in
    /// all: the first observation.
    pub proof fn lemma_same_snapshot_twice_reports_once(
        printer_name: Seq<char>,
        snapshot: Snapshot,
    )
        ensures
            Self::initial(printer_name).change_reports(seq![Some(snapshot), Some(snapshot)])
                == seq![ChangeReport { printer_name: snapshot.name, events: Seq::empty() }],
    {
        let start = Self::initial(printer_name);
        let polls = seq![Some(snapshot), Some(snapshot)];
        start.lemma_repeated_snapshot_is_silent(snapshot);
        reveal_with_fuel(MonitorState::change_reports, 3);
        assert(polls.skip(1) =~= seq![Some(snapshot)]);
        assert(polls.skip(1).skip(1) =~= Seq::empty());
        assert(start.change_reports(polls) =~= seq![
            ChangeReport { printer_name: snapshot.name, events: Seq::empty() },
        ]);
    }

    /// A printer that is there, then gone, then there again is reported
    /// three times: first observation, going offline, first observation
    /// again, however the snapshot after the gap differs from the one before.
    pub proof fn lemma_gap_starts_over(
        printer_name: Seq<char>,
        before: Snapshot,
        after: Snapshot,
    )
        ensures
            Self::initial(printer_name).change_reports(seq![Some(before), None, Some(after)])
                == seq![
                ChangeReport { printer_name: before.name, events: Seq::empty() },
                ChangeReport {
                    printer_name,
                    events: seq![ChangeView::IsOffline { old: false, new: true }],
                },
                ChangeReport { printer_name: after.name, events: Seq::empty() },
            ],
    {
        let start = Self::initial(printer_name);
        let polls = seq![Some(before), None, Some(after)];
        reveal_with_fuel(MonitorState::change_reports, 4);
        assert(polls.skip(1) =~= seq![None, Some(after)]);
        assert(polls.skip(1).skip(1) =~= seq![Some(after)]);
        assert(polls.skip(1).skip(1).skip(1) =~= Seq::empty());
        assert(start.change_reports(polls) =~= seq![
            ChangeReport { printer_name: before.name, events: Seq::empty() },
            ChangeReport {
                printer_name,
                events: seq![ChangeView::IsOffline { old: false, new: true }],
            },
            ChangeReport { printer_name: after.name, events: Seq::empty() },
        ]);
    }

    /// The first thing reported of a printer is always a first observation:
    /// no differences are reported before it, whatever the polls bring.
    pub proof fn lemma_first_report_is_first_observation(
        printer_name: Seq<char>,
        polls: Seq<Option<Snapshot>>,
    )
        ensures
            Self::initial(printer_name).change_reports(polls).len() > 0
                ==> Self::is_first_observation(
                Self::initial(printer_name).change_reports(polls)[0],
            ),
        decreases polls.len(),
    {
        let start = Self::initial(printer_name);
        if polls.len() > 0 {
            match polls[0] {
                Some(snapshot) => {},
                None => {
                    assert(start.after_poll(None) == start);
                    Self::lemma_first_report_is_first_observation(printer_name, polls.skip(1));
                    assert(start.change_reports(polls) =~= start.change_reports(polls.skip(1)));
                },
            }
        }
    }

    /// A snapshot fed twice in a row is reported at most once.  Whatever
    /// the state before, once a snapshot has been taken, the same snapshot
    /// at the next poll gives no report and leaves the state as it is, in
    /// change monitoring and in whole-snapshot monitoring alike.  Monitoring
    /// that starts with it reports it, as the first observation with no
    /// changes: one report in all.
    pub proof fn lemma_repeated_snapshot_is_silent(self, snapshot: Snapshot)
        ensures
            self.after_poll(Some(snapshot)).change_report(Some(snapshot)) is None,
            self.after_poll(Some(snapshot)).status_report(Some(snapshot)) is None,
            self.after_poll(Some(snapshot)).after_poll(Some(snapshot)) == self.after_poll(
                Some(snapshot),
            ),
            self.previous is None ==> self.change_report(Some(snapshot)) == Some(
                ChangeReport { printer_name: snapshot.name, events: Seq::empty() },
            ),
            self.previous is None ==> self.status_report(Some(snapshot)) == Some(
                ReportView { current: snapshot, previous: None },
            ),
    {
        snapshot.lemma_diff_detects_every_difference(snapshot);
    }

    /// A printer that has gone is reported once, as going offline, and is
    /// then forgotten.  With a snapshot held, a poll that does not find the
    /// printer gives a change set with the one change that the offline flag
    /// goes from false to true, and leaves no snapshot; a further poll that
    /// does not find it gives nothing; and whatever snapshot is found next
    /// is a first observation, reported without changes.  Whole-snapshot
    /// monitoring reports the going by a stand-in that is offline.
    pub proof fn lemma_disappearance_reports_offline(self, reappeared: Snapshot)
        requires
            self.previous is Some,
        ensures
            self.change_report(None) == Some(
                ChangeReport {
                    printer_name: self.printer_name,
                    events: seq![ChangeView::IsOffline { old: false, new: true }],
                },
            ),
            self.status_report(None) == Some(
                ReportView { current: self.gone(), previous: self.previous },
            ),
            self.gone().is_offline,
            self.after_poll(None).previous is None,
            self.after_poll(None).change_report(None) is None,
            self.after_poll(None).status_report(None) is None,
            self.after_poll(None).change_report(Some(reappeared)) == Some(
                ChangeReport { printer_name: reappeared.name, events: Seq::empty() },
            ),
            self.after_poll(None).status_report(Some(reappeared)) == Some(
                ReportView { current: reappeared, previous: None },
            ),
    {
    }

    /// The two kinds of monitoring report at the same polls: whole-snapshot
    /// monitoring reports a poll exactly when change monitoring does.
    pub proof fn lemma_both_kinds_report_together(self, found: Option<Snapshot>)
        ensures
            self.status_report(found) is Some <==> self.change_report(found) is Some,
    {
        if let (Some(previous), Some(current)) = (self.previous, found) {
            previous.lemma_diff_detects_every_difference(current);
        }
    }

    /// Monitoring of one property never reports a change set without
    /// changes, and reports changes of that property only; it reports
    /// nothing where change monitoring reports nothing.
    pub proof fn lemma_property_report_is_never_empty(
        self,
        property: MonitorableProperty,
        found: Option<Snapshot>,
    )
        ensures
            match self.property_report(property, found) {
                Some(report) => report.events.len() > 0 && forall|i: int|
                    0 <= i < report.events.len() ==> (#[trigger] report.events[i]).property()
                        == property,
                None => true,
            },
            self.change_report(found) is None ==> self.property_report(property, found) is None,
            self.previous is None ==> self.property_report(property, found) is None,
    {
        match self.change_report(found) {
            Some(report) => {
                let pred = |c: ChangeView| c.property() == property;
                broadcast use vstd::seq_lib::group_filter_ensures;

                assert(forall|i: int|
                    0 <= i < report.events.filter(pred).len() ==> pred(
                        #[trigger] report.events.filter(pred)[i],
                    ));
                if self.previous is None {
                    assert(report.events.len() == 0);
                    report.events.lemma_filter_len(pred);
                }
            },
            None => {},
        }
    }
}

impl PrinterMonitor {
    /// Starts monitoring the named printer: no snapshot is held yet.
    pub fn new(printer_name: String) -> (m: PrinterMonitor)
        ensures
            m@ == MonitorState::initial(printer_name@),
    {
        PrinterMonitor { printer_name, previous_printer: None }
    }

    /// Returns the name of the monitored printer.
    pub fn printer_name(&self) -> (s: &str)
        ensures
            s@ == self@.printer_name,
    {
        self.printer_name.as_str()
    }

    /// Returns the snapshot held from the last poll that found the printer.
    pub fn previous_printer(&self) -> (r: Option<&Printer>)
        ensures
            match r {
                Some(printer) => self@.previous == Some(printer@),
                None => self@.previous is None,
            },
    {
        match &self.previous_printer {
            Some(printer) => Some(printer),
            None => None,
        }
    }

    /// Returns the essentials of each listed printer by name: one entry for
    /// each name, with the summary of the last printer of that name.
    pub fn printer_summary(printers: &Vec<Printer>) -> (r: Vec<(String, PrinterSummary)>)
        ensures
            lists_exactly(r@, summaries_of(printers@.map_values(|p: Printer| p@))),
    {
        let ghost snapshots = printers@.map_values(|p: Printer| p@);
        let mut entries: Vec<(String, PrinterSummary)> = Vec::new();
        let mut k: usize = 0;
        assert(snapshots.take(0) =~= Seq::empty());
        while k < printers.len()
            invariant
                k <= printers.len(),
                snapshots == printers@.map_values(|p: Printer| p@),
                lists_exactly(entries@, summaries_of(snapshots.take(k as int))),
            decreases printers.len() - k,
        {
            let printer = &printers[k];
            let summary = PrinterSummary {
                status: *printer.status(),
                error_state: *printer.error_state(),
                is_offline: printer.is_offline(),
                is_default: printer.is_default(),
                has_error: printer.has_error(),
            };
            let ghost before = entries@;
            let ghost known = summaries_of(snapshots.take(k as int));
            proof {
                assert(snapshots.take(k + 1).drop_last() =~= snapshots.take(k as int));
                assert(snapshots.take(k + 1).last() == printer@);
                assert(summaries_of(snapshots.take(k + 1)) == known.insert(
                    printer@.name,
                    summary,
                ));
            }
            let mut at: usize = 0;
            while at < entries.len() && !same_text(entries[at].0.as_str(), printer.name())
                invariant
                    at <= entries.len(),
                    forall|j: int| 0 <= j < at ==> (#[trigger] entries@[j]).0@ != printer@.name,
                decreases entries.len() - at,
            {
                at += 1;
            }
            let entry = (String::from_str(printer.name()), summary);
            if at < entries.len() {
                entries.set(at, entry);
            } else {
                entries.push(entry);
            }
            proof {
                let now = known.insert(printer@.name, summary);
                assert forall|name: Seq<char>| #[trigger] now.contains_key(name) implies exists|
                    i: int,
                | 0 <= i < entries@.len() && (#[trigger] entries@[i]).0@ == name by {
                    if name == printer@.name {
                        assert(entries@[at as int].0@ == name);
                    } else {
                        assert(known.contains_key(name));
                        let i = choose|i: int|
                            0 <= i < before.len() && (#[trigger] before[i]).0@ == name;
                        assert(entries@[i].0@ == name);
                    }
                }
            }
            k += 1;
        }
        assert(snapshots.take(k as int) =~= snapshots);
        entries
    }

    /// Takes the result of one poll in whole-snapshot monitoring and
    /// returns what is to be reported: the current snapshot with the one
    /// held before, the first time the printer is found and whenever its
    /// condition has changed; a stand-in marked offline when a printer that
    /// was there has gone; nothing otherwise.  A failed query is handed
    /// back as the error that ends the monitoring, and changes nothing.
    pub fn monitor_printer(&mut self, lookup: Lookup) -> (r: Result<
        Option<StatusReport>,
        PrinterError,
    >)
        ensures
            match lookup {
                Ok(found) => r is Ok && status_reported(r->Ok_0) == old(self)@.status_report(
                    optional_snapshot(found),
                ) && final(self)@ == old(self)@.after_poll(optional_snapshot(found)),
                Err(error) => r == Err::<Option<StatusReport>, PrinterError>(error)
                    && final(self)@ == old(self)@,
            },
    {
        match lookup {
            Ok(Some(current)) => {
                let has_changed = match &self.previous_printer {
                    Some(previous) => *previous != current,
                    None => true,
                };
                if has_changed {
                    let previous = self.previous_printer.take();
                    let report = StatusReport { current: current.clone(), previous };
                    self.previous_printer = Some(current);
                    Ok(Some(report))
                } else {
                    Ok(None)
                }
            },
            Ok(None) => {
                match self.previous_printer.take() {
                    Some(previous) => {
                        let gone = Printer::new(
                            self.printer_name.clone(),
                            PrinterStatus::StatusUnknown,
                            ErrorState::UnknownError,
                            true,
                            false,
                        );
                        Ok(Some(StatusReport { current: gone, previous: Some(previous) }))
                    },
                    None => Ok(None),
                }
            },
            Err(error) => Err(error),
        }
    }

    /// Takes the result of one poll in change monitoring and returns the
    /// change set to be reported: one without changes the first time the
    /// printer is found; the differences from the snapshot held, if there
    /// are any, at a later poll; the offline flag going from false to true
    /// when a printer that was there has gone.  A failed query is handed back as
    /// the error that ends the monitoring, and changes nothing.
    pub fn monitor_printer_changes(&mut self, lookup: Lookup) -> (r: Result<
        Option<PrinterChanges>,
        PrinterError,
    >)
        ensures
            match lookup {
                Ok(found) => r is Ok && changes_reported(r->Ok_0) == old(self)@.change_report(
                    optional_snapshot(found),
                ) && final(self)@ == old(self)@.after_poll(optional_snapshot(found)),
                Err(error) => r == Err::<Option<PrinterChanges>, PrinterError>(error)
                    && final(self)@ == old(self)@,
            },
    {
        match lookup {
            Ok(Some(current)) => {
                let report = match &self.previous_printer {
                    Some(previous) => {
                        let changes = previous.compare_with(&current);
                        if changes.has_changes() {
                            Some(changes)
                        } else {
                            None
                        }
                    },
                    None => {
                        let changes = PrinterChanges::new(String::from_str(current.name()));
                        assert(changes.events() =~= Seq::empty());
                        Some(changes)
                    },
                };
                self.previous_printer = Some(current);
                Ok(report)
            },
            Ok(None) => {
                match self.previous_printer.take() {
                    Some(previous) => {
                        let mut changes = PrinterChanges::new(self.printer_name.clone());
                        let mut list: Vec<PropertyChange> = Vec::new();
                        list.push(PropertyChange::IsOffline { old: false, new: true });
                        changes.changes = list;
                        assert(changes.events() =~= seq![
                            ChangeView::IsOffline { old: false, new: true },
                        ]);
                        Ok(Some(changes))
                    },
                    None => Ok(None),
                }
            },
            Err(error) => Err(error),
        }
    }

    /// Takes the result of one poll in monitoring of one property and
    /// returns the changes of that property to be reported.  This is change
    /// monitoring with everything else left out: a change set in which
    /// nothing is left is not reported at all.
    pub fn monitor_property(&mut self, property: MonitorableProperty, lookup: Lookup) -> (r:
        Result<Option<PrinterChanges>, PrinterError>)
        ensures
            match lookup {
                Ok(found) => r is Ok && changes_reported(r->Ok_0) == old(self)@.property_report(
                    property,
                    optional_snapshot(found),
                ) && final(self)@ == old(self)@.after_poll(optional_snapshot(found)),
                Err(error) => r == Err::<Option<PrinterChanges>, PrinterError>(error)
                    && final(self)@ == old(self)@,
            },
            r matches Ok(Some(changes)) ==> changes.changes@.len() > 0,
    {
        match self.monitor_printer_changes(lookup) {
            Ok(Some(changes)) => Ok(changes.only(property)),
            Ok(None) => Ok(None),
            Err(error) => Err(error),
        }
    }
}

impl PrinterMonitor {
    /// Starts monitoring several printers at once: one monitor for each
    /// name, in the order of the names, none holding a snapshot yet.
    pub fn monitor_multiple_printers(printer_names: Vec<String>) -> (group: MonitorGroup)
        ensures
            group@ == GroupState::initial(printer_names@),
    {
        MonitorGroup::new(printer_names)
    }
}

} // verus!
