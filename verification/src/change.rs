//! Change events: one property's old and new value, and the set of changes
//! found between two snapshots of a printer.

use vstd::prelude::*;
use vstd::string::*;

use crate::clock::Timestamp;
use crate::monitor::MonitorableProperty;
use crate::status::{ErrorState, PrinterState, PrinterStatus};
use crate::text::{
    code_string, code_text, decimal, decimal_string, flag_string, flag_text, optional_string,
    optional_text, same_text,
};

verus! {

/// A change of one property of a printer, with the value before and after.
#[allow(inconsistent_fields)]
#[derive(Debug, PartialEq)]
pub enum PropertyChange {
    Name { old: String, new: String },
    Status { old: PrinterStatus, new: PrinterStatus },
    State { old: Option<PrinterState>, new: Option<PrinterState> },
    ErrorState { old: ErrorState, new: ErrorState },
    IsOffline { old: bool, new: bool },
    IsDefault { old: bool, new: bool },
    PrinterStatusCode { old: Option<u32>, new: Option<u32> },
    PrinterStateCode { old: Option<u32>, new: Option<u32> },
    DetectedErrorStateCode { old: Option<u32>, new: Option<u32> },
    ExtendedDetectedErrorStateCode { old: Option<u32>, new: Option<u32> },
    ExtendedPrinterStatusCode { old: Option<u32>, new: Option<u32> },
    WmiStatus { old: Option<String>, new: Option<String> },
}

/// What a `PropertyChange` holds, with strings as character sequences.
#[allow(inconsistent_fields)]
pub enum ChangeView {
    Name { old: Seq<char>, new: Seq<char> },
    Status { old: PrinterStatus, new: PrinterStatus },
    State { old: Option<PrinterState>, new: Option<PrinterState> },
    ErrorState { old: ErrorState, new: ErrorState },
    IsOffline { old: bool, new: bool },
    IsDefault { old: bool, new: bool },
    PrinterStatusCode { old: Option<u32>, new: Option<u32> },
    PrinterStateCode { old: Option<u32>, new: Option<u32> },
    DetectedErrorStateCode { old: Option<u32>, new: Option<u32> },
    ExtendedDetectedErrorStateCode { old: Option<u32>, new: Option<u32> },
    ExtendedPrinterStatusCode { old: Option<u32>, new: Option<u32> },
    WmiStatus { old: Option<Seq<char>>, new: Option<Seq<char>> },
}

/// The characters of an optional string.
pub open spec fn optional_view(text: Option<String>) -> Option<Seq<char>> {
    match text {
        Some(t) => Some(t@),
        None => None,
    }
}

/// One line of a change report: the label, then the old and the new value
/// with an arrow between them.
pub open spec fn change_line(label: Seq<char>, old: Seq<char>, new: Seq<char>) -> Seq<char> {
    label + ": "@ + old + " → "@ + new
}

/// A text between single quotes.
pub open spec fn single_quoted(text: Seq<char>) -> Seq<char> {
    "'"@ + text + "'"@
}

/// How an optional queue state reads: its description, or `None`.
pub open spec fn state_text(state: Option<PrinterState>) -> Seq<char> {
    match state {
        Some(s) => s.spec_description(),
        None => "None"@,
    }
}

/// The texts of a sequence joined with `, ` between them.
pub open spec fn comma_joined(parts: Seq<Seq<char>>) -> Seq<char>
    decreases parts.len(),
{
    if parts.len() == 0 {
        Seq::empty()
    } else if parts.len() == 1 {
        parts[0]
    } else {
        comma_joined(parts.drop_last()) + ", "@ + parts.last()
    }
}

/// The property names of a sequence of changes, in order.
pub open spec fn property_names(changes: Seq<ChangeView>) -> Seq<Seq<char>> {
    changes.map_values(|c: ChangeView| c.property().spec_as_str())
}

/// The summary line of a sequence of changes.
pub open spec fn summary_text(changes: Seq<ChangeView>) -> Seq<char> {
    if changes.len() == 0 {
        "No changes detected"@
    } else {
        decimal(changes.len()) + " properties changed: "@ + comma_joined(property_names(changes))
    }
}

/// The changes of a sequence that concern the property with the given name,
/// in order.
pub open spec fn changes_named(changes: Seq<ChangeView>, name: Seq<char>) -> Seq<ChangeView> {
    changes.filter(|c: ChangeView| c.property().spec_as_str() == name)
}

/// The changes of a sequence that concern the given property, in order.
pub open spec fn changes_of(changes: Seq<ChangeView>, property: MonitorableProperty) -> Seq<
    ChangeView,
> {
    changes.filter(|c: ChangeView| c.property() == property)
}

impl ChangeView {
    /// The property that this change concerns.
    pub open spec fn property(self) -> MonitorableProperty {
        match self {
            ChangeView::Name { .. } => MonitorableProperty::Name,
            ChangeView::Status { .. } => MonitorableProperty::Status,
            ChangeView::State { .. } => MonitorableProperty::State,
            ChangeView::ErrorState { .. } => MonitorableProperty::ErrorState,
            ChangeView::IsOffline { .. } => MonitorableProperty::IsOffline,
            ChangeView::IsDefault { .. } => MonitorableProperty::IsDefault,
            ChangeView::PrinterStatusCode { .. } => MonitorableProperty::PrinterStatusCode,
            ChangeView::PrinterStateCode { .. } => MonitorableProperty::PrinterStateCode,
            ChangeView::DetectedErrorStateCode { .. } => MonitorableProperty::DetectedErrorStateCode,
            ChangeView::ExtendedDetectedErrorStateCode { .. } =>
                MonitorableProperty::ExtendedDetectedErrorStateCode,
            ChangeView::ExtendedPrinterStatusCode { .. } =>
                MonitorableProperty::ExtendedPrinterStatusCode,
            ChangeView::WmiStatus { .. } => MonitorableProperty::WmiStatus,
        }
    }

    /// The line that describes this change.
    pub open spec fn description(self) -> Seq<char> {
        match self {
            ChangeView::Name { old, new } => change_line(
                "Name"@,
                single_quoted(old),
                single_quoted(new),
            ),
            ChangeView::Status { old, new } => change_line(
                "Status"@,
                old.spec_description(),
                new.spec_description(),
            ),
            ChangeView::State { old, new } => change_line(
                "State"@,
                state_text(old),
                state_text(new),
            ),
            ChangeView::ErrorState { old, new } => change_line(
                "ErrorState"@,
                old.spec_description(),
                new.spec_description(),
            ),
            ChangeView::IsOffline { old, new } => change_line(
                "IsOffline"@,
                flag_text(old),
                flag_text(new),
            ),
            ChangeView::IsDefault { old, new } => change_line(
                "IsDefault"@,
                flag_text(old),
                flag_text(new),
            ),
            ChangeView::PrinterStatusCode { old, new } => change_line(
                "PrinterStatusCode"@,
                code_text(old),
                code_text(new),
            ),
            ChangeView::PrinterStateCode { old, new } => change_line(
                "PrinterStateCode"@,
                code_text(old),
                code_text(new),
            ),
            ChangeView::DetectedErrorStateCode { old, new } => change_line(
                "DetectedErrorStateCode"@,
                code_text(old),
                code_text(new),
            ),
            ChangeView::ExtendedDetectedErrorStateCode { old, new } => change_line(
                "ExtendedDetectedErrorStateCode"@,
                code_text(old),
                code_text(new),
            ),
            ChangeView::ExtendedPrinterStatusCode { old, new } => change_line(
                "ExtendedPrinterStatusCode"@,
                code_text(old),
                code_text(new),
            ),
            ChangeView::WmiStatus { old, new } => change_line(
                "WmiStatus"@,
                optional_text(old),
                optional_text(new),
            ),
        }
    }
}

impl View for PropertyChange {
    type V = ChangeView;

    open spec fn view(&self) -> ChangeView {
        match *self {
            PropertyChange::Name { old, new } => ChangeView::Name { old: old@, new: new@ },
            PropertyChange::Status { old, new } => ChangeView::Status { old, new },
            PropertyChange::State { old, new } => ChangeView::State { old, new },
            PropertyChange::ErrorState { old, new } => ChangeView::ErrorState { old, new },
            PropertyChange::IsOffline { old, new } => ChangeView::IsOffline { old, new },
            PropertyChange::IsDefault { old, new } => ChangeView::IsDefault { old, new },
            PropertyChange::PrinterStatusCode { old, new } => ChangeView::PrinterStatusCode {
                old,
                new,
            },
            PropertyChange::PrinterStateCode { old, new } => ChangeView::PrinterStateCode {
                old,
                new,
            },
            PropertyChange::DetectedErrorStateCode { old, new } =>
                ChangeView::DetectedErrorStateCode { old, new },
            PropertyChange::ExtendedDetectedErrorStateCode { old, new } =>
                ChangeView::ExtendedDetectedErrorStateCode { old, new },
            PropertyChange::ExtendedPrinterStatusCode { old, new } =>
                ChangeView::ExtendedPrinterStatusCode { old, new },
            PropertyChange::WmiStatus { old, new } => ChangeView::WmiStatus {
                old: optional_view(old),
                new: optional_view(new),
            },
        }
    }
}

/// Copies an optional string.
pub fn clone_optional(text: &Option<String>) -> (r: Option<String>)
    ensures
        r == *text,
{
    match text {
        Some(t) => Some(t.clone()),
        None => None,
    }
}

impl Clone for PropertyChange {
    fn clone(&self) -> (r: PropertyChange)
        ensures
            r == *self,
    {
        match self {
            PropertyChange::Name { old, new } => PropertyChange::Name {
                old: old.clone(),
                new: new.clone(),
            },
            PropertyChange::Status { old, new } => PropertyChange::Status { old: *old, new: *new },
            PropertyChange::State { old, new } => PropertyChange::State { old: *old, new: *new },
            PropertyChange::ErrorState { old, new } => PropertyChange::ErrorState {
                old: *old,
                new: *new,
            },
            PropertyChange::IsOffline { old, new } => PropertyChange::IsOffline {
                old: *old,
                new: *new,
            },
            PropertyChange::IsDefault { old, new } => PropertyChange::IsDefault {
                old: *old,
                new: *new,
            },
            PropertyChange::PrinterStatusCode { old, new } => PropertyChange::PrinterStatusCode {
                old: *old,
                new: *new,
            },
            PropertyChange::PrinterStateCode { old, new } => PropertyChange::PrinterStateCode {
                old: *old,
                new: *new,
            },
            PropertyChange::DetectedErrorStateCode { old, new } =>
                PropertyChange::DetectedErrorStateCode { old: *old, new: *new },
            PropertyChange::ExtendedDetectedErrorStateCode { old, new } =>
                PropertyChange::ExtendedDetectedErrorStateCode { old: *old, new: *new },
            PropertyChange::ExtendedPrinterStatusCode { old, new } =>
                PropertyChange::ExtendedPrinterStatusCode { old: *old, new: *new },
            PropertyChange::WmiStatus { old, new } => PropertyChange::WmiStatus {
                old: clone_optional(old),
                new: clone_optional(new),
            },
        }
    }
}

/// Writes one line of a change report from its three parts.
pub fn render_line(label: &str, old: &str, new: &str) -> (s: String)
    ensures
        s@ == change_line(label@, old@, new@),
{
    let mut s = String::from_str(label);
    s.append(": ");
    s.append(old);
    s.append(" → ");
    s.append(new);
    s
}

/// Puts a text between single quotes.
pub fn quote_single(text: &str) -> (s: String)
    ensures
        s@ == single_quoted(text@),
{
    let mut s = String::from_str("'");
    s.append(text);
    s.append("'");
    s
}

/// Returns the description of an optional queue state, `None` where there is
/// no state.
pub fn state_str(state: &Option<PrinterState>) -> (s: &'static str)
    ensures
        s@ == state_text(*state),
{
    match state {
        Some(st) => st.description(),
        None => "None",
    }
}

impl PropertyChange {
    /// Returns the property that changed.
    pub fn property(&self) -> (p: MonitorableProperty)
        ensures
            p == self@.property(),
    {
        match self {
            PropertyChange::Name { .. } => MonitorableProperty::Name,
            PropertyChange::Status { .. } => MonitorableProperty::Status,
            PropertyChange::State { .. } => MonitorableProperty::State,
            PropertyChange::ErrorState { .. } => MonitorableProperty::ErrorState,
            PropertyChange::IsOffline { .. } => MonitorableProperty::IsOffline,
            PropertyChange::IsDefault { .. } => MonitorableProperty::IsDefault,
            PropertyChange::PrinterStatusCode { .. } => MonitorableProperty::PrinterStatusCode,
            PropertyChange::PrinterStateCode { .. } => MonitorableProperty::PrinterStateCode,
            PropertyChange::DetectedErrorStateCode { .. } =>
                MonitorableProperty::DetectedErrorStateCode,
            PropertyChange::ExtendedDetectedErrorStateCode { .. } =>
                MonitorableProperty::ExtendedDetectedErrorStateCode,
            PropertyChange::ExtendedPrinterStatusCode { .. } =>
                MonitorableProperty::ExtendedPrinterStatusCode,
            PropertyChange::WmiStatus { .. } => MonitorableProperty::WmiStatus,
        }
    }

    /// Returns the name of the property that changed.
    pub fn property_name(&self) -> (s: &'static str)
        ensures
            s@ == self@.property().spec_as_str(),
    {
        match self {
            PropertyChange::Name { .. } => "Name",
            PropertyChange::Status { .. } => "Status",
            PropertyChange::State { .. } => "State",
            PropertyChange::ErrorState { .. } => "ErrorState",
            PropertyChange::IsOffline { .. } => "IsOffline",
            PropertyChange::IsDefault { .. } => "IsDefault",
            PropertyChange::PrinterStatusCode { .. } => "PrinterStatusCode",
            PropertyChange::PrinterStateCode { .. } => "PrinterStateCode",
            PropertyChange::DetectedErrorStateCode { .. } => "DetectedErrorStateCode",
            PropertyChange::ExtendedDetectedErrorStateCode { .. } => {
                "ExtendedDetectedErrorStateCode"
            },
            PropertyChange::ExtendedPrinterStatusCode { .. } => "ExtendedPrinterStatusCode",
            PropertyChange::WmiStatus { .. } => "WmiStatus",
        }
    }

    /// Returns a line that describes the change: the property's name, then
    /// the old and the new value.
    pub fn description(&self) -> (s: String)
        ensures
            s@ == self@.description(),
    {
        match self {
            PropertyChange::Name { old, new } => {
                let a = quote_single(old.as_str());
                let b = quote_single(new.as_str());
                render_line("Name", a.as_str(), b.as_str())
            },
            PropertyChange::Status { old, new } => render_line(
                "Status",
                old.description(),
                new.description(),
            ),
            PropertyChange::State { old, new } => render_line(
                "State",
                state_str(old),
                state_str(new),
            ),
            PropertyChange::ErrorState { old, new } => render_line(
                "ErrorState",
                old.description(),
                new.description(),
            ),
            PropertyChange::IsOffline { old, new } => {
                let a = flag_string(*old);
                let b = flag_string(*new);
                render_line("IsOffline", a.as_str(), b.as_str())
            },
            PropertyChange::IsDefault { old, new } => {
                let a = flag_string(*old);
                let b = flag_string(*new);
                render_line("IsDefault", a.as_str(), b.as_str())
            },
            PropertyChange::PrinterStatusCode { old, new } => {
                let a = code_string(*old);
                let b = code_string(*new);
                render_line("PrinterStatusCode", a.as_str(), b.as_str())
            },
            PropertyChange::PrinterStateCode { old, new } => {
                let a = code_string(*old);
                let b = code_string(*new);
                render_line("PrinterStateCode", a.as_str(), b.as_str())
            },
            PropertyChange::DetectedErrorStateCode { old, new } => {
                let a = code_string(*old);
                let b = code_string(*new);
                render_line("DetectedErrorStateCode", a.as_str(), b.as_str())
            },
            PropertyChange::ExtendedDetectedErrorStateCode { old, new } => {
                let a = code_string(*old);
                let b = code_string(*new);
                render_line("ExtendedDetectedErrorStateCode", a.as_str(), b.as_str())
            },
            PropertyChange::ExtendedPrinterStatusCode { old, new } => {
                let a = code_string(*old);
                let b = code_string(*new);
                render_line("ExtendedPrinterStatusCode", a.as_str(), b.as_str())
            },
            PropertyChange::WmiStatus { old, new } => {
                let a = optional_string(old);
                let b = optional_string(new);
                render_line("WmiStatus", a.as_str(), b.as_str())
            },
        }
    }
}

/// The changes found for one printer at one poll.
#[derive(Debug)]
pub struct PrinterChanges {
    /// The name of the printer that the changes belong to.
    pub printer_name: String,
    /// The changes, in the order in which the properties are declared.
    pub changes: Vec<PropertyChange>,
    /// When the changes were detected.
    pub timestamp: Timestamp,
}

/// Filtering the first `i + 1` items of a sequence is filtering the first
/// `i` and then deciding on the item at `i`.
pub proof fn lemma_filter_take<A>(s: Seq<A>, pred: spec_fn(A) -> bool, i: int)
    requires
        0 <= i < s.len(),
    ensures
        s.take(i + 1).filter(pred) == if pred(s[i]) {
            s.take(i).filter(pred).push(s[i])
        } else {
            s.take(i).filter(pred)
        },
{
    reveal(Seq::filter);
    assert(s.take(i + 1).drop_last() =~= s.take(i));
}

/// A list of changes as a sequence of plain events.
pub open spec fn events_of(changes: Seq<PropertyChange>) -> Seq<ChangeView> {
    changes.map_values(|c: PropertyChange| c@)
}

/// The event of an optional change, as a sequence of one or none.
pub open spec fn optional_event(change: Option<PropertyChange>) -> Seq<ChangeView> {
    match change {
        Some(c) => seq![c@],
        None => Seq::empty(),
    }
}

/// Appends a change to a list, if there is one.
pub fn note_change(list: &mut Vec<PropertyChange>, change: Option<PropertyChange>)
    ensures
        events_of(final(list)@) == events_of(old(list)@) + optional_event(change),
{
    match change {
        Some(c) => {
            list.push(c);
            assert(events_of(list@) =~= events_of(old(list)@) + seq![c@]);
        },
        None => {
            assert(events_of(list@) =~= events_of(old(list)@) + Seq::empty());
        },
    }
}

/// Asking for the changes of a property by its name is asking for the
/// changes of that property: among the changes of a sequence, those named
/// as a property is named are those that concern it.
pub proof fn lemma_changes_named_are_changes_of(
    changes: Seq<ChangeView>,
    property: MonitorableProperty,
)
    ensures
        changes_named(changes, property.spec_as_str()) == changes_of(changes, property),
    decreases changes.len(),
{
    reveal(Seq::filter);
    if changes.len() > 0 {
        lemma_changes_named_are_changes_of(changes.drop_last(), property);
        let last = changes.last().property();
        if last.spec_as_str() == property.spec_as_str() {
            MonitorableProperty::lemma_as_str_injective(last, property);
        }
    }
}

impl Clone for PrinterChanges {
    fn clone(&self) -> (r: PrinterChanges)
        ensures
            r.printer_name == self.printer_name,
            r.changes@ == self.changes@,
            r.timestamp == self.timestamp,
    {
        let mut changes: Vec<PropertyChange> = Vec::new();
        let mut i: usize = 0;
        while i < self.changes.len()
            invariant
                i <= self.changes.len(),
                changes@ == self.changes@.take(i as int),
            decreases self.changes.len() - i,
        {
            changes.push(self.changes[i].clone());
            assert(changes@ =~= self.changes@.take(i + 1));
            i += 1;
        }
        assert(self.changes@.take(i as int) =~= self.changes@);
        PrinterChanges { printer_name: self.printer_name.clone(), changes, timestamp: self.timestamp }
    }
}

impl PrinterChanges {
    /// The changes as a sequence of plain events.
    pub open spec fn events(&self) -> Seq<ChangeView> {
        events_of(self.changes@)
    }

    /// Creates a change set without changes for the named printer, stamped
    /// with the current time.
    pub fn new(printer_name: String) -> (r: PrinterChanges)
        ensures
            r.printer_name == printer_name,
            r.changes@.len() == 0,
    {
        PrinterChanges { printer_name, changes: Vec::new(), timestamp: Timestamp::now() }
    }

    /// Tells whether any change was detected.
    pub fn has_changes(&self) -> (b: bool)
        ensures
            b == (self.changes@.len() > 0),
    {
        self.changes.len() > 0
    }

    /// Returns the number of properties that changed.
    pub fn change_count(&self) -> (n: usize)
        ensures
            n == self.changes@.len(),
    {
        self.changes.len()
    }

    /// Tells whether the property with the given name changed.
    pub fn has_property_change(&self, property_name: &str) -> (b: bool)
        ensures
            b == (changes_named(self.events(), property_name@).len() > 0),
            b == exists|i: int|
                0 <= i < self.events().len() && (#[trigger] self.events()[i]).property().spec_as_str()
                    == property_name@,
    {
        let ghost pred = |c: ChangeView| c.property().spec_as_str() == property_name@;
        let mut i: usize = 0;
        while i < self.changes.len()
            invariant
                i <= self.changes.len(),
                pred == |c: ChangeView| c.property().spec_as_str() == property_name@,
                self.events().take(i as int).filter(pred).len() == 0,
                forall|j: int| 0 <= j < i ==> !pred(#[trigger] self.events()[j]),
            decreases self.changes.len() - i,
        {
            proof {
                lemma_filter_take(self.events(), pred, i as int);
            }
            if same_text(self.changes[i].property_name(), property_name) {
                proof {
                    self.events().lemma_filter_contains(pred, i as int);
                    assert(pred(self.events()[i as int]));
                }
                return true;
            }
            i += 1;
        }
        assert(self.events().take(i as int) =~= self.events());
        false
    }

    /// Returns the changes that concern the property with the given name, in
    /// order.
    pub fn get_property_changes(&self, property_name: &str) -> (found: Vec<&PropertyChange>)
        ensures
            found@.map_values(|c: &PropertyChange| c@) == changes_named(
                self.events(),
                property_name@,
            ),
    {
        let ghost pred = |c: ChangeView| c.property().spec_as_str() == property_name@;
        let mut found: Vec<&PropertyChange> = Vec::new();
        let mut i: usize = 0;
        while i < self.changes.len()
            invariant
                i <= self.changes.len(),
                pred == |c: ChangeView| c.property().spec_as_str() == property_name@,
                found@.map_values(|c: &PropertyChange| c@) == self.events().take(i as int).filter(
                    pred,
                ),
            decreases self.changes.len() - i,
        {
            proof {
                lemma_filter_take(self.events(), pred, i as int);
            }
            let ghost before = found@;
            if same_text(self.changes[i].property_name(), property_name) {
                found.push(&self.changes[i]);
                assert(found@.map_values(|c: &PropertyChange| c@) =~= before.map_values(
                    |c: &PropertyChange| c@,
                ).push(self.events()[i as int]));
            }
            i += 1;
        }
        assert(self.events().take(i as int) =~= self.events());
        found
    }

    /// Returns a one-line summary: that nothing changed, or how many
    /// properties changed and their names.
    pub fn summary(&self) -> (s: String)
        ensures
            s@ == summary_text(self.events()),
    {
        if self.changes.len() == 0 {
            return String::from_str("No changes detected");
        }
        let mut s = decimal_string(self.changes.len() as u64);
        s.append(" properties changed: ");
        let ghost head = s@;
        let ghost names = property_names(self.events());
        let mut i: usize = 0;
        while i < self.changes.len()
            invariant
                i <= self.changes.len(),
                names == property_names(self.events()),
                names.len() == self.changes.len(),
                s@ == head + comma_joined(names.take(i as int)),
            decreases self.changes.len() - i,
        {
            assert(names.take(i + 1).drop_last() =~= names.take(i as int));
            assert(names.take(i + 1).last() == names[i as int]);
            if i > 0 {
                s.append(", ");
            }
            s.append(self.changes[i].property_name());
            assert(s@ =~= head + comma_joined(names.take(i + 1)));
            i += 1;
        }
        assert(names.take(i as int) =~= names);
        s
    }
}

impl PrinterChanges {
    /// Keeps the changes of one property.  Returns nothing if none is left.
    pub fn only(self, property: MonitorableProperty) -> (r: Option<PrinterChanges>)
        ensures
            match r {
                Some(kept) => kept.printer_name == self.printer_name && kept.timestamp
                    == self.timestamp && kept.events() == changes_of(self.events(), property)
                    && kept.changes@.len() > 0,
                None => changes_of(self.events(), property).len() == 0,
            },
    {
        let ghost pred = |c: ChangeView| c.property() == property;
        let mut kept: Vec<PropertyChange> = Vec::new();
        let mut i: usize = 0;
        assert(events_of(kept@) =~= self.events().take(0).filter(pred)) by {
            reveal(Seq::filter);
        }
        while i < self.changes.len()
            invariant
                i <= self.changes.len(),
                pred == |c: ChangeView| c.property() == property,
                events_of(kept@) == self.events().take(i as int).filter(pred),
            decreases self.changes.len() - i,
        {
            proof {
                lemma_filter_take(self.events(), pred, i as int);
            }
            let ghost before = kept@;
            if self.changes[i].property() == property {
                kept.push(self.changes[i].clone());
                assert(events_of(kept@) =~= events_of(before).push(self.events()[i as int]));
            }
            i += 1;
        }
        assert(self.events().take(i as int) =~= self.events());
        if kept.len() == 0 {
            None
        } else {
            Some(
                PrinterChanges {
                    printer_name: self.printer_name,
                    changes: kept,
                    timestamp: self.timestamp,
                },
            )
        }
    }
}

} // verus!
