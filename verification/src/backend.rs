//! What the platform services report, turned into printers: the records of
//! the management service, and the text that the `lpstat` command prints.
//! Running the queries is left to the caller.

use vstd::prelude::*;
use vstd::string::*;

use crate::change::optional_view;
use crate::printer::{derived_snapshot, optional_snapshot, Printer, Snapshot, Win32Printer};
use crate::status::{ErrorState, PrinterStatus};
use crate::text::{
    chars_of, found_at, found_from, occurs_at, same_ignoring_ascii_case, same_ignoring_case,
    same_text,
};

verus! {

/// The printers of the management service.
#[derive(Debug)]
pub struct WindowsBackend;

/// The printers of the printing system that `lpstat` reports on.
#[derive(Debug)]
pub struct LinuxBackend;

/// The snapshots of a list of printers.
pub open spec fn snapshots_of(printers: Seq<Printer>) -> Seq<Snapshot> {
    printers.map_values(|p: Printer| p@)
}

/// Whether the printer at `i` is the first of the list whose name is the
/// given one, ASCII letters compared without regard to case.
pub open spec fn is_first_named(printers: Seq<Printer>, name: Seq<char>, i: int) -> bool {
    &&& 0 <= i < printers.len()
    &&& same_ignoring_ascii_case(printers[i]@.name, name)
    &&& forall|j: int|
        0 <= j < i ==> !same_ignoring_ascii_case((#[trigger] printers[j])@.name, name)
}

/// Returns the first printer of the list whose name is the given one, ASCII
/// letters compared without regard to case; nothing if there is none.
pub fn find_by_name(printers: Vec<Printer>, name: &str) -> (r: Option<Printer>)
    ensures
        match r {
            Some(found) => exists|i: int|
                is_first_named(printers@, name@, i) && found == printers@[i],
            None => forall|i: int|
                0 <= i < printers.len() ==> !same_ignoring_ascii_case(
                    (#[trigger] printers@[i])@.name,
                    name@,
                ),
        },
{
    let mut list = printers;
    let mut i: usize = 0;
    while i < list.len()
        invariant
            i <= list.len(),
            list@ == printers@,
            forall|j: int|
                0 <= j < i ==> !same_ignoring_ascii_case((#[trigger] printers@[j])@.name, name@),
        decreases list.len() - i,
    {
        if same_ignoring_case(list[i].name(), name) {
            assert(is_first_named(printers@, name@, i as int));
            return Some(list.swap_remove(i));
        }
        i += 1;
    }
    None
}

/// The words with which `lpstat` begins the line of a printer.
pub open spec fn line_prefix() -> Seq<char> {
    "printer "@
}

/// Whether `at` is the place of the first space of `text` at or after
/// `from`.
pub open spec fn is_first_space(text: Seq<char>, from: int, at: int) -> bool {
    &&& from <= at < text.len()
    &&& text[at] == ' '
    &&& forall|j: int| from <= j < at ==> text[j] != ' '
}

/// Whether `word` occurs in `text` at or after `from`.
pub open spec fn occurs_after(word: Seq<char>, text: Seq<char>, from: int) -> bool {
    exists|i: int| from <= i && occurs_at(word, text, i)
}

/// The snapshot that a printer's line gives, the name ending at the space
/// at `space`: the words after the name decide between idle, printing,
/// stopped or disabled, and unknown, in this order.
pub open spec fn line_snapshot(line: Seq<char>, space: int) -> Snapshot {
    let name = line.subrange(line_prefix().len() as int, space);
    if occurs_after("idle"@, line, space + 1) {
        Snapshot::plain(name, PrinterStatus::Idle, ErrorState::NoError, false, false)
    } else if occurs_after("printing"@, line, space + 1) {
        Snapshot::plain(name, PrinterStatus::Printing, ErrorState::NoError, false, false)
    } else if occurs_after("stopped"@, line, space + 1) || occurs_after(
        "disabled"@,
        line,
        space + 1,
    ) {
        Snapshot::plain(name, PrinterStatus::Offline, ErrorState::Other, true, false)
    } else {
        Snapshot::plain(
            name,
            PrinterStatus::StatusUnknown,
            ErrorState::UnknownError,
            false,
            false,
        )
    }
}

/// What a line of `lpstat` says: the snapshot of a printer if the line
/// begins with `printer `, a name and a space; nothing otherwise.
pub open spec fn line_meaning(line: Seq<char>) -> Option<Snapshot> {
    if line_prefix().is_prefix_of(line) && exists|k: int|
        is_first_space(line, line_prefix().len() as int, k) {
        Some(
            line_snapshot(
                line,
                choose|k: int| is_first_space(line, line_prefix().len() as int, k),
            ),
        )
    } else {
        None
    }
}

/// Reads one line of `lpstat -p`, such as
/// `printer HP_LaserJet_1020 is idle.  enabled since ...`.  The name is
/// what stands between `printer ` and the next space; the rest tells the
/// status.  A line of another form gives nothing.
pub fn parse_lpstat_line(line: &str) -> (r: Option<Printer>)
    ensures
        optional_snapshot(r) == line_meaning(line@),
{
    proof {
        reveal_strlit("printer ");
    }
    let text = chars_of(line);
    let prefix = chars_of("printer ");
    if !found_at(&prefix, &text, 0) {
        assert(!line_prefix().is_prefix_of(line@)) by {
            if line_prefix().is_prefix_of(line@) {
                assert(line@.subrange(0, 8) =~= line_prefix());
            }
        }
        return None;
    }
    assert(line_prefix().is_prefix_of(line@)) by {
        assert(line@.subrange(0, 8) == line_prefix());
        assert(line_prefix() =~= line@.subrange(0, line_prefix().len() as int));
    }
    let mut space: usize = 8;
    while space < text.len() && text[space] != ' '
        invariant
            8 <= space <= text.len(),
            forall|j: int| 8 <= j < space ==> text@[j] != ' ',
        decreases text.len() - space,
    {
        space += 1;
    }
    if space >= text.len() {
        return None;
    }
    assert(is_first_space(line@, 8, space as int));
    let ghost chosen = choose|k: int| is_first_space(line@, 8, k);
    assert(chosen == space);
    let name = String::from_str(line.substring_char(8, space));
    let idle = chars_of("idle");
    let printing = chars_of("printing");
    let stopped = chars_of("stopped");
    let disabled = chars_of("disabled");
    let printer = if found_from(&idle, &text, space + 1) {
        Printer::new(name, PrinterStatus::Idle, ErrorState::NoError, false, false)
    } else if found_from(&printing, &text, space + 1) {
        Printer::new(name, PrinterStatus::Printing, ErrorState::NoError, false, false)
    } else if found_from(&stopped, &text, space + 1) || found_from(&disabled, &text, space + 1) {
        Printer::new(name, PrinterStatus::Offline, ErrorState::Other, true, false)
    } else {
        Printer::new(name, PrinterStatus::StatusUnknown, ErrorState::UnknownError, false, false)
    };
    Some(printer)
}

/// A line without the carriage return at its end, if it has one there.
pub open spec fn without_carriage_return(line: Seq<char>) -> Seq<char> {
    if line.len() > 0 && line.last() == '\r' {
        line.drop_last()
    } else {
        line
    }
}

/// The lines of `text` from `i` on, the line in progress having begun at
/// `start`.  A line ends at a line feed, with or without a carriage return
/// before it; neither belongs to the line.  What follows the last line feed
/// is a line too, unless it is empty.
pub open spec fn lines_scanned(text: Seq<char>, start: int, i: int) -> Seq<Seq<char>>
    decreases text.len() - i,
{
    if i >= text.len() {
        if start < text.len() {
            seq![text.subrange(start, text.len() as int)]
        } else {
            Seq::empty()
        }
    } else if text[i] == '\n' {
        seq![without_carriage_return(text.subrange(start, i))] + lines_scanned(text, i + 1, i + 1)
    } else {
        lines_scanned(text, start, i + 1)
    }
}

/// The lines of a text.
pub open spec fn lines_of(text: Seq<char>) -> Seq<Seq<char>> {
    lines_scanned(text, 0, 0)
}

/// The characters of each of some strings.
pub open spec fn texts_of(lines: Seq<&str>) -> Seq<Seq<char>> {
    lines.map_values(|line: &str| line@)
}

/// Splits a text into its lines.
pub fn lines(text: &str) -> (r: Vec<&str>)
    ensures
        texts_of(r@) == lines_of(text@),
{
    let chars = chars_of(text);
    let mut found: Vec<&str> = Vec::new();
    let mut start: usize = 0;
    let mut i: usize = 0;
    assert(texts_of(found@) + lines_scanned(text@, 0, 0) =~= lines_of(text@));
    while i < chars.len()
        invariant
            chars@ == text@,
            start <= i <= chars.len(),
            texts_of(found@) + lines_scanned(text@, start as int, i as int) == lines_of(text@),
        decreases chars.len() - i,
    {
        let ghost before = found@;
        if chars[i] == '\n' {
            let end = if start < i && chars[i - 1] == '\r' {
                i - 1
            } else {
                i
            };
            let line = text.substring_char(start, end);
            assert(line@ =~= without_carriage_return(text@.subrange(start as int, i as int)));
            found.push(line);
            assert(texts_of(found@) =~= texts_of(before) + seq![line@]);
            assert(texts_of(found@) + lines_scanned(text@, i + 1, i + 1) =~= texts_of(before)
                + lines_scanned(text@, start as int, i as int));
            start = i + 1;
        }
        i += 1;
    }
    if start < chars.len() {
        let ghost before = found@;
        let line = text.substring_char(start, chars.len());
        found.push(line);
        assert(texts_of(found@) =~= texts_of(before) + seq![line@]);
    } else {
        assert(texts_of(found@) + Seq::<Seq<char>>::empty() =~= texts_of(found@));
    }
    found
}

/// The words with which `lpstat -d` names the default printer.
pub open spec fn default_marker() -> Seq<char> {
    "system default destination: "@
}

/// The words with which `lpstat -d` says that there is no default printer.
pub open spec fn no_default_marker() -> Seq<char> {
    "no system default destination"@
}

/// What is left of `text` from `i` on when every occurrence of `word` is
/// taken out, the occurrences found from left to right.
pub open spec fn remainder(text: Seq<char>, word: Seq<char>, i: int) -> Seq<char>
    decreases text.len() - i,
{
    if i >= text.len() {
        Seq::empty()
    } else if word.len() > 0 && occurs_at(word, text, i) {
        remainder(text, word, i + word.len())
    } else {
        seq![text[i]] + remainder(text, word, i + 1)
    }
}

/// The default printer that the lines of `lpstat -d` name, from line `i`
/// on: the first line that begins with one of the two markers decides.  The
/// name is that line without the marker.
pub open spec fn default_named(lines: Seq<Seq<char>>, i: int) -> Option<Seq<char>>
    decreases lines.len() - i,
{
    if i < 0 || i >= lines.len() {
        None
    } else if default_marker().is_prefix_of(lines[i]) {
        Some(remainder(lines[i], default_marker(), 0))
    } else if no_default_marker().is_prefix_of(lines[i]) {
        None
    } else {
        default_named(lines, i + 1)
    }
}

/// Tells whether a text begins with the given words.
pub fn begins_with(text: &Vec<char>, words: &Vec<char>) -> (r: bool)
    ensures
        r == words@.is_prefix_of(text@),
{
    let r = found_at(words, text, 0);
    proof {
        if words@.is_prefix_of(text@) {
            assert(text@.subrange(0, words@.len() as int) =~= words@);
        }
        if r {
            assert(words@ =~= text@.subrange(0, words@.len() as int));
        }
    }
    r
}

/// Returns a line without any occurrence of the given words.
pub fn take_out(line: &str, words: &str) -> (r: String)
    ensures
        r@ == remainder(line@, words@, 0),
{
    let text = chars_of(line);
    let word = chars_of(words);
    let mut kept = String::new();
    let mut i: usize = 0;
    assert(kept@ + remainder(line@, words@, 0) =~= remainder(line@, words@, 0));
    while i < text.len()
        invariant
            text@ == line@,
            word@ == words@,
            i <= text.len(),
            kept@ + remainder(line@, words@, i as int) == remainder(line@, words@, 0),
        decreases text.len() - i,
    {
        if word.len() > 0 && found_at(&word, &text, i) {
            i += word.len();
        } else {
            let ghost before = kept@;
            let piece = line.substring_char(i, i + 1);
            kept.append(piece);
            assert(piece@ =~= seq![line@[i as int]]);
            assert(kept@ + remainder(line@, words@, i + 1) =~= before + remainder(
                line@,
                words@,
                i as int,
            ));
            i += 1;
        }
    }
    assert(kept@ + Seq::<char>::empty() =~= kept@);
    kept
}

impl LinuxBackend {
    /// Reads the printers from what `lpstat -p` printed: one printer for
    /// each line that has the form of a printer's line, in order.  Where a
    /// default printer is given, the printers of exactly that name are
    /// marked as the default.
    pub fn list_printers(lpstat_output: &str, default_printer: Option<&str>) -> (r: Vec<Printer>)
        ensures
            snapshots_of(r@) == listed(
                lines_of(lpstat_output@),
                match default_printer {
                    Some(name) => Some(name@),
                    None => None,
                },
            ),
    {
        let all = lines(lpstat_output);
        let ghost texts = lines_of(lpstat_output@);
        let ghost default = match default_printer {
            Some(name) => Some(name@),
            None => None,
        };
        let mut printers: Vec<Printer> = Vec::new();
        let mut i: usize = 0;
        assert(snapshots_of(printers@) =~= listed(texts.take(0), default));
        while i < all.len()
            invariant
                i <= all.len(),
                texts_of(all@) == texts,
                default == match default_printer {
                    Some(name) => Some(name@),
                    None => None,
                },
                snapshots_of(printers@) == listed(texts.take(i as int), default),
            decreases all.len() - i,
        {
            let ghost before = printers@;
            assert(texts.take(i + 1).drop_last() =~= texts.take(i as int));
            assert(texts.take(i + 1).last() == all@[i as int]@);
            match parse_lpstat_line(all[i]) {
                Some(printer) => {
                    let marked = match default_printer {
                        Some(name) => if same_text(printer.name(), name) {
                            Printer::new(
                                String::from_str(printer.name()),
                                *printer.status(),
                                *printer.error_state(),
                                printer.is_offline(),
                                true,
                            )
                        } else {
                            printer
                        },
                        None => printer,
                    };
                    printers.push(marked);
                    assert(snapshots_of(printers@) =~= snapshots_of(before) + seq![marked@]);
                },
                None => {},
            }
            i += 1;
        }
        assert(texts.take(i as int) =~= texts);
        printers
    }

    /// Reads the default printer from what `lpstat -d` printed: the first
    /// line that begins with `system default destination: ` names it, and
    /// the first that begins with `no system default destination` says that
    /// there is none.
    pub fn get_default_printer(lpstat_output: &str) -> (r: Option<String>)
        ensures
            optional_view(r) == default_named(lines_of(lpstat_output@), 0),
    {
        proof {
            reveal_strlit("system default destination: ");
        }
        let all = lines(lpstat_output);
        let marker = chars_of("system default destination: ");
        let no_marker = chars_of("no system default destination");
        let ghost texts = lines_of(lpstat_output@);
        let mut i: usize = 0;
        while i < all.len()
            invariant
                i <= all.len(),
                texts_of(all@) == texts,
                texts == lines_of(lpstat_output@),
                marker@ == default_marker(),
                no_marker@ == no_default_marker(),
                default_named(texts, i as int) == default_named(texts, 0),
            decreases all.len() - i,
        {
            assert(texts[i as int] == all@[i as int]@);
            let text = chars_of(all[i]);
            if begins_with(&text, &marker) {
                return Some(take_out(all[i], "system default destination: "));
            }
            if begins_with(&text, &no_marker) {
                return None;
            }
            i += 1;
        }
        None
    }

    /// Returns what can be said of printers without `lpstat`: a printer on
    /// the parallel port, of unknown status, if the port's device exists.
    pub fn detect_printers_alternative(parallel_port_present: bool) -> (r: Vec<Printer>)
        ensures
            snapshots_of(r@) == if parallel_port_present {
                seq![
                    Snapshot::plain(
                        "Parallel Port Printer"@,
                        PrinterStatus::StatusUnknown,
                        ErrorState::UnknownError,
                        false,
                        false,
                    ),
                ]
            } else {
                Seq::empty()
            },
    {
        let mut printers: Vec<Printer> = Vec::new();
        if parallel_port_present {
            printers.push(
                Printer::new(
                    String::from_str("Parallel Port Printer"),
                    PrinterStatus::StatusUnknown,
                    ErrorState::UnknownError,
                    false,
                    false,
                ),
            );
        }
        assert(snapshots_of(printers@) =~= if parallel_port_present {
            seq![
                Snapshot::plain(
                    "Parallel Port Printer"@,
                    PrinterStatus::StatusUnknown,
                    ErrorState::UnknownError,
                    false,
                    false,
                ),
            ]
        } else {
            Seq::empty()
        });
        printers
    }

    /// Returns the first printer of the list whose name is the given one,
    /// ASCII letters compared without regard to case.
    pub fn find_printer(printers: Vec<Printer>, name: &str) -> (r: Option<Printer>)
        ensures
            match r {
                Some(found) => exists|i: int|
                    is_first_named(printers@, name@, i) && found == printers@[i],
                None => forall|i: int|
                    0 <= i < printers.len() ==> !same_ignoring_ascii_case(
                        (#[trigger] printers@[i])@.name,
                        name@,
                    ),
            },
    {
        find_by_name(printers, name)
    }
}

/// A snapshot marked as the default printer if its name is that of the
/// default printer.  A marked snapshot keeps its status, error and offline
/// flag, and nothing else.
pub open spec fn marked(snapshot: Snapshot, default: Option<Seq<char>>) -> Snapshot {
    if default == Some(snapshot.name) {
        Snapshot::plain(
            snapshot.name,
            snapshot.status,
            snapshot.error_state,
            snapshot.is_offline,
            true,
        )
    } else {
        snapshot
    }
}

/// The printers that the lines of `lpstat -p` list, the default printer
/// marked.
pub open spec fn listed(lines: Seq<Seq<char>>, default: Option<Seq<char>>) -> Seq<Snapshot> {
    lines.filter_map(
        |line: Seq<char>|
            match line_meaning(line) {
                Some(snapshot) => Some(marked(snapshot, default)),
                None => None,
            },
    )
}

impl WindowsBackend {
    /// Derives the printers from the records of the management service, one
    /// from each, in order.
    pub fn list_printers(records: Vec<Win32Printer>) -> (r: Vec<Printer>)
        ensures
            r@.len() == records@.len(),
            forall|i: int|
                0 <= i < r@.len() ==> (#[trigger] r@[i])@ == derived_snapshot(records@[i]@),
    {
        let mut rest = records;
        let mut reversed: Vec<Printer> = Vec::new();
        while rest.len() > 0
            invariant
                rest@.len() + reversed@.len() == records@.len(),
                rest@ == records@.take(rest@.len() as int),
                forall|i: int|
                    0 <= i < reversed@.len() ==> (#[trigger] reversed@[i])@ == derived_snapshot(
                        records@[records@.len() - 1 - i]@,
                    ),
            decreases rest.len(),
        {
            let ghost before = rest@;
            let record = rest.pop().unwrap();
            assert(rest@ =~= records@.take(rest@.len() as int));
            reversed.push(Printer::from_record(record));
        }
        let mut printers: Vec<Printer> = Vec::new();
        while reversed.len() > 0
            invariant
                printers@.len() + reversed@.len() == records@.len(),
                forall|i: int|
                    0 <= i < reversed@.len() ==> (#[trigger] reversed@[i])@ == derived_snapshot(
                        records@[records@.len() - 1 - i]@,
                    ),
                forall|i: int|
                    0 <= i < printers@.len() ==> (#[trigger] printers@[i])@ == derived_snapshot(
                        records@[i]@,
                    ),
            decreases reversed.len(),
        {
            let printer = reversed.pop().unwrap();
            printers.push(printer);
        }
        printers
    }

    /// Returns the first printer of the list whose name is the given one,
    /// ASCII letters compared without regard to case.
    pub fn find_printer(printers: Vec<Printer>, name: &str) -> (r: Option<Printer>)
        ensures
            match r {
                Some(found) => exists|i: int|
                    is_first_named(printers@, name@, i) && found == printers@[i],
                None => forall|i: int|
                    0 <= i < printers.len() ==> !same_ignoring_ascii_case(
                        (#[trigger] printers@[i])@.name,
                        name@,
                    ),
            },
    {
        find_by_name(printers, name)
    }
}

} // verus!
