//! Monitoring of several printers at once: one monitor for each printer,
//! one listener for all, and the first failure ending it for all.

use vstd::prelude::*;
use vstd::string::*;

use crate::change::PrinterChanges;
use crate::error::{panic_message, PrinterError};
use crate::monitor::{
    changes_reported, ChangeReport, Lookup, MonitorState, PrinterMonitor,
};
use crate::printer::{optional_snapshot, Snapshot};

verus! {

/// Monitoring of several printers at once.  Every printer has polling
/// state of its own, which only its own polls touch; all change sets go to
/// one listener.  The first failed query ends the monitoring of all.
#[derive(Debug)]
pub struct MonitorGroup {
    monitors: Vec<PrinterMonitor>,
    stopped: bool,
}

/// What a `MonitorGroup` holds.
pub struct GroupState {
    pub monitors: Seq<MonitorState>,
    pub stopped: bool,
}

/// How a monitoring task ended: by returning, with or without an error, or
/// by a panic, of which only the message is left.
pub type TaskEnd = Result<Result<(), PrinterError>, String>;

impl View for MonitorGroup {
    type V = GroupState;

    closed spec fn view(&self) -> GroupState {
        GroupState {
            monitors: self.monitors@.map_values(|m: PrinterMonitor| m@),
            stopped: self.stopped,
        }
    }
}

/// Of a sequence of things that each belong to the printer at some index,
/// those of the printer at `index`, in order.
pub open spec fn of_printer<A>(items: Seq<(int, A)>, index: int) -> Seq<A>
    decreases items.len(),
{
    if items.len() == 0 {
        Seq::empty()
    } else if items[0].0 == index {
        seq![items[0].1] + of_printer(items.skip(1), index)
    } else {
        of_printer(items.skip(1), index)
    }
}

impl GroupState {
    /// The state in which monitoring of the named printers starts.
    pub open spec fn initial(printer_names: Seq<String>) -> GroupState {
        GroupState {
            monitors: printer_names.map_values(|name: String| MonitorState::initial(name@)),
            stopped: false,
        }
    }

    /// Whether a poll of the printer at `index` is still listened to.
    pub open spec fn listens(self, index: int) -> bool {
        !self.stopped && 0 <= index < self.monitors.len()
    }

    /// What is reported for a poll of the printer at `index`.
    pub open spec fn change_report(self, index: int, found: Option<Snapshot>) -> Option<
        ChangeReport,
    > {
        if self.listens(index) {
            self.monitors[index].change_report(found)
        } else {
            None
        }
    }

    /// The state after a poll of the printer at `index`.
    pub open spec fn after_poll(self, index: int, found: Option<Snapshot>) -> GroupState {
        if self.listens(index) {
            GroupState {
                monitors: self.monitors.update(index, self.monitors[index].after_poll(found)),
                ..self
            }
        } else {
            self
        }
    }

    /// The state after a failed query for the printer at `index`.
    pub open spec fn after_failure(self, index: int) -> GroupState {
        if self.listens(index) {
            GroupState { stopped: true, ..self }
        } else {
            self
        }
    }

    /// The printers of a group do not touch each other: a poll of one
    /// leaves the state of every other as it was, and what it reports is
    /// what a monitor of that printer alone would report.
    pub proof fn lemma_printers_are_independent(
        self,
        index: int,
        found: Option<Snapshot>,
        other: int,
    )
        requires
            0 <= other < self.monitors.len(),
            other != index,
        ensures
            self.after_poll(index, found).monitors.len() == self.monitors.len(),
            self.after_poll(index, found).monitors[other] == self.monitors[other],
            self.listens(index) ==> self.change_report(index, found)
                == self.monitors[index].change_report(found),
            self.listens(index) ==> self.after_poll(index, found).monitors[index]
                == self.monitors[index].after_poll(found),
    {
    }

    /// What is reported over a run of polls of the group's printers, in
    /// order: each report with the index of its printer.  A poll is the
    /// index of the printer polled and what was found.
    pub open spec fn change_reports(self, polls: Seq<(int, Option<Snapshot>)>) -> Seq<
        (int, ChangeReport),
    >
        decreases polls.len(),
    {
        if polls.len() == 0 {
            Seq::empty()
        } else {
            (match self.change_report(polls[0].0, polls[0].1) {
                Some(report) => seq![(polls[0].0, report)],
                None => Seq::empty(),
            }) + self.after_poll(polls[0].0, polls[0].1).change_reports(polls.skip(1))
        }
    }

    /// The group is one monitor for each printer, and nothing more: of what
    /// a run of polls reports, the part that belongs to one printer is what
    /// a monitor of that printer alone reports over that printer's polls.
    /// So each printer's reports come in the order of its own polls,
    /// however the polls of the printers are interleaved.
    pub proof fn lemma_group_is_monitors_side_by_side(
        self,
        polls: Seq<(int, Option<Snapshot>)>,
        index: int,
    )
        requires
            self.listens(index),
        ensures
            of_printer(self.change_reports(polls), index)
                == self.monitors[index].change_reports(of_printer(polls, index)),
        decreases polls.len(),
    {
        reveal_with_fuel(of_printer, 2);
        if polls.len() > 0 {
            let first = polls[0];
            let next = self.after_poll(first.0, first.1);
            let rest = next.change_reports(polls.skip(1));
            next.lemma_group_is_monitors_side_by_side(polls.skip(1), index);
            match self.change_report(first.0, first.1) {
                Some(report) => {
                    let all = seq![(first.0, report)] + rest;
                    assert(all.skip(1) =~= rest);
                    assert(all[0] == (first.0, report));
                },
                None => {
                    assert(Seq::<(int, ChangeReport)>::empty() + rest =~= rest);
                },
            }
            if first.0 == index {
                let mine = of_printer(polls, index);
                assert(mine.skip(1) =~= of_printer(polls.skip(1), index));
                assert(mine[0] == first.1);
                match self.monitors[index].change_report(first.1) {
                    Some(report) => {},
                    None => {
                        assert(Seq::<ChangeReport>::empty() + self.monitors[index].after_poll(
                            first.1,
                        ).change_reports(mine.skip(1)) =~= self.monitors[index].after_poll(
                            first.1,
                        ).change_reports(mine.skip(1)));
                    },
                }
            }
        } else {
            assert(of_printer(polls, index) =~= Seq::<Option<Snapshot>>::empty());
        }
    }

    /// Once monitoring has stopped, by a failure or on request, nothing is
    /// reported any more and nothing changes.
    pub proof fn lemma_stopped_group_is_silent(self, index: int, found: Option<Snapshot>)
        requires
            self.stopped,
        ensures
            self.change_report(index, found) is None,
            self.after_poll(index, found) == self,
            self.after_failure(index) == self,
    {
    }
}

impl MonitorGroup {
    /// Starts monitoring the named printers: one monitor for each name, in
    /// the order of the names, none holding a snapshot yet.
    pub fn new(printer_names: Vec<String>) -> (group: MonitorGroup)
        ensures
            group@ == GroupState::initial(printer_names@),
    {
        let mut monitors: Vec<PrinterMonitor> = Vec::new();
        let mut i: usize = 0;
        while i < printer_names.len()
            invariant
                i <= printer_names.len(),
                monitors@.len() == i,
                forall|j: int|
                    0 <= j < i ==> (#[trigger] monitors@[j])@ == MonitorState::initial(
                        printer_names@[j]@,
                    ),
            decreases printer_names.len() - i,
        {
            monitors.push(PrinterMonitor::new(printer_names[i].clone()));
            i += 1;
        }
        let group = MonitorGroup { monitors, stopped: false };
        assert(group@.monitors =~= GroupState::initial(printer_names@).monitors);
        group
    }

    /// Returns the number of printers in the group.
    pub fn len(&self) -> (n: usize)
        ensures
            n == self@.monitors.len(),
    {
        self.monitors.len()
    }

    /// Returns the name of the printer at `index`, if there is one.
    pub fn printer_name(&self, index: usize) -> (r: Option<&str>)
        ensures
            match r {
                Some(name) => index < self@.monitors.len() && name@
                    == self@.monitors[index as int].printer_name,
                None => index >= self@.monitors.len(),
            },
    {
        if index < self.monitors.len() {
            Some(self.monitors[index].printer_name())
        } else {
            None
        }
    }

    /// Tells whether monitoring has stopped.
    pub fn is_stopped(&self) -> (b: bool)
        ensures
            b == self@.stopped,
    {
        self.stopped
    }

    /// Stops the monitoring of all printers: from now on nothing is
    /// reported.
    pub fn stop(&mut self)
        ensures
            final(self)@ == (GroupState { stopped: true, ..old(self)@ }),
    {
        self.stopped = true;
    }

    /// Takes the result of one poll of the printer at `index` and returns
    /// the change set to be reported, as change monitoring of that printer
    /// alone would.  A failed query stops the monitoring of all printers
    /// and is handed back as the error that ends it.  After that, and for
    /// an index that no printer has, nothing is reported and nothing
    /// changes.
    pub fn observe(&mut self, index: usize, lookup: Lookup) -> (r: Result<
        Option<PrinterChanges>,
        PrinterError,
    >)
        ensures
            match lookup {
                Ok(found) => r is Ok && changes_reported(r->Ok_0) == old(self)@.change_report(
                    index as int,
                    optional_snapshot(found),
                ) && final(self)@ == old(self)@.after_poll(index as int, optional_snapshot(found)),
                Err(error) => final(self)@ == old(self)@.after_failure(index as int) && r == (if old(
                    self,
                )@.listens(index as int) {
                    Err::<Option<PrinterChanges>, PrinterError>(error)
                } else {
                    Ok(None)
                }),
            },
    {
        if self.stopped || index >= self.monitors.len() {
            return Ok(None);
        }
        let ghost before = self.monitors@;
        let mut monitor = self.monitors.remove(index);
        let ghost taken = monitor@;
        let result = monitor.monitor_printer_changes(lookup);
        self.monitors.insert(index, monitor);
        proof {
            assert(taken == old(self)@.monitors[index as int]);
            assert(self.monitors@ =~= before.update(index as int, monitor));
            assert(self@.monitors =~= old(self)@.monitors.update(index as int, monitor@));
            if lookup is Err {
                assert(self@.monitors =~= old(self)@.monitors);
            }
        }
        match result {
            Ok(report) => Ok(report),
            Err(error) => {
                self.stopped = true;
                Err(error)
            },
        }
    }

    /// Takes the end of one monitoring task and returns what it means for
    /// the group: a task that returned without error changes nothing; one
    /// that returned an error, or panicked, stops the monitoring of all
    /// printers, with that error or with one that carries the panic's
    /// message.
    pub fn task_ended(&mut self, end: TaskEnd) -> (r: Result<(), PrinterError>)
        ensures
            match end {
                Ok(Ok(())) => r == Ok::<(), PrinterError>(()) && final(self)@ == old(self)@,
                Ok(Err(error)) => r == Err::<(), PrinterError>(error) && final(self)@ == (
                GroupState { stopped: true, ..old(self)@ }),
                Err(detail) => final(self)@ == (GroupState { stopped: true, ..old(self)@ }) && (
                r matches Err(PrinterError::Other(msg)) && msg@ == panic_message(
                    detail@,
                )),
            },
    {
        match end {
            Ok(Ok(())) => Ok(()),
            Ok(Err(error)) => {
                self.stopped = true;
                Err(error)
            },
            Err(detail) => {
                self.stopped = true;
                Err(PrinterError::task_panicked(detail.as_str()))
            },
        }
    }
}

} // verus!
