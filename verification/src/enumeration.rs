//! The decisions of one enumeration run. The run itself talks to the
//! system; this module says, from what has happened so far, what is to be
//! done next, and collects the records of the devices in their order.

use vstd::prelude::*;
use crate::types::{MouseDevice, MouseDeviceView};

verus! {

/// Where a run stands.
#[derive(Clone, Copy, Debug, PartialEq, Eq, Structural)]
pub enum RunPhase {
    /// The device-information set has not been asked for yet.
    NotOpened,
    /// The set is open and its entries are being queried by index.
    Enumerating,
    /// The sequence of entries has ended; the set is still to be released.
    Releasing,
    /// The set has been released.
    Completed,
    /// The set could not be opened.
    Failed,
}

/// What the caller is to do next.
#[derive(Clone, Copy, Debug, PartialEq, Eq, Structural)]
pub enum RunAction {
    /// Open the set of present devices of the class.
    OpenSet,
    /// Query the entry at this index and assemble its record.
    QueryEntry(u32),
    /// Release the set.
    ReleaseSet,
    /// Hand out the records: the run succeeded.
    Finish,
    /// Report that the device class could not be opened.
    ReportOpenFailure,
}

/// What the caller reports back.
pub enum RunEvent {
    /// The set was opened.
    SetOpened,
    /// The set could not be opened.
    OpenFailed,
    /// The queried entry exists; its record was assembled, or could not be.
    Entry(Option<MouseDevice>),
    /// The query found no entry, or failed.
    EndOfSequence,
    /// The set was released.
    SetReleased,
}

/// An event with its record as plain values.
pub ghost enum RunEventView {
    SetOpened,
    OpenFailed,
    Entry(Option<MouseDeviceView>),
    EndOfSequence,
    SetReleased,
}

impl View for RunEvent {
    type V = RunEventView;

    open spec fn view(&self) -> RunEventView {
        match *self {
            RunEvent::SetOpened => RunEventView::SetOpened,
            RunEvent::OpenFailed => RunEventView::OpenFailed,
            RunEvent::Entry(Some(device)) => RunEventView::Entry(Some(device@)),
            RunEvent::Entry(None) => RunEventView::Entry(None),
            RunEvent::EndOfSequence => RunEventView::EndOfSequence,
            RunEvent::SetReleased => RunEventView::SetReleased,
        }
    }
}

/// Why a run has no records to hand out.
#[derive(Clone, Copy, Debug, PartialEq, Eq, Structural)]
pub enum EnumerationError {
    /// The set of devices of the class could not be opened.
    CannotOpenDeviceClass,
    /// The run has not come to its end.
    Unfinished,
}

/// The state of one enumeration run.
#[derive(Debug)]
pub struct EnumerationRun {
    phase: RunPhase,
    next_index: u32,
    devices: Vec<MouseDevice>,
}

/// The state of a run as plain values.
pub ghost struct RunView {
    pub phase: RunPhase,
    pub next_index: u32,
    pub devices: Seq<MouseDeviceView>,
}

/// The state of a run that has not begun.
pub open spec fn initial() -> RunView {
    RunView { phase: RunPhase::NotOpened, next_index: 0, devices: Seq::empty() }
}

/// The state that follows `state` upon `event`. An event that does not
/// belong to the phase changes nothing. Entries are counted one by one from
/// zero; an entry at the last index that a query can name ends the sequence.
pub open spec fn step(state: RunView, event: RunEventView) -> RunView {
    match (state.phase, event) {
        (RunPhase::NotOpened, RunEventView::SetOpened) => RunView {
            phase: RunPhase::Enumerating,
            ..state
        },
        (RunPhase::NotOpened, RunEventView::OpenFailed) => RunView {
            phase: RunPhase::Failed,
            ..state
        },
        (RunPhase::Enumerating, RunEventView::Entry(device)) => RunView {
            phase: if state.next_index < u32::MAX {
                RunPhase::Enumerating
            } else {
                RunPhase::Releasing
            },
            next_index: if state.next_index < u32::MAX {
                (state.next_index + 1) as u32
            } else {
                state.next_index
            },
            devices: match device {
                Some(d) => state.devices.push(d),
                None => state.devices,
            },
        },
        (RunPhase::Enumerating, RunEventView::EndOfSequence) => RunView {
            phase: RunPhase::Releasing,
            ..state
        },
        (RunPhase::Releasing, RunEventView::SetReleased) => RunView {
            phase: RunPhase::Completed,
            ..state
        },
        _ => state,
    }
}

/// What is to be done in `state`.
pub open spec fn action_of(state: RunView) -> RunAction {
    match state.phase {
        RunPhase::NotOpened => RunAction::OpenSet,
        RunPhase::Enumerating => RunAction::QueryEntry(state.next_index),
        RunPhase::Releasing => RunAction::ReleaseSet,
        RunPhase::Completed => RunAction::Finish,
        RunPhase::Failed => RunAction::ReportOpenFailure,
    }
}

/// What a run in `state` hands out: its records once the set has been
/// released, the failure to open, or that it is not over.
pub open spec fn outcome_of(state: RunView) -> Result<Seq<MouseDeviceView>, EnumerationError> {
    match state.phase {
        RunPhase::Completed => Ok(state.devices),
        RunPhase::Failed => Err(EnumerationError::CannotOpenDeviceClass),
        _ => Err(EnumerationError::Unfinished),
    }
}

/// The state of a run after the set was opened and one entry after
/// another was reported, `entries` saying for each whether its record could
/// be assembled.
pub open spec fn after_entries(entries: Seq<Option<MouseDeviceView>>) -> RunView
    decreases entries.len(),
{
    if entries.len() == 0 {
        step(initial(), RunEventView::SetOpened)
    } else {
        step(after_entries(entries.drop_last()), RunEventView::Entry(entries.last()))
    }
}

/// The records among `entries`, in their order.
pub open spec fn assembled_records(entries: Seq<Option<MouseDeviceView>>) -> Seq<
    MouseDeviceView,
>
    decreases entries.len(),
{
    if entries.len() == 0 {
        Seq::empty()
    } else {
        match entries.last() {
            Some(device) => assembled_records(entries.drop_last()).push(device),
            None => assembled_records(entries.drop_last()),
        }
    }
}

/// Entries are queried by successive indices from zero: after as many
/// entries as `entries` holds, the next query names their number. The
/// records collected are those that were assembled, in the order of
/// enumeration; an entry without a record leaves no trace.
pub proof fn lemma_entries_are_queried_in_turn(entries: Seq<Option<MouseDeviceView>>)
    requires
        entries.len() <= u32::MAX,
    ensures
        action_of(after_entries(entries)) == RunAction::QueryEntry(entries.len() as u32),
        after_entries(entries).devices == assembled_records(entries),
        forall|k: int|
            0 <= k <= entries.len() ==> action_of(#[trigger] after_entries(entries.take(k)))
                == RunAction::QueryEntry(k as u32),
    decreases entries.len(),
{
    if entries.len() > 0 {
        lemma_entries_are_queried_in_turn(entries.drop_last());
        assert forall|k: int| 0 <= k <= entries.len() implies action_of(
            #[trigger] after_entries(entries.take(k)),
        ) == RunAction::QueryEntry(k as u32) by {
            if k < entries.len() {
                assert(entries.take(k) =~= entries.drop_last().take(k));
            } else {
                assert(entries.take(k) =~= entries);
            }
        }
    } else {
        assert forall|k: int| 0 <= k <= entries.len() implies action_of(
            #[trigger] after_entries(entries.take(k)),
        ) == RunAction::QueryEntry(k as u32) by {
            assert(entries.take(k) =~= entries);
        }
    }
}

/// The end of the sequence is final: once it was reported, a further
/// entry or a further end changes nothing.
pub proof fn lemma_end_of_sequence_is_final(state: RunView, event: RunEventView)
    requires
        event is Entry || event is EndOfSequence,
    ensures
        step(step(state, RunEventView::EndOfSequence), event) == step(
            state,
            RunEventView::EndOfSequence,
        ),
{
}

/// A run whose set opens, holds `entries` and is released hands out the
/// assembled records in the order of enumeration: none where there is no
/// entry.
pub proof fn lemma_completed_run_hands_out_records(entries: Seq<Option<MouseDeviceView>>)
    requires
        entries.len() <= u32::MAX,
    ensures
        outcome_of(
            step(
                step(after_entries(entries), RunEventView::EndOfSequence),
                RunEventView::SetReleased,
            ),
        ) == Ok::<Seq<MouseDeviceView>, EnumerationError>(assembled_records(entries)),
{
    lemma_entries_are_queried_in_turn(entries);
}

/// A run whose set cannot be opened fails for good and holds no record,
/// whatever is reported afterwards.
pub proof fn lemma_open_failure_is_fatal(event: RunEventView)
    ensures
        outcome_of(step(initial(), RunEventView::OpenFailed)) == Err::<
            Seq<MouseDeviceView>,
            EnumerationError,
        >(EnumerationError::CannotOpenDeviceClass),
        step(initial(), RunEventView::OpenFailed).devices.len() == 0,
        step(step(initial(), RunEventView::OpenFailed), event) == step(
            initial(),
            RunEventView::OpenFailed,
        ),
{
}

/// The records of a list of devices.
pub open spec fn records(devices: Seq<MouseDevice>) -> Seq<MouseDeviceView> {
    devices.map_values(|d: MouseDevice| d@)
}

impl View for EnumerationRun {
    type V = RunView;

    closed spec fn view(&self) -> RunView {
        RunView {
            phase: self.phase,
            next_index: self.next_index,
            devices: records(self.devices@),
        }
    }
}

impl EnumerationRun {
    /// A run that has not begun.
    pub fn new() -> (run: Self)
        ensures
            run@ == initial(),
    {
        let run = EnumerationRun { phase: RunPhase::NotOpened, next_index: 0, devices: Vec::new() };
        assert(records(run.devices@) =~= Seq::empty());
        run
    }

    /// Where the run stands.
    pub fn phase(&self) -> (phase: RunPhase)
        ensures
            phase == self@.phase,
    {
        self.phase
    }

    /// What is to be done next.
    pub fn next_action(&self) -> (action: RunAction)
        ensures
            action == action_of(self@),
    {
        match self.phase {
            RunPhase::NotOpened => RunAction::OpenSet,
            RunPhase::Enumerating => RunAction::QueryEntry(self.next_index),
            RunPhase::Releasing => RunAction::ReleaseSet,
            RunPhase::Completed => RunAction::Finish,
            RunPhase::Failed => RunAction::ReportOpenFailure,
        }
    }

    /// Takes note of `event` and says what is to be done next.
    pub fn handle(&mut self, event: RunEvent) -> (action: RunAction)
        ensures
            final(self)@ == step(old(self)@, event@),
            action == action_of(final(self)@),
    {
        match (self.phase, event) {
            (RunPhase::NotOpened, RunEvent::SetOpened) => {
                self.phase = RunPhase::Enumerating;
            },
            (RunPhase::NotOpened, RunEvent::OpenFailed) => {
                self.phase = RunPhase::Failed;
            },
            (RunPhase::Enumerating, RunEvent::Entry(device)) => {
                if self.next_index < u32::MAX {
                    self.next_index = self.next_index + 1;
                } else {
                    self.phase = RunPhase::Releasing;
                }
                match device {
                    Some(d) => {
                        let ghost before = self.devices@;
                        self.devices.push(d);
                        assert(records(self.devices@) =~= records(before).push(d@));
                    },
                    None => {},
                }
            },
            (RunPhase::Enumerating, RunEvent::EndOfSequence) => {
                self.phase = RunPhase::Releasing;
            },
            (RunPhase::Releasing, RunEvent::SetReleased) => {
                self.phase = RunPhase::Completed;
            },
            _ => {},
        }
        self.next_action()
    }

    /// Ends the run: the records in the order of enumeration once the set
    /// has been released, else the reason why there are none.
    pub fn finish(self) -> (outcome: Result<Vec<MouseDevice>, EnumerationError>)
        ensures
            match outcome {
                Ok(devices) => outcome_of(self@) == Ok::<Seq<MouseDeviceView>, EnumerationError>(
                    records(devices@),
                ),
                Err(error) => outcome_of(self@) == Err::<Seq<MouseDeviceView>, EnumerationError>(
                    error,
                ),
            },
    {
        match self.phase {
            RunPhase::Completed => Ok(self.devices),
            RunPhase::Failed => Err(EnumerationError::CannotOpenDeviceClass),
            _ => Err(EnumerationError::Unfinished),
        }
    }
}

} // verus!
