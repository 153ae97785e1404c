//! Reading a trace: opening it, the order of the native calls, the release
//! of what they open, and the buffer between the engine's batches and the
//! consumer.
use vstd::prelude::*;
use crate::definition::defs::Definition;
use crate::definition::global_reader_callbacks::DefinitionList;
use crate::error::StatusCode;
use crate::handle::Handle;
use crate::native::ErrorCode;
use crate::native::LocationRef;
use crate::reader::event_iter::EventIter;
use crate::reader::plan::definitions_plan;
use crate::reader::plan::events_plan;
use crate::reader::plan::Outcome;
use crate::reader::plan::plan_definitions;
use crate::reader::plan::plan_events;
use crate::reader::plan::ReadError;
use crate::reader::plan::Step;
use crate::reader::runner::Action;
use crate::reader::runner::Runner;
use crate::reader::runner::RunnerState;

pub mod event_iter;
pub mod plan;
pub mod runner;

verus! {

/// The native reader of one trace.
#[derive(Debug)]
pub struct ReaderStruct;

/// Why a trace could not be opened.
#[derive(Debug, Clone, PartialEq, Eq)]
pub enum ReaderError {
    /// The argument of this name holds a zero byte at this position, so it
    /// cannot be handed to the engine as a string.
    NullByte(&'static str, usize),
    /// The engine returned no reader for the anchor file of this path.
    OpenReturnedNull(String),
    /// The engine refused to set the reader up.
    Unknown,
}

/// That `at` is the position of the first zero byte in `bytes`.
pub open spec fn is_first_nul(bytes: Seq<u8>, at: int) -> bool {
    &&& 0 <= at < bytes.len()
    &&& bytes[at] == 0
    &&& forall|j: int| 0 <= j < at ==> bytes[j] != 0
}

/// The position of the first zero byte in `bytes`: `None` where every byte
/// is other than zero.
pub fn first_nul(bytes: &[u8]) -> (r: Option<usize>)
    ensures
        r is None <==> forall|i: int| 0 <= i < bytes@.len() ==> bytes@[i] != 0,
        r matches Some(at) ==> is_first_nul(bytes@, at as int),
{
    let mut i: usize = 0;
    while i < bytes.len()
        invariant
            i <= bytes@.len(),
            forall|j: int| 0 <= j < i ==> bytes@[j] != 0,
        decreases bytes@.len() - i,
    {
        if bytes[i] == 0 {
            return Some(i);
        }
        i += 1;
    }
    None
}

impl ReaderError {
    /// Checks that the argument `field` can be handed to the engine as a
    /// string: it must hold no zero byte. The error names the argument and
    /// the position of its first zero byte.
    pub fn check_c_string(field: &'static str, bytes: &[u8]) -> (r: Result<(), ReaderError>)
        ensures
            r is Ok <==> forall|i: int| 0 <= i < bytes@.len() ==> bytes@[i] != 0,
            r matches Err(e) ==> (e matches ReaderError::NullByte(f, at) && f == field
                && is_first_nul(bytes@, at as int)),
    {
        match first_nul(bytes) {
            Some(at) => Err(ReaderError::NullByte(field, at)),
            None => Ok(()),
        }
    }

    /// What a failure while the reader is set up comes to: the status is
    /// dropped, and `Unknown` stands for it.
    pub fn from_status(r: Result<(), StatusCode>) -> (mapped: Result<(), ReaderError>)
        ensures
            r is Ok <==> mapped is Ok,
            r is Err ==> mapped == Err::<(), ReaderError>(ReaderError::Unknown),
    {
        match r {
            Ok(_) => Ok(()),
            Err(_) => Err(ReaderError::Unknown),
        }
    }
}

/// How far the global definitions of a trace have been read.
#[derive(Clone, Copy, Debug, PartialEq, Eq, Structural)]
pub enum DefinitionsState {
    /// Not yet.
    Unopened,
    /// A read has begun.
    DefinitionsPending,
    /// They have been read. They are read once: this state is final.
    DefinitionsLoaded,
}

/// An open trace: the owner of the native reader. While an operation runs on
/// the trace, the trace is in use, and the native reader is not given up.
#[derive(Debug)]
pub struct Trace {
    handle: Handle<ReaderStruct>,
    definitions: DefinitionsState,
    busy: bool,
}

impl Trace {
    /// The address of the native reader: `0` once it was released.
    pub closed spec fn addr(&self) -> usize {
        self.handle.addr()
    }

    /// How far the global definitions have been read.
    pub closed spec fn state(&self) -> DefinitionsState {
        self.definitions
    }

    /// Whether an operation on the trace has begun and is not over, so that
    /// sub-resources of the native reader may be open.
    pub closed spec fn in_use(&self) -> bool {
        self.busy
    }

    /// Takes over what the engine returned when it was asked to open the
    /// anchor file at `anchor_file`: the trace, or, where the engine returned
    /// the null address, the error that names the path.
    pub fn open(anchor_file: String, reader: usize) -> (r: Result<Trace, ReaderError>)
        ensures
            reader == 0 ==> r == Err::<Trace, ReaderError>(
                ReaderError::OpenReturnedNull(anchor_file),
            ),
            reader != 0 ==> (r matches Ok(trace) && trace.addr() == reader && trace.state()
                == DefinitionsState::Unopened && !trace.in_use()),
    {
        match Handle::from_raw(reader) {
            None => Err(ReaderError::OpenReturnedNull(anchor_file)),
            Some(handle) => Ok(
                Trace { handle, definitions: DefinitionsState::Unopened, busy: false },
            ),
        }
    }

    /// Whether the native reader was released.
    pub fn is_closed(&self) -> (b: bool)
        ensures
            b == (self.addr() == 0),
    {
        self.handle.is_null()
    }

    /// Whether an operation on the trace has begun and is not over.
    pub fn is_in_use(&self) -> (b: bool)
        ensures
            b == self.in_use(),
    {
        self.busy
    }

    /// How far the global definitions have been read.
    pub fn definitions_state(&self) -> (state: DefinitionsState)
        ensures
            state == self.state(),
    {
        self.definitions
    }

    /// The address of the native reader, for a call on it. The trace must
    /// not have been released.
    pub fn as_mut_ptr(&mut self) -> (ptr: usize)
        requires
            old(self).addr() != 0,
        ensures
            ptr == old(self).addr(),
            *final(self) == *old(self),
    {
        self.handle.as_mut_ptr()
    }

    /// Sets the reader up for serial reading through `set`, the native call
    /// for it, which is made once, and hands its status on as a result.
    pub fn set_serial_collective_callbacks<F: FnOnce(usize) -> ErrorCode>(
        &mut self,
        set: F,
    ) -> (r: Result<(), StatusCode>)
        requires
            old(self).addr() != 0,
            call_requires(set, (old(self).addr(),)),
        ensures
            *final(self) == *old(self),
            exists|code: ErrorCode| #[trigger]
                call_ensures(set, (old(self).addr(),), code) && r == crate::error::status_of(code),
    {
        let code = set(self.handle.as_mut_ptr());
        code.into_result()
    }

    /// That an operation can begin on the trace: the native reader is there,
    /// and nothing else runs on it.
    pub open spec fn ready(&self) -> bool {
        self.addr() != 0 && !self.in_use()
    }

    /// Begins to read the global definitions, which is possible once and
    /// on a trace that is ready. From `Unopened` the trace goes to
    /// `DefinitionsPending` and is in use until the reader that is returned
    /// has run to its end. In any other state, and on a trace that is not
    /// ready, nothing changes and the reader is over from the start, with
    /// `Refused`.
    pub fn read_definitions<'r>(&'r mut self) -> (reader: GlobalDefReader<'r>)
        ensures
            reader.trace.addr() == old(self).addr(),
            *final(self) == *final(reader.trace),
            old(self).state() == DefinitionsState::Unopened && old(self).ready() ==> {
                &&& reader.trace.state() == DefinitionsState::DefinitionsPending
                &&& reader.trace.in_use()
                &&& reader.runner@ == RunnerState::begin(definitions_plan())
            },
            old(self).state() != DefinitionsState::Unopened || !old(self).ready() ==> {
                &&& *reader.trace == *old(self)
                &&& reader.runner@ == RunnerState::refused(ReadError::Refused)
            },
            reader.runner@.well_formed(),
    {
        let ready = match self.definitions {
            DefinitionsState::Unopened => !self.busy && !self.handle.is_null(),
            _ => false,
        };
        if ready {
            self.definitions = DefinitionsState::DefinitionsPending;
            self.busy = true;
            GlobalDefReader { trace: self, runner: Runner::new(plan_definitions()) }
        } else {
            GlobalDefReader { trace: self, runner: Runner::refused(ReadError::Refused) }
        }
    }

    /// The reader of the events of `locations`, in batches of `batch_size`.
    /// The trace is in use until the reader has run to its end. On a trace
    /// that is not ready nothing changes and the reader is over from the
    /// start, with `Refused`.
    pub fn get_local_event_reader<'r>(
        &'r mut self,
        locations: Vec<LocationRef>,
        batch_size: u64,
    ) -> (reader: EventReader<'r>)
        ensures
            reader.trace.addr() == old(self).addr(),
            reader.trace.state() == old(self).state(),
            *final(self) == *final(reader.trace),
            reader.locations@ == locations@,
            reader.batch_size == batch_size,
            old(self).ready() ==> reader.trace.in_use() && reader.runner@ == RunnerState::begin(
                events_plan(locations@),
            ),
            !old(self).ready() ==> *reader.trace == *old(self) && reader.runner@
                == RunnerState::refused(ReadError::Refused),
            reader.runner@.well_formed(),
    {
        if self.busy || self.handle.is_null() {
            EventReader {
                trace: self,
                locations,
                batch_size,
                runner: Runner::refused(ReadError::Refused),
            }
        } else {
            self.busy = true;
            let runner = Runner::new(plan_events(&locations));
            EventReader { trace: self, locations, batch_size, runner }
        }
    }

    /// Gives the native reader up: the address to close, once. There is
    /// none where it was given up before, and none while the trace is in
    /// use: what an operation has opened is released before the reader that
    /// it was opened on.
    pub fn release(&mut self) -> (ptr: Option<usize>)
        ensures
            final(self).state() == old(self).state(),
            final(self).in_use() == old(self).in_use(),
            !old(self).ready() ==> ptr is None && *final(self) == *old(self),
            old(self).ready() ==> ptr == Some(old(self).addr()) && final(self).addr() == 0,
    {
        if self.busy || self.handle.is_null() {
            None
        } else {
            Some(self.handle.take())
        }
    }
}

/// The reader of the global definitions of a trace. It borrows the trace for
/// as long as it lives, runs the steps of the read, and leaves the trace
/// with the definitions loaded, or not, when the run is over.
pub struct GlobalDefReader<'r> {
    pub trace: &'r mut Trace,
    pub runner: Runner,
}

impl<'r> GlobalDefReader<'r> {
    /// The action that the program is to do now.
    pub fn current(&self) -> (action: Action)
        ensures
            action == self.runner@.pending,
    {
        self.runner.current()
    }

    /// Whether the run is over.
    pub fn is_finished(&self) -> (b: bool)
        ensures
            b == (self.runner@.pending is Finished),
    {
        self.runner.is_finished()
    }

    /// Takes the engine's answer to the pending action and returns the
    /// action that comes next. The answer that ends the run ends the use of
    /// the trace: after a success the definitions are loaded, which is
    /// final; after a failure the trace is `Unopened` again, so that the
    /// caller may try once more. A run that was over before stays as it was,
    /// and so does the trace.
    pub fn advance(&mut self, outcome: Outcome) -> (action: Action)
        ensures
            final(self).runner@ == old(self).runner@.advance(outcome),
            old(self).runner@.well_formed() ==> final(self).runner@.well_formed(),
            action == final(self).runner@.pending,
            final(self).trace.addr() == old(self).trace.addr(),
            *final(final(self).trace) == *final(old(self).trace),
            old(self).runner@.pending is Finished || !(action is Finished) ==> *final(self).trace
                == *old(self).trace,
            !(old(self).runner@.pending is Finished) && action is Finished ==> {
                &&& !final(self).trace.in_use()
                &&& final(self).trace.state() == (if action matches Action::Finished(Ok(_)) {
                    DefinitionsState::DefinitionsLoaded
                } else {
                    DefinitionsState::Unopened
                })
            },
    {
        if self.runner.is_finished() {
            return self.runner.current();
        }
        let action = self.runner.advance(outcome);
        match action {
            Action::Finished(Ok(_)) => {
                self.trace.busy = false;
                self.trace.definitions = DefinitionsState::DefinitionsLoaded;
            },
            Action::Finished(Err(_)) => {
                self.trace.busy = false;
                self.trace.definitions = DefinitionsState::Unopened;
            },
            _ => {},
        }
        action
    }

    /// Breaks the run off for `reason` before its next step. What is open
    /// is still to be released: the action that is returned says what, and
    /// `advance` takes the answers. Where nothing is open the run is over at
    /// once, the trace is no longer in use, and it is `Unopened` again.
    pub fn abort(&mut self, reason: ReadError) -> (action: Action)
        ensures
            final(self).runner@ == old(self).runner@.abort(reason),
            old(self).runner@.well_formed() ==> final(self).runner@.well_formed() && !(action
                is Do),
            action == final(self).runner@.pending,
            final(self).trace.addr() == old(self).trace.addr(),
            *final(final(self).trace) == *final(old(self).trace),
            old(self).runner@.pending is Finished || !(action is Finished) ==> *final(self).trace
                == *old(self).trace,
            !(old(self).runner@.pending is Finished) && action is Finished ==> {
                &&& !final(self).trace.in_use()
                &&& final(self).trace.state() == (if action matches Action::Finished(Ok(_)) {
                    DefinitionsState::DefinitionsLoaded
                } else {
                    DefinitionsState::Unopened
                })
            },
    {
        if self.runner.is_finished() {
            return self.runner.current();
        }
        let action = self.runner.abort(reason);
        match action {
            Action::Finished(Ok(_)) => {
                self.trace.busy = false;
                self.trace.definitions = DefinitionsState::DefinitionsLoaded;
            },
            Action::Finished(Err(_)) => {
                self.trace.busy = false;
                self.trace.definitions = DefinitionsState::Unopened;
            },
            _ => {},
        }
        action
    }

    /// The outcome of a run that is over, with the list that the callbacks
    /// have filled: the number of definitions read and the list, or the
    /// failure. While the run is not over there is none.
    pub fn definitions_read(&self, definitions: DefinitionList) -> (r: Option<
        Result<(u64, DefinitionList), ReadError>,
    >)
        ensures
            r == (match self.runner@.pending {
                Action::Finished(Ok(count)) => Some(
                    Ok::<(u64, DefinitionList), ReadError>((count, definitions)),
                ),
                Action::Finished(Err(failure)) => Some(
                    Err::<(u64, DefinitionList), ReadError>(failure),
                ),
                _ => None,
            }),
    {
        match self.runner.current() {
            Action::Finished(Ok(count)) => Some(Ok((count, definitions))),
            Action::Finished(Err(failure)) => Some(Err(failure)),
            _ => None,
        }
    }
}

/// The ids of the locations that `definitions` define, in the order of their
/// records.
pub open spec fn locations_of(definitions: Seq<Definition>) -> Seq<LocationRef>
    decreases definitions.len(),
{
    if definitions.len() == 0 {
        Seq::empty()
    } else {
        let front = locations_of(definitions.drop_last());
        match definitions.last() {
            Definition::Location { defn, .. } => front.push(defn),
            _ => front,
        }
    }
}

/// Selects the locations of a trace from its definitions: the id of every
/// `Location` record, in the order of the records.
pub fn select_locations(definitions: &DefinitionList) -> (locations: Vec<LocationRef>)
    ensures
        locations@ == locations_of(definitions@),
{
    let mut locations: Vec<LocationRef> = Vec::new();
    let mut i: usize = 0;
    while i < definitions.0.len()
        invariant
            i <= definitions.0.len(),
            locations@ == locations_of(definitions@.take(i as int)),
        decreases definitions.0.len() - i,
    {
        proof {
            assert(definitions@.take(i + 1).drop_last() =~= definitions@.take(i as int));
            assert(definitions@.take(i + 1).last() == definitions@[i as int]);
        }
        match &definitions.0[i] {
            Definition::Location { defn, .. } => {
                locations.push(*defn);
            },
            _ => {},
        }
        i += 1;
    }
    proof {
        assert(definitions@.take(i as int) =~= definitions@);
    }
    locations
}

/// How far the reader of the events of a set of locations has come.
#[derive(Clone, Copy, Debug, PartialEq, Eq, Structural)]
pub enum ReaderState {
    /// The locations are given; their local definitions are not all read
    /// yet.
    Selected,
    /// The local definitions of every location have been read.
    LocalDefinitionsRead,
    /// The event files are open.
    EvtFilesOpen,
    /// All that comes before the events has succeeded: the events are being
    /// read, or what was opened for that is being released.
    Iterating,
    /// The run is over.
    Closed,
}

impl ReaderState {
    /// The place of the state in the order in which a reader passes the
    /// states.
    pub open spec fn rank(self) -> int {
        match self {
            ReaderState::Selected => 0,
            ReaderState::LocalDefinitionsRead => 1,
            ReaderState::EvtFilesOpen => 2,
            ReaderState::Iterating => 3,
            ReaderState::Closed => 4,
        }
    }
}

/// The state of a reader of `n` locations whose run has come to `run`, by
/// the number of steps that have succeeded: the first `3 * n + 1` select the
/// locations and read their local definitions, the next opens the event
/// files, and the last, the step of index `4 * n + 85`, reads the events,
/// after the readers were created and the eighty callbacks registered.
pub open spec fn reader_state(n: nat, run: RunnerState) -> ReaderState {
    if run.pending is Finished {
        ReaderState::Closed
    } else if run.pc <= 3 * n {
        ReaderState::Selected
    } else if run.pc == 3 * n + 1 {
        ReaderState::LocalDefinitionsRead
    } else if run.pc < 4 * n + 85 {
        ReaderState::EvtFilesOpen
    } else {
        ReaderState::Iterating
    }
}

/// A reader never goes back: whatever the engine answers, the state after
/// the answer is the state before it or one that comes later.
pub proof fn lemma_state_never_goes_back(n: nat, run: RunnerState, outcome: Outcome)
    requires
        run.well_formed(),
    ensures
        reader_state(n, run).rank() <= reader_state(n, run.advance(outcome)).rank(),
{
}

/// Events are read only by a reader that is `Iterating`, and a reader is
/// `Iterating` only when every step before the reading has succeeded: the
/// locations are selected, their local definitions read, the event files
/// open, the callbacks registered.
pub proof fn lemma_events_are_read_while_iterating(locations: Seq<LocationRef>, run: RunnerState)
    requires
        run.well_formed(),
        run.plan == events_plan(locations),
    ensures
        run.pending == Action::Do(Step::ReadEvents) ==> reader_state(locations.len(), run)
            == ReaderState::Iterating && run.pc == 4 * locations.len() + 85,
        reader_state(locations.len(), run) == ReaderState::Iterating && run.pending is Do
            ==> run.pending == Action::Do(Step::ReadEvents),
        run.pending == Action::Do(Step::OpenEvtFiles) ==> reader_state(locations.len(), run)
            == ReaderState::LocalDefinitionsRead,
{
    crate::reader::plan::lemma_events_plan_layout(locations);
    if run.pending is Do {
        let step = run.pending->Do_0;
        assert(events_plan(locations)[run.pc].step == step);
        if step == Step::OpenEvtFiles {
            lemma_open_evt_files_once(locations, run.pc);
        }
    }
}

/// The event files are opened by one step of the events plan only.
proof fn lemma_open_evt_files_once(locations: Seq<LocationRef>, i: int)
    requires
        0 <= i < events_plan(locations).len(),
        events_plan(locations)[i].step == Step::OpenEvtFiles,
    ensures
        i == 3 * locations.len() + 1,
{
    let n = locations.len() as int;
    let plan = events_plan(locations);
    let selects = crate::reader::plan::for_each_location(
        locations,
        0,
        |l: LocationRef| Step::SelectLocation(l),
    );
    let locals = crate::reader::plan::local_definitions_plan(locations);
    let readers = crate::reader::plan::for_each_location(
        locations,
        1,
        |l: LocationRef| Step::GetEvtReader(l),
    );
    crate::reader::plan::lemma_local_definitions_plan_len(locations);
    crate::reader::plan::lemma_local_definitions_plan_steps(locations);
    if i < n {
        assert(plan[i] == selects[i]);
    } else if i == n {
    } else if i < 3 * n + 1 {
        assert(plan[i] == locals[i - n - 1]);
    } else if i == 3 * n + 1 {
    } else if i < 4 * n + 2 {
        assert(plan[i] == readers[i - 3 * n - 2]);
    } else {
    }
}

/// The reader of the events of a set of locations. It borrows the trace for
/// as long as it lives, runs the steps that have to succeed before any event
/// is read, and releases what they opened when the reading is over.
pub struct EventReader<'r> {
    pub trace: &'r mut Trace,
    pub locations: Vec<LocationRef>,
    pub batch_size: u64,
    pub runner: Runner,
}

impl<'r> EventReader<'r> {
    /// The action that the program is to do now.
    pub fn current(&self) -> (action: Action)
        ensures
            action == self.runner@.pending,
    {
        self.runner.current()
    }

    /// Whether the run is over.
    pub fn is_finished(&self) -> (b: bool)
        ensures
            b == (self.runner@.pending is Finished),
    {
        self.runner.is_finished()
    }

    /// Takes the engine's answer to the pending action and returns the
    /// action that comes next. The answer that ends the run ends the use of
    /// the trace. A run that was over before stays as it was, and so does
    /// the trace.
    pub fn advance(&mut self, outcome: Outcome) -> (action: Action)
        ensures
            final(self).runner@ == old(self).runner@.advance(outcome),
            old(self).runner@.well_formed() ==> final(self).runner@.well_formed(),
            action == final(self).runner@.pending,
            final(self).locations == old(self).locations,
            final(self).batch_size == old(self).batch_size,
            final(self).trace.addr() == old(self).trace.addr(),
            final(self).trace.state() == old(self).trace.state(),
            *final(final(self).trace) == *final(old(self).trace),
            final(self).trace.in_use() == (if !(old(self).runner@.pending is Finished)
                && action is Finished {
                false
            } else {
                old(self).trace.in_use()
            }),
    {
        if self.runner.is_finished() {
            return self.runner.current();
        }
        let action = self.runner.advance(outcome);
        match action {
            Action::Finished(_) => {
                self.trace.busy = false;
            },
            _ => {},
        }
        action
    }

    /// Breaks the run off for `reason` before its next step. What is open
    /// is still to be released: the action that is returned says what, and
    /// `advance` takes the answers. Where nothing is open the run is over at
    /// once and the trace is no longer in use.
    pub fn abort(&mut self, reason: ReadError) -> (action: Action)
        ensures
            final(self).runner@ == old(self).runner@.abort(reason),
            old(self).runner@.well_formed() ==> final(self).runner@.well_formed() && !(action
                is Do),
            action == final(self).runner@.pending,
            final(self).locations == old(self).locations,
            final(self).batch_size == old(self).batch_size,
            final(self).trace.addr() == old(self).trace.addr(),
            final(self).trace.state() == old(self).trace.state(),
            *final(final(self).trace) == *final(old(self).trace),
            final(self).trace.in_use() == (if !(old(self).runner@.pending is Finished)
                && action is Finished {
                false
            } else {
                old(self).trace.in_use()
            }),
    {
        if self.runner.is_finished() {
            return self.runner.current();
        }
        let action = self.runner.abort(reason);
        match action {
            Action::Finished(_) => {
                self.trace.busy = false;
            },
            _ => {},
        }
        action
    }

    /// How far the reader has come.
    pub fn state(&self) -> (state: ReaderState)
        ensures
            state == reader_state(self.locations@.len(), self.runner@),
    {
        let n: u128 = self.locations.len() as u128;
        let pc: u128 = self.runner.position() as u128;
        if self.runner.is_finished() {
            ReaderState::Closed
        } else if pc <= 3 * n {
            ReaderState::Selected
        } else if pc == 3 * n + 1 {
            ReaderState::LocalDefinitionsRead
        } else if pc < 4 * n + 85 {
            ReaderState::EvtFilesOpen
        } else {
            ReaderState::Iterating
        }
    }

    /// The buffer for the events. It comes into being when it is to be handed
    /// to the engine, with the callbacks: all steps before that have
    /// succeeded then. At any other time there is none.
    pub fn into_event_iter(&self) -> (it: Option<EventIter>)
        ensures
            self.runner@.pending == Action::Do(Step::SetEvtCallbacks) ==> (it matches Some(iter)
                && iter@ == crate::reader::event_iter::IterState::start(self.batch_size)),
            self.runner@.pending != Action::Do(Step::SetEvtCallbacks) ==> it is None,
    {
        match self.runner.current() {
            Action::Do(Step::SetEvtCallbacks) => Some(EventIter::new(self.batch_size)),
            _ => None,
        }
    }
}

} // verus!
