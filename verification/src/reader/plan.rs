//! What reading a trace asks of the native engine, as data: the steps of an
//! operation in their order, each with the number of sub-resources that are
//! open while it runs.
use vstd::prelude::*;
use crate::definition::defs::DefinitionKind;
use crate::definition::global_reader_callbacks::GlobalDefReaderCallbacks;
use crate::error::StatusCode;
use crate::event::event_struct::EventType;
use crate::event::global_reader_callbacks::GlobalEvtReaderCallbacks;
use crate::native::ErrorCode;
use crate::native::LocationRef;
use crate::native::OTF2_SUCCESS;

verus! {

/// A native sub-resource that an operation opens and has to release before
/// it ends. Those that the engine hands out by address carry the address.
#[derive(Clone, Copy, Debug, PartialEq, Eq, Structural)]
pub enum Resource {
    /// The object that holds the registered definition callbacks.
    DefCallbacks(usize),
    /// The reader of the global definitions.
    GlobalDefReader(usize),
    /// The local definition files, open.
    DefFiles,
    /// The reader of one location's local definitions.
    DefReader(usize),
    /// The local event files, open.
    EvtFiles,
    /// The reader that merges the events of the selected locations.
    GlobalEvtReader(usize),
    /// The object that holds the registered event callbacks.
    EvtCallbacks(usize),
}

/// One call into the native engine, or one run of calls that belong
/// together.
#[derive(Clone, Copy, Debug, PartialEq, Eq, Structural)]
pub enum Step {
    /// Create the callbacks object for definitions.
    NewDefCallbacks,
    /// Register the callback for one kind of definition with the callbacks
    /// object.
    SetDefCallback(DefinitionKind),
    /// Get the reader of the global definitions.
    GetGlobalDefReader,
    /// Hand the callbacks and the list that collects the definitions to the
    /// reader.
    RegisterGlobalDefCallbacks,
    /// Read all global definitions.
    ReadAllGlobalDefinitions,
    /// Select a location for reading.
    SelectLocation(LocationRef),
    /// Open the local definition files.
    OpenDefFiles,
    /// Get the reader of a location's local definitions.
    GetDefReader(LocationRef),
    /// Read all local definitions of the location whose reader is open.
    ReadAllLocalDefinitions,
    /// Open the local event files.
    OpenEvtFiles,
    /// Make the engine create the event reader of a location.
    GetEvtReader(LocationRef),
    /// Get the reader that merges the events of the selected locations.
    GetGlobalEvtReader,
    /// Create the callbacks object for events.
    NewEvtCallbacks,
    /// Register the callback for one kind of event with the callbacks
    /// object.
    SetEvtCallback(EventType),
    /// Hand the callbacks and the buffer that collects the events to the
    /// reader.
    SetEvtCallbacks,
    /// Read the events, batch by batch, until the consumer has enough.
    ReadEvents,
}

/// A step in its place: `depth` is the number of sub-resources that are open
/// while the step runs. Whatever is open beyond that when the step comes up
/// is released first, the last opened first.
#[derive(Clone, Copy, Debug, PartialEq, Eq, Structural)]
pub struct Planned {
    pub depth: usize,
    pub step: Step,
}

/// What the engine answered to a step: the status of the call, the address
/// it returned where it returns one, and the number of records it read where
/// it reads. A call without a status reports success; the fields that a call
/// does not fill are `0`.
#[derive(Clone, Copy, Debug, PartialEq, Eq, Structural)]
pub struct Outcome {
    pub status: ErrorCode,
    pub pointer: usize,
    pub count: u64,
}

/// Why an operation on the trace ended early.
#[derive(Clone, Copy, Debug, PartialEq, Eq, Structural)]
pub enum ReadError {
    /// A native call reported a code other than success.
    Status(StatusCode),
    /// A native constructor returned the null address.
    NullHandle,
    /// The operation was not begun: the trace is in use by an operation that
    /// was not run to its end, or the operation can be run once and was.
    Refused,
    /// The program broke the operation off before its next step.
    Aborted,
}

impl Outcome {
    /// The answer of a call that returns a status only.
    pub fn status(status: ErrorCode) -> (outcome: Self)
        ensures
            outcome == (Outcome { status, pointer: 0, count: 0 }),
    {
        Outcome { status, pointer: 0, count: 0 }
    }

    /// The answer of a call that returns an address only.
    pub fn pointer(pointer: usize) -> (outcome: Self)
        ensures
            outcome == (Outcome { status: ErrorCode(OTF2_SUCCESS), pointer, count: 0 }),
    {
        Outcome { status: ErrorCode(OTF2_SUCCESS), pointer, count: 0 }
    }

    /// The answer of a call that reads records: its status and the number of
    /// records read.
    pub fn read(status: ErrorCode, count: u64) -> (outcome: Self)
        ensures
            outcome == (Outcome { status, pointer: 0, count }),
    {
        Outcome { status, pointer: 0, count }
    }
}

impl Step {
    /// Whether the step returns the address of a sub-resource.
    pub open spec fn returns_pointer(self) -> bool {
        match self {
            Step::NewDefCallbacks
            | Step::GetGlobalDefReader
            | Step::GetDefReader(_)
            | Step::GetGlobalEvtReader
            | Step::NewEvtCallbacks => true,
            _ => false,
        }
    }

    /// Whether the answer to the step is passed over. The engine keeps the
    /// event reader of a location to itself, so what the call returns is of
    /// no use here.
    pub open spec fn ignores_outcome(self) -> bool {
        self is GetEvtReader
    }

    /// Whether the step reads records, so that its count adds to the total.
    pub open spec fn counts(self) -> bool {
        self is ReadAllGlobalDefinitions || self is ReadAllLocalDefinitions
    }

    /// Why the step failed, if `outcome` is a failure: a status other than
    /// success, or the null address from a step that returns an address.
    pub open spec fn spec_failure(self, outcome: Outcome) -> Option<ReadError> {
        if self.ignores_outcome() {
            None
        } else if !outcome.status.is_success() {
            Some(ReadError::Status(StatusCode::spec_from_raw(outcome.status)))
        } else if self.returns_pointer() && outcome.pointer == 0 {
            Some(ReadError::NullHandle)
        } else {
            None
        }
    }

    /// The sub-resource that the step has opened when it succeeded with
    /// `outcome`, if it opens one.
    pub open spec fn spec_opens(self, outcome: Outcome) -> Option<Resource> {
        match self {
            Step::NewDefCallbacks => Some(Resource::DefCallbacks(outcome.pointer)),
            Step::GetGlobalDefReader => Some(Resource::GlobalDefReader(outcome.pointer)),
            Step::OpenDefFiles => Some(Resource::DefFiles),
            Step::GetDefReader(_) => Some(Resource::DefReader(outcome.pointer)),
            Step::OpenEvtFiles => Some(Resource::EvtFiles),
            Step::GetGlobalEvtReader => Some(Resource::GlobalEvtReader(outcome.pointer)),
            Step::NewEvtCallbacks => Some(Resource::EvtCallbacks(outcome.pointer)),
            _ => None,
        }
    }

    /// Why the step failed, if `outcome` is a failure.
    pub fn failure(self, outcome: Outcome) -> (failure: Option<ReadError>)
        ensures
            failure == self.spec_failure(outcome),
    {
        let returns_pointer = match self {
            Step::NewDefCallbacks
            | Step::GetGlobalDefReader
            | Step::GetDefReader(_)
            | Step::GetGlobalEvtReader
            | Step::NewEvtCallbacks => true,
            _ => false,
        };
        let ignores = match self {
            Step::GetEvtReader(_) => true,
            _ => false,
        };
        if ignores {
            None
        } else if outcome.status.0 != OTF2_SUCCESS {
            Some(ReadError::Status(StatusCode::from_raw(outcome.status)))
        } else if returns_pointer && outcome.pointer == 0 {
            Some(ReadError::NullHandle)
        } else {
            None
        }
    }

    /// The sub-resource that the step has opened when it succeeded with
    /// `outcome`, if it opens one.
    pub fn opens(self, outcome: Outcome) -> (resource: Option<Resource>)
        ensures
            resource == self.spec_opens(outcome),
    {
        match self {
            Step::NewDefCallbacks => Some(Resource::DefCallbacks(outcome.pointer)),
            Step::GetGlobalDefReader => Some(Resource::GlobalDefReader(outcome.pointer)),
            Step::OpenDefFiles => Some(Resource::DefFiles),
            Step::GetDefReader(_) => Some(Resource::DefReader(outcome.pointer)),
            Step::OpenEvtFiles => Some(Resource::EvtFiles),
            Step::GetGlobalEvtReader => Some(Resource::GlobalEvtReader(outcome.pointer)),
            Step::NewEvtCallbacks => Some(Resource::EvtCallbacks(outcome.pointer)),
            _ => None,
        }
    }
}

/// The steps given, all at one depth.
pub open spec fn planned_at(depth: usize, steps: Seq<Step>) -> Seq<Planned> {
    Seq::new(steps.len(), |i: int| Planned { depth, step: steps[i] })
}

/// The steps of reading the global definitions: the callbacks object is
/// created and a callback registered for every kind, one setter call for
/// each; then the reader is opened; with both open the callbacks are handed
/// to the reader and the definitions are read.
pub open spec fn definitions_plan() -> Seq<Planned> {
    seq![Planned { depth: 0, step: Step::NewDefCallbacks }] + planned_at(
        1,
        GlobalDefReaderCallbacks::spec_set_callbacks(),
    ) + seq![
        Planned { depth: 1, step: Step::GetGlobalDefReader },
        Planned { depth: 2, step: Step::RegisterGlobalDefCallbacks },
        Planned { depth: 2, step: Step::ReadAllGlobalDefinitions },
    ]
}

/// One step for each location, all at one depth.
pub open spec fn for_each_location(
    locations: Seq<LocationRef>,
    depth: usize,
    step: spec_fn(LocationRef) -> Step,
) -> Seq<Planned> {
    Seq::new(locations.len(), |i: int| Planned { depth, step: step(locations[i]) })
}

/// The steps of reading the local definitions of each location: with the
/// definition files open, each location's reader is opened, read to its end
/// and released before the next location's reader is opened.
pub open spec fn local_definitions_plan(locations: Seq<LocationRef>) -> Seq<Planned>
    decreases locations.len(),
{
    if locations.len() == 0 {
        Seq::empty()
    } else {
        seq![
            Planned { depth: 1, step: Step::GetDefReader(locations[0]) },
            Planned { depth: 2, step: Step::ReadAllLocalDefinitions },
        ] + local_definitions_plan(locations.skip(1))
    }
}

/// The steps of reading the events of `locations`. The locations are
/// selected; their local definitions are read and the definition files
/// closed; the event files are opened and each location's event reader
/// created; then the global event reader is opened, the callbacks object
/// created and a callback registered for every kind, one setter call for
/// each; with all that open the callbacks are handed to the reader and the
/// events are read. No event is read before all that comes before it has
/// succeeded.
pub open spec fn events_plan(locations: Seq<LocationRef>) -> Seq<Planned> {
    for_each_location(locations, 0, |l: LocationRef| Step::SelectLocation(l)) + seq![
        Planned { depth: 0, step: Step::OpenDefFiles },
    ] + local_definitions_plan(locations) + seq![Planned { depth: 0, step: Step::OpenEvtFiles }]
        + for_each_location(locations, 1, |l: LocationRef| Step::GetEvtReader(l)) + seq![
        Planned { depth: 1, step: Step::GetGlobalEvtReader },
        Planned { depth: 2, step: Step::NewEvtCallbacks },
    ] + planned_at(3, GlobalEvtReaderCallbacks::spec_set_callbacks()) + seq![
        Planned { depth: 3, step: Step::SetEvtCallbacks },
        Planned { depth: 3, step: Step::ReadEvents },
    ]
}

/// The plan of reading the global definitions.
pub fn plan_definitions() -> (plan: Vec<Planned>)
    ensures
        plan@ == definitions_plan(),
{
    let mut plan: Vec<Planned> = Vec::new();
    plan.push(Planned { depth: 0, step: Step::NewDefCallbacks });
    push_planned_at(&mut plan, 1, &GlobalDefReaderCallbacks::set_callbacks());
    plan.push(Planned { depth: 1, step: Step::GetGlobalDefReader });
    plan.push(Planned { depth: 2, step: Step::RegisterGlobalDefCallbacks });
    plan.push(Planned { depth: 2, step: Step::ReadAllGlobalDefinitions });
    proof {
        assert(plan@ =~= definitions_plan());
    }
    plan
}

/// Appends the steps to the plan, all at one depth.
fn push_planned_at(plan: &mut Vec<Planned>, depth: usize, steps: &Vec<Step>)
    ensures
        final(plan)@ == old(plan)@ + planned_at(depth, steps@),
{
    let mut i: usize = 0;
    proof {
        assert(plan@ =~= old(plan)@ + planned_at(depth, steps@).take(0));
    }
    while i < steps.len()
        invariant
            i <= steps.len(),
            plan@ == old(plan)@ + planned_at(depth, steps@).take(i as int),
        decreases steps.len() - i,
    {
        plan.push(Planned { depth, step: steps[i] });
        proof {
            assert(plan@ =~= old(plan)@ + planned_at(depth, steps@).take(i + 1));
        }
        i += 1;
    }
    proof {
        assert(planned_at(depth, steps@).take(i as int) =~= planned_at(depth, steps@));
    }
}

/// The local definitions plan of a row of locations is that of its first
/// part followed by the two steps of its last location.
pub proof fn lemma_local_definitions_plan_push(locations: Seq<LocationRef>, last: LocationRef)
    ensures
        local_definitions_plan(locations.push(last)) == local_definitions_plan(locations) + seq![
            Planned { depth: 1, step: Step::GetDefReader(last) },
            Planned { depth: 2, step: Step::ReadAllLocalDefinitions },
        ],
    decreases locations.len(),
{
    let pair = seq![
        Planned { depth: 1, step: Step::GetDefReader(last) },
        Planned { depth: 2, step: Step::ReadAllLocalDefinitions },
    ];
    if locations.len() == 0 {
        let one = locations.push(last);
        assert(one.skip(1) =~= Seq::<LocationRef>::empty());
        assert(one[0] == last);
        assert(local_definitions_plan(one.skip(1)) =~= Seq::<Planned>::empty());
        assert(local_definitions_plan(one) == pair + local_definitions_plan(one.skip(1)));
        assert(local_definitions_plan(one) =~= pair);
        assert(local_definitions_plan(locations) + pair =~= pair);
    } else {
        lemma_local_definitions_plan_push(locations.skip(1), last);
        assert(locations.push(last).skip(1) =~= locations.skip(1).push(last));
        assert(locations.push(last)[0] == locations[0]);
        let head = seq![
            Planned { depth: 1, step: Step::GetDefReader(locations[0]) },
            Planned { depth: 2, step: Step::ReadAllLocalDefinitions },
        ];
        assert(head + (local_definitions_plan(locations.skip(1)) + pair) =~= (head
            + local_definitions_plan(locations.skip(1))) + pair);
    }
}

/// The local definitions plan has two steps for each location.
pub proof fn lemma_local_definitions_plan_len(locations: Seq<LocationRef>)
    ensures
        local_definitions_plan(locations).len() == 2 * locations.len(),
    decreases locations.len(),
{
    if locations.len() > 0 {
        lemma_local_definitions_plan_len(locations.skip(1));
    }
}

/// Where the steps of the events plan stand. With `n` locations the plan has
/// `4 * n + 86` steps; the event files are opened by the step of index
/// `3 * n + 1`, after the last step on the local definitions; the eighty
/// setter steps stand from the index `4 * n + 4` on, in the order of
/// registration; the events are read by the last step, after every other.
pub proof fn lemma_events_plan_layout(locations: Seq<LocationRef>)
    ensures
        events_plan(locations).len() == 4 * locations.len() + 86,
        events_plan(locations)[locations.len() as int].step == Step::OpenDefFiles,
        events_plan(locations)[3 * (locations.len() as int) + 1].step == Step::OpenEvtFiles,
        forall|kind: EventType|
            (#[trigger] events_plan(locations)[4 * (locations.len() as int) + 4
                + kind.registration_index()]).step == Step::SetEvtCallback(kind),
        events_plan(locations)[4 * (locations.len() as int) + 84].step == Step::SetEvtCallbacks,
        events_plan(locations)[4 * (locations.len() as int) + 85].step == Step::ReadEvents,
        forall|i: int|
            0 <= i < 4 * locations.len() + 85 ==> (#[trigger] events_plan(locations)[i]).step
                != Step::ReadEvents,
{
    let n = locations.len() as int;
    let plan = events_plan(locations);
    let selects = for_each_location(locations, 0, |l: LocationRef| Step::SelectLocation(l));
    let locals = local_definitions_plan(locations);
    let readers = for_each_location(locations, 1, |l: LocationRef| Step::GetEvtReader(l));
    let setters = planned_at(3, GlobalEvtReaderCallbacks::spec_set_callbacks());
    lemma_local_definitions_plan_len(locations);
    lemma_local_definitions_plan_steps(locations);
    assert(EventType::spec_registration_order().len() == 80);
    assert(setters.len() == 80);
    assert(plan.len() == 4 * n + 86);
    assert forall|kind: EventType|
        (#[trigger] plan[4 * n + 4 + kind.registration_index()]).step == Step::SetEvtCallback(
            kind,
        ) by {
        EventType::lemma_every_kind_is_registered(kind);
        let k = kind.registration_index();
        assert(plan[4 * n + 4 + k] == setters[k]);
    }
    assert forall|i: int| 0 <= i < 4 * n + 85 implies (#[trigger] plan[i]).step
        != Step::ReadEvents by {
        if i < n {
            assert(plan[i] == selects[i]);
        } else if i == n {
        } else if i < 3 * n + 1 {
            assert(plan[i] == locals[i - n - 1]);
        } else if i == 3 * n + 1 {
        } else if i < 4 * n + 2 {
            assert(plan[i] == readers[i - 3 * n - 2]);
        } else if i < 4 * n + 4 {
        } else if i < 4 * n + 84 {
            assert(plan[i] == setters[i - 4 * n - 4]);
        } else {
        }
    }
}

/// Where the steps of the definitions plan stand: the callbacks object is
/// created first, the thirty-nine setter steps follow in the order of
/// registration, and the definitions are read by the last step.
pub proof fn lemma_definitions_plan_layout()
    ensures
        definitions_plan().len() == 43,
        definitions_plan()[0].step == Step::NewDefCallbacks,
        forall|kind: DefinitionKind|
            (#[trigger] definitions_plan()[1 + kind.registration_index()]).step
                == Step::SetDefCallback(kind),
        definitions_plan()[40].step == Step::GetGlobalDefReader,
        definitions_plan()[41].step == Step::RegisterGlobalDefCallbacks,
        definitions_plan()[42].step == Step::ReadAllGlobalDefinitions,
{
    let plan = definitions_plan();
    let setters = planned_at(1, GlobalDefReaderCallbacks::spec_set_callbacks());
    assert(DefinitionKind::spec_registration_order().len() == 39);
    assert(setters.len() == 39);
    assert forall|kind: DefinitionKind|
        (#[trigger] plan[1 + kind.registration_index()]).step == Step::SetDefCallback(kind) by {
        DefinitionKind::lemma_every_kind_is_registered(kind);
        let k = kind.registration_index();
        assert(plan[1 + k] == setters[k]);
    }
}

/// The local definitions plan holds nothing but the two steps on local
/// definitions.
pub proof fn lemma_local_definitions_plan_steps(locations: Seq<LocationRef>)
    ensures
        forall|i: int|
            0 <= i < local_definitions_plan(locations).len() ==> {
                let step = (#[trigger] local_definitions_plan(locations)[i]).step;
                step is GetDefReader || step is ReadAllLocalDefinitions
            },
    decreases locations.len(),
{
    if locations.len() > 0 {
        lemma_local_definitions_plan_steps(locations.skip(1));
        let rest = local_definitions_plan(locations.skip(1));
        assert forall|i: int| 0 <= i < local_definitions_plan(locations).len() implies {
            let step = (#[trigger] local_definitions_plan(locations)[i]).step;
            step is GetDefReader || step is ReadAllLocalDefinitions
        } by {
            if i >= 2 {
                assert(local_definitions_plan(locations)[i] == rest[i - 2]);
            }
        }
    }
}

/// The plan of reading the events of `locations`.
pub fn plan_events(locations: &Vec<LocationRef>) -> (plan: Vec<Planned>)
    ensures
        plan@ == events_plan(locations@),
{
    let n = locations.len();
    let mut plan: Vec<Planned> = Vec::new();
    let mut i: usize = 0;
    while i < n
        invariant
            i <= n,
            n == locations.len(),
            plan@ == for_each_location(
                locations@.take(i as int),
                0,
                |l: LocationRef| Step::SelectLocation(l),
            ),
        decreases n - i,
    {
        plan.push(Planned { depth: 0, step: Step::SelectLocation(locations[i]) });
        proof {
            assert(plan@ =~= for_each_location(
                locations@.take(i + 1),
                0,
                |l: LocationRef| Step::SelectLocation(l),
            ));
        }
        i += 1;
    }
    assert(locations@.take(n as int) =~= locations@);
    let ghost selected = plan@;
    plan.push(Planned { depth: 0, step: Step::OpenDefFiles });
    let ghost opened = plan@;
    i = 0;
    assert(locations@.take(0) =~= Seq::<LocationRef>::empty());
    assert(plan@ =~= opened + local_definitions_plan(locations@.take(0)));
    while i < n
        invariant
            i <= n,
            n == locations.len(),
            plan@ == opened + local_definitions_plan(locations@.take(i as int)),
        decreases n - i,
    {
        plan.push(Planned { depth: 1, step: Step::GetDefReader(locations[i]) });
        plan.push(Planned { depth: 2, step: Step::ReadAllLocalDefinitions });
        proof {
            lemma_local_definitions_plan_push(locations@.take(i as int), locations@[i as int]);
            assert(locations@.take(i as int).push(locations@[i as int]) =~= locations@.take(i + 1));
            assert(plan@ =~= opened + local_definitions_plan(locations@.take(i + 1)));
        }
        i += 1;
    }
    plan.push(Planned { depth: 0, step: Step::OpenEvtFiles });
    let ghost files = plan@;
    i = 0;
    assert(plan@ =~= files + for_each_location(
        locations@.take(0),
        1,
        |l: LocationRef| Step::GetEvtReader(l),
    ));
    while i < n
        invariant
            i <= n,
            n == locations.len(),
            plan@ == files + for_each_location(
                locations@.take(i as int),
                1,
                |l: LocationRef| Step::GetEvtReader(l),
            ),
        decreases n - i,
    {
        plan.push(Planned { depth: 1, step: Step::GetEvtReader(locations[i]) });
        proof {
            assert(plan@ =~= files + for_each_location(
                locations@.take(i + 1),
                1,
                |l: LocationRef| Step::GetEvtReader(l),
            ));
        }
        i += 1;
    }
    plan.push(Planned { depth: 1, step: Step::GetGlobalEvtReader });
    plan.push(Planned { depth: 2, step: Step::NewEvtCallbacks });
    push_planned_at(&mut plan, 3, &GlobalEvtReaderCallbacks::set_callbacks());
    plan.push(Planned { depth: 3, step: Step::SetEvtCallbacks });
    plan.push(Planned { depth: 3, step: Step::ReadEvents });
    proof {
        assert(plan@ =~= events_plan(locations@));
    }
    plan
}

} // verus!
