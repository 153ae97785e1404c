use otf2::definition::DefinitionKind;
use otf2::definition::DefinitionList;
use otf2::error::StatusCode;
use otf2::event::Event;
use otf2::event::EventKind;
use otf2::event::EventType;
use otf2::native::ErrorCode;
use otf2::native::LocationRef;
use otf2::native::RegionRef;
use otf2::native::OTF2_ERROR_EACCES;
use otf2::native::OTF2_SUCCESS;
use otf2::reader::event_iter::EventIter;
use otf2::reader::event_iter::Next;
use otf2::reader::first_nul;
use otf2::reader::plan::plan_definitions;
use otf2::reader::plan::plan_events;
use otf2::reader::plan::Outcome;
use otf2::reader::plan::Planned;
use otf2::reader::plan::ReadError;
use otf2::reader::plan::Resource;
use otf2::reader::plan::Step;
use otf2::reader::runner::Action;
use otf2::reader::runner::Runner;
use otf2::reader::DefinitionsState;
use otf2::reader::ReaderError;
use otf2::reader::ReaderState;
use otf2::reader::Trace;

#[test]
fn opening_a_path_that_the_engine_cannot_open_names_the_path() {
    let opened = Trace::open(String::from("/no/such/trace.otf2"), 0);
    assert_eq!(
        opened.err(),
        Some(ReaderError::OpenReturnedNull(String::from(
            "/no/such/trace.otf2"
        )))
    );
}

#[test]
fn an_opened_trace_owns_the_reader_until_it_is_released() {
    let mut trace = Trace::open(String::from("trace.otf2"), 512).unwrap();
    assert!(!trace.is_closed());
    assert_eq!(trace.as_mut_ptr(), 512);
    assert_eq!(
        trace.set_serial_collective_callbacks(|reader: usize| ErrorCode(if reader == 512 {
            OTF2_SUCCESS
        } else {
            1
        })),
        Ok(())
    );
    assert_eq!(
        trace.set_serial_collective_callbacks(|_reader: usize| ErrorCode(OTF2_ERROR_EACCES)),
        Err(StatusCode::from_raw(ErrorCode(OTF2_ERROR_EACCES)))
    );
    assert_eq!(trace.release(), Some(512));
    assert!(trace.is_closed());
    assert_eq!(trace.release(), None);
}

#[test]
fn a_zero_byte_in_an_argument_is_found_at_its_first_position() {
    assert_eq!(first_nul(b"trace.otf2"), None);
    assert_eq!(first_nul(b""), None);
    assert_eq!(first_nul(b"tr\0ce\0"), Some(2));
    assert_eq!(
        ReaderError::check_c_string("anchor_file", b"a\0b"),
        Err(ReaderError::NullByte("anchor_file", 1))
    );
    assert_eq!(ReaderError::check_c_string("anchor_file", b"ab"), Ok(()));
    assert_eq!(
        ReaderError::from_status(Err(StatusCode::from_raw(ErrorCode(3)))),
        Err(ReaderError::Unknown)
    );
    assert_eq!(ReaderError::from_status(Ok(())), Ok(()));
}

fn events(n: u64) -> Vec<Event> {
    (0..n)
        .map(|i| {
            Event::new(
                LocationRef(0),
                100 + i,
                vec![],
                EventKind::Enter {
                    region: RegionRef(i as u32),
                },
            )
        })
        .collect()
}

/// Asks the iterator until the end, with an engine that holds `source` and
/// answers every read in full. Returns what the consumer received and the
/// sizes of the batches that the engine delivered.
fn drain(source: &[Event], batch_size: u64) -> (Vec<Event>, Vec<u64>) {
    let mut it = EventIter::new(batch_size);
    let mut delivered = 0usize;
    let mut received = Vec::new();
    let mut batches = Vec::new();
    loop {
        match it.next() {
            Next::Event(event) => received.push(event),
            Next::End => break,
            Next::Read(n) => {
                assert_eq!(n, batch_size);
                let upto = std::cmp::min(source.len(), delivered + n as usize);
                for event in &source[delivered..upto] {
                    it.event_queue.push_back(event.clone());
                }
                let read = (upto - delivered) as u64;
                delivered = upto;
                batches.push(read);
                assert_eq!(it.batch_read(ErrorCode(OTF2_SUCCESS), read), Ok(read));
            }
        }
        assert!(batches.len() <= source.len() + 2);
    }
    (received, batches)
}

#[test]
fn seven_events_in_batches_of_two() {
    let source = events(7);
    let (received, batches) = drain(&source, 2);
    assert_eq!(received, source);
    assert_eq!(batches, vec![2, 2, 2, 1]);
    let times: Vec<u64> = received.iter().map(|event| event.data.time).collect();
    assert_eq!(times, vec![100, 101, 102, 103, 104, 105, 106]);
}

#[test]
fn the_batch_size_does_not_show_in_what_the_consumer_receives() {
    for n in [0u64, 1, 2, 7, 12] {
        let source = events(n);
        for batch_size in [
            1u64,
            2,
            3,
            std::cmp::max(n, 1),
            2 * std::cmp::max(n, 1),
            1000,
        ] {
            let (received, batches) = drain(&source, batch_size);
            assert_eq!(received, source);
            assert_eq!(batches.iter().sum::<u64>(), n);
        }
    }
}

#[test]
fn a_full_last_batch_needs_one_more_read_to_find_the_end() {
    let source = events(4);
    let (received, batches) = drain(&source, 2);
    assert_eq!(received, source);
    assert_eq!(batches, vec![2, 2, 0]);
    let (_, batches) = drain(&source, 8);
    assert_eq!(batches, vec![4]);
    let (received, batches) = drain(&source, 0);
    assert_eq!(received, vec![]);
    assert_eq!(batches, vec![0]);
}

#[test]
fn a_failed_read_is_handed_on_and_keeps_what_is_buffered() {
    let mut it = EventIter::new(3);
    assert_eq!(it.batch_size(), 3);
    assert_eq!(it.next(), Next::Read(3));
    let source = events(2);
    it.push(source[0].clone());
    it.push(source[1].clone());
    assert_eq!(
        it.batch_read(ErrorCode(OTF2_ERROR_EACCES), 2),
        Err(StatusCode::from_raw(ErrorCode(OTF2_ERROR_EACCES)))
    );
    assert_eq!(it.next(), Next::Event(source[0].clone()));
    assert_eq!(it.next(), Next::Event(source[1].clone()));
    assert_eq!(it.next(), Next::Read(3));
    assert_eq!(it.batch_read(ErrorCode(OTF2_SUCCESS), 0), Ok(0));
    assert_eq!(it.next(), Next::End);
    assert_eq!(it.next(), Next::End);
}

fn planned(depth: usize, step: Step) -> Planned {
    Planned { depth, step }
}

#[test]
fn the_plans_hold_the_steps_in_their_order() {
    let mut definitions = vec![planned(0, Step::NewDefCallbacks)];
    for kind in DefinitionKind::registration_order() {
        definitions.push(planned(1, Step::SetDefCallback(kind)));
    }
    definitions.push(planned(1, Step::GetGlobalDefReader));
    definitions.push(planned(2, Step::RegisterGlobalDefCallbacks));
    definitions.push(planned(2, Step::ReadAllGlobalDefinitions));
    assert_eq!(definitions.len(), 43);
    assert_eq!(plan_definitions(), definitions);
    let a = LocationRef(10);
    let b = LocationRef(20);
    let mut events = vec![
        planned(0, Step::SelectLocation(a)),
        planned(0, Step::SelectLocation(b)),
        planned(0, Step::OpenDefFiles),
        planned(1, Step::GetDefReader(a)),
        planned(2, Step::ReadAllLocalDefinitions),
        planned(1, Step::GetDefReader(b)),
        planned(2, Step::ReadAllLocalDefinitions),
        planned(0, Step::OpenEvtFiles),
        planned(1, Step::GetEvtReader(a)),
        planned(1, Step::GetEvtReader(b)),
        planned(1, Step::GetGlobalEvtReader),
        planned(2, Step::NewEvtCallbacks),
    ];
    for kind in EventType::registration_order() {
        events.push(planned(3, Step::SetEvtCallback(kind)));
    }
    events.push(planned(3, Step::SetEvtCallbacks));
    events.push(planned(3, Step::ReadEvents));
    assert_eq!(events.len(), 94);
    assert_eq!(plan_events(&vec![a, b]), events);
    assert_eq!(plan_events(&vec![]).len(), 86);
}

fn ok() -> Outcome {
    Outcome::status(ErrorCode(OTF2_SUCCESS))
}

fn is_setter(action: Action) -> bool {
    matches!(
        action,
        Action::Do(Step::SetDefCallback(_)) | Action::Do(Step::SetEvtCallback(_))
    )
}

fn register_all(runner: &mut Runner, first: Action) -> (Action, usize) {
    let mut action = first;
    let mut setters = 0;
    while is_setter(action) {
        setters += 1;
        action = runner.advance(ok());
    }
    (action, setters)
}

#[test]
fn reading_the_definitions_releases_the_reader_before_the_callbacks() {
    let mut runner = Runner::new(plan_definitions());
    assert_eq!(runner.current(), Action::Do(Step::NewDefCallbacks));
    let first = runner.advance(Outcome::pointer(100));
    assert_eq!(
        first,
        Action::Do(Step::SetDefCallback(DefinitionKind::Unknown))
    );
    assert_eq!(
        register_all(&mut runner, first),
        (Action::Do(Step::GetGlobalDefReader), 39)
    );
    assert_eq!(
        runner.advance(Outcome::pointer(200)),
        Action::Do(Step::RegisterGlobalDefCallbacks)
    );
    assert_eq!(
        runner.advance(ok()),
        Action::Do(Step::ReadAllGlobalDefinitions)
    );
    assert_eq!(
        runner.advance(Outcome::read(ErrorCode(OTF2_SUCCESS), 40)),
        Action::Release(Resource::GlobalDefReader(200))
    );
    assert!(!runner.is_finished());
    assert_eq!(
        runner.advance(Outcome::status(ErrorCode(9))),
        Action::Release(Resource::DefCallbacks(100))
    );
    assert_eq!(runner.advance(ok()), Action::Finished(Ok(40)));
    assert!(runner.is_finished());
    assert_eq!(
        runner.advance(Outcome::status(ErrorCode(9))),
        Action::Finished(Ok(40))
    );
    assert_eq!(runner.current(), Action::Finished(Ok(40)));
}

#[test]
fn the_first_failure_ends_the_plan_and_is_the_result() {
    let mut runner = Runner::new(plan_definitions());
    let first = runner.advance(Outcome::pointer(100));
    assert_eq!(
        first,
        Action::Do(Step::SetDefCallback(DefinitionKind::Unknown))
    );
    assert_eq!(
        register_all(&mut runner, first),
        (Action::Do(Step::GetGlobalDefReader), 39)
    );
    assert_eq!(
        runner.advance(Outcome::pointer(200)),
        Action::Do(Step::RegisterGlobalDefCallbacks)
    );
    assert_eq!(
        runner.advance(Outcome::status(ErrorCode(OTF2_ERROR_EACCES))),
        Action::Release(Resource::GlobalDefReader(200))
    );
    assert_eq!(
        runner.advance(Outcome::status(ErrorCode(77))),
        Action::Release(Resource::DefCallbacks(100))
    );
    assert_eq!(
        runner.advance(ok()),
        Action::Finished(Err(ReadError::Status(StatusCode::from_raw(ErrorCode(
            OTF2_ERROR_EACCES
        )))))
    );
}

#[test]
fn a_null_address_from_a_constructor_is_a_failure() {
    let mut runner = Runner::new(plan_definitions());
    let first = runner.advance(Outcome::pointer(100));
    assert_eq!(
        first,
        Action::Do(Step::SetDefCallback(DefinitionKind::Unknown))
    );
    assert_eq!(
        register_all(&mut runner, first),
        (Action::Do(Step::GetGlobalDefReader), 39)
    );
    assert_eq!(
        runner.advance(Outcome::pointer(0)),
        Action::Release(Resource::DefCallbacks(100))
    );
    assert_eq!(
        runner.advance(ok()),
        Action::Finished(Err(ReadError::NullHandle))
    );
    let mut runner = Runner::new(plan_definitions());
    assert_eq!(
        runner.advance(Outcome::pointer(0)),
        Action::Finished(Err(ReadError::NullHandle))
    );
    assert_eq!(
        Step::GetEvtReader(LocationRef(1)).failure(Outcome::pointer(0)),
        None
    );
    assert_eq!(Step::OpenDefFiles.opens(ok()), Some(Resource::DefFiles));
    assert_eq!(Step::ReadEvents.opens(ok()), None);
}

#[test]
fn the_buffer_exists_only_once_the_steps_before_it_have_succeeded() {
    let a = LocationRef(10);
    let b = LocationRef(20);
    let mut trace = Trace::open(String::from("trace.otf2"), 512).unwrap();
    let mut reader = trace.get_local_event_reader(vec![a, b], 1000);
    let mut actions = vec![reader.current()];
    let mut states = vec![reader.state()];
    let mut with_buffer = Vec::new();
    let mut pointer = 1000;
    while !reader.is_finished() {
        assert!(reader.trace.is_in_use());
        with_buffer.push(reader.into_event_iter().is_some());
        let outcome = match reader.current() {
            Action::Do(Step::GetDefReader(_))
            | Action::Do(Step::GetGlobalEvtReader)
            | Action::Do(Step::NewEvtCallbacks) => {
                pointer += 1;
                Outcome::pointer(pointer)
            }
            Action::Do(Step::GetEvtReader(_)) => Outcome::pointer(0),
            Action::Do(Step::ReadAllLocalDefinitions) => Outcome::read(ErrorCode(OTF2_SUCCESS), 5),
            _ => ok(),
        };
        actions.push(reader.advance(outcome));
        states.push(reader.state());
        assert!(actions.len() < 200);
    }
    let s = ReaderState::Selected;
    let l = ReaderState::LocalDefinitionsRead;
    let f = ReaderState::EvtFilesOpen;
    let i = ReaderState::Iterating;
    assert_eq!(
        states[..15],
        vec![s, s, s, s, s, s, s, s, l, l, l, f, f, f, f,]
    );
    states.drain(..15);
    assert_eq!(states.drain(..80).collect::<Vec<_>>(), vec![f; 80]);
    assert_eq!(states, vec![f, i, i, i, i, ReaderState::Closed]);
    assert_eq!(reader.runner.position(), 94);
    assert!(!trace.is_in_use());
    assert_eq!(trace.release(), Some(512));
    let setters: Vec<Action> = actions.drain(15..95).collect();
    let expected: Vec<Action> = EventType::registration_order()
        .iter()
        .map(|kind| Action::Do(Step::SetEvtCallback(*kind)))
        .collect();
    assert_eq!(setters, expected);
    assert_eq!(
        actions,
        vec![
            Action::Do(Step::SelectLocation(a)),
            Action::Do(Step::SelectLocation(b)),
            Action::Do(Step::OpenDefFiles),
            Action::Do(Step::GetDefReader(a)),
            Action::Do(Step::ReadAllLocalDefinitions),
            Action::Release(Resource::DefReader(1001)),
            Action::Do(Step::GetDefReader(b)),
            Action::Do(Step::ReadAllLocalDefinitions),
            Action::Release(Resource::DefReader(1002)),
            Action::Release(Resource::DefFiles),
            Action::Do(Step::OpenEvtFiles),
            Action::Do(Step::GetEvtReader(a)),
            Action::Do(Step::GetEvtReader(b)),
            Action::Do(Step::GetGlobalEvtReader),
            Action::Do(Step::NewEvtCallbacks),
            Action::Do(Step::SetEvtCallbacks),
            Action::Do(Step::ReadEvents),
            Action::Release(Resource::EvtCallbacks(1004)),
            Action::Release(Resource::GlobalEvtReader(1003)),
            Action::Release(Resource::EvtFiles),
            Action::Finished(Ok(10)),
        ]
    );
    let reading: Vec<usize> = with_buffer
        .iter()
        .enumerate()
        .filter(|(_, b)| **b)
        .map(|(i, _)| i)
        .collect();
    assert_eq!(reading, vec![95]);
}

#[test]
fn a_failure_among_the_local_definitions_releases_what_is_open() {
    let a = LocationRef(10);
    let mut trace = Trace::open(String::from("trace.otf2"), 512).unwrap();
    let mut reader = trace.get_local_event_reader(vec![a], 10);
    assert_eq!(reader.batch_size, 10);
    assert_eq!(reader.locations, vec![a]);
    assert_eq!(reader.advance(ok()), Action::Do(Step::OpenDefFiles));
    assert_eq!(reader.advance(ok()), Action::Do(Step::GetDefReader(a)));
    assert_eq!(
        reader.advance(Outcome::pointer(7)),
        Action::Do(Step::ReadAllLocalDefinitions)
    );
    assert!(reader.into_event_iter().is_none());
    assert_eq!(
        reader.advance(Outcome::read(ErrorCode(12), 3)),
        Action::Release(Resource::DefReader(7))
    );
    assert_eq!(reader.state(), ReaderState::Selected);
    assert_eq!(reader.advance(ok()), Action::Release(Resource::DefFiles));
    assert!(reader.trace.is_in_use());
    assert_eq!(
        reader.advance(ok()),
        Action::Finished(Err(ReadError::Status(StatusCode::from_raw(ErrorCode(12)))))
    );
    assert_eq!(reader.state(), ReaderState::Closed);
    assert!(!trace.is_in_use());
}

#[test]
fn a_trace_in_use_is_not_given_up_and_begins_nothing_else() {
    let mut trace = Trace::open(String::from("trace.otf2"), 512).unwrap();
    let mut reader = trace.get_local_event_reader(vec![], 10);
    assert_eq!(reader.current(), Action::Do(Step::OpenDefFiles));
    assert_eq!(reader.advance(ok()), Action::Release(Resource::DefFiles));
    assert_eq!(reader.trace.release(), None);
    assert!(trace.is_in_use());
    assert_eq!(trace.release(), None);
    assert!(!trace.is_closed());
    let refused = trace.get_local_event_reader(vec![], 10);
    assert_eq!(refused.current(), Action::Finished(Err(ReadError::Refused)));
    assert_eq!(refused.state(), ReaderState::Closed);
    let refused = trace.read_definitions();
    assert_eq!(refused.current(), Action::Finished(Err(ReadError::Refused)));
    assert!(trace.is_in_use());
    assert_eq!(trace.definitions_state(), DefinitionsState::Unopened);
}

#[test]
fn the_counts_of_the_reads_add_up_and_stop_at_the_largest_count() {
    let mut trace = Trace::open(String::from("trace.otf2"), 512).unwrap();
    let mut reader = trace.get_local_event_reader(vec![LocationRef(1), LocationRef(2)], 10);
    let mut last = reader.current();
    while !reader.is_finished() {
        let outcome = match last {
            Action::Do(Step::ReadAllLocalDefinitions) => {
                Outcome::read(ErrorCode(OTF2_SUCCESS), u64::MAX - 1)
            }
            Action::Do(_) => Outcome {
                status: ErrorCode(OTF2_SUCCESS),
                pointer: 5,
                count: 1000,
            },
            _ => ok(),
        };
        last = reader.advance(outcome);
    }
    assert_eq!(last, Action::Finished(Ok(u64::MAX)));
}

fn read_definitions(trace: &mut Trace, fail_at: Option<Step>) -> Result<(u64, usize), ReadError> {
    let mut reader = trace.read_definitions();
    assert!(reader.definitions_read(DefinitionList::new()).is_none() || reader.is_finished());
    while !reader.is_finished() {
        let outcome = match reader.current() {
            Action::Do(step) if Some(step) == fail_at => {
                Outcome::status(ErrorCode(OTF2_ERROR_EACCES))
            }
            Action::Do(Step::ReadAllGlobalDefinitions) => {
                Outcome::read(ErrorCode(OTF2_SUCCESS), 40)
            }
            Action::Do(_) => Outcome::pointer(64),
            _ => ok(),
        };
        reader.advance(outcome);
    }
    reader
        .definitions_read(DefinitionList::new())
        .unwrap()
        .map(|(count, list)| (count, list.0.len()))
}

#[test]
fn the_definitions_are_read_once() {
    let mut trace = Trace::open(String::from("trace.otf2"), 512).unwrap();
    assert_eq!(trace.definitions_state(), DefinitionsState::Unopened);
    assert_eq!(
        read_definitions(&mut trace, Some(Step::RegisterGlobalDefCallbacks)),
        Err(ReadError::Status(StatusCode::from_raw(ErrorCode(
            OTF2_ERROR_EACCES
        ))))
    );
    assert_eq!(trace.definitions_state(), DefinitionsState::Unopened);
    assert!(!trace.is_in_use());
    {
        let reader = trace.read_definitions();
        assert_eq!(reader.current(), Action::Do(Step::NewDefCallbacks));
        assert_eq!(
            reader.trace.definitions_state(),
            DefinitionsState::DefinitionsPending
        );
    }
    assert!(trace.is_in_use());
    assert_eq!(read_definitions(&mut trace, None), Err(ReadError::Refused));
    let mut trace = Trace::open(String::from("trace.otf2"), 512).unwrap();
    assert_eq!(read_definitions(&mut trace, None), Ok((40, 0)));
    assert_eq!(
        trace.definitions_state(),
        DefinitionsState::DefinitionsLoaded
    );
    assert_eq!(read_definitions(&mut trace, None), Err(ReadError::Refused));
    assert_eq!(
        trace.definitions_state(),
        DefinitionsState::DefinitionsLoaded
    );
    assert_eq!(trace.release(), Some(512));
}

#[test]
fn a_trace_that_was_given_up_begins_nothing() {
    let mut trace = Trace::open(String::from("trace.otf2"), 512).unwrap();
    assert_eq!(trace.release(), Some(512));
    assert_eq!(
        trace.read_definitions().current(),
        Action::Finished(Err(ReadError::Refused))
    );
    assert_eq!(
        trace
            .get_local_event_reader(vec![LocationRef(1)], 2)
            .current(),
        Action::Finished(Err(ReadError::Refused))
    );
    assert!(!trace.is_in_use());
    assert_eq!(trace.definitions_state(), DefinitionsState::Unopened);
}

#[test]
fn a_run_that_is_broken_off_takes_no_further_step() {
    let mut runner = Runner::new(plan_definitions());
    let first = runner.advance(Outcome::pointer(100));
    assert_eq!(
        first,
        Action::Do(Step::SetDefCallback(DefinitionKind::Unknown))
    );
    assert_eq!(
        register_all(&mut runner, first),
        (Action::Do(Step::GetGlobalDefReader), 39)
    );
    assert_eq!(
        runner.advance(Outcome::pointer(200)),
        Action::Do(Step::RegisterGlobalDefCallbacks)
    );
    assert_eq!(
        runner.abort(ReadError::Aborted),
        Action::Release(Resource::GlobalDefReader(200))
    );
    assert_eq!(
        runner.abort(ReadError::Refused),
        Action::Release(Resource::GlobalDefReader(200))
    );
    assert_eq!(
        runner.advance(ok()),
        Action::Release(Resource::DefCallbacks(100))
    );
    assert_eq!(
        runner.advance(ok()),
        Action::Finished(Err(ReadError::Aborted))
    );
    assert_eq!(
        runner.abort(ReadError::Refused),
        Action::Finished(Err(ReadError::Aborted))
    );
    let mut fresh = Runner::new(plan_definitions());
    assert_eq!(
        fresh.abort(ReadError::Aborted),
        Action::Finished(Err(ReadError::Aborted))
    );
    let mut trace = Trace::open(String::from("trace.otf2"), 512).unwrap();
    {
        let mut reader = trace.get_local_event_reader(vec![LocationRef(1)], 2);
        assert_eq!(reader.advance(ok()), Action::Do(Step::OpenDefFiles));
        assert_eq!(
            reader.advance(ok()),
            Action::Do(Step::GetDefReader(LocationRef(1)))
        );
        assert_eq!(
            reader.abort(ReadError::Aborted),
            Action::Release(Resource::DefFiles)
        );
        assert!(reader.trace.is_in_use());
        assert_eq!(
            reader.advance(ok()),
            Action::Finished(Err(ReadError::Aborted))
        );
    }
    assert!(!trace.is_in_use());
    {
        let mut reader = trace.read_definitions();
        assert_eq!(
            reader.abort(ReadError::Aborted),
            Action::Finished(Err(ReadError::Aborted))
        );
    }
    assert!(!trace.is_in_use());
    assert_eq!(trace.definitions_state(), DefinitionsState::Unopened);
}
