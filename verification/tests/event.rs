use std::collections::VecDeque;

use otf2::attribute::AttributeValue;
use otf2::error::StatusCode;
use otf2::event::global_reader_callbacks::enter;
use otf2::event::global_reader_callbacks::leave;
use otf2::event::global_reader_callbacks::metric;
use otf2::event::global_reader_callbacks::mpi_send;
use otf2::event::global_reader_callbacks::program_begin;
use otf2::event::global_reader_callbacks::unknown;
use otf2::event::visitor::route_event;
use otf2::event::Event;
use otf2::event::EventData;
use otf2::event::EventKind;
use otf2::event::EventType;
use otf2::event::EventVisitor;
use otf2::event::EventVisitorMultiplexer;
use otf2::event::GlobalEvtReaderCallbacks;
use otf2::native::AttributeRef;
use otf2::native::CallbackCode;
use otf2::native::CommRef;
use otf2::native::ErrorCode;
use otf2::native::LocationRef;
use otf2::native::MetricRef;
use otf2::native::MetricValue;
use otf2::native::RegionRef;
use otf2::native::StringRef;
use otf2::native::Type;
use otf2::native::OTF2_SUCCESS;
use otf2::reader::plan::Outcome;
use otf2::reader::plan::Planned;
use otf2::reader::plan::ReadError;
use otf2::reader::plan::Step;
use otf2::reader::runner::Action;
use otf2::reader::runner::Runner;
use otf2::visitor::Dispatch;
use otf2::visitor::Sink;
use otf2::visitor::Visit;

#[test]
fn a_new_event_holds_what_it_was_given() {
    let attributes = vec![(AttributeRef(1), AttributeValue::Uint8(2))];
    let event = Event::new(
        LocationRef(3),
        4,
        attributes.clone(),
        EventKind::Enter {
            region: RegionRef(5),
        },
    );
    assert_eq!(
        event,
        Event {
            kind: EventKind::Enter {
                region: RegionRef(5)
            },
            data: EventData {
                location: LocationRef(3),
                time: 4,
                attributes
            }
        }
    );
    assert_eq!(event.kind.event_type(), EventType::Enter);
}

#[test]
fn callbacks_append_their_event_to_the_queue() {
    let mut queue = VecDeque::new();
    assert_eq!(
        enter(&mut queue, LocationRef(1), 10, vec![], RegionRef(7)),
        CallbackCode::Success
    );
    assert_eq!(
        mpi_send(
            &mut queue,
            LocationRef(1),
            11,
            vec![(AttributeRef(2), AttributeValue::Int8(-3))],
            4,
            CommRef(5),
            6,
            700
        ),
        CallbackCode::Success
    );
    assert_eq!(
        metric(
            &mut queue,
            LocationRef(2),
            12,
            vec![],
            MetricRef(8),
            vec![Type(4)],
            vec![MetricValue(99)]
        ),
        CallbackCode::Success
    );
    assert_eq!(
        program_begin(
            &mut queue,
            LocationRef(2),
            13,
            vec![],
            StringRef(1),
            vec![StringRef(2), StringRef(3)]
        ),
        CallbackCode::Success
    );
    assert_eq!(
        unknown(&mut queue, LocationRef(2), 14, vec![]),
        CallbackCode::Success
    );
    assert_eq!(
        leave(&mut queue, LocationRef(1), 15, vec![], RegionRef(7)),
        CallbackCode::Success
    );
    let events: Vec<Event> = queue.into_iter().collect();
    assert_eq!(
        events,
        vec![
            Event::new(
                LocationRef(1),
                10,
                vec![],
                EventKind::Enter {
                    region: RegionRef(7)
                }
            ),
            Event::new(
                LocationRef(1),
                11,
                vec![(AttributeRef(2), AttributeValue::Int8(-3))],
                EventKind::MpiSend {
                    receiver: 4,
                    communicator: CommRef(5),
                    msg_tag: 6,
                    msg_length: 700
                }
            ),
            Event::new(
                LocationRef(2),
                12,
                vec![],
                EventKind::Metric {
                    metric: MetricRef(8),
                    type_ids: vec![Type(4)],
                    metric_values: vec![MetricValue(99)]
                }
            ),
            Event::new(
                LocationRef(2),
                13,
                vec![],
                EventKind::ProgramBegin {
                    program_name: StringRef(1),
                    program_arguments: vec![StringRef(2), StringRef(3)]
                }
            ),
            Event::new(LocationRef(2), 14, vec![], EventKind::Unknown),
            Event::new(
                LocationRef(1),
                15,
                vec![],
                EventKind::Leave {
                    region: RegionRef(7)
                }
            ),
        ]
    );
}

struct Watcher {
    entered: Vec<(u64, u64, u32)>,
    left: u32,
    visits: u32,
    refuse_enter: Option<CallbackCode>,
}

impl Watcher {
    fn new(refuse_enter: Option<CallbackCode>) -> Self {
        Watcher {
            entered: Vec::new(),
            left: 0,
            visits: 0,
            refuse_enter,
        }
    }
}

impl Visit<Event> for Watcher {
    fn visit(&mut self, record: &Event) -> CallbackCode {
        self.visits += 1;
        route_event(self, record)
    }
}

impl EventVisitor for Watcher {
    fn visit_enter_event(
        &mut self,
        location_id: LocationRef,
        time: u64,
        _attributes: &[(AttributeRef, AttributeValue)],
        region: RegionRef,
    ) -> CallbackCode {
        if let Some(code) = self.refuse_enter {
            return code;
        }
        self.entered.push((location_id.0, time, region.0));
        CallbackCode::Success
    }

    fn visit_leave_event(
        &mut self,
        _location_id: LocationRef,
        _time: u64,
        _attributes: &[(AttributeRef, AttributeValue)],
        _region: RegionRef,
    ) -> CallbackCode {
        self.left += 1;
        CallbackCode::Success
    }
}

#[test]
fn an_event_reaches_the_method_of_its_kind() {
    let mut watcher = Watcher::new(None);
    let e = Event::new(
        LocationRef(1),
        10,
        vec![],
        EventKind::Enter {
            region: RegionRef(7),
        },
    );
    let l = Event::new(
        LocationRef(1),
        12,
        vec![],
        EventKind::Leave {
            region: RegionRef(7),
        },
    );
    let other = Event::new(LocationRef(1), 11, vec![], EventKind::OmpJoin);
    assert_eq!(route_event(&mut watcher, &e), CallbackCode::Success);
    assert_eq!(route_event(&mut watcher, &other), CallbackCode::Success);
    assert_eq!(route_event(&mut watcher, &l), CallbackCode::Success);
    assert_eq!(watcher.entered, vec![(1, 10, 7)]);
    assert_eq!(watcher.left, 1);
}

#[test]
fn a_visitor_that_objects_keeps_later_visitors_from_the_event() {
    let mut mux = EventVisitorMultiplexer::new();
    mux.add_visitor(Watcher::new(Some(CallbackCode::Error)));
    mux.add_visitor(Watcher::new(None));
    let e = Event::new(
        LocationRef(1),
        10,
        vec![],
        EventKind::Enter {
            region: RegionRef(7),
        },
    );
    let l = Event::new(
        LocationRef(1),
        12,
        vec![],
        EventKind::Leave {
            region: RegionRef(7),
        },
    );
    for _ in 0..3 {
        assert_eq!(mux.visit(&e), CallbackCode::Error);
    }
    assert_eq!(mux.visit(&l), CallbackCode::Success);
    assert_eq!(mux.visitors[0].visits, 4);
    assert_eq!(mux.visitors[1].visits, 1);
    assert!(mux.visitors[1].entered.is_empty());
    assert_eq!(mux.visitors[1].left, 1);
    assert_eq!(mux.visitors[0].left, 1);
}

#[test]
fn visitors_are_visited_in_the_order_of_registration() {
    let mut mux = EventVisitorMultiplexer::new();
    mux.add_visitor(Watcher::new(None));
    mux.add_visitor(Watcher::new(Some(CallbackCode::Interrupt)));
    mux.add_visitor(Watcher::new(Some(CallbackCode::Error)));
    let e = Event::new(
        LocationRef(1),
        10,
        vec![],
        EventKind::Enter {
            region: RegionRef(7),
        },
    );
    assert_eq!(mux.visit(&e), CallbackCode::Interrupt);
    assert_eq!(mux.visitors[0].entered, vec![(1, 10, 7)]);
    assert_eq!(mux.visitors[1].visits, 1);
    assert_eq!(mux.visitors[2].visits, 0);
    assert_eq!(
        mux.visit_enter_event(LocationRef(2), 20, &[], RegionRef(8)),
        CallbackCode::Interrupt
    );
    assert_eq!(mux.visitors[0].entered, vec![(1, 10, 7), (2, 20, 8)]);
    assert_eq!(
        mux.visit_leave_event(LocationRef(2), 21, &[], RegionRef(8)),
        CallbackCode::Success
    );
    assert_eq!(mux.visitors[2].left, 1);
}

#[test]
fn every_kind_of_event_gets_a_callback_in_order() {
    let order = EventType::registration_order();
    assert_eq!(order.len(), 80);
    assert_eq!(order[0], EventType::Unknown);
    assert_eq!(order[3], EventType::Enter);
    assert_eq!(order[79], EventType::CommDestroy);
    let steps = GlobalEvtReaderCallbacks::set_callbacks();
    let expected: Vec<Step> = order
        .iter()
        .map(|kind| Step::SetEvtCallback(*kind))
        .collect();
    assert_eq!(steps, expected);
    let mut callbacks = GlobalEvtReaderCallbacks::new(8);
    assert_eq!(callbacks.release(), Some(8));
    assert_eq!(callbacks.release(), None);
    let plan: Vec<Planned> = steps
        .iter()
        .map(|step| Planned {
            depth: 0,
            step: *step,
        })
        .collect();
    let mut runner = Runner::new(plan);
    let mut action = runner.current();
    let mut setters = 0;
    while let Action::Do(Step::SetEvtCallback(kind)) = action {
        setters += 1;
        let code = if kind == EventType::Leave {
            5
        } else {
            OTF2_SUCCESS
        };
        action = runner.advance(Outcome::status(ErrorCode(code)));
    }
    assert_eq!(setters, 5);
    assert_eq!(
        action,
        Action::Finished(Err(ReadError::Status(StatusCode::from_raw(ErrorCode(5)))))
    );
}

#[test]
fn a_callback_shows_the_event_to_a_consumer_behind_it_and_hands_its_answer_on() {
    let mut target = Dispatch(Watcher::new(None));
    assert_eq!(
        enter(&mut target, LocationRef(1), 10, vec![], RegionRef(7)),
        CallbackCode::Success
    );
    assert_eq!(
        leave(&mut target, LocationRef(1), 11, vec![], RegionRef(7)),
        CallbackCode::Success
    );
    assert_eq!(target.0.entered, vec![(1, 10, 7)]);
    assert_eq!(target.0.left, 1);
    let mut refusing = Dispatch(Watcher::new(Some(CallbackCode::Interrupt)));
    assert_eq!(
        enter(&mut refusing, LocationRef(1), 10, vec![], RegionRef(7)),
        CallbackCode::Interrupt
    );
    assert_eq!(
        refusing.accept(Event::new(LocationRef(1), 12, vec![], EventKind::OmpJoin)),
        CallbackCode::Success
    );
    assert_eq!(refusing.0.visits, 2);
}

#[test]
fn a_pair_of_consumers_acts_as_one() {
    let e = Event::new(
        LocationRef(1),
        10,
        vec![],
        EventKind::Enter {
            region: RegionRef(7),
        },
    );
    let l = Event::new(
        LocationRef(1),
        12,
        vec![],
        EventKind::Leave {
            region: RegionRef(7),
        },
    );
    let mut row = EventVisitorMultiplexer::new();
    row.add_visitor(Watcher::new(None));
    let mut pair = (Watcher::new(Some(CallbackCode::Error)), row);
    assert_eq!(pair.visit(&e), CallbackCode::Error);
    assert_eq!(pair.visit(&l), CallbackCode::Success);
    assert_eq!(pair.0.visits, 2);
    assert_eq!(pair.1.visitors[0].visits, 1);
    let mut other = (
        Watcher::new(None),
        Watcher::new(Some(CallbackCode::Interrupt)),
    );
    assert_eq!(other.visit(&e), CallbackCode::Interrupt);
    assert_eq!(other.0.entered, vec![(1, 10, 7)]);
}
