//! The callbacks of the global event reader. Each builds the event of its
//! kind from the arguments that the engine hands over and hands it to the
//! target of the read: the queue that buffers the batch, or a consumer that
//! is shown each event as it comes.
use vstd::prelude::*;
use std::collections::VecDeque;
use crate::attribute::AttributeValue;
use crate::error::StatusCode;
use crate::event::event_struct::Event;
use crate::event::event_struct::EventData;
use crate::event::event_struct::EventKind;
use crate::event::event_struct::EventType;
use crate::handle::Handle;
use crate::native::AttributeRef;
use crate::native::CallbackCode;
use crate::native::CallingContextRef;
use crate::native::CollectiveOp;
use crate::native::CommRef;
use crate::native::GroupRef;
use crate::native::InterruptGeneratorRef;
use crate::native::IoAccessMode;
use crate::native::IoCreationFlag;
use crate::native::IoFileRef;
use crate::native::IoHandleRef;
use crate::native::IoOperationFlag;
use crate::native::IoOperationMode;
use crate::native::IoParadigmRef;
use crate::native::IoSeekOption;
use crate::native::IoStatusFlag;
use crate::native::LocationRef;
use crate::native::LockType;
use crate::native::MeasurementMode;
use crate::native::MetricRef;
use crate::native::MetricValue;
use crate::native::Paradigm;
use crate::native::ParameterRef;
use crate::native::RegionRef;
use crate::native::RmaAtomicType;
use crate::native::RmaSyncLevel;
use crate::native::RmaSyncType;
use crate::native::RmaWinRef;
use crate::native::StringRef;
use crate::native::TimeStamp;
use crate::native::Type;
use crate::reader::plan::Step;
use crate::visitor::Sink;

verus! {

/// The event of kind `kind` with the shared data given.
pub open spec fn event_of(
    location: LocationRef,
    time: TimeStamp,
    attributes: Vec<(AttributeRef, AttributeValue)>,
    kind: EventKind,
) -> Event {
    Event { kind, data: EventData { location, time, attributes } }
}

impl Sink<Event> for VecDeque<Event> {
    /// The queue takes every event at its back and has the engine go on.
    open spec fn accepts(self, record: Event, after: Self, code: CallbackCode) -> bool {
        code == CallbackCode::Success && after@ == self@.push(record)
    }

    fn accept(&mut self, record: Event) -> (code: CallbackCode) {
        self.push_back(record);
        CallbackCode::Success
    }
}

/// Builds the event and hands it to the target.
fn push_event<S: Sink<Event>>(
    queue: &mut S,
    location: LocationRef,
    time: TimeStamp,
    attributes: Vec<(AttributeRef, AttributeValue)>,
    kind: EventKind,
) -> (code: CallbackCode)
    ensures
        old(queue).accepts(event_of(location, time, attributes, kind), *final(queue), code),
{
    queue.accept(Event::new(location, time, attributes, kind))
}

/// The callback for an `Unknown` event: hands the event to the target.
pub fn unknown<S: Sink<Event>>(
    queue: &mut S,
    location: LocationRef,
    time: TimeStamp,
    attributes: Vec<(AttributeRef, AttributeValue)>,
) -> (code: CallbackCode)
    ensures
        old(queue).accepts(
            event_of(location, time, attributes, (EventKind::Unknown)),
            *final(queue),
            code,
        ),
{
    push_event(queue, location, time, attributes, EventKind::Unknown)
}

/// The callback for a `BufferFlush` event: hands the event to the target.
pub fn buffer_flush<S: Sink<Event>>(
    queue: &mut S,
    location: LocationRef,
    time: TimeStamp,
    attributes: Vec<(AttributeRef, AttributeValue)>,
    stop_time: TimeStamp,
) -> (code: CallbackCode)
    ensures
        old(queue).accepts(
            event_of(location, time, attributes, (EventKind::BufferFlush { stop_time })),
            *final(queue),
            code,
        ),
{
    push_event(queue, location, time, attributes, EventKind::BufferFlush { stop_time })
}

/// The callback for a `MeasurementOnOff` event: hands the event to the target.
pub fn measurement_on_off<S: Sink<Event>>(
    queue: &mut S,
    location: LocationRef,
    time: TimeStamp,
    attributes: Vec<(AttributeRef, AttributeValue)>,
    measurement_mode: MeasurementMode,
) -> (code: CallbackCode)
    ensures
        old(queue).accepts(
            event_of(
                location,
                time,
                attributes,
                (EventKind::MeasurementOnOff { measurement_mode }),
            ),
            *final(queue),
            code,
        ),
{
    push_event(
        queue,
        location,
        time,
        attributes,
        EventKind::MeasurementOnOff { measurement_mode },
    )
}

/// The callback for an `Enter` event: hands the event to the target.
pub fn enter<S: Sink<Event>>(
    queue: &mut S,
    location: LocationRef,
    time: TimeStamp,
    attributes: Vec<(AttributeRef, AttributeValue)>,
    region: RegionRef,
) -> (code: CallbackCode)
    ensures
        old(queue).accepts(
            event_of(location, time, attributes, (EventKind::Enter { region })),
            *final(queue),
            code,
        ),
{
    push_event(queue, location, time, attributes, EventKind::Enter { region })
}

/// The callback for a `Leave` event: hands the event to the target.
pub fn leave<S: Sink<Event>>(
    queue: &mut S,
    location: LocationRef,
    time: TimeStamp,
    attributes: Vec<(AttributeRef, AttributeValue)>,
    region: RegionRef,
) -> (code: CallbackCode)
    ensures
        old(queue).accepts(
            event_of(location, time, attributes, (EventKind::Leave { region })),
            *final(queue),
            code,
        ),
{
    push_event(queue, location, time, attributes, EventKind::Leave { region })
}

/// The callback for a `MpiSend` event: hands the event to the target.
pub fn mpi_send<S: Sink<Event>>(
    queue: &mut S,
    location: LocationRef,
    time: TimeStamp,
    attributes: Vec<(AttributeRef, AttributeValue)>,
    receiver: u32,
    communicator: CommRef,
    msg_tag: u32,
    msg_length: u64,
) -> (code: CallbackCode)
    ensures
        old(queue).accepts(
            event_of(
                location,
                time,
                attributes,
                (EventKind::MpiSend { receiver, communicator, msg_tag, msg_length }),
            ),
            *final(queue),
            code,
        ),
{
    push_event(
        queue,
        location,
        time,
        attributes,
        EventKind::MpiSend { receiver, communicator, msg_tag, msg_length },
    )
}

/// The callback for a `MpiIsend` event: hands the event to the target.
pub fn mpi_isend<S: Sink<Event>>(
    queue: &mut S,
    location: LocationRef,
    time: TimeStamp,
    attributes: Vec<(AttributeRef, AttributeValue)>,
    receiver: u32,
    communicator: CommRef,
    msg_tag: u32,
    msg_length: u64,
    request_id: u64,
) -> (code: CallbackCode)
    ensures
        old(queue).accepts(
            event_of(
                location,
                time,
                attributes,
                (EventKind::MpiIsend {
                    receiver,
                    communicator,
                    msg_tag,
                    msg_length,
                    request_id,
                }),
            ),
            *final(queue),
            code,
        ),
{
    push_event(
        queue,
        location,
        time,
        attributes,
        EventKind::MpiIsend { receiver, communicator, msg_tag, msg_length, request_id },
    )
}

/// The callback for a `MpiIsendComplete` event: hands the event to the target.
pub fn mpi_isend_complete<S: Sink<Event>>(
    queue: &mut S,
    location: LocationRef,
    time: TimeStamp,
    attributes: Vec<(AttributeRef, AttributeValue)>,
    request_id: u64,
) -> (code: CallbackCode)
    ensures
        old(queue).accepts(
            event_of(
                location,
                time,
                attributes,
                (EventKind::MpiIsendComplete { request_id }),
            ),
            *final(queue),
            code,
        ),
{
    push_event(
        queue,
        location,
        time,
        attributes,
        EventKind::MpiIsendComplete { request_id },
    )
}

/// The callback for a `MpiIrecvRequest` event: hands the event to the target.
pub fn mpi_irecv_request<S: Sink<Event>>(
    queue: &mut S,
    location: LocationRef,
    time: TimeStamp,
    attributes: Vec<(AttributeRef, AttributeValue)>,
    request_id: u64,
) -> (code: CallbackCode)
    ensures
        old(queue).accepts(
            event_of(
                location,
                time,
                attributes,
                (EventKind::MpiIrecvRequest { request_id }),
            ),
            *final(queue),
            code,
        ),
{
    push_event(
        queue,
        location,
        time,
        attributes,
        EventKind::MpiIrecvRequest { request_id },
    )
}

/// The callback for a `MpiRecv` event: hands the event to the target.
pub fn mpi_recv<S: Sink<Event>>(
    queue: &mut S,
    location: LocationRef,
    time: TimeStamp,
    attributes: Vec<(AttributeRef, AttributeValue)>,
    sender: u32,
    communicator: CommRef,
    msg_tag: u32,
    msg_length: u64,
) -> (code: CallbackCode)
    ensures
        old(queue).accepts(
            event_of(
                location,
                time,
                attributes,
                (EventKind::MpiRecv { sender, communicator, msg_tag, msg_length }),
            ),
            *final(queue),
            code,
        ),
{
    push_event(
        queue,
        location,
        time,
        attributes,
        EventKind::MpiRecv { sender, communicator, msg_tag, msg_length },
    )
}

/// The callback for a `MpiIrecv` event: hands the event to the target.
pub fn mpi_irecv<S: Sink<Event>>(
    queue: &mut S,
    location: LocationRef,
    time: TimeStamp,
    attributes: Vec<(AttributeRef, AttributeValue)>,
    sender: u32,
    communicator: CommRef,
    msg_tag: u32,
    msg_length: u64,
    request_id: u64,
) -> (code: CallbackCode)
    ensures
        old(queue).accepts(
            event_of(
                location,
                time,
                attributes,
                (EventKind::MpiIrecv {
                    sender,
                    communicator,
                    msg_tag,
                    msg_length,
                    request_id,
                }),
            ),
            *final(queue),
            code,
        ),
{
    push_event(
        queue,
        location,
        time,
        attributes,
        EventKind::MpiIrecv { sender, communicator, msg_tag, msg_length, request_id },
    )
}

/// The callback for a `MpiRequestTest` event: hands the event to the target.
pub fn mpi_request_test<S: Sink<Event>>(
    queue: &mut S,
    location: LocationRef,
    time: TimeStamp,
    attributes: Vec<(AttributeRef, AttributeValue)>,
    request_id: u64,
) -> (code: CallbackCode)
    ensures
        old(queue).accepts(
            event_of(
                location,
                time,
                attributes,
                (EventKind::MpiRequestTest { request_id }),
            ),
            *final(queue),
            code,
        ),
{
    push_event(
        queue,
        location,
        time,
        attributes,
        EventKind::MpiRequestTest { request_id },
    )
}

/// The callback for a `MpiRequestCancelled` event: hands the event to the target.
pub fn mpi_request_cancelled<S: Sink<Event>>(
    queue: &mut S,
    location: LocationRef,
    time: TimeStamp,
    attributes: Vec<(AttributeRef, AttributeValue)>,
    request_id: u64,
) -> (code: CallbackCode)
    ensures
        old(queue).accepts(
            event_of(
                location,
                time,
                attributes,
                (EventKind::MpiRequestCancelled { request_id }),
            ),
            *final(queue),
            code,
        ),
{
    push_event(
        queue,
        location,
        time,
        attributes,
        EventKind::MpiRequestCancelled { request_id },
    )
}

/// The callback for a `MpiCollectiveBegin` event: hands the event to the target.
pub fn mpi_collective_begin<S: Sink<Event>>(
    queue: &mut S,
    location: LocationRef,
    time: TimeStamp,
    attributes: Vec<(AttributeRef, AttributeValue)>,
) -> (code: CallbackCode)
    ensures
        old(queue).accepts(
            event_of(location, time, attributes, (EventKind::MpiCollectiveBegin)),
            *final(queue),
            code,
        ),
{
    push_event(queue, location, time, attributes, EventKind::MpiCollectiveBegin)
}

/// The callback for a `MpiCollectiveEnd` event: hands the event to the target.
pub fn mpi_collective_end<S: Sink<Event>>(
    queue: &mut S,
    location: LocationRef,
    time: TimeStamp,
    attributes: Vec<(AttributeRef, AttributeValue)>,
    collective_op: CollectiveOp,
    communicator: CommRef,
    root: u32,
    size_sent: u64,
    size_received: u64,
) -> (code: CallbackCode)
    ensures
        old(queue).accepts(
            event_of(
                location,
                time,
                attributes,
                (EventKind::MpiCollectiveEnd {
                    collective_op,
                    communicator,
                    root,
                    size_sent,
                    size_received,
                }),
            ),
            *final(queue),
            code,
        ),
{
    push_event(
        queue,
        location,
        time,
        attributes,
        EventKind::MpiCollectiveEnd {
            collective_op,
            communicator,
            root,
            size_sent,
            size_received,
        },
    )
}

/// The callback for an `OmpFork` event: hands the event to the target.
pub fn omp_fork<S: Sink<Event>>(
    queue: &mut S,
    location: LocationRef,
    time: TimeStamp,
    attributes: Vec<(AttributeRef, AttributeValue)>,
    number_of_requested_threads: u32,
) -> (code: CallbackCode)
    ensures
        old(queue).accepts(
            event_of(
                location,
                time,
                attributes,
                (EventKind::OmpFork { number_of_requested_threads }),
            ),
            *final(queue),
            code,
        ),
{
    push_event(
        queue,
        location,
        time,
        attributes,
        EventKind::OmpFork { number_of_requested_threads },
    )
}

/// The callback for an `OmpJoin` event: hands the event to the target.
pub fn omp_join<S: Sink<Event>>(
    queue: &mut S,
    location: LocationRef,
    time: TimeStamp,
    attributes: Vec<(AttributeRef, AttributeValue)>,
) -> (code: CallbackCode)
    ensures
        old(queue).accepts(
            event_of(location, time, attributes, (EventKind::OmpJoin)),
            *final(queue),
            code,
        ),
{
    push_event(queue, location, time, attributes, EventKind::OmpJoin)
}

/// The callback for an `OmpAcquireLock` event: hands the event to the target.
pub fn omp_acquire_lock<S: Sink<Event>>(
    queue: &mut S,
    location: LocationRef,
    time: TimeStamp,
    attributes: Vec<(AttributeRef, AttributeValue)>,
    lock_id: u32,
    acquisition_order: u32,
) -> (code: CallbackCode)
    ensures
        old(queue).accepts(
            event_of(
                location,
                time,
                attributes,
                (EventKind::OmpAcquireLock { lock_id, acquisition_order }),
            ),
            *final(queue),
            code,
        ),
{
    push_event(
        queue,
        location,
        time,
        attributes,
        EventKind::OmpAcquireLock { lock_id, acquisition_order },
    )
}

/// The callback for an `OmpReleaseLock` event: hands the event to the target.
pub fn omp_release_lock<S: Sink<Event>>(
    queue: &mut S,
    location: LocationRef,
    time: TimeStamp,
    attributes: Vec<(AttributeRef, AttributeValue)>,
    lock_id: u32,
    acquisition_order: u32,
) -> (code: CallbackCode)
    ensures
        old(queue).accepts(
            event_of(
                location,
                time,
                attributes,
                (EventKind::OmpReleaseLock { lock_id, acquisition_order }),
            ),
            *final(queue),
            code,
        ),
{
    push_event(
        queue,
        location,
        time,
        attributes,
        EventKind::OmpReleaseLock { lock_id, acquisition_order },
    )
}

/// The callback for an `OmpTaskCreate` event: hands the event to the target.
pub fn omp_task_create<S: Sink<Event>>(
    queue: &mut S,
    location: LocationRef,
    time: TimeStamp,
    attributes: Vec<(AttributeRef, AttributeValue)>,
    task_id: u64,
) -> (code: CallbackCode)
    ensures
        old(queue).accepts(
            event_of(location, time, attributes, (EventKind::OmpTaskCreate { task_id })),
            *final(queue),
            code,
        ),
{
    push_event(queue, location, time, attributes, EventKind::OmpTaskCreate { task_id })
}

/// The callback for an `OmpTaskSwitch` event: hands the event to the target.
pub fn omp_task_switch<S: Sink<Event>>(
    queue: &mut S,
    location: LocationRef,
    time: TimeStamp,
    attributes: Vec<(AttributeRef, AttributeValue)>,
    task_id: u64,
) -> (code: CallbackCode)
    ensures
        old(queue).accepts(
            event_of(location, time, attributes, (EventKind::OmpTaskSwitch { task_id })),
            *final(queue),
            code,
        ),
{
    push_event(queue, location, time, attributes, EventKind::OmpTaskSwitch { task_id })
}

/// The callback for an `OmpTaskComplete` event: hands the event to the target.
pub fn omp_task_complete<S: Sink<Event>>(
    queue: &mut S,
    location: LocationRef,
    time: TimeStamp,
    attributes: Vec<(AttributeRef, AttributeValue)>,
    task_id: u64,
) -> (code: CallbackCode)
    ensures
        old(queue).accepts(
            event_of(
                location,
                time,
                attributes,
                (EventKind::OmpTaskComplete { task_id }),
            ),
            *final(queue),
            code,
        ),
{
    push_event(
        queue,
        location,
        time,
        attributes,
        EventKind::OmpTaskComplete { task_id },
    )
}

/// The callback for a `Metric` event: hands the event to the target.
pub fn metric<S: Sink<Event>>(
    queue: &mut S,
    location: LocationRef,
    time: TimeStamp,
    attributes: Vec<(AttributeRef, AttributeValue)>,
    metric_ref: MetricRef,
    type_ids: Vec<Type>,
    metric_values: Vec<MetricValue>,
) -> (code: CallbackCode)
    ensures
        old(queue).accepts(
            event_of(
                location,
                time,
                attributes,
                (EventKind::Metric { metric: metric_ref, type_ids, metric_values }),
            ),
            *final(queue),
            code,
        ),
{
    push_event(
        queue,
        location,
        time,
        attributes,
        EventKind::Metric { metric: metric_ref, type_ids, metric_values },
    )
}

/// The callback for a `ParameterString` event: hands the event to the target.
pub fn parameter_string<S: Sink<Event>>(
    queue: &mut S,
    location: LocationRef,
    time: TimeStamp,
    attributes: Vec<(AttributeRef, AttributeValue)>,
    parameter: ParameterRef,
    string: StringRef,
) -> (code: CallbackCode)
    ensures
        old(queue).accepts(
            event_of(
                location,
                time,
                attributes,
                (EventKind::ParameterString { parameter, string }),
            ),
            *final(queue),
            code,
        ),
{
    push_event(
        queue,
        location,
        time,
        attributes,
        EventKind::ParameterString { parameter, string },
    )
}

/// The callback for a `ParameterInt` event: hands the event to the target.
pub fn parameter_int<S: Sink<Event>>(
    queue: &mut S,
    location: LocationRef,
    time: TimeStamp,
    attributes: Vec<(AttributeRef, AttributeValue)>,
    parameter: ParameterRef,
    value: i64,
) -> (code: CallbackCode)
    ensures
        old(queue).accepts(
            event_of(
                location,
                time,
                attributes,
                (EventKind::ParameterInt { parameter, value }),
            ),
            *final(queue),
            code,
        ),
{
    push_event(
        queue,
        location,
        time,
        attributes,
        EventKind::ParameterInt { parameter, value },
    )
}

/// The callback for a `ParameterUnsignedInt` event: hands the event to the target.
pub fn parameter_unsigned_int<S: Sink<Event>>(
    queue: &mut S,
    location: LocationRef,
    time: TimeStamp,
    attributes: Vec<(AttributeRef, AttributeValue)>,
    parameter: ParameterRef,
    value: u64,
) -> (code: CallbackCode)
    ensures
        old(queue).accepts(
            event_of(
                location,
                time,
                attributes,
                (EventKind::ParameterUnsignedInt { parameter, value }),
            ),
            *final(queue),
            code,
        ),
{
    push_event(
        queue,
        location,
        time,
        attributes,
        EventKind::ParameterUnsignedInt { parameter, value },
    )
}

/// The callback for a `RmaWinCreate` event: hands the event to the target.
pub fn rma_win_create<S: Sink<Event>>(
    queue: &mut S,
    location: LocationRef,
    time: TimeStamp,
    attributes: Vec<(AttributeRef, AttributeValue)>,
    win: RmaWinRef,
) -> (code: CallbackCode)
    ensures
        old(queue).accepts(
            event_of(location, time, attributes, (EventKind::RmaWinCreate { win })),
            *final(queue),
            code,
        ),
{
    push_event(queue, location, time, attributes, EventKind::RmaWinCreate { win })
}

/// The callback for a `RmaWinDestroy` event: hands the event to the target.
pub fn rma_win_destroy<S: Sink<Event>>(
    queue: &mut S,
    location: LocationRef,
    time: TimeStamp,
    attributes: Vec<(AttributeRef, AttributeValue)>,
    win: RmaWinRef,
) -> (code: CallbackCode)
    ensures
        old(queue).accepts(
            event_of(location, time, attributes, (EventKind::RmaWinDestroy { win })),
            *final(queue),
            code,
        ),
{
    push_event(queue, location, time, attributes, EventKind::RmaWinDestroy { win })
}

/// The callback for a `RmaCollectiveBegin` event: hands the event to the target.
pub fn rma_collective_begin<S: Sink<Event>>(
    queue: &mut S,
    location: LocationRef,
    time: TimeStamp,
    attributes: Vec<(AttributeRef, AttributeValue)>,
) -> (code: CallbackCode)
    ensures
        old(queue).accepts(
            event_of(location, time, attributes, (EventKind::RmaCollectiveBegin)),
            *final(queue),
            code,
        ),
{
    push_event(queue, location, time, attributes, EventKind::RmaCollectiveBegin)
}

/// The callback for a `RmaCollectiveEnd` event: hands the event to the target.
pub fn rma_collective_end<S: Sink<Event>>(
    queue: &mut S,
    location: LocationRef,
    time: TimeStamp,
    attributes: Vec<(AttributeRef, AttributeValue)>,
    collective_op: CollectiveOp,
    sync_level: RmaSyncLevel,
    win: RmaWinRef,
    root: u32,
    bytes_sent: u64,
    bytes_received: u64,
) -> (code: CallbackCode)
    ensures
        old(queue).accepts(
            event_of(
                location,
                time,
                attributes,
                (EventKind::RmaCollectiveEnd {
                    collective_op,
                    sync_level,
                    win,
                    root,
                    bytes_sent,
                    bytes_received,
                }),
            ),
            *final(queue),
            code,
        ),
{
    push_event(
        queue,
        location,
        time,
        attributes,
        EventKind::RmaCollectiveEnd {
            collective_op,
            sync_level,
            win,
            root,
            bytes_sent,
            bytes_received,
        },
    )
}

/// The callback for a `RmaGroupSync` event: hands the event to the target.
pub fn rma_group_sync<S: Sink<Event>>(
    queue: &mut S,
    location: LocationRef,
    time: TimeStamp,
    attributes: Vec<(AttributeRef, AttributeValue)>,
    sync_level: RmaSyncLevel,
    win: RmaWinRef,
    group: GroupRef,
) -> (code: CallbackCode)
    ensures
        old(queue).accepts(
            event_of(
                location,
                time,
                attributes,
                (EventKind::RmaGroupSync { sync_level, win, group }),
            ),
            *final(queue),
            code,
        ),
{
    push_event(
        queue,
        location,
        time,
        attributes,
        EventKind::RmaGroupSync { sync_level, win, group },
    )
}

/// The callback for a `RmaRequestLock` event: hands the event to the target.
pub fn rma_request_lock<S: Sink<Event>>(
    queue: &mut S,
    location: LocationRef,
    time: TimeStamp,
    attributes: Vec<(AttributeRef, AttributeValue)>,
    win: RmaWinRef,
    remote: u32,
    lock_id: u64,
    lock_type: LockType,
) -> (code: CallbackCode)
    ensures
        old(queue).accepts(
            event_of(
                location,
                time,
                attributes,
                (EventKind::RmaRequestLock { win, remote, lock_id, lock_type }),
            ),
            *final(queue),
            code,
        ),
{
    push_event(
        queue,
        location,
        time,
        attributes,
        EventKind::RmaRequestLock { win, remote, lock_id, lock_type },
    )
}

/// The callback for a `RmaAcquireLock` event: hands the event to the target.
pub fn rma_acquire_lock<S: Sink<Event>>(
    queue: &mut S,
    location: LocationRef,
    time: TimeStamp,
    attributes: Vec<(AttributeRef, AttributeValue)>,
    win: RmaWinRef,
    remote: u32,
    lock_id: u64,
    lock_type: LockType,
) -> (code: CallbackCode)
    ensures
        old(queue).accepts(
            event_of(
                location,
                time,
                attributes,
                (EventKind::RmaAcquireLock { win, remote, lock_id, lock_type }),
            ),
            *final(queue),
            code,
        ),
{
    push_event(
        queue,
        location,
        time,
        attributes,
        EventKind::RmaAcquireLock { win, remote, lock_id, lock_type },
    )
}

/// The callback for a `RmaTryLock` event: hands the event to the target.
pub fn rma_try_lock<S: Sink<Event>>(
    queue: &mut S,
    location: LocationRef,
    time: TimeStamp,
    attributes: Vec<(AttributeRef, AttributeValue)>,
    win: RmaWinRef,
    remote: u32,
    lock_id: u64,
    lock_type: LockType,
) -> (code: CallbackCode)
    ensures
        old(queue).accepts(
            event_of(
                location,
                time,
                attributes,
                (EventKind::RmaTryLock { win, remote, lock_id, lock_type }),
            ),
            *final(queue),
            code,
        ),
{
    push_event(
        queue,
        location,
        time,
        attributes,
        EventKind::RmaTryLock { win, remote, lock_id, lock_type },
    )
}

/// The callback for a `RmaReleaseLock` event: hands the event to the target.
pub fn rma_release_lock<S: Sink<Event>>(
    queue: &mut S,
    location: LocationRef,
    time: TimeStamp,
    attributes: Vec<(AttributeRef, AttributeValue)>,
    win: RmaWinRef,
    remote: u32,
    lock_id: u64,
) -> (code: CallbackCode)
    ensures
        old(queue).accepts(
            event_of(
                location,
                time,
                attributes,
                (EventKind::RmaReleaseLock { win, remote, lock_id }),
            ),
            *final(queue),
            code,
        ),
{
    push_event(
        queue,
        location,
        time,
        attributes,
        EventKind::RmaReleaseLock { win, remote, lock_id },
    )
}

/// The callback for a `RmaSync` event: hands the event to the target.
pub fn rma_sync<S: Sink<Event>>(
    queue: &mut S,
    location: LocationRef,
    time: TimeStamp,
    attributes: Vec<(AttributeRef, AttributeValue)>,
    win: RmaWinRef,
    remote: u32,
    sync_type: RmaSyncType,
) -> (code: CallbackCode)
    ensures
        old(queue).accepts(
            event_of(
                location,
                time,
                attributes,
                (EventKind::RmaSync { win, remote, sync_type }),
            ),
            *final(queue),
            code,
        ),
{
    push_event(
        queue,
        location,
        time,
        attributes,
        EventKind::RmaSync { win, remote, sync_type },
    )
}

/// The callback for a `RmaWaitChange` event: hands the event to the target.
pub fn rma_wait_change<S: Sink<Event>>(
    queue: &mut S,
    location: LocationRef,
    time: TimeStamp,
    attributes: Vec<(AttributeRef, AttributeValue)>,
    win: RmaWinRef,
) -> (code: CallbackCode)
    ensures
        old(queue).accepts(
            event_of(location, time, attributes, (EventKind::RmaWaitChange { win })),
            *final(queue),
            code,
        ),
{
    push_event(queue, location, time, attributes, EventKind::RmaWaitChange { win })
}

/// The callback for a `RmaPut` event: hands the event to the target.
pub fn rma_put<S: Sink<Event>>(
    queue: &mut S,
    location: LocationRef,
    time: TimeStamp,
    attributes: Vec<(AttributeRef, AttributeValue)>,
    win: RmaWinRef,
    remote: u32,
    bytes: u64,
    matching_id: u64,
) -> (code: CallbackCode)
    ensures
        old(queue).accepts(
            event_of(
                location,
                time,
                attributes,
                (EventKind::RmaPut { win, remote, bytes, matching_id }),
            ),
            *final(queue),
            code,
        ),
{
    push_event(
        queue,
        location,
        time,
        attributes,
        EventKind::RmaPut { win, remote, bytes, matching_id },
    )
}

/// The callback for a `RmaGet` event: hands the event to the target.
pub fn rma_get<S: Sink<Event>>(
    queue: &mut S,
    location: LocationRef,
    time: TimeStamp,
    attributes: Vec<(AttributeRef, AttributeValue)>,
    win: RmaWinRef,
    remote: u32,
    bytes: u64,
    matching_id: u64,
) -> (code: CallbackCode)
    ensures
        old(queue).accepts(
            event_of(
                location,
                time,
                attributes,
                (EventKind::RmaGet { win, remote, bytes, matching_id }),
            ),
            *final(queue),
            code,
        ),
{
    push_event(
        queue,
        location,
        time,
        attributes,
        EventKind::RmaGet { win, remote, bytes, matching_id },
    )
}

/// The callback for a `RmaAtomic` event: hands the event to the target.
pub fn rma_atomic<S: Sink<Event>>(
    queue: &mut S,
    location: LocationRef,
    time: TimeStamp,
    attributes: Vec<(AttributeRef, AttributeValue)>,
    win: RmaWinRef,
    remote: u32,
    type_: RmaAtomicType,
    bytes_sent: u64,
    bytes_received: u64,
    matching_id: u64,
) -> (code: CallbackCode)
    ensures
        old(queue).accepts(
            event_of(
                location,
                time,
                attributes,
                (EventKind::RmaAtomic {
                    win,
                    remote,
                    type_,
                    bytes_sent,
                    bytes_received,
                    matching_id,
                }),
            ),
            *final(queue),
            code,
        ),
{
    push_event(
        queue,
        location,
        time,
        attributes,
        EventKind::RmaAtomic {
            win,
            remote,
            type_,
            bytes_sent,
            bytes_received,
            matching_id,
        },
    )
}

/// The callback for a `RmaOpCompleteBlocking` event: hands the event to the target.
pub fn rma_op_complete_blocking<S: Sink<Event>>(
    queue: &mut S,
    location: LocationRef,
    time: TimeStamp,
    attributes: Vec<(AttributeRef, AttributeValue)>,
    win: RmaWinRef,
    matching_id: u64,
) -> (code: CallbackCode)
    ensures
        old(queue).accepts(
            event_of(
                location,
                time,
                attributes,
                (EventKind::RmaOpCompleteBlocking { win, matching_id }),
            ),
            *final(queue),
            code,
        ),
{
    push_event(
        queue,
        location,
        time,
        attributes,
        EventKind::RmaOpCompleteBlocking { win, matching_id },
    )
}

/// The callback for a `RmaOpCompleteNonBlocking` event: hands the event to the target.
pub fn rma_op_complete_non_blocking<S: Sink<Event>>(
    queue: &mut S,
    location: LocationRef,
    time: TimeStamp,
    attributes: Vec<(AttributeRef, AttributeValue)>,
    win: RmaWinRef,
    matching_id: u64,
) -> (code: CallbackCode)
    ensures
        old(queue).accepts(
            event_of(
                location,
                time,
                attributes,
                (EventKind::RmaOpCompleteNonBlocking { win, matching_id }),
            ),
            *final(queue),
            code,
        ),
{
    push_event(
        queue,
        location,
        time,
        attributes,
        EventKind::RmaOpCompleteNonBlocking { win, matching_id },
    )
}

/// The callback for a `RmaOpTest` event: hands the event to the target.
pub fn rma_op_test<S: Sink<Event>>(
    queue: &mut S,
    location: LocationRef,
    time: TimeStamp,
    attributes: Vec<(AttributeRef, AttributeValue)>,
    win: RmaWinRef,
    matching_id: u64,
) -> (code: CallbackCode)
    ensures
        old(queue).accepts(
            event_of(
                location,
                time,
                attributes,
                (EventKind::RmaOpTest { win, matching_id }),
            ),
            *final(queue),
            code,
        ),
{
    push_event(
        queue,
        location,
        time,
        attributes,
        EventKind::RmaOpTest { win, matching_id },
    )
}

/// The callback for a `RmaOpCompleteRemote` event: hands the event to the target.
pub fn rma_op_complete_remote<S: Sink<Event>>(
    queue: &mut S,
    location: LocationRef,
    time: TimeStamp,
    attributes: Vec<(AttributeRef, AttributeValue)>,
    win: RmaWinRef,
    matching_id: u64,
) -> (code: CallbackCode)
    ensures
        old(queue).accepts(
            event_of(
                location,
                time,
                attributes,
                (EventKind::RmaOpCompleteRemote { win, matching_id }),
            ),
            *final(queue),
            code,
        ),
{
    push_event(
        queue,
        location,
        time,
        attributes,
        EventKind::RmaOpCompleteRemote { win, matching_id },
    )
}

/// The callback for a `ThreadFork` event: hands the event to the target.
pub fn thread_fork<S: Sink<Event>>(
    queue: &mut S,
    location: LocationRef,
    time: TimeStamp,
    attributes: Vec<(AttributeRef, AttributeValue)>,
    model: Paradigm,
    number_of_requested_threads: u32,
) -> (code: CallbackCode)
    ensures
        old(queue).accepts(
            event_of(
                location,
                time,
                attributes,
                (EventKind::ThreadFork { model, number_of_requested_threads }),
            ),
            *final(queue),
            code,
        ),
{
    push_event(
        queue,
        location,
        time,
        attributes,
        EventKind::ThreadFork { model, number_of_requested_threads },
    )
}

/// The callback for a `ThreadJoin` event: hands the event to the target.
pub fn thread_join<S: Sink<Event>>(
    queue: &mut S,
    location: LocationRef,
    time: TimeStamp,
    attributes: Vec<(AttributeRef, AttributeValue)>,
    model: Paradigm,
) -> (code: CallbackCode)
    ensures
        old(queue).accepts(
            event_of(location, time, attributes, (EventKind::ThreadJoin { model })),
            *final(queue),
            code,
        ),
{
    push_event(queue, location, time, attributes, EventKind::ThreadJoin { model })
}

/// The callback for a `ThreadTeamBegin` event: hands the event to the target.
pub fn thread_team_begin<S: Sink<Event>>(
    queue: &mut S,
    location: LocationRef,
    time: TimeStamp,
    attributes: Vec<(AttributeRef, AttributeValue)>,
    thread_team: CommRef,
) -> (code: CallbackCode)
    ensures
        old(queue).accepts(
            event_of(
                location,
                time,
                attributes,
                (EventKind::ThreadTeamBegin { thread_team }),
            ),
            *final(queue),
            code,
        ),
{
    push_event(
        queue,
        location,
        time,
        attributes,
        EventKind::ThreadTeamBegin { thread_team },
    )
}

/// The callback for a `ThreadTeamEnd` event: hands the event to the target.
pub fn thread_team_end<S: Sink<Event>>(
    queue: &mut S,
    location: LocationRef,
    time: TimeStamp,
    attributes: Vec<(AttributeRef, AttributeValue)>,
    thread_team: CommRef,
) -> (code: CallbackCode)
    ensures
        old(queue).accepts(
            event_of(
                location,
                time,
                attributes,
                (EventKind::ThreadTeamEnd { thread_team }),
            ),
            *final(queue),
            code,
        ),
{
    push_event(
        queue,
        location,
        time,
        attributes,
        EventKind::ThreadTeamEnd { thread_team },
    )
}

/// The callback for a `ThreadAcquireLock` event: hands the event to the target.
pub fn thread_acquire_lock<S: Sink<Event>>(
    queue: &mut S,
    location: LocationRef,
    time: TimeStamp,
    attributes: Vec<(AttributeRef, AttributeValue)>,
    model: Paradigm,
    lock_id: u32,
    acquisition_order: u32,
) -> (code: CallbackCode)
    ensures
        old(queue).accepts(
            event_of(
                location,
                time,
                attributes,
                (EventKind::ThreadAcquireLock { model, lock_id, acquisition_order }),
            ),
            *final(queue),
            code,
        ),
{
    push_event(
        queue,
        location,
        time,
        attributes,
        EventKind::ThreadAcquireLock { model, lock_id, acquisition_order },
    )
}

/// The callback for a `ThreadReleaseLock` event: hands the event to the target.
pub fn thread_release_lock<S: Sink<Event>>(
    queue: &mut S,
    location: LocationRef,
    time: TimeStamp,
    attributes: Vec<(AttributeRef, AttributeValue)>,
    model: Paradigm,
    lock_id: u32,
    acquisition_order: u32,
) -> (code: CallbackCode)
    ensures
        old(queue).accepts(
            event_of(
                location,
                time,
                attributes,
                (EventKind::ThreadReleaseLock { model, lock_id, acquisition_order }),
            ),
            *final(queue),
            code,
        ),
{
    push_event(
        queue,
        location,
        time,
        attributes,
        EventKind::ThreadReleaseLock { model, lock_id, acquisition_order },
    )
}

/// The callback for a `ThreadTaskCreate` event: hands the event to the target.
pub fn thread_task_create<S: Sink<Event>>(
    queue: &mut S,
    location: LocationRef,
    time: TimeStamp,
    attributes: Vec<(AttributeRef, AttributeValue)>,
    thread_team: CommRef,
    creating_thread: u32,
    generation_number: u32,
) -> (code: CallbackCode)
    ensures
        old(queue).accepts(
            event_of(
                location,
                time,
                attributes,
                (EventKind::ThreadTaskCreate {
                    thread_team,
                    creating_thread,
                    generation_number,
                }),
            ),
            *final(queue),
            code,
        ),
{
    push_event(
        queue,
        location,
        time,
        attributes,
        EventKind::ThreadTaskCreate { thread_team, creating_thread, generation_number },
    )
}

/// The callback for a `ThreadTaskSwitch` event: hands the event to the target.
pub fn thread_task_switch<S: Sink<Event>>(
    queue: &mut S,
    location: LocationRef,
    time: TimeStamp,
    attributes: Vec<(AttributeRef, AttributeValue)>,
    thread_team: CommRef,
    creating_thread: u32,
    generation_number: u32,
) -> (code: CallbackCode)
    ensures
        old(queue).accepts(
            event_of(
                location,
                time,
                attributes,
                (EventKind::ThreadTaskSwitch {
                    thread_team,
                    creating_thread,
                    generation_number,
                }),
            ),
            *final(queue),
            code,
        ),
{
    push_event(
        queue,
        location,
        time,
        attributes,
        EventKind::ThreadTaskSwitch { thread_team, creating_thread, generation_number },
    )
}

/// The callback for a `ThreadTaskComplete` event: hands the event to the target.
pub fn thread_task_complete<S: Sink<Event>>(
    queue: &mut S,
    location: LocationRef,
    time: TimeStamp,
    attributes: Vec<(AttributeRef, AttributeValue)>,
    thread_team: CommRef,
    creating_thread: u32,
    generation_number: u32,
) -> (code: CallbackCode)
    ensures
        old(queue).accepts(
            event_of(
                location,
                time,
                attributes,
                (EventKind::ThreadTaskComplete {
                    thread_team,
                    creating_thread,
                    generation_number,
                }),
            ),
            *final(queue),
            code,
        ),
{
    push_event(
        queue,
        location,
        time,
        attributes,
        EventKind::ThreadTaskComplete {
            thread_team,
            creating_thread,
            generation_number,
        },
    )
}

/// The callback for a `ThreadCreate` event: hands the event to the target.
pub fn thread_create<S: Sink<Event>>(
    queue: &mut S,
    location: LocationRef,
    time: TimeStamp,
    attributes: Vec<(AttributeRef, AttributeValue)>,
    thread_contingent: CommRef,
    sequence_count: u64,
) -> (code: CallbackCode)
    ensures
        old(queue).accepts(
            event_of(
                location,
                time,
                attributes,
                (EventKind::ThreadCreate { thread_contingent, sequence_count }),
            ),
            *final(queue),
            code,
        ),
{
    push_event(
        queue,
        location,
        time,
        attributes,
        EventKind::ThreadCreate { thread_contingent, sequence_count },
    )
}

/// The callback for a `ThreadBegin` event: hands the event to the target.
pub fn thread_begin<S: Sink<Event>>(
    queue: &mut S,
    location: LocationRef,
    time: TimeStamp,
    attributes: Vec<(AttributeRef, AttributeValue)>,
    thread_contingent: CommRef,
    sequence_count: u64,
) -> (code: CallbackCode)
    ensures
        old(queue).accepts(
            event_of(
                location,
                time,
                attributes,
                (EventKind::ThreadBegin { thread_contingent, sequence_count }),
            ),
            *final(queue),
            code,
        ),
{
    push_event(
        queue,
        location,
        time,
        attributes,
        EventKind::ThreadBegin { thread_contingent, sequence_count },
    )
}

/// The callback for a `ThreadWait` event: hands the event to the target.
pub fn thread_wait<S: Sink<Event>>(
    queue: &mut S,
    location: LocationRef,
    time: TimeStamp,
    attributes: Vec<(AttributeRef, AttributeValue)>,
    thread_contingent: CommRef,
    sequence_count: u64,
) -> (code: CallbackCode)
    ensures
        old(queue).accepts(
            event_of(
                location,
                time,
                attributes,
                (EventKind::ThreadWait { thread_contingent, sequence_count }),
            ),
            *final(queue),
            code,
        ),
{
    push_event(
        queue,
        location,
        time,
        attributes,
        EventKind::ThreadWait { thread_contingent, sequence_count },
    )
}

/// The callback for a `ThreadEnd` event: hands the event to the target.
pub fn thread_end<S: Sink<Event>>(
    queue: &mut S,
    location: LocationRef,
    time: TimeStamp,
    attributes: Vec<(AttributeRef, AttributeValue)>,
    thread_contingent: CommRef,
    sequence_count: u64,
) -> (code: CallbackCode)
    ensures
        old(queue).accepts(
            event_of(
                location,
                time,
                attributes,
                (EventKind::ThreadEnd { thread_contingent, sequence_count }),
            ),
            *final(queue),
            code,
        ),
{
    push_event(
        queue,
        location,
        time,
        attributes,
        EventKind::ThreadEnd { thread_contingent, sequence_count },
    )
}

/// The callback for a `CallingContextEnter` event: hands the event to the target.
pub fn calling_context_enter<S: Sink<Event>>(
    queue: &mut S,
    location: LocationRef,
    time: TimeStamp,
    attributes: Vec<(AttributeRef, AttributeValue)>,
    calling_context: CallingContextRef,
    unwind_distance: u32,
) -> (code: CallbackCode)
    ensures
        old(queue).accepts(
            event_of(
                location,
                time,
                attributes,
                (EventKind::CallingContextEnter { calling_context, unwind_distance }),
            ),
            *final(queue),
            code,
        ),
{
    push_event(
        queue,
        location,
        time,
        attributes,
        EventKind::CallingContextEnter { calling_context, unwind_distance },
    )
}

/// The callback for a `CallingContextLeave` event: hands the event to the target.
pub fn calling_context_leave<S: Sink<Event>>(
    queue: &mut S,
    location: LocationRef,
    time: TimeStamp,
    attributes: Vec<(AttributeRef, AttributeValue)>,
    calling_context: CallingContextRef,
) -> (code: CallbackCode)
    ensures
        old(queue).accepts(
            event_of(
                location,
                time,
                attributes,
                (EventKind::CallingContextLeave { calling_context }),
            ),
            *final(queue),
            code,
        ),
{
    push_event(
        queue,
        location,
        time,
        attributes,
        EventKind::CallingContextLeave { calling_context },
    )
}

/// The callback for a `CallingContextSample` event: hands the event to the target.
pub fn calling_context_sample<S: Sink<Event>>(
    queue: &mut S,
    location: LocationRef,
    time: TimeStamp,
    attributes: Vec<(AttributeRef, AttributeValue)>,
    calling_context: CallingContextRef,
    unwind_distance: u32,
    interrupt_generator: InterruptGeneratorRef,
) -> (code: CallbackCode)
    ensures
        old(queue).accepts(
            event_of(
                location,
                time,
                attributes,
                (EventKind::CallingContextSample {
                    calling_context,
                    unwind_distance,
                    interrupt_generator,
                }),
            ),
            *final(queue),
            code,
        ),
{
    push_event(
        queue,
        location,
        time,
        attributes,
        EventKind::CallingContextSample {
            calling_context,
            unwind_distance,
            interrupt_generator,
        },
    )
}

/// The callback for an `IoCreateHandle` event: hands the event to the target.
pub fn io_create_handle<S: Sink<Event>>(
    queue: &mut S,
    location: LocationRef,
    time: TimeStamp,
    attributes: Vec<(AttributeRef, AttributeValue)>,
    handle: IoHandleRef,
    mode: IoAccessMode,
    creation_flags: IoCreationFlag,
    status_flags: IoStatusFlag,
) -> (code: CallbackCode)
    ensures
        old(queue).accepts(
            event_of(
                location,
                time,
                attributes,
                (EventKind::IoCreateHandle { handle, mode, creation_flags, status_flags }),
            ),
            *final(queue),
            code,
        ),
{
    push_event(
        queue,
        location,
        time,
        attributes,
        EventKind::IoCreateHandle { handle, mode, creation_flags, status_flags },
    )
}

/// The callback for an `IoDestroyHandle` event: hands the event to the target.
pub fn io_destroy_handle<S: Sink<Event>>(
    queue: &mut S,
    location: LocationRef,
    time: TimeStamp,
    attributes: Vec<(AttributeRef, AttributeValue)>,
    handle: IoHandleRef,
) -> (code: CallbackCode)
    ensures
        old(queue).accepts(
            event_of(
                location,
                time,
                attributes,
                (EventKind::IoDestroyHandle { handle }),
            ),
            *final(queue),
            code,
        ),
{
    push_event(queue, location, time, attributes, EventKind::IoDestroyHandle { handle })
}

/// The callback for an `IoDuplicateHandle` event: hands the event to the target.
pub fn io_duplicate_handle<S: Sink<Event>>(
    queue: &mut S,
    location: LocationRef,
    time: TimeStamp,
    attributes: Vec<(AttributeRef, AttributeValue)>,
    old_handle: IoHandleRef,
    new_handle: IoHandleRef,
    status_flags: IoStatusFlag,
) -> (code: CallbackCode)
    ensures
        old(queue).accepts(
            event_of(
                location,
                time,
                attributes,
                (EventKind::IoDuplicateHandle { old_handle, new_handle, status_flags }),
            ),
            *final(queue),
            code,
        ),
{
    push_event(
        queue,
        location,
        time,
        attributes,
        EventKind::IoDuplicateHandle { old_handle, new_handle, status_flags },
    )
}

/// The callback for an `IoSeek` event: hands the event to the target.
pub fn io_seek<S: Sink<Event>>(
    queue: &mut S,
    location: LocationRef,
    time: TimeStamp,
    attributes: Vec<(AttributeRef, AttributeValue)>,
    handle: IoHandleRef,
    offset_request: i64,
    whence: IoSeekOption,
    offset_result: u64,
) -> (code: CallbackCode)
    ensures
        old(queue).accepts(
            event_of(
                location,
                time,
                attributes,
                (EventKind::IoSeek { handle, offset_request, whence, offset_result }),
            ),
            *final(queue),
            code,
        ),
{
    push_event(
        queue,
        location,
        time,
        attributes,
        EventKind::IoSeek { handle, offset_request, whence, offset_result },
    )
}

/// The callback for an `IoChangeStatusFlags` event: hands the event to the target.
pub fn io_change_status_flags<S: Sink<Event>>(
    queue: &mut S,
    location: LocationRef,
    time: TimeStamp,
    attributes: Vec<(AttributeRef, AttributeValue)>,
    handle: IoHandleRef,
    status_flags: IoStatusFlag,
) -> (code: CallbackCode)
    ensures
        old(queue).accepts(
            event_of(
                location,
                time,
                attributes,
                (EventKind::IoChangeStatusFlags { handle, status_flags }),
            ),
            *final(queue),
            code,
        ),
{
    push_event(
        queue,
        location,
        time,
        attributes,
        EventKind::IoChangeStatusFlags { handle, status_flags },
    )
}

/// The callback for an `IoDeleteFile` event: hands the event to the target.
pub fn io_delete_file<S: Sink<Event>>(
    queue: &mut S,
    location: LocationRef,
    time: TimeStamp,
    attributes: Vec<(AttributeRef, AttributeValue)>,
    io_paradigm: IoParadigmRef,
    file: IoFileRef,
) -> (code: CallbackCode)
    ensures
        old(queue).accepts(
            event_of(
                location,
                time,
                attributes,
                (EventKind::IoDeleteFile { io_paradigm, file }),
            ),
            *final(queue),
            code,
        ),
{
    push_event(
        queue,
        location,
        time,
        attributes,
        EventKind::IoDeleteFile { io_paradigm, file },
    )
}

/// The callback for an `IoOperationBegin` event: hands the event to the target.
pub fn io_operation_begin<S: Sink<Event>>(
    queue: &mut S,
    location: LocationRef,
    time: TimeStamp,
    attributes: Vec<(AttributeRef, AttributeValue)>,
    handle: IoHandleRef,
    mode: IoOperationMode,
    operation_flags: IoOperationFlag,
    bytes_request: u64,
    matching_id: u64,
) -> (code: CallbackCode)
    ensures
        old(queue).accepts(
            event_of(
                location,
                time,
                attributes,
                (EventKind::IoOperationBegin {
                    handle,
                    mode,
                    operation_flags,
                    bytes_request,
                    matching_id,
                }),
            ),
            *final(queue),
            code,
        ),
{
    push_event(
        queue,
        location,
        time,
        attributes,
        EventKind::IoOperationBegin {
            handle,
            mode,
            operation_flags,
            bytes_request,
            matching_id,
        },
    )
}

/// The callback for an `IoOperationTest` event: hands the event to the target.
pub fn io_operation_test<S: Sink<Event>>(
    queue: &mut S,
    location: LocationRef,
    time: TimeStamp,
    attributes: Vec<(AttributeRef, AttributeValue)>,
    handle: IoHandleRef,
    matching_id: u64,
) -> (code: CallbackCode)
    ensures
        old(queue).accepts(
            event_of(
                location,
                time,
                attributes,
                (EventKind::IoOperationTest { handle, matching_id }),
            ),
            *final(queue),
            code,
        ),
{
    push_event(
        queue,
        location,
        time,
        attributes,
        EventKind::IoOperationTest { handle, matching_id },
    )
}

/// The callback for an `IoOperationIssued` event: hands the event to the target.
pub fn io_operation_issued<S: Sink<Event>>(
    queue: &mut S,
    location: LocationRef,
    time: TimeStamp,
    attributes: Vec<(AttributeRef, AttributeValue)>,
    handle: IoHandleRef,
    matching_id: u64,
) -> (code: CallbackCode)
    ensures
        old(queue).accepts(
            event_of(
                location,
                time,
                attributes,
                (EventKind::IoOperationIssued { handle, matching_id }),
            ),
            *final(queue),
            code,
        ),
{
    push_event(
        queue,
        location,
        time,
        attributes,
        EventKind::IoOperationIssued { handle, matching_id },
    )
}

/// The callback for an `IoOperationComplete` event: hands the event to the target.
pub fn io_operation_complete<S: Sink<Event>>(
    queue: &mut S,
    location: LocationRef,
    time: TimeStamp,
    attributes: Vec<(AttributeRef, AttributeValue)>,
    handle: IoHandleRef,
    bytes_result: u64,
    matching_id: u64,
) -> (code: CallbackCode)
    ensures
        old(queue).accepts(
            event_of(
                location,
                time,
                attributes,
                (EventKind::IoOperationComplete { handle, bytes_result, matching_id }),
            ),
            *final(queue),
            code,
        ),
{
    push_event(
        queue,
        location,
        time,
        attributes,
        EventKind::IoOperationComplete { handle, bytes_result, matching_id },
    )
}

/// The callback for an `IoOperationCancelled` event: hands the event to the target.
pub fn io_operation_cancelled<S: Sink<Event>>(
    queue: &mut S,
    location: LocationRef,
    time: TimeStamp,
    attributes: Vec<(AttributeRef, AttributeValue)>,
    handle: IoHandleRef,
    matching_id: u64,
) -> (code: CallbackCode)
    ensures
        old(queue).accepts(
            event_of(
                location,
                time,
                attributes,
                (EventKind::IoOperationCancelled { handle, matching_id }),
            ),
            *final(queue),
            code,
        ),
{
    push_event(
        queue,
        location,
        time,
        attributes,
        EventKind::IoOperationCancelled { handle, matching_id },
    )
}

/// The callback for an `IoAcquireLock` event: hands the event to the target.
pub fn io_acquire_lock<S: Sink<Event>>(
    queue: &mut S,
    location: LocationRef,
    time: TimeStamp,
    attributes: Vec<(AttributeRef, AttributeValue)>,
    handle: IoHandleRef,
    lock_type: LockType,
) -> (code: CallbackCode)
    ensures
        old(queue).accepts(
            event_of(
                location,
                time,
                attributes,
                (EventKind::IoAcquireLock { handle, lock_type }),
            ),
            *final(queue),
            code,
        ),
{
    push_event(
        queue,
        location,
        time,
        attributes,
        EventKind::IoAcquireLock { handle, lock_type },
    )
}

/// The callback for an `IoReleaseLock` event: hands the event to the target.
pub fn io_release_lock<S: Sink<Event>>(
    queue: &mut S,
    location: LocationRef,
    time: TimeStamp,
    attributes: Vec<(AttributeRef, AttributeValue)>,
    handle: IoHandleRef,
    lock_type: LockType,
) -> (code: CallbackCode)
    ensures
        old(queue).accepts(
            event_of(
                location,
                time,
                attributes,
                (EventKind::IoReleaseLock { handle, lock_type }),
            ),
            *final(queue),
            code,
        ),
{
    push_event(
        queue,
        location,
        time,
        attributes,
        EventKind::IoReleaseLock { handle, lock_type },
    )
}

/// The callback for an `IoTryLock` event: hands the event to the target.
pub fn io_try_lock<S: Sink<Event>>(
    queue: &mut S,
    location: LocationRef,
    time: TimeStamp,
    attributes: Vec<(AttributeRef, AttributeValue)>,
    handle: IoHandleRef,
    lock_type: LockType,
) -> (code: CallbackCode)
    ensures
        old(queue).accepts(
            event_of(
                location,
                time,
                attributes,
                (EventKind::IoTryLock { handle, lock_type }),
            ),
            *final(queue),
            code,
        ),
{
    push_event(
        queue,
        location,
        time,
        attributes,
        EventKind::IoTryLock { handle, lock_type },
    )
}

/// The callback for a `ProgramBegin` event: hands the event to the target.
pub fn program_begin<S: Sink<Event>>(
    queue: &mut S,
    location: LocationRef,
    time: TimeStamp,
    attributes: Vec<(AttributeRef, AttributeValue)>,
    program_name: StringRef,
    program_arguments: Vec<StringRef>,
) -> (code: CallbackCode)
    ensures
        old(queue).accepts(
            event_of(
                location,
                time,
                attributes,
                (EventKind::ProgramBegin { program_name, program_arguments }),
            ),
            *final(queue),
            code,
        ),
{
    push_event(
        queue,
        location,
        time,
        attributes,
        EventKind::ProgramBegin { program_name, program_arguments },
    )
}

/// The callback for a `ProgramEnd` event: hands the event to the target.
pub fn program_end<S: Sink<Event>>(
    queue: &mut S,
    location: LocationRef,
    time: TimeStamp,
    attributes: Vec<(AttributeRef, AttributeValue)>,
    exit_status: i64,
) -> (code: CallbackCode)
    ensures
        old(queue).accepts(
            event_of(
                location,
                time,
                attributes,
                (EventKind::ProgramEnd { exit_status }),
            ),
            *final(queue),
            code,
        ),
{
    push_event(queue, location, time, attributes, EventKind::ProgramEnd { exit_status })
}

/// The callback for a `NonBlockingCollectiveRequest` event: hands the event to the target.
pub fn non_blocking_collective_request<S: Sink<Event>>(
    queue: &mut S,
    location: LocationRef,
    time: TimeStamp,
    attributes: Vec<(AttributeRef, AttributeValue)>,
    request_id: u64,
) -> (code: CallbackCode)
    ensures
        old(queue).accepts(
            event_of(
                location,
                time,
                attributes,
                (EventKind::NonBlockingCollectiveRequest { request_id }),
            ),
            *final(queue),
            code,
        ),
{
    push_event(
        queue,
        location,
        time,
        attributes,
        EventKind::NonBlockingCollectiveRequest { request_id },
    )
}

/// The callback for a `NonBlockingCollectiveComplete` event: hands the event to the target.
pub fn non_blocking_collective_complete<S: Sink<Event>>(
    queue: &mut S,
    location: LocationRef,
    time: TimeStamp,
    attributes: Vec<(AttributeRef, AttributeValue)>,
    collective_op: CollectiveOp,
    communicator: CommRef,
    root: u32,
    size_sent: u64,
    size_received: u64,
    request_id: u64,
) -> (code: CallbackCode)
    ensures
        old(queue).accepts(
            event_of(
                location,
                time,
                attributes,
                (EventKind::NonBlockingCollectiveComplete {
                    collective_op,
                    communicator,
                    root,
                    size_sent,
                    size_received,
                    request_id,
                }),
            ),
            *final(queue),
            code,
        ),
{
    push_event(
        queue,
        location,
        time,
        attributes,
        EventKind::NonBlockingCollectiveComplete {
            collective_op,
            communicator,
            root,
            size_sent,
            size_received,
            request_id,
        },
    )
}

/// The callback for a `CommCreate` event: hands the event to the target.
pub fn comm_create<S: Sink<Event>>(
    queue: &mut S,
    location: LocationRef,
    time: TimeStamp,
    attributes: Vec<(AttributeRef, AttributeValue)>,
    communicator: CommRef,
) -> (code: CallbackCode)
    ensures
        old(queue).accepts(
            event_of(
                location,
                time,
                attributes,
                (EventKind::CommCreate { communicator }),
            ),
            *final(queue),
            code,
        ),
{
    push_event(
        queue,
        location,
        time,
        attributes,
        EventKind::CommCreate { communicator },
    )
}

/// The callback for a `CommDestroy` event: hands the event to the target.
pub fn comm_destroy<S: Sink<Event>>(
    queue: &mut S,
    location: LocationRef,
    time: TimeStamp,
    attributes: Vec<(AttributeRef, AttributeValue)>,
    communicator: CommRef,
) -> (code: CallbackCode)
    ensures
        old(queue).accepts(
            event_of(
                location,
                time,
                attributes,
                (EventKind::CommDestroy { communicator }),
            ),
            *final(queue),
            code,
        ),
{
    push_event(
        queue,
        location,
        time,
        attributes,
        EventKind::CommDestroy { communicator },
    )
}

/// The resource that holds the registered event callbacks.
#[derive(Debug)]
pub struct GlobalEvtReaderCallbacksStruct;

/// The set of callbacks that the global event reader is to call: the owner of
/// the native object that holds them.
pub struct GlobalEvtReaderCallbacks(pub Handle<GlobalEvtReaderCallbacksStruct>);

impl EventType {
    /// The kinds in the order in which their callbacks are registered.
    pub open spec fn spec_registration_order() -> Seq<EventType> {
        seq![
            EventType::Unknown,
            EventType::BufferFlush,
            EventType::MeasurementOnOff,
            EventType::Enter,
            EventType::Leave,
            EventType::MpiSend,
            EventType::MpiIsend,
            EventType::MpiIsendComplete,
            EventType::MpiIrecvRequest,
            EventType::MpiRecv,
            EventType::MpiIrecv,
            EventType::MpiRequestTest,
            EventType::MpiRequestCancelled,
            EventType::MpiCollectiveBegin,
            EventType::MpiCollectiveEnd,
            EventType::OmpFork,
            EventType::OmpJoin,
            EventType::OmpAcquireLock,
            EventType::OmpReleaseLock,
            EventType::OmpTaskCreate,
            EventType::OmpTaskSwitch,
            EventType::OmpTaskComplete,
            EventType::Metric,
            EventType::ParameterString,
            EventType::ParameterInt,
            EventType::ParameterUnsignedInt,
            EventType::RmaWinCreate,
            EventType::RmaWinDestroy,
            EventType::RmaCollectiveBegin,
            EventType::RmaCollectiveEnd,
            EventType::RmaGroupSync,
            EventType::RmaRequestLock,
            EventType::RmaAcquireLock,
            EventType::RmaTryLock,
            EventType::RmaReleaseLock,
            EventType::RmaSync,
            EventType::RmaWaitChange,
            EventType::RmaPut,
            EventType::RmaGet,
            EventType::RmaAtomic,
            EventType::RmaOpCompleteBlocking,
            EventType::RmaOpCompleteNonBlocking,
            EventType::RmaOpTest,
            EventType::RmaOpCompleteRemote,
            EventType::ThreadFork,
            EventType::ThreadJoin,
            EventType::ThreadTeamBegin,
            EventType::ThreadTeamEnd,
            EventType::ThreadAcquireLock,
            EventType::ThreadReleaseLock,
            EventType::ThreadTaskCreate,
            EventType::ThreadTaskSwitch,
            EventType::ThreadTaskComplete,
            EventType::ThreadCreate,
            EventType::ThreadBegin,
            EventType::ThreadWait,
            EventType::ThreadEnd,
            EventType::CallingContextEnter,
            EventType::CallingContextLeave,
            EventType::CallingContextSample,
            EventType::IoCreateHandle,
            EventType::IoDestroyHandle,
            EventType::IoDuplicateHandle,
            EventType::IoSeek,
            EventType::IoChangeStatusFlags,
            EventType::IoDeleteFile,
            EventType::IoOperationBegin,
            EventType::IoOperationTest,
            EventType::IoOperationIssued,
            EventType::IoOperationComplete,
            EventType::IoOperationCancelled,
            EventType::IoAcquireLock,
            EventType::IoReleaseLock,
            EventType::IoTryLock,
            EventType::ProgramBegin,
            EventType::ProgramEnd,
            EventType::NonBlockingCollectiveRequest,
            EventType::NonBlockingCollectiveComplete,
            EventType::CommCreate,
            EventType::CommDestroy,
        ]
    }

    /// The place of a kind in the order of registration.
    pub open spec fn registration_index(self) -> int {
        match self {
            EventType::Unknown => 0,
            EventType::BufferFlush => 1,
            EventType::MeasurementOnOff => 2,
            EventType::Enter => 3,
            EventType::Leave => 4,
            EventType::MpiSend => 5,
            EventType::MpiIsend => 6,
            EventType::MpiIsendComplete => 7,
            EventType::MpiIrecvRequest => 8,
            EventType::MpiRecv => 9,
            EventType::MpiIrecv => 10,
            EventType::MpiRequestTest => 11,
            EventType::MpiRequestCancelled => 12,
            EventType::MpiCollectiveBegin => 13,
            EventType::MpiCollectiveEnd => 14,
            EventType::OmpFork => 15,
            EventType::OmpJoin => 16,
            EventType::OmpAcquireLock => 17,
            EventType::OmpReleaseLock => 18,
            EventType::OmpTaskCreate => 19,
            EventType::OmpTaskSwitch => 20,
            EventType::OmpTaskComplete => 21,
            EventType::Metric => 22,
            EventType::ParameterString => 23,
            EventType::ParameterInt => 24,
            EventType::ParameterUnsignedInt => 25,
            EventType::RmaWinCreate => 26,
            EventType::RmaWinDestroy => 27,
            EventType::RmaCollectiveBegin => 28,
            EventType::RmaCollectiveEnd => 29,
            EventType::RmaGroupSync => 30,
            EventType::RmaRequestLock => 31,
            EventType::RmaAcquireLock => 32,
            EventType::RmaTryLock => 33,
            EventType::RmaReleaseLock => 34,
            EventType::RmaSync => 35,
            EventType::RmaWaitChange => 36,
            EventType::RmaPut => 37,
            EventType::RmaGet => 38,
            EventType::RmaAtomic => 39,
            EventType::RmaOpCompleteBlocking => 40,
            EventType::RmaOpCompleteNonBlocking => 41,
            EventType::RmaOpTest => 42,
            EventType::RmaOpCompleteRemote => 43,
            EventType::ThreadFork => 44,
            EventType::ThreadJoin => 45,
            EventType::ThreadTeamBegin => 46,
            EventType::ThreadTeamEnd => 47,
            EventType::ThreadAcquireLock => 48,
            EventType::ThreadReleaseLock => 49,
            EventType::ThreadTaskCreate => 50,
            EventType::ThreadTaskSwitch => 51,
            EventType::ThreadTaskComplete => 52,
            EventType::ThreadCreate => 53,
            EventType::ThreadBegin => 54,
            EventType::ThreadWait => 55,
            EventType::ThreadEnd => 56,
            EventType::CallingContextEnter => 57,
            EventType::CallingContextLeave => 58,
            EventType::CallingContextSample => 59,
            EventType::IoCreateHandle => 60,
            EventType::IoDestroyHandle => 61,
            EventType::IoDuplicateHandle => 62,
            EventType::IoSeek => 63,
            EventType::IoChangeStatusFlags => 64,
            EventType::IoDeleteFile => 65,
            EventType::IoOperationBegin => 66,
            EventType::IoOperationTest => 67,
            EventType::IoOperationIssued => 68,
            EventType::IoOperationComplete => 69,
            EventType::IoOperationCancelled => 70,
            EventType::IoAcquireLock => 71,
            EventType::IoReleaseLock => 72,
            EventType::IoTryLock => 73,
            EventType::ProgramBegin => 74,
            EventType::ProgramEnd => 75,
            EventType::NonBlockingCollectiveRequest => 76,
            EventType::NonBlockingCollectiveComplete => 77,
            EventType::CommCreate => 78,
            EventType::CommDestroy => 79,
        }
    }

    /// Every kind has a callback: each stands in the order of registration,
    /// once, at its index.
    pub proof fn lemma_every_kind_is_registered(kind: EventType)
        ensures
            0 <= kind.registration_index() < Self::spec_registration_order().len(),
            Self::spec_registration_order()[kind.registration_index()] == kind,
            forall|i: int|
                0 <= i < Self::spec_registration_order().len()
                    && Self::spec_registration_order()[i] == kind ==> i
                    == kind.registration_index(),
    {
        let order = Self::spec_registration_order();
        assert forall|i: int| 0 <= i < order.len() && order[i] == kind implies i
            == kind.registration_index() by {
            assert(order[i].registration_index() == i);
        }
    }

    /// The kinds in the order in which their callbacks are registered.
    pub fn registration_order() -> (order: Vec<EventType>)
        ensures
            order@ == Self::spec_registration_order(),
    {
        let order = vec![
            EventType::Unknown,
            EventType::BufferFlush,
            EventType::MeasurementOnOff,
            EventType::Enter,
            EventType::Leave,
            EventType::MpiSend,
            EventType::MpiIsend,
            EventType::MpiIsendComplete,
            EventType::MpiIrecvRequest,
            EventType::MpiRecv,
            EventType::MpiIrecv,
            EventType::MpiRequestTest,
            EventType::MpiRequestCancelled,
            EventType::MpiCollectiveBegin,
            EventType::MpiCollectiveEnd,
            EventType::OmpFork,
            EventType::OmpJoin,
            EventType::OmpAcquireLock,
            EventType::OmpReleaseLock,
            EventType::OmpTaskCreate,
            EventType::OmpTaskSwitch,
            EventType::OmpTaskComplete,
            EventType::Metric,
            EventType::ParameterString,
            EventType::ParameterInt,
            EventType::ParameterUnsignedInt,
            EventType::RmaWinCreate,
            EventType::RmaWinDestroy,
            EventType::RmaCollectiveBegin,
            EventType::RmaCollectiveEnd,
            EventType::RmaGroupSync,
            EventType::RmaRequestLock,
            EventType::RmaAcquireLock,
            EventType::RmaTryLock,
            EventType::RmaReleaseLock,
            EventType::RmaSync,
            EventType::RmaWaitChange,
            EventType::RmaPut,
            EventType::RmaGet,
            EventType::RmaAtomic,
            EventType::RmaOpCompleteBlocking,
            EventType::RmaOpCompleteNonBlocking,
            EventType::RmaOpTest,
            EventType::RmaOpCompleteRemote,
            EventType::ThreadFork,
            EventType::ThreadJoin,
            EventType::ThreadTeamBegin,
            EventType::ThreadTeamEnd,
            EventType::ThreadAcquireLock,
            EventType::ThreadReleaseLock,
            EventType::ThreadTaskCreate,
            EventType::ThreadTaskSwitch,
            EventType::ThreadTaskComplete,
            EventType::ThreadCreate,
            EventType::ThreadBegin,
            EventType::ThreadWait,
            EventType::ThreadEnd,
            EventType::CallingContextEnter,
            EventType::CallingContextLeave,
            EventType::CallingContextSample,
            EventType::IoCreateHandle,
            EventType::IoDestroyHandle,
            EventType::IoDuplicateHandle,
            EventType::IoSeek,
            EventType::IoChangeStatusFlags,
            EventType::IoDeleteFile,
            EventType::IoOperationBegin,
            EventType::IoOperationTest,
            EventType::IoOperationIssued,
            EventType::IoOperationComplete,
            EventType::IoOperationCancelled,
            EventType::IoAcquireLock,
            EventType::IoReleaseLock,
            EventType::IoTryLock,
            EventType::ProgramBegin,
            EventType::ProgramEnd,
            EventType::NonBlockingCollectiveRequest,
            EventType::NonBlockingCollectiveComplete,
            EventType::CommCreate,
            EventType::CommDestroy,
        ];
        proof {
            assert(order@ =~= Self::spec_registration_order());
        }
        order
    }
}

impl GlobalEvtReaderCallbacks {
    /// The steps that register a callback for every kind of event, one
    /// setter call for each kind, in the order of registration.
    pub open spec fn spec_set_callbacks() -> Seq<Step> {
        Seq::new(
            EventType::spec_registration_order().len(),
            |i: int| Step::SetEvtCallback(EventType::spec_registration_order()[i]),
        )
    }

    /// Takes over the native callbacks object at `callbacks`.
    pub fn new(callbacks: usize) -> (this: Self)
        requires
            callbacks != 0,
        ensures
            this.0.addr() == callbacks,
    {
        Self(Handle::from_raw_unchecked(callbacks))
    }

    /// The steps that register a callback for every kind of event, one
    /// setter call for each kind, in the order of registration. The runner
    /// of a plan that holds them ends the registration at the first setter
    /// that fails: the kinds after it are not registered.
    pub fn set_callbacks() -> (steps: Vec<Step>)
        ensures
            steps@ == Self::spec_set_callbacks(),
    {
        let kinds = EventType::registration_order();
        let mut steps: Vec<Step> = Vec::new();
        let mut i: usize = 0;
        while i < kinds.len()
            invariant
                i <= kinds.len(),
                kinds@ == EventType::spec_registration_order(),
                steps@ == Self::spec_set_callbacks().take(i as int),
            decreases kinds.len() - i,
        {
            steps.push(Step::SetEvtCallback(kinds[i]));
            proof {
                assert(steps@ =~= Self::spec_set_callbacks().take(i + 1));
            }
            i += 1;
        }
        proof {
            assert(Self::spec_set_callbacks().take(i as int) =~= Self::spec_set_callbacks());
        }
        steps
    }

    /// Gives up the native object: the address to delete, once, or `None`
    /// where it was given up before.
    pub fn release(&mut self) -> (ptr: Option<usize>)
        ensures
            final(self).0.spec_is_null(),
            old(self).0.spec_is_null() ==> ptr is None,
            !old(self).0.spec_is_null() ==> ptr == Some(old(self).0.addr()),
    {
        if !self.0.is_null() {
            Some(self.0.take())
        } else {
            None
        }
    }
}

} // verus!
