//! Events: what happened at one location at one time.
use vstd::prelude::*;
use crate::attribute::AttributeValue;
use crate::native::AttributeRef;
use crate::native::CallingContextRef;
use crate::native::CollectiveOp;
use crate::native::CommRef;
use crate::native::GroupRef;
use crate::native::InterruptGeneratorRef;
use crate::native::IoAccessMode;
use crate::native::IoCreationFlag;
use crate::native::IoFileRef;
use crate::native::IoHandleRef;
use crate::native::IoOperationFlag;
use crate::native::IoOperationMode;
use crate::native::IoParadigmRef;
use crate::native::IoSeekOption;
use crate::native::IoStatusFlag;
use crate::native::LocationRef;
use crate::native::LockType;
use crate::native::MeasurementMode;
use crate::native::MetricRef;
use crate::native::MetricValue;
use crate::native::Paradigm;
use crate::native::ParameterRef;
use crate::native::RegionRef;
use crate::native::RmaAtomicType;
use crate::native::RmaSyncLevel;
use crate::native::RmaSyncType;
use crate::native::RmaWinRef;
use crate::native::StringRef;
use crate::native::TimeStamp;
use crate::native::Type;

verus! {

/// What all events share: where and when the event happened, and the
/// attributes that were recorded with it, decoded.
#[derive(Debug, Clone, PartialEq, Eq)]
pub struct EventData {
    pub location: LocationRef,
    pub time: TimeStamp,
    pub attributes: Vec<(AttributeRef, AttributeValue)>,
}

/// One event of the trace: its kind with the fields of that kind, and the
/// data that all events share.
#[derive(Debug, Clone, PartialEq, Eq)]
pub struct Event {
    pub kind: EventKind,
    pub data: EventData,
}

impl Event {
    /// The event of kind `kind` that happened at `location` at `time` with
    /// `attributes`.
    pub fn new(
        location: LocationRef,
        time: TimeStamp,
        attributes: Vec<(AttributeRef, AttributeValue)>,
        kind: EventKind,
    ) -> (event: Self)
        ensures
            event == (Event { kind, data: EventData { location, time, attributes } }),
    {
        Self { kind, data: EventData { location, time, attributes } }
    }
}

/// The kinds of event, each with its own fields.
#[allow(inconsistent_fields)]
#[derive(Debug, Clone, PartialEq, Eq)]
pub enum EventKind {
    Unknown,
    BufferFlush { stop_time: TimeStamp },
    MeasurementOnOff { measurement_mode: MeasurementMode },
    Enter { region: RegionRef },
    Leave { region: RegionRef },
    MpiSend { receiver: u32, communicator: CommRef, msg_tag: u32, msg_length: u64 },
    MpiIsend {
        receiver: u32,
        communicator: CommRef,
        msg_tag: u32,
        msg_length: u64,
        request_id: u64,
    },
    MpiIsendComplete { request_id: u64 },
    MpiIrecvRequest { request_id: u64 },
    MpiRecv { sender: u32, communicator: CommRef, msg_tag: u32, msg_length: u64 },
    MpiIrecv {
        sender: u32,
        communicator: CommRef,
        msg_tag: u32,
        msg_length: u64,
        request_id: u64,
    },
    MpiRequestTest { request_id: u64 },
    MpiRequestCancelled { request_id: u64 },
    MpiCollectiveBegin,
    MpiCollectiveEnd {
        collective_op: CollectiveOp,
        communicator: CommRef,
        root: u32,
        size_sent: u64,
        size_received: u64,
    },
    OmpFork { number_of_requested_threads: u32 },
    OmpJoin,
    OmpAcquireLock { lock_id: u32, acquisition_order: u32 },
    OmpReleaseLock { lock_id: u32, acquisition_order: u32 },
    OmpTaskCreate { task_id: u64 },
    OmpTaskSwitch { task_id: u64 },
    OmpTaskComplete { task_id: u64 },
    Metric { metric: MetricRef, type_ids: Vec<Type>, metric_values: Vec<MetricValue> },
    ParameterString { parameter: ParameterRef, string: StringRef },
    ParameterInt { parameter: ParameterRef, value: i64 },
    ParameterUnsignedInt { parameter: ParameterRef, value: u64 },
    RmaWinCreate { win: RmaWinRef },
    RmaWinDestroy { win: RmaWinRef },
    RmaCollectiveBegin,
    RmaCollectiveEnd {
        collective_op: CollectiveOp,
        sync_level: RmaSyncLevel,
        win: RmaWinRef,
        root: u32,
        bytes_sent: u64,
        bytes_received: u64,
    },
    RmaGroupSync { sync_level: RmaSyncLevel, win: RmaWinRef, group: GroupRef },
    RmaRequestLock { win: RmaWinRef, remote: u32, lock_id: u64, lock_type: LockType },
    RmaAcquireLock { win: RmaWinRef, remote: u32, lock_id: u64, lock_type: LockType },
    RmaTryLock { win: RmaWinRef, remote: u32, lock_id: u64, lock_type: LockType },
    RmaReleaseLock { win: RmaWinRef, remote: u32, lock_id: u64 },
    RmaSync { win: RmaWinRef, remote: u32, sync_type: RmaSyncType },
    RmaWaitChange { win: RmaWinRef },
    RmaPut { win: RmaWinRef, remote: u32, bytes: u64, matching_id: u64 },
    RmaGet { win: RmaWinRef, remote: u32, bytes: u64, matching_id: u64 },
    RmaAtomic {
        win: RmaWinRef,
        remote: u32,
        type_: RmaAtomicType,
        bytes_sent: u64,
        bytes_received: u64,
        matching_id: u64,
    },
    RmaOpCompleteBlocking { win: RmaWinRef, matching_id: u64 },
    RmaOpCompleteNonBlocking { win: RmaWinRef, matching_id: u64 },
    RmaOpTest { win: RmaWinRef, matching_id: u64 },
    RmaOpCompleteRemote { win: RmaWinRef, matching_id: u64 },
    ThreadFork { model: Paradigm, number_of_requested_threads: u32 },
    ThreadJoin { model: Paradigm },
    ThreadTeamBegin { thread_team: CommRef },
    ThreadTeamEnd { thread_team: CommRef },
    ThreadAcquireLock { model: Paradigm, lock_id: u32, acquisition_order: u32 },
    ThreadReleaseLock { model: Paradigm, lock_id: u32, acquisition_order: u32 },
    ThreadTaskCreate {
        thread_team: CommRef,
        creating_thread: u32,
        generation_number: u32,
    },
    ThreadTaskSwitch {
        thread_team: CommRef,
        creating_thread: u32,
        generation_number: u32,
    },
    ThreadTaskComplete {
        thread_team: CommRef,
        creating_thread: u32,
        generation_number: u32,
    },
    ThreadCreate { thread_contingent: CommRef, sequence_count: u64 },
    ThreadBegin { thread_contingent: CommRef, sequence_count: u64 },
    ThreadWait { thread_contingent: CommRef, sequence_count: u64 },
    ThreadEnd { thread_contingent: CommRef, sequence_count: u64 },
    CallingContextEnter { calling_context: CallingContextRef, unwind_distance: u32 },
    CallingContextLeave { calling_context: CallingContextRef },
    CallingContextSample {
        calling_context: CallingContextRef,
        unwind_distance: u32,
        interrupt_generator: InterruptGeneratorRef,
    },
    IoCreateHandle {
        handle: IoHandleRef,
        mode: IoAccessMode,
        creation_flags: IoCreationFlag,
        status_flags: IoStatusFlag,
    },
    IoDestroyHandle { handle: IoHandleRef },
    IoDuplicateHandle {
        old_handle: IoHandleRef,
        new_handle: IoHandleRef,
        status_flags: IoStatusFlag,
    },
    IoSeek {
        handle: IoHandleRef,
        offset_request: i64,
        whence: IoSeekOption,
        offset_result: u64,
    },
    IoChangeStatusFlags { handle: IoHandleRef, status_flags: IoStatusFlag },
    IoDeleteFile { io_paradigm: IoParadigmRef, file: IoFileRef },
    IoOperationBegin {
        handle: IoHandleRef,
        mode: IoOperationMode,
        operation_flags: IoOperationFlag,
        bytes_request: u64,
        matching_id: u64,
    },
    IoOperationTest { handle: IoHandleRef, matching_id: u64 },
    IoOperationIssued { handle: IoHandleRef, matching_id: u64 },
    IoOperationComplete { handle: IoHandleRef, bytes_result: u64, matching_id: u64 },
    IoOperationCancelled { handle: IoHandleRef, matching_id: u64 },
    IoAcquireLock { handle: IoHandleRef, lock_type: LockType },
    IoReleaseLock { handle: IoHandleRef, lock_type: LockType },
    IoTryLock { handle: IoHandleRef, lock_type: LockType },
    ProgramBegin { program_name: StringRef, program_arguments: Vec<StringRef> },
    ProgramEnd { exit_status: i64 },
    NonBlockingCollectiveRequest { request_id: u64 },
    NonBlockingCollectiveComplete {
        collective_op: CollectiveOp,
        communicator: CommRef,
        root: u32,
        size_sent: u64,
        size_received: u64,
        request_id: u64,
    },
    CommCreate { communicator: CommRef },
    CommDestroy { communicator: CommRef },
}

/// The kinds of event, without their fields: what a callback is registered
/// for.
#[derive(Debug, Clone, Copy, PartialEq, Eq, Structural, Hash)]
pub enum EventType {
    Unknown,
    BufferFlush,
    MeasurementOnOff,
    Enter,
    Leave,
    MpiSend,
    MpiIsend,
    MpiIsendComplete,
    MpiIrecvRequest,
    MpiRecv,
    MpiIrecv,
    MpiRequestTest,
    MpiRequestCancelled,
    MpiCollectiveBegin,
    MpiCollectiveEnd,
    OmpFork,
    OmpJoin,
    OmpAcquireLock,
    OmpReleaseLock,
    OmpTaskCreate,
    OmpTaskSwitch,
    OmpTaskComplete,
    Metric,
    ParameterString,
    ParameterInt,
    ParameterUnsignedInt,
    RmaWinCreate,
    RmaWinDestroy,
    RmaCollectiveBegin,
    RmaCollectiveEnd,
    RmaGroupSync,
    RmaRequestLock,
    RmaAcquireLock,
    RmaTryLock,
    RmaReleaseLock,
    RmaSync,
    RmaWaitChange,
    RmaPut,
    RmaGet,
    RmaAtomic,
    RmaOpCompleteBlocking,
    RmaOpCompleteNonBlocking,
    RmaOpTest,
    RmaOpCompleteRemote,
    ThreadFork,
    ThreadJoin,
    ThreadTeamBegin,
    ThreadTeamEnd,
    ThreadAcquireLock,
    ThreadReleaseLock,
    ThreadTaskCreate,
    ThreadTaskSwitch,
    ThreadTaskComplete,
    ThreadCreate,
    ThreadBegin,
    ThreadWait,
    ThreadEnd,
    CallingContextEnter,
    CallingContextLeave,
    CallingContextSample,
    IoCreateHandle,
    IoDestroyHandle,
    IoDuplicateHandle,
    IoSeek,
    IoChangeStatusFlags,
    IoDeleteFile,
    IoOperationBegin,
    IoOperationTest,
    IoOperationIssued,
    IoOperationComplete,
    IoOperationCancelled,
    IoAcquireLock,
    IoReleaseLock,
    IoTryLock,
    ProgramBegin,
    ProgramEnd,
    NonBlockingCollectiveRequest,
    NonBlockingCollectiveComplete,
    CommCreate,
    CommDestroy,
}

impl EventKind {
    /// The kind, without its fields.
    pub open spec fn spec_event_type(self) -> EventType {
        match self {
            EventKind::Unknown => EventType::Unknown,
            EventKind::BufferFlush { .. } => EventType::BufferFlush,
            EventKind::MeasurementOnOff { .. } => EventType::MeasurementOnOff,
            EventKind::Enter { .. } => EventType::Enter,
            EventKind::Leave { .. } => EventType::Leave,
            EventKind::MpiSend { .. } => EventType::MpiSend,
            EventKind::MpiIsend { .. } => EventType::MpiIsend,
            EventKind::MpiIsendComplete { .. } => EventType::MpiIsendComplete,
            EventKind::MpiIrecvRequest { .. } => EventType::MpiIrecvRequest,
            EventKind::MpiRecv { .. } => EventType::MpiRecv,
            EventKind::MpiIrecv { .. } => EventType::MpiIrecv,
            EventKind::MpiRequestTest { .. } => EventType::MpiRequestTest,
            EventKind::MpiRequestCancelled { .. } => EventType::MpiRequestCancelled,
            EventKind::MpiCollectiveBegin => EventType::MpiCollectiveBegin,
            EventKind::MpiCollectiveEnd { .. } => EventType::MpiCollectiveEnd,
            EventKind::OmpFork { .. } => EventType::OmpFork,
            EventKind::OmpJoin => EventType::OmpJoin,
            EventKind::OmpAcquireLock { .. } => EventType::OmpAcquireLock,
            EventKind::OmpReleaseLock { .. } => EventType::OmpReleaseLock,
            EventKind::OmpTaskCreate { .. } => EventType::OmpTaskCreate,
            EventKind::OmpTaskSwitch { .. } => EventType::OmpTaskSwitch,
            EventKind::OmpTaskComplete { .. } => EventType::OmpTaskComplete,
            EventKind::Metric { .. } => EventType::Metric,
            EventKind::ParameterString { .. } => EventType::ParameterString,
            EventKind::ParameterInt { .. } => EventType::ParameterInt,
            EventKind::ParameterUnsignedInt { .. } => EventType::ParameterUnsignedInt,
            EventKind::RmaWinCreate { .. } => EventType::RmaWinCreate,
            EventKind::RmaWinDestroy { .. } => EventType::RmaWinDestroy,
            EventKind::RmaCollectiveBegin => EventType::RmaCollectiveBegin,
            EventKind::RmaCollectiveEnd { .. } => EventType::RmaCollectiveEnd,
            EventKind::RmaGroupSync { .. } => EventType::RmaGroupSync,
            EventKind::RmaRequestLock { .. } => EventType::RmaRequestLock,
            EventKind::RmaAcquireLock { .. } => EventType::RmaAcquireLock,
            EventKind::RmaTryLock { .. } => EventType::RmaTryLock,
            EventKind::RmaReleaseLock { .. } => EventType::RmaReleaseLock,
            EventKind::RmaSync { .. } => EventType::RmaSync,
            EventKind::RmaWaitChange { .. } => EventType::RmaWaitChange,
            EventKind::RmaPut { .. } => EventType::RmaPut,
            EventKind::RmaGet { .. } => EventType::RmaGet,
            EventKind::RmaAtomic { .. } => EventType::RmaAtomic,
            EventKind::RmaOpCompleteBlocking { .. } => EventType::RmaOpCompleteBlocking,
            EventKind::RmaOpCompleteNonBlocking { .. } => EventType::RmaOpCompleteNonBlocking,
            EventKind::RmaOpTest { .. } => EventType::RmaOpTest,
            EventKind::RmaOpCompleteRemote { .. } => EventType::RmaOpCompleteRemote,
            EventKind::ThreadFork { .. } => EventType::ThreadFork,
            EventKind::ThreadJoin { .. } => EventType::ThreadJoin,
            EventKind::ThreadTeamBegin { .. } => EventType::ThreadTeamBegin,
            EventKind::ThreadTeamEnd { .. } => EventType::ThreadTeamEnd,
            EventKind::ThreadAcquireLock { .. } => EventType::ThreadAcquireLock,
            EventKind::ThreadReleaseLock { .. } => EventType::ThreadReleaseLock,
            EventKind::ThreadTaskCreate { .. } => EventType::ThreadTaskCreate,
            EventKind::ThreadTaskSwitch { .. } => EventType::ThreadTaskSwitch,
            EventKind::ThreadTaskComplete { .. } => EventType::ThreadTaskComplete,
            EventKind::ThreadCreate { .. } => EventType::ThreadCreate,
            EventKind::ThreadBegin { .. } => EventType::ThreadBegin,
            EventKind::ThreadWait { .. } => EventType::ThreadWait,
            EventKind::ThreadEnd { .. } => EventType::ThreadEnd,
            EventKind::CallingContextEnter { .. } => EventType::CallingContextEnter,
            EventKind::CallingContextLeave { .. } => EventType::CallingContextLeave,
            EventKind::CallingContextSample { .. } => EventType::CallingContextSample,
            EventKind::IoCreateHandle { .. } => EventType::IoCreateHandle,
            EventKind::IoDestroyHandle { .. } => EventType::IoDestroyHandle,
            EventKind::IoDuplicateHandle { .. } => EventType::IoDuplicateHandle,
            EventKind::IoSeek { .. } => EventType::IoSeek,
            EventKind::IoChangeStatusFlags { .. } => EventType::IoChangeStatusFlags,
            EventKind::IoDeleteFile { .. } => EventType::IoDeleteFile,
            EventKind::IoOperationBegin { .. } => EventType::IoOperationBegin,
            EventKind::IoOperationTest { .. } => EventType::IoOperationTest,
            EventKind::IoOperationIssued { .. } => EventType::IoOperationIssued,
            EventKind::IoOperationComplete { .. } => EventType::IoOperationComplete,
            EventKind::IoOperationCancelled { .. } => EventType::IoOperationCancelled,
            EventKind::IoAcquireLock { .. } => EventType::IoAcquireLock,
            EventKind::IoReleaseLock { .. } => EventType::IoReleaseLock,
            EventKind::IoTryLock { .. } => EventType::IoTryLock,
            EventKind::ProgramBegin { .. } => EventType::ProgramBegin,
            EventKind::ProgramEnd { .. } => EventType::ProgramEnd,
            EventKind::NonBlockingCollectiveRequest { .. } => {
                EventType::NonBlockingCollectiveRequest
            },
            EventKind::NonBlockingCollectiveComplete { .. } => {
                EventType::NonBlockingCollectiveComplete
            },
            EventKind::CommCreate { .. } => EventType::CommCreate,
            EventKind::CommDestroy { .. } => EventType::CommDestroy,
        }
    }

    /// The kind, without its fields.
    pub fn event_type(&self) -> (tag: EventType)
        ensures
            tag == self.spec_event_type(),
    {
        match self {
            EventKind::Unknown => EventType::Unknown,
            EventKind::BufferFlush { .. } => EventType::BufferFlush,
            EventKind::MeasurementOnOff { .. } => EventType::MeasurementOnOff,
            EventKind::Enter { .. } => EventType::Enter,
            EventKind::Leave { .. } => EventType::Leave,
            EventKind::MpiSend { .. } => EventType::MpiSend,
            EventKind::MpiIsend { .. } => EventType::MpiIsend,
            EventKind::MpiIsendComplete { .. } => EventType::MpiIsendComplete,
            EventKind::MpiIrecvRequest { .. } => EventType::MpiIrecvRequest,
            EventKind::MpiRecv { .. } => EventType::MpiRecv,
            EventKind::MpiIrecv { .. } => EventType::MpiIrecv,
            EventKind::MpiRequestTest { .. } => EventType::MpiRequestTest,
            EventKind::MpiRequestCancelled { .. } => EventType::MpiRequestCancelled,
            EventKind::MpiCollectiveBegin => EventType::MpiCollectiveBegin,
            EventKind::MpiCollectiveEnd { .. } => EventType::MpiCollectiveEnd,
            EventKind::OmpFork { .. } => EventType::OmpFork,
            EventKind::OmpJoin => EventType::OmpJoin,
            EventKind::OmpAcquireLock { .. } => EventType::OmpAcquireLock,
            EventKind::OmpReleaseLock { .. } => EventType::OmpReleaseLock,
            EventKind::OmpTaskCreate { .. } => EventType::OmpTaskCreate,
            EventKind::OmpTaskSwitch { .. } => EventType::OmpTaskSwitch,
            EventKind::OmpTaskComplete { .. } => EventType::OmpTaskComplete,
            EventKind::Metric { .. } => EventType::Metric,
            EventKind::ParameterString { .. } => EventType::ParameterString,
            EventKind::ParameterInt { .. } => EventType::ParameterInt,
            EventKind::ParameterUnsignedInt { .. } => EventType::ParameterUnsignedInt,
            EventKind::RmaWinCreate { .. } => EventType::RmaWinCreate,
            EventKind::RmaWinDestroy { .. } => EventType::RmaWinDestroy,
            EventKind::RmaCollectiveBegin => EventType::RmaCollectiveBegin,
            EventKind::RmaCollectiveEnd { .. } => EventType::RmaCollectiveEnd,
            EventKind::RmaGroupSync { .. } => EventType::RmaGroupSync,
            EventKind::RmaRequestLock { .. } => EventType::RmaRequestLock,
            EventKind::RmaAcquireLock { .. } => EventType::RmaAcquireLock,
            EventKind::RmaTryLock { .. } => EventType::RmaTryLock,
            EventKind::RmaReleaseLock { .. } => EventType::RmaReleaseLock,
            EventKind::RmaSync { .. } => EventType::RmaSync,
            EventKind::RmaWaitChange { .. } => EventType::RmaWaitChange,
            EventKind::RmaPut { .. } => EventType::RmaPut,
            EventKind::RmaGet { .. } => EventType::RmaGet,
            EventKind::RmaAtomic { .. } => EventType::RmaAtomic,
            EventKind::RmaOpCompleteBlocking { .. } => EventType::RmaOpCompleteBlocking,
            EventKind::RmaOpCompleteNonBlocking { .. } => EventType::RmaOpCompleteNonBlocking,
            EventKind::RmaOpTest { .. } => EventType::RmaOpTest,
            EventKind::RmaOpCompleteRemote { .. } => EventType::RmaOpCompleteRemote,
            EventKind::ThreadFork { .. } => EventType::ThreadFork,
            EventKind::ThreadJoin { .. } => EventType::ThreadJoin,
            EventKind::ThreadTeamBegin { .. } => EventType::ThreadTeamBegin,
            EventKind::ThreadTeamEnd { .. } => EventType::ThreadTeamEnd,
            EventKind::ThreadAcquireLock { .. } => EventType::ThreadAcquireLock,
            EventKind::ThreadReleaseLock { .. } => EventType::ThreadReleaseLock,
            EventKind::ThreadTaskCreate { .. } => EventType::ThreadTaskCreate,
            EventKind::ThreadTaskSwitch { .. } => EventType::ThreadTaskSwitch,
            EventKind::ThreadTaskComplete { .. } => EventType::ThreadTaskComplete,
            EventKind::ThreadCreate { .. } => EventType::ThreadCreate,
            EventKind::ThreadBegin { .. } => EventType::ThreadBegin,
            EventKind::ThreadWait { .. } => EventType::ThreadWait,
            EventKind::ThreadEnd { .. } => EventType::ThreadEnd,
            EventKind::CallingContextEnter { .. } => EventType::CallingContextEnter,
            EventKind::CallingContextLeave { .. } => EventType::CallingContextLeave,
            EventKind::CallingContextSample { .. } => EventType::CallingContextSample,
            EventKind::IoCreateHandle { .. } => EventType::IoCreateHandle,
            EventKind::IoDestroyHandle { .. } => EventType::IoDestroyHandle,
            EventKind::IoDuplicateHandle { .. } => EventType::IoDuplicateHandle,
            EventKind::IoSeek { .. } => EventType::IoSeek,
            EventKind::IoChangeStatusFlags { .. } => EventType::IoChangeStatusFlags,
            EventKind::IoDeleteFile { .. } => EventType::IoDeleteFile,
            EventKind::IoOperationBegin { .. } => EventType::IoOperationBegin,
            EventKind::IoOperationTest { .. } => EventType::IoOperationTest,
            EventKind::IoOperationIssued { .. } => EventType::IoOperationIssued,
            EventKind::IoOperationComplete { .. } => EventType::IoOperationComplete,
            EventKind::IoOperationCancelled { .. } => EventType::IoOperationCancelled,
            EventKind::IoAcquireLock { .. } => EventType::IoAcquireLock,
            EventKind::IoReleaseLock { .. } => EventType::IoReleaseLock,
            EventKind::IoTryLock { .. } => EventType::IoTryLock,
            EventKind::ProgramBegin { .. } => EventType::ProgramBegin,
            EventKind::ProgramEnd { .. } => EventType::ProgramEnd,
            EventKind::NonBlockingCollectiveRequest { .. } => {
                EventType::NonBlockingCollectiveRequest
            },
            EventKind::NonBlockingCollectiveComplete { .. } => {
                EventType::NonBlockingCollectiveComplete
            },
            EventKind::CommCreate { .. } => EventType::CommCreate,
            EventKind::CommDestroy { .. } => EventType::CommDestroy,
        }
    }
}

} // verus!
