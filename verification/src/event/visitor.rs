//! Consumers of events: one method for each kind of event, and the row of
//! consumers that acts as one.
use vstd::prelude::*;
use crate::attribute::AttributeValue;
use crate::event::event_struct::Event;
use crate::event::event_struct::EventKind;
use crate::event::event_struct::EventType;
use crate::native::AttributeRef;
use crate::native::CallbackCode;
use crate::native::CallingContextRef;
use crate::native::CollectiveOp;
use crate::native::CommRef;
use crate::native::GroupRef;
use crate::native::InterruptGeneratorRef;
use crate::native::IoAccessMode;
use crate::native::IoCreationFlag;
use crate::native::IoFileRef;
use crate::native::IoHandleRef;
use crate::native::IoOperationFlag;
use crate::native::IoOperationMode;
use crate::native::IoParadigmRef;
use crate::native::IoSeekOption;
use crate::native::IoStatusFlag;
use crate::native::LocationRef;
use crate::native::LockType;
use crate::native::MeasurementMode;
use crate::native::MetricRef;
use crate::native::MetricValue;
use crate::native::Paradigm;
use crate::native::ParameterRef;
use crate::native::RegionRef;
use crate::native::RmaAtomicType;
use crate::native::RmaSyncLevel;
use crate::native::RmaSyncType;
use crate::native::RmaWinRef;
use crate::native::StringRef;
use crate::native::TimeStamp;
use crate::native::Type;
use crate::visitor::before_stop;
use crate::visitor::ends_at;
use crate::visitor::Multiplexer;
use crate::visitor::Visit;

verus! {

/// A consumer of events with one method for each kind. Every method goes on
/// without doing anything unless the consumer overrides it, so that a
/// consumer writes only the kinds it cares for. `route_event` finds the
/// method for an event.
pub trait EventVisitor: Visit<Event> {
    /// Whether consumers of this type handle events of `kind`. The method of
    /// a kind that is not handled does nothing and goes on; of the method of
    /// a kind that is handled nothing is known here but what the consumer
    /// says of it. A consumer that does not say which kinds it handles may
    /// handle any.
    open spec fn handles(kind: EventType) -> bool {
        true
    }

    fn visit_unknown_event(
        &mut self,
        location_id: LocationRef,
        time: TimeStamp,
        attributes: &[(AttributeRef, AttributeValue)],
    ) -> (code: CallbackCode)
        ensures
            !Self::handles(EventType::Unknown) ==> {
                &&& code == CallbackCode::Success
                &&& *final(self) == *old(self)
            },
    {
        CallbackCode::Success
    }

    fn visit_buffer_flush_event(
        &mut self,
        location_id: LocationRef,
        time: TimeStamp,
        attributes: &[(AttributeRef, AttributeValue)],
        stop_time: TimeStamp,
    ) -> (code: CallbackCode)
        ensures
            !Self::handles(EventType::BufferFlush) ==> {
                &&& code == CallbackCode::Success
                &&& *final(self) == *old(self)
            },
    {
        CallbackCode::Success
    }

    fn visit_measurement_on_off_event(
        &mut self,
        location_id: LocationRef,
        time: TimeStamp,
        attributes: &[(AttributeRef, AttributeValue)],
        measurement_mode: MeasurementMode,
    ) -> (code: CallbackCode)
        ensures
            !Self::handles(EventType::MeasurementOnOff) ==> {
                &&& code == CallbackCode::Success
                &&& *final(self) == *old(self)
            },
    {
        CallbackCode::Success
    }

    fn visit_enter_event(
        &mut self,
        location_id: LocationRef,
        time: TimeStamp,
        attributes: &[(AttributeRef, AttributeValue)],
        region: RegionRef,
    ) -> (code: CallbackCode)
        ensures
            !Self::handles(EventType::Enter) ==> {
                &&& code == CallbackCode::Success
                &&& *final(self) == *old(self)
            },
    {
        CallbackCode::Success
    }

    fn visit_leave_event(
        &mut self,
        location_id: LocationRef,
        time: TimeStamp,
        attributes: &[(AttributeRef, AttributeValue)],
        region: RegionRef,
    ) -> (code: CallbackCode)
        ensures
            !Self::handles(EventType::Leave) ==> {
                &&& code == CallbackCode::Success
                &&& *final(self) == *old(self)
            },
    {
        CallbackCode::Success
    }

    fn visit_mpi_send_event(
        &mut self,
        location_id: LocationRef,
        time: TimeStamp,
        attributes: &[(AttributeRef, AttributeValue)],
        receiver: u32,
        communicator: CommRef,
        msg_tag: u32,
        msg_length: u64,
    ) -> (code: CallbackCode)
        ensures
            !Self::handles(EventType::MpiSend) ==> {
                &&& code == CallbackCode::Success
                &&& *final(self) == *old(self)
            },
    {
        CallbackCode::Success
    }

    fn visit_mpi_isend_event(
        &mut self,
        location_id: LocationRef,
        time: TimeStamp,
        attributes: &[(AttributeRef, AttributeValue)],
        receiver: u32,
        communicator: CommRef,
        msg_tag: u32,
        msg_length: u64,
        request_id: u64,
    ) -> (code: CallbackCode)
        ensures
            !Self::handles(EventType::MpiIsend) ==> {
                &&& code == CallbackCode::Success
                &&& *final(self) == *old(self)
            },
    {
        CallbackCode::Success
    }

    fn visit_mpi_isend_complete_event(
        &mut self,
        location_id: LocationRef,
        time: TimeStamp,
        attributes: &[(AttributeRef, AttributeValue)],
        request_id: u64,
    ) -> (code: CallbackCode)
        ensures
            !Self::handles(EventType::MpiIsendComplete) ==> {
                &&& code == CallbackCode::Success
                &&& *final(self) == *old(self)
            },
    {
        CallbackCode::Success
    }

    fn visit_mpi_irecv_request_event(
        &mut self,
        location_id: LocationRef,
        time: TimeStamp,
        attributes: &[(AttributeRef, AttributeValue)],
        request_id: u64,
    ) -> (code: CallbackCode)
        ensures
            !Self::handles(EventType::MpiIrecvRequest) ==> {
                &&& code == CallbackCode::Success
                &&& *final(self) == *old(self)
            },
    {
        CallbackCode::Success
    }

    fn visit_mpi_recv_event(
        &mut self,
        location_id: LocationRef,
        time: TimeStamp,
        attributes: &[(AttributeRef, AttributeValue)],
        sender: u32,
        communicator: CommRef,
        msg_tag: u32,
        msg_length: u64,
    ) -> (code: CallbackCode)
        ensures
            !Self::handles(EventType::MpiRecv) ==> {
                &&& code == CallbackCode::Success
                &&& *final(self) == *old(self)
            },
    {
        CallbackCode::Success
    }

    fn visit_mpi_irecv_event(
        &mut self,
        location_id: LocationRef,
        time: TimeStamp,
        attributes: &[(AttributeRef, AttributeValue)],
        sender: u32,
        communicator: CommRef,
        msg_tag: u32,
        msg_length: u64,
        request_id: u64,
    ) -> (code: CallbackCode)
        ensures
            !Self::handles(EventType::MpiIrecv) ==> {
                &&& code == CallbackCode::Success
                &&& *final(self) == *old(self)
            },
    {
        CallbackCode::Success
    }

    fn visit_mpi_request_test_event(
        &mut self,
        location_id: LocationRef,
        time: TimeStamp,
        attributes: &[(AttributeRef, AttributeValue)],
        request_id: u64,
    ) -> (code: CallbackCode)
        ensures
            !Self::handles(EventType::MpiRequestTest) ==> {
                &&& code == CallbackCode::Success
                &&& *final(self) == *old(self)
            },
    {
        CallbackCode::Success
    }

    fn visit_mpi_request_cancelled_event(
        &mut self,
        location_id: LocationRef,
        time: TimeStamp,
        attributes: &[(AttributeRef, AttributeValue)],
        request_id: u64,
    ) -> (code: CallbackCode)
        ensures
            !Self::handles(EventType::MpiRequestCancelled) ==> {
                &&& code == CallbackCode::Success
                &&& *final(self) == *old(self)
            },
    {
        CallbackCode::Success
    }

    fn visit_mpi_collective_begin_event(
        &mut self,
        location_id: LocationRef,
        time: TimeStamp,
        attributes: &[(AttributeRef, AttributeValue)],
    ) -> (code: CallbackCode)
        ensures
            !Self::handles(EventType::MpiCollectiveBegin) ==> {
                &&& code == CallbackCode::Success
                &&& *final(self) == *old(self)
            },
    {
        CallbackCode::Success
    }

    fn visit_mpi_collective_end_event(
        &mut self,
        location_id: LocationRef,
        time: TimeStamp,
        attributes: &[(AttributeRef, AttributeValue)],
        collective_op: CollectiveOp,
        communicator: CommRef,
        root: u32,
        size_sent: u64,
        size_received: u64,
    ) -> (code: CallbackCode)
        ensures
            !Self::handles(EventType::MpiCollectiveEnd) ==> {
                &&& code == CallbackCode::Success
                &&& *final(self) == *old(self)
            },
    {
        CallbackCode::Success
    }

    fn visit_omp_fork_event(
        &mut self,
        location_id: LocationRef,
        time: TimeStamp,
        attributes: &[(AttributeRef, AttributeValue)],
        number_of_requested_threads: u32,
    ) -> (code: CallbackCode)
        ensures
            !Self::handles(EventType::OmpFork) ==> {
                &&& code == CallbackCode::Success
                &&& *final(self) == *old(self)
            },
    {
        CallbackCode::Success
    }

    fn visit_omp_join_event(
        &mut self,
        location_id: LocationRef,
        time: TimeStamp,
        attributes: &[(AttributeRef, AttributeValue)],
    ) -> (code: CallbackCode)
        ensures
            !Self::handles(EventType::OmpJoin) ==> {
                &&& code == CallbackCode::Success
                &&& *final(self) == *old(self)
            },
    {
        CallbackCode::Success
    }

    fn visit_omp_acquire_lock_event(
        &mut self,
        location_id: LocationRef,
        time: TimeStamp,
        attributes: &[(AttributeRef, AttributeValue)],
        lock_id: u32,
        acquisition_order: u32,
    ) -> (code: CallbackCode)
        ensures
            !Self::handles(EventType::OmpAcquireLock) ==> {
                &&& code == CallbackCode::Success
                &&& *final(self) == *old(self)
            },
    {
        CallbackCode::Success
    }

    fn visit_omp_release_lock_event(
        &mut self,
        location_id: LocationRef,
        time: TimeStamp,
        attributes: &[(AttributeRef, AttributeValue)],
        lock_id: u32,
        acquisition_order: u32,
    ) -> (code: CallbackCode)
        ensures
            !Self::handles(EventType::OmpReleaseLock) ==> {
                &&& code == CallbackCode::Success
                &&& *final(self) == *old(self)
            },
    {
        CallbackCode::Success
    }

    fn visit_omp_task_create_event(
        &mut self,
        location_id: LocationRef,
        time: TimeStamp,
        attributes: &[(AttributeRef, AttributeValue)],
        task_id: u64,
    ) -> (code: CallbackCode)
        ensures
            !Self::handles(EventType::OmpTaskCreate) ==> {
                &&& code == CallbackCode::Success
                &&& *final(self) == *old(self)
            },
    {
        CallbackCode::Success
    }

    fn visit_omp_task_switch_event(
        &mut self,
        location_id: LocationRef,
        time: TimeStamp,
        attributes: &[(AttributeRef, AttributeValue)],
        task_id: u64,
    ) -> (code: CallbackCode)
        ensures
            !Self::handles(EventType::OmpTaskSwitch) ==> {
                &&& code == CallbackCode::Success
                &&& *final(self) == *old(self)
            },
    {
        CallbackCode::Success
    }

    fn visit_omp_task_complete_event(
        &mut self,
        location_id: LocationRef,
        time: TimeStamp,
        attributes: &[(AttributeRef, AttributeValue)],
        task_id: u64,
    ) -> (code: CallbackCode)
        ensures
            !Self::handles(EventType::OmpTaskComplete) ==> {
                &&& code == CallbackCode::Success
                &&& *final(self) == *old(self)
            },
    {
        CallbackCode::Success
    }

    fn visit_metric_event(
        &mut self,
        location_id: LocationRef,
        time: TimeStamp,
        attributes: &[(AttributeRef, AttributeValue)],
        metric: MetricRef,
        type_ids: &[Type],
        metric_values: &[MetricValue],
    ) -> (code: CallbackCode)
        ensures
            !Self::handles(EventType::Metric) ==> {
                &&& code == CallbackCode::Success
                &&& *final(self) == *old(self)
            },
    {
        CallbackCode::Success
    }

    fn visit_parameter_string_event(
        &mut self,
        location_id: LocationRef,
        time: TimeStamp,
        attributes: &[(AttributeRef, AttributeValue)],
        parameter: ParameterRef,
        string: StringRef,
    ) -> (code: CallbackCode)
        ensures
            !Self::handles(EventType::ParameterString) ==> {
                &&& code == CallbackCode::Success
                &&& *final(self) == *old(self)
            },
    {
        CallbackCode::Success
    }

    fn visit_parameter_int_event(
        &mut self,
        location_id: LocationRef,
        time: TimeStamp,
        attributes: &[(AttributeRef, AttributeValue)],
        parameter: ParameterRef,
        value: i64,
    ) -> (code: CallbackCode)
        ensures
            !Self::handles(EventType::ParameterInt) ==> {
                &&& code == CallbackCode::Success
                &&& *final(self) == *old(self)
            },
    {
        CallbackCode::Success
    }

    fn visit_parameter_unsigned_int_event(
        &mut self,
        location_id: LocationRef,
        time: TimeStamp,
        attributes: &[(AttributeRef, AttributeValue)],
        parameter: ParameterRef,
        value: u64,
    ) -> (code: CallbackCode)
        ensures
            !Self::handles(EventType::ParameterUnsignedInt) ==> {
                &&& code == CallbackCode::Success
                &&& *final(self) == *old(self)
            },
    {
        CallbackCode::Success
    }

    fn visit_rma_win_create_event(
        &mut self,
        location_id: LocationRef,
        time: TimeStamp,
        attributes: &[(AttributeRef, AttributeValue)],
        win: RmaWinRef,
    ) -> (code: CallbackCode)
        ensures
            !Self::handles(EventType::RmaWinCreate) ==> {
                &&& code == CallbackCode::Success
                &&& *final(self) == *old(self)
            },
    {
        CallbackCode::Success
    }

    fn visit_rma_win_destroy_event(
        &mut self,
        location_id: LocationRef,
        time: TimeStamp,
        attributes: &[(AttributeRef, AttributeValue)],
        win: RmaWinRef,
    ) -> (code: CallbackCode)
        ensures
            !Self::handles(EventType::RmaWinDestroy) ==> {
                &&& code == CallbackCode::Success
                &&& *final(self) == *old(self)
            },
    {
        CallbackCode::Success
    }

    fn visit_rma_collective_begin_event(
        &mut self,
        location_id: LocationRef,
        time: TimeStamp,
        attributes: &[(AttributeRef, AttributeValue)],
    ) -> (code: CallbackCode)
        ensures
            !Self::handles(EventType::RmaCollectiveBegin) ==> {
                &&& code == CallbackCode::Success
                &&& *final(self) == *old(self)
            },
    {
        CallbackCode::Success
    }

    fn visit_rma_collective_end_event(
        &mut self,
        location_id: LocationRef,
        time: TimeStamp,
        attributes: &[(AttributeRef, AttributeValue)],
        collective_op: CollectiveOp,
        sync_level: RmaSyncLevel,
        win: RmaWinRef,
        root: u32,
        bytes_sent: u64,
        bytes_received: u64,
    ) -> (code: CallbackCode)
        ensures
            !Self::handles(EventType::RmaCollectiveEnd) ==> {
                &&& code == CallbackCode::Success
                &&& *final(self) == *old(self)
            },
    {
        CallbackCode::Success
    }

    fn visit_rma_group_sync_event(
        &mut self,
        location_id: LocationRef,
        time: TimeStamp,
        attributes: &[(AttributeRef, AttributeValue)],
        sync_level: RmaSyncLevel,
        win: RmaWinRef,
        group: GroupRef,
    ) -> (code: CallbackCode)
        ensures
            !Self::handles(EventType::RmaGroupSync) ==> {
                &&& code == CallbackCode::Success
                &&& *final(self) == *old(self)
            },
    {
        CallbackCode::Success
    }

    fn visit_rma_request_lock_event(
        &mut self,
        location_id: LocationRef,
        time: TimeStamp,
        attributes: &[(AttributeRef, AttributeValue)],
        win: RmaWinRef,
        remote: u32,
        lock_id: u64,
        lock_type: LockType,
    ) -> (code: CallbackCode)
        ensures
            !Self::handles(EventType::RmaRequestLock) ==> {
                &&& code == CallbackCode::Success
                &&& *final(self) == *old(self)
            },
    {
        CallbackCode::Success
    }

    fn visit_rma_acquire_lock_event(
        &mut self,
        location_id: LocationRef,
        time: TimeStamp,
        attributes: &[(AttributeRef, AttributeValue)],
        win: RmaWinRef,
        remote: u32,
        lock_id: u64,
        lock_type: LockType,
    ) -> (code: CallbackCode)
        ensures
            !Self::handles(EventType::RmaAcquireLock) ==> {
                &&& code == CallbackCode::Success
                &&& *final(self) == *old(self)
            },
    {
        CallbackCode::Success
    }

    fn visit_rma_try_lock_event(
        &mut self,
        location_id: LocationRef,
        time: TimeStamp,
        attributes: &[(AttributeRef, AttributeValue)],
        win: RmaWinRef,
        remote: u32,
        lock_id: u64,
        lock_type: LockType,
    ) -> (code: CallbackCode)
        ensures
            !Self::handles(EventType::RmaTryLock) ==> {
                &&& code == CallbackCode::Success
                &&& *final(self) == *old(self)
            },
    {
        CallbackCode::Success
    }

    fn visit_rma_release_lock_event(
        &mut self,
        location_id: LocationRef,
        time: TimeStamp,
        attributes: &[(AttributeRef, AttributeValue)],
        win: RmaWinRef,
        remote: u32,
        lock_id: u64,
    ) -> (code: CallbackCode)
        ensures
            !Self::handles(EventType::RmaReleaseLock) ==> {
                &&& code == CallbackCode::Success
                &&& *final(self) == *old(self)
            },
    {
        CallbackCode::Success
    }

    fn visit_rma_sync_event(
        &mut self,
        location_id: LocationRef,
        time: TimeStamp,
        attributes: &[(AttributeRef, AttributeValue)],
        win: RmaWinRef,
        remote: u32,
        sync_type: RmaSyncType,
    ) -> (code: CallbackCode)
        ensures
            !Self::handles(EventType::RmaSync) ==> {
                &&& code == CallbackCode::Success
                &&& *final(self) == *old(self)
            },
    {
        CallbackCode::Success
    }

    fn visit_rma_wait_change_event(
        &mut self,
        location_id: LocationRef,
        time: TimeStamp,
        attributes: &[(AttributeRef, AttributeValue)],
        win: RmaWinRef,
    ) -> (code: CallbackCode)
        ensures
            !Self::handles(EventType::RmaWaitChange) ==> {
                &&& code == CallbackCode::Success
                &&& *final(self) == *old(self)
            },
    {
        CallbackCode::Success
    }

    fn visit_rma_put_event(
        &mut self,
        location_id: LocationRef,
        time: TimeStamp,
        attributes: &[(AttributeRef, AttributeValue)],
        win: RmaWinRef,
        remote: u32,
        bytes: u64,
        matching_id: u64,
    ) -> (code: CallbackCode)
        ensures
            !Self::handles(EventType::RmaPut) ==> {
                &&& code == CallbackCode::Success
                &&& *final(self) == *old(self)
            },
    {
        CallbackCode::Success
    }

    fn visit_rma_get_event(
        &mut self,
        location_id: LocationRef,
        time: TimeStamp,
        attributes: &[(AttributeRef, AttributeValue)],
        win: RmaWinRef,
        remote: u32,
        bytes: u64,
        matching_id: u64,
    ) -> (code: CallbackCode)
        ensures
            !Self::handles(EventType::RmaGet) ==> {
                &&& code == CallbackCode::Success
                &&& *final(self) == *old(self)
            },
    {
        CallbackCode::Success
    }

    fn visit_rma_atomic_event(
        &mut self,
        location_id: LocationRef,
        time: TimeStamp,
        attributes: &[(AttributeRef, AttributeValue)],
        win: RmaWinRef,
        remote: u32,
        type_: RmaAtomicType,
        bytes_sent: u64,
        bytes_received: u64,
        matching_id: u64,
    ) -> (code: CallbackCode)
        ensures
            !Self::handles(EventType::RmaAtomic) ==> {
                &&& code == CallbackCode::Success
                &&& *final(self) == *old(self)
            },
    {
        CallbackCode::Success
    }

    fn visit_rma_op_complete_blocking_event(
        &mut self,
        location_id: LocationRef,
        time: TimeStamp,
        attributes: &[(AttributeRef, AttributeValue)],
        win: RmaWinRef,
        matching_id: u64,
    ) -> (code: CallbackCode)
        ensures
            !Self::handles(EventType::RmaOpCompleteBlocking) ==> {
                &&& code == CallbackCode::Success
                &&& *final(self) == *old(self)
            },
    {
        CallbackCode::Success
    }

    fn visit_rma_op_complete_non_blocking_event(
        &mut self,
        location_id: LocationRef,
        time: TimeStamp,
        attributes: &[(AttributeRef, AttributeValue)],
        win: RmaWinRef,
        matching_id: u64,
    ) -> (code: CallbackCode)
        ensures
            !Self::handles(EventType::RmaOpCompleteNonBlocking) ==> {
                &&& code == CallbackCode::Success
                &&& *final(self) == *old(self)
            },
    {
        CallbackCode::Success
    }

    fn visit_rma_op_test_event(
        &mut self,
        location_id: LocationRef,
        time: TimeStamp,
        attributes: &[(AttributeRef, AttributeValue)],
        win: RmaWinRef,
        matching_id: u64,
    ) -> (code: CallbackCode)
        ensures
            !Self::handles(EventType::RmaOpTest) ==> {
                &&& code == CallbackCode::Success
                &&& *final(self) == *old(self)
            },
    {
        CallbackCode::Success
    }

    fn visit_rma_op_complete_remote_event(
        &mut self,
        location_id: LocationRef,
        time: TimeStamp,
        attributes: &[(AttributeRef, AttributeValue)],
        win: RmaWinRef,
        matching_id: u64,
    ) -> (code: CallbackCode)
        ensures
            !Self::handles(EventType::RmaOpCompleteRemote) ==> {
                &&& code == CallbackCode::Success
                &&& *final(self) == *old(self)
            },
    {
        CallbackCode::Success
    }

    fn visit_thread_fork_event(
        &mut self,
        location_id: LocationRef,
        time: TimeStamp,
        attributes: &[(AttributeRef, AttributeValue)],
        model: Paradigm,
        number_of_requested_threads: u32,
    ) -> (code: CallbackCode)
        ensures
            !Self::handles(EventType::ThreadFork) ==> {
                &&& code == CallbackCode::Success
                &&& *final(self) == *old(self)
            },
    {
        CallbackCode::Success
    }

    fn visit_thread_join_event(
        &mut self,
        location_id: LocationRef,
        time: TimeStamp,
        attributes: &[(AttributeRef, AttributeValue)],
        model: Paradigm,
    ) -> (code: CallbackCode)
        ensures
            !Self::handles(EventType::ThreadJoin) ==> {
                &&& code == CallbackCode::Success
                &&& *final(self) == *old(self)
            },
    {
        CallbackCode::Success
    }

    fn visit_thread_team_begin_event(
        &mut self,
        location_id: LocationRef,
        time: TimeStamp,
        attributes: &[(AttributeRef, AttributeValue)],
        thread_team: CommRef,
    ) -> (code: CallbackCode)
        ensures
            !Self::handles(EventType::ThreadTeamBegin) ==> {
                &&& code == CallbackCode::Success
                &&& *final(self) == *old(self)
            },
    {
        CallbackCode::Success
    }

    fn visit_thread_team_end_event(
        &mut self,
        location_id: LocationRef,
        time: TimeStamp,
        attributes: &[(AttributeRef, AttributeValue)],
        thread_team: CommRef,
    ) -> (code: CallbackCode)
        ensures
            !Self::handles(EventType::ThreadTeamEnd) ==> {
                &&& code == CallbackCode::Success
                &&& *final(self) == *old(self)
            },
    {
        CallbackCode::Success
    }

    fn visit_thread_acquire_lock_event(
        &mut self,
        location_id: LocationRef,
        time: TimeStamp,
        attributes: &[(AttributeRef, AttributeValue)],
        model: Paradigm,
        lock_id: u32,
        acquisition_order: u32,
    ) -> (code: CallbackCode)
        ensures
            !Self::handles(EventType::ThreadAcquireLock) ==> {
                &&& code == CallbackCode::Success
                &&& *final(self) == *old(self)
            },
    {
        CallbackCode::Success
    }

    fn visit_thread_release_lock_event(
        &mut self,
        location_id: LocationRef,
        time: TimeStamp,
        attributes: &[(AttributeRef, AttributeValue)],
        model: Paradigm,
        lock_id: u32,
        acquisition_order: u32,
    ) -> (code: CallbackCode)
        ensures
            !Self::handles(EventType::ThreadReleaseLock) ==> {
                &&& code == CallbackCode::Success
                &&& *final(self) == *old(self)
            },
    {
        CallbackCode::Success
    }

    fn visit_thread_task_create_event(
        &mut self,
        location_id: LocationRef,
        time: TimeStamp,
        attributes: &[(AttributeRef, AttributeValue)],
        thread_team: CommRef,
        creating_thread: u32,
        generation_number: u32,
    ) -> (code: CallbackCode)
        ensures
            !Self::handles(EventType::ThreadTaskCreate) ==> {
                &&& code == CallbackCode::Success
                &&& *final(self) == *old(self)
            },
    {
        CallbackCode::Success
    }

    fn visit_thread_task_switch_event(
        &mut self,
        location_id: LocationRef,
        time: TimeStamp,
        attributes: &[(AttributeRef, AttributeValue)],
        thread_team: CommRef,
        creating_thread: u32,
        generation_number: u32,
    ) -> (code: CallbackCode)
        ensures
            !Self::handles(EventType::ThreadTaskSwitch) ==> {
                &&& code == CallbackCode::Success
                &&& *final(self) == *old(self)
            },
    {
        CallbackCode::Success
    }

    fn visit_thread_task_complete_event(
        &mut self,
        location_id: LocationRef,
        time: TimeStamp,
        attributes: &[(AttributeRef, AttributeValue)],
        thread_team: CommRef,
        creating_thread: u32,
        generation_number: u32,
    ) -> (code: CallbackCode)
        ensures
            !Self::handles(EventType::ThreadTaskComplete) ==> {
                &&& code == CallbackCode::Success
                &&& *final(self) == *old(self)
            },
    {
        CallbackCode::Success
    }

    fn visit_thread_create_event(
        &mut self,
        location_id: LocationRef,
        time: TimeStamp,
        attributes: &[(AttributeRef, AttributeValue)],
        thread_contingent: CommRef,
        sequence_count: u64,
    ) -> (code: CallbackCode)
        ensures
            !Self::handles(EventType::ThreadCreate) ==> {
                &&& code == CallbackCode::Success
                &&& *final(self) == *old(self)
            },
    {
        CallbackCode::Success
    }

    fn visit_thread_begin_event(
        &mut self,
        location_id: LocationRef,
        time: TimeStamp,
        attributes: &[(AttributeRef, AttributeValue)],
        thread_contingent: CommRef,
        sequence_count: u64,
    ) -> (code: CallbackCode)
        ensures
            !Self::handles(EventType::ThreadBegin) ==> {
                &&& code == CallbackCode::Success
                &&& *final(self) == *old(self)
            },
    {
        CallbackCode::Success
    }

    fn visit_thread_wait_event(
        &mut self,
        location_id: LocationRef,
        time: TimeStamp,
        attributes: &[(AttributeRef, AttributeValue)],
        thread_contingent: CommRef,
        sequence_count: u64,
    ) -> (code: CallbackCode)
        ensures
            !Self::handles(EventType::ThreadWait) ==> {
                &&& code == CallbackCode::Success
                &&& *final(self) == *old(self)
            },
    {
        CallbackCode::Success
    }

    fn visit_thread_end_event(
        &mut self,
        location_id: LocationRef,
        time: TimeStamp,
        attributes: &[(AttributeRef, AttributeValue)],
        thread_contingent: CommRef,
        sequence_count: u64,
    ) -> (code: CallbackCode)
        ensures
            !Self::handles(EventType::ThreadEnd) ==> {
                &&& code == CallbackCode::Success
                &&& *final(self) == *old(self)
            },
    {
        CallbackCode::Success
    }

    fn visit_calling_context_enter_event(
        &mut self,
        location_id: LocationRef,
        time: TimeStamp,
        attributes: &[(AttributeRef, AttributeValue)],
        calling_context: CallingContextRef,
        unwind_distance: u32,
    ) -> (code: CallbackCode)
        ensures
            !Self::handles(EventType::CallingContextEnter) ==> {
                &&& code == CallbackCode::Success
                &&& *final(self) == *old(self)
            },
    {
        CallbackCode::Success
    }

    fn visit_calling_context_leave_event(
        &mut self,
        location_id: LocationRef,
        time: TimeStamp,
        attributes: &[(AttributeRef, AttributeValue)],
        calling_context: CallingContextRef,
    ) -> (code: CallbackCode)
        ensures
            !Self::handles(EventType::CallingContextLeave) ==> {
                &&& code == CallbackCode::Success
                &&& *final(self) == *old(self)
            },
    {
        CallbackCode::Success
    }

    fn visit_calling_context_sample_event(
        &mut self,
        location_id: LocationRef,
        time: TimeStamp,
        attributes: &[(AttributeRef, AttributeValue)],
        calling_context: CallingContextRef,
        unwind_distance: u32,
        interrupt_generator: InterruptGeneratorRef,
    ) -> (code: CallbackCode)
        ensures
            !Self::handles(EventType::CallingContextSample) ==> {
                &&& code == CallbackCode::Success
                &&& *final(self) == *old(self)
            },
    {
        CallbackCode::Success
    }

    fn visit_io_create_handle_event(
        &mut self,
        location_id: LocationRef,
        time: TimeStamp,
        attributes: &[(AttributeRef, AttributeValue)],
        handle: IoHandleRef,
        mode: IoAccessMode,
        creation_flags: IoCreationFlag,
        status_flags: IoStatusFlag,
    ) -> (code: CallbackCode)
        ensures
            !Self::handles(EventType::IoCreateHandle) ==> {
                &&& code == CallbackCode::Success
                &&& *final(self) == *old(self)
            },
    {
        CallbackCode::Success
    }

    fn visit_io_destroy_handle_event(
        &mut self,
        location_id: LocationRef,
        time: TimeStamp,
        attributes: &[(AttributeRef, AttributeValue)],
        handle: IoHandleRef,
    ) -> (code: CallbackCode)
        ensures
            !Self::handles(EventType::IoDestroyHandle) ==> {
                &&& code == CallbackCode::Success
                &&& *final(self) == *old(self)
            },
    {
        CallbackCode::Success
    }

    fn visit_io_duplicate_handle_event(
        &mut self,
        location_id: LocationRef,
        time: TimeStamp,
        attributes: &[(AttributeRef, AttributeValue)],
        old_handle: IoHandleRef,
        new_handle: IoHandleRef,
        status_flags: IoStatusFlag,
    ) -> (code: CallbackCode)
        ensures
            !Self::handles(EventType::IoDuplicateHandle) ==> {
                &&& code == CallbackCode::Success
                &&& *final(self) == *old(self)
            },
    {
        CallbackCode::Success
    }

    fn visit_io_seek_event(
        &mut self,
        location_id: LocationRef,
        time: TimeStamp,
        attributes: &[(AttributeRef, AttributeValue)],
        handle: IoHandleRef,
        offset_request: i64,
        whence: IoSeekOption,
        offset_result: u64,
    ) -> (code: CallbackCode)
        ensures
            !Self::handles(EventType::IoSeek) ==> {
                &&& code == CallbackCode::Success
                &&& *final(self) == *old(self)
            },
    {
        CallbackCode::Success
    }

    fn visit_io_change_status_flags_event(
        &mut self,
        location_id: LocationRef,
        time: TimeStamp,
        attributes: &[(AttributeRef, AttributeValue)],
        handle: IoHandleRef,
        status_flags: IoStatusFlag,
    ) -> (code: CallbackCode)
        ensures
            !Self::handles(EventType::IoChangeStatusFlags) ==> {
                &&& code == CallbackCode::Success
                &&& *final(self) == *old(self)
            },
    {
        CallbackCode::Success
    }

    fn visit_io_delete_file_event(
        &mut self,
        location_id: LocationRef,
        time: TimeStamp,
        attributes: &[(AttributeRef, AttributeValue)],
        io_paradigm: IoParadigmRef,
        file: IoFileRef,
    ) -> (code: CallbackCode)
        ensures
            !Self::handles(EventType::IoDeleteFile) ==> {
                &&& code == CallbackCode::Success
                &&& *final(self) == *old(self)
            },
    {
        CallbackCode::Success
    }

    fn visit_io_operation_begin_event(
        &mut self,
        location_id: LocationRef,
        time: TimeStamp,
        attributes: &[(AttributeRef, AttributeValue)],
        handle: IoHandleRef,
        mode: IoOperationMode,
        operation_flags: IoOperationFlag,
        bytes_request: u64,
        matching_id: u64,
    ) -> (code: CallbackCode)
        ensures
            !Self::handles(EventType::IoOperationBegin) ==> {
                &&& code == CallbackCode::Success
                &&& *final(self) == *old(self)
            },
    {
        CallbackCode::Success
    }

    fn visit_io_operation_test_event(
        &mut self,
        location_id: LocationRef,
        time: TimeStamp,
        attributes: &[(AttributeRef, AttributeValue)],
        handle: IoHandleRef,
        matching_id: u64,
    ) -> (code: CallbackCode)
        ensures
            !Self::handles(EventType::IoOperationTest) ==> {
                &&& code == CallbackCode::Success
                &&& *final(self) == *old(self)
            },
    {
        CallbackCode::Success
    }

    fn visit_io_operation_issued_event(
        &mut self,
        location_id: LocationRef,
        time: TimeStamp,
        attributes: &[(AttributeRef, AttributeValue)],
        handle: IoHandleRef,
        matching_id: u64,
    ) -> (code: CallbackCode)
        ensures
            !Self::handles(EventType::IoOperationIssued) ==> {
                &&& code == CallbackCode::Success
                &&& *final(self) == *old(self)
            },
    {
        CallbackCode::Success
    }

    fn visit_io_operation_complete_event(
        &mut self,
        location_id: LocationRef,
        time: TimeStamp,
        attributes: &[(AttributeRef, AttributeValue)],
        handle: IoHandleRef,
        bytes_result: u64,
        matching_id: u64,
    ) -> (code: CallbackCode)
        ensures
            !Self::handles(EventType::IoOperationComplete) ==> {
                &&& code == CallbackCode::Success
                &&& *final(self) == *old(self)
            },
    {
        CallbackCode::Success
    }

    fn visit_io_operation_cancelled_event(
        &mut self,
        location_id: LocationRef,
        time: TimeStamp,
        attributes: &[(AttributeRef, AttributeValue)],
        handle: IoHandleRef,
        matching_id: u64,
    ) -> (code: CallbackCode)
        ensures
            !Self::handles(EventType::IoOperationCancelled) ==> {
                &&& code == CallbackCode::Success
                &&& *final(self) == *old(self)
            },
    {
        CallbackCode::Success
    }

    fn visit_io_acquire_lock_event(
        &mut self,
        location_id: LocationRef,
        time: TimeStamp,
        attributes: &[(AttributeRef, AttributeValue)],
        handle: IoHandleRef,
        lock_type: LockType,
    ) -> (code: CallbackCode)
        ensures
            !Self::handles(EventType::IoAcquireLock) ==> {
                &&& code == CallbackCode::Success
                &&& *final(self) == *old(self)
            },
    {
        CallbackCode::Success
    }

    fn visit_io_release_lock_event(
        &mut self,
        location_id: LocationRef,
        time: TimeStamp,
        attributes: &[(AttributeRef, AttributeValue)],
        handle: IoHandleRef,
        lock_type: LockType,
    ) -> (code: CallbackCode)
        ensures
            !Self::handles(EventType::IoReleaseLock) ==> {
                &&& code == CallbackCode::Success
                &&& *final(self) == *old(self)
            },
    {
        CallbackCode::Success
    }

    fn visit_io_try_lock_event(
        &mut self,
        location_id: LocationRef,
        time: TimeStamp,
        attributes: &[(AttributeRef, AttributeValue)],
        handle: IoHandleRef,
        lock_type: LockType,
    ) -> (code: CallbackCode)
        ensures
            !Self::handles(EventType::IoTryLock) ==> {
                &&& code == CallbackCode::Success
                &&& *final(self) == *old(self)
            },
    {
        CallbackCode::Success
    }

    fn visit_program_begin_event(
        &mut self,
        location_id: LocationRef,
        time: TimeStamp,
        attributes: &[(AttributeRef, AttributeValue)],
        program_name: StringRef,
        program_arguments: &[StringRef],
    ) -> (code: CallbackCode)
        ensures
            !Self::handles(EventType::ProgramBegin) ==> {
                &&& code == CallbackCode::Success
                &&& *final(self) == *old(self)
            },
    {
        CallbackCode::Success
    }

    fn visit_program_end_event(
        &mut self,
        location_id: LocationRef,
        time: TimeStamp,
        attributes: &[(AttributeRef, AttributeValue)],
        exit_status: i64,
    ) -> (code: CallbackCode)
        ensures
            !Self::handles(EventType::ProgramEnd) ==> {
                &&& code == CallbackCode::Success
                &&& *final(self) == *old(self)
            },
    {
        CallbackCode::Success
    }

    fn visit_non_blocking_collective_request_event(
        &mut self,
        location_id: LocationRef,
        time: TimeStamp,
        attributes: &[(AttributeRef, AttributeValue)],
        request_id: u64,
    ) -> (code: CallbackCode)
        ensures
            !Self::handles(EventType::NonBlockingCollectiveRequest) ==> {
                &&& code == CallbackCode::Success
                &&& *final(self) == *old(self)
            },
    {
        CallbackCode::Success
    }

    fn visit_non_blocking_collective_complete_event(
        &mut self,
        location_id: LocationRef,
        time: TimeStamp,
        attributes: &[(AttributeRef, AttributeValue)],
        collective_op: CollectiveOp,
        communicator: CommRef,
        root: u32,
        size_sent: u64,
        size_received: u64,
        request_id: u64,
    ) -> (code: CallbackCode)
        ensures
            !Self::handles(EventType::NonBlockingCollectiveComplete) ==> {
                &&& code == CallbackCode::Success
                &&& *final(self) == *old(self)
            },
    {
        CallbackCode::Success
    }

    fn visit_comm_create_event(
        &mut self,
        location_id: LocationRef,
        time: TimeStamp,
        attributes: &[(AttributeRef, AttributeValue)],
        communicator: CommRef,
    ) -> (code: CallbackCode)
        ensures
            !Self::handles(EventType::CommCreate) ==> {
                &&& code == CallbackCode::Success
                &&& *final(self) == *old(self)
            },
    {
        CallbackCode::Success
    }

    fn visit_comm_destroy_event(
        &mut self,
        location_id: LocationRef,
        time: TimeStamp,
        attributes: &[(AttributeRef, AttributeValue)],
        communicator: CommRef,
    ) -> (code: CallbackCode)
        ensures
            !Self::handles(EventType::CommDestroy) ==> {
                &&& code == CallbackCode::Success
                &&& *final(self) == *old(self)
            },
    {
        CallbackCode::Success
    }
}

/// Shows the event to the method of its kind and returns that method's
/// answer: the consumer is left as that method leaves it, and the answer is
/// that method's, for the location, the time, the attributes and the fields
/// of the event. For a kind that the consumer does not handle that is no
/// change and `Success`.
pub fn route_event<V: EventVisitor>(visitor: &mut V, event: &Event) -> (code: CallbackCode)
    ensures
        match event.kind {
            EventKind::Unknown => exists|
                r: &mut V,
                a: &[(AttributeRef, AttributeValue)],
            |
                *r == *old(visitor)
                    && *final(r) == *final(visitor)
                    && a@ == event.data.attributes@
                    && #[trigger] call_ensures(
                        V::visit_unknown_event,
                        (r, event.data.location, event.data.time, a),
                        code,
                    ),
            EventKind::BufferFlush { stop_time } => exists|
                r: &mut V,
                a: &[(AttributeRef, AttributeValue)],
            |
                *r == *old(visitor)
                    && *final(r) == *final(visitor)
                    && a@ == event.data.attributes@
                    && #[trigger] call_ensures(
                        V::visit_buffer_flush_event,
                        (r, event.data.location, event.data.time, a, stop_time),
                        code,
                    ),
            EventKind::MeasurementOnOff { measurement_mode } => exists|
                r: &mut V,
                a: &[(AttributeRef, AttributeValue)],
            |
                *r == *old(visitor)
                    && *final(r) == *final(visitor)
                    && a@ == event.data.attributes@
                    && #[trigger] call_ensures(
                        V::visit_measurement_on_off_event,
                        (r, event.data.location, event.data.time, a, measurement_mode),
                        code,
                    ),
            EventKind::Enter { region } => exists|
                r: &mut V,
                a: &[(AttributeRef, AttributeValue)],
            |
                *r == *old(visitor)
                    && *final(r) == *final(visitor)
                    && a@ == event.data.attributes@
                    && #[trigger] call_ensures(
                        V::visit_enter_event,
                        (r, event.data.location, event.data.time, a, region),
                        code,
                    ),
            EventKind::Leave { region } => exists|
                r: &mut V,
                a: &[(AttributeRef, AttributeValue)],
            |
                *r == *old(visitor)
                    && *final(r) == *final(visitor)
                    && a@ == event.data.attributes@
                    && #[trigger] call_ensures(
                        V::visit_leave_event,
                        (r, event.data.location, event.data.time, a, region),
                        code,
                    ),
            EventKind::MpiSend { receiver, communicator, msg_tag, msg_length } => exists|
                r: &mut V,
                a: &[(AttributeRef, AttributeValue)],
            |
                *r == *old(visitor)
                    && *final(r) == *final(visitor)
                    && a@ == event.data.attributes@
                    && #[trigger] call_ensures(
                        V::visit_mpi_send_event,
                        (
                            r,
                            event.data.location,
                            event.data.time,
                            a,
                            receiver,
                            communicator,
                            msg_tag,
                            msg_length,
                        ),
                        code,
                    ),
            EventKind::MpiIsend {
                receiver,
                communicator,
                msg_tag,
                msg_length,
                request_id,
            } => exists|
                r: &mut V,
                a: &[(AttributeRef, AttributeValue)],
            |
                *r == *old(visitor)
                    && *final(r) == *final(visitor)
                    && a@ == event.data.attributes@
                    && #[trigger] call_ensures(
                        V::visit_mpi_isend_event,
                        (
                            r,
                            event.data.location,
                            event.data.time,
                            a,
                            receiver,
                            communicator,
                            msg_tag,
                            msg_length,
                            request_id,
                        ),
                        code,
                    ),
            EventKind::MpiIsendComplete { request_id } => exists|
                r: &mut V,
                a: &[(AttributeRef, AttributeValue)],
            |
                *r == *old(visitor)
                    && *final(r) == *final(visitor)
                    && a@ == event.data.attributes@
                    && #[trigger] call_ensures(
                        V::visit_mpi_isend_complete_event,
                        (r, event.data.location, event.data.time, a, request_id),
                        code,
                    ),
            EventKind::MpiIrecvRequest { request_id } => exists|
                r: &mut V,
                a: &[(AttributeRef, AttributeValue)],
            |
                *r == *old(visitor)
                    && *final(r) == *final(visitor)
                    && a@ == event.data.attributes@
                    && #[trigger] call_ensures(
                        V::visit_mpi_irecv_request_event,
                        (r, event.data.location, event.data.time, a, request_id),
                        code,
                    ),
            EventKind::MpiRecv { sender, communicator, msg_tag, msg_length } => exists|
                r: &mut V,
                a: &[(AttributeRef, AttributeValue)],
            |
                *r == *old(visitor)
                    && *final(r) == *final(visitor)
                    && a@ == event.data.attributes@
                    && #[trigger] call_ensures(
                        V::visit_mpi_recv_event,
                        (
                            r,
                            event.data.location,
                            event.data.time,
                            a,
                            sender,
                            communicator,
                            msg_tag,
                            msg_length,
                        ),
                        code,
                    ),
            EventKind::MpiIrecv {
                sender,
                communicator,
                msg_tag,
                msg_length,
                request_id,
            } => exists|
                r: &mut V,
                a: &[(AttributeRef, AttributeValue)],
            |
                *r == *old(visitor)
                    && *final(r) == *final(visitor)
                    && a@ == event.data.attributes@
                    && #[trigger] call_ensures(
                        V::visit_mpi_irecv_event,
                        (
                            r,
                            event.data.location,
                            event.data.time,
                            a,
                            sender,
                            communicator,
                            msg_tag,
                            msg_length,
                            request_id,
                        ),
                        code,
                    ),
            EventKind::MpiRequestTest { request_id } => exists|
                r: &mut V,
                a: &[(AttributeRef, AttributeValue)],
            |
                *r == *old(visitor)
                    && *final(r) == *final(visitor)
                    && a@ == event.data.attributes@
                    && #[trigger] call_ensures(
                        V::visit_mpi_request_test_event,
                        (r, event.data.location, event.data.time, a, request_id),
                        code,
                    ),
            EventKind::MpiRequestCancelled { request_id } => exists|
                r: &mut V,
                a: &[(AttributeRef, AttributeValue)],
            |
                *r == *old(visitor)
                    && *final(r) == *final(visitor)
                    && a@ == event.data.attributes@
                    && #[trigger] call_ensures(
                        V::visit_mpi_request_cancelled_event,
                        (r, event.data.location, event.data.time, a, request_id),
                        code,
                    ),
            EventKind::MpiCollectiveBegin => exists|
                r: &mut V,
                a: &[(AttributeRef, AttributeValue)],
            |
                *r == *old(visitor)
                    && *final(r) == *final(visitor)
                    && a@ == event.data.attributes@
                    && #[trigger] call_ensures(
                        V::visit_mpi_collective_begin_event,
                        (r, event.data.location, event.data.time, a),
                        code,
                    ),
            EventKind::MpiCollectiveEnd {
                collective_op,
                communicator,
                root,
                size_sent,
                size_received,
            } => exists|
                r: &mut V,
                a: &[(AttributeRef, AttributeValue)],
            |
                *r == *old(visitor)
                    && *final(r) == *final(visitor)
                    && a@ == event.data.attributes@
                    && #[trigger] call_ensures(
                        V::visit_mpi_collective_end_event,
                        (
                            r,
                            event.data.location,
                            event.data.time,
                            a,
                            collective_op,
                            communicator,
                            root,
                            size_sent,
                            size_received,
                        ),
                        code,
                    ),
            EventKind::OmpFork { number_of_requested_threads } => exists|
                r: &mut V,
                a: &[(AttributeRef, AttributeValue)],
            |
                *r == *old(visitor)
                    && *final(r) == *final(visitor)
                    && a@ == event.data.attributes@
                    && #[trigger] call_ensures(
                        V::visit_omp_fork_event,
                        (
                            r,
                            event.data.location,
                            event.data.time,
                            a,
                            number_of_requested_threads,
                        ),
                        code,
                    ),
            EventKind::OmpJoin => exists|
                r: &mut V,
                a: &[(AttributeRef, AttributeValue)],
            |
                *r == *old(visitor)
                    && *final(r) == *final(visitor)
                    && a@ == event.data.attributes@
                    && #[trigger] call_ensures(
                        V::visit_omp_join_event,
                        (r, event.data.location, event.data.time, a),
                        code,
                    ),
            EventKind::OmpAcquireLock { lock_id, acquisition_order } => exists|
                r: &mut V,
                a: &[(AttributeRef, AttributeValue)],
            |
                *r == *old(visitor)
                    && *final(r) == *final(visitor)
                    && a@ == event.data.attributes@
                    && #[trigger] call_ensures(
                        V::visit_omp_acquire_lock_event,
                        (
                            r,
                            event.data.location,
                            event.data.time,
                            a,
                            lock_id,
                            acquisition_order,
                        ),
                        code,
                    ),
            EventKind::OmpReleaseLock { lock_id, acquisition_order } => exists|
                r: &mut V,
                a: &[(AttributeRef, AttributeValue)],
            |
                *r == *old(visitor)
                    && *final(r) == *final(visitor)
                    && a@ == event.data.attributes@
                    && #[trigger] call_ensures(
                        V::visit_omp_release_lock_event,
                        (
                            r,
                            event.data.location,
                            event.data.time,
                            a,
                            lock_id,
                            acquisition_order,
                        ),
                        code,
                    ),
            EventKind::OmpTaskCreate { task_id } => exists|
                r: &mut V,
                a: &[(AttributeRef, AttributeValue)],
            |
                *r == *old(visitor)
                    && *final(r) == *final(visitor)
                    && a@ == event.data.attributes@
                    && #[trigger] call_ensures(
                        V::visit_omp_task_create_event,
                        (r, event.data.location, event.data.time, a, task_id),
                        code,
                    ),
            EventKind::OmpTaskSwitch { task_id } => exists|
                r: &mut V,
                a: &[(AttributeRef, AttributeValue)],
            |
                *r == *old(visitor)
                    && *final(r) == *final(visitor)
                    && a@ == event.data.attributes@
                    && #[trigger] call_ensures(
                        V::visit_omp_task_switch_event,
                        (r, event.data.location, event.data.time, a, task_id),
                        code,
                    ),
            EventKind::OmpTaskComplete { task_id } => exists|
                r: &mut V,
                a: &[(AttributeRef, AttributeValue)],
            |
                *r == *old(visitor)
                    && *final(r) == *final(visitor)
                    && a@ == event.data.attributes@
                    && #[trigger] call_ensures(
                        V::visit_omp_task_complete_event,
                        (r, event.data.location, event.data.time, a, task_id),
                        code,
                    ),
            EventKind::Metric { metric, type_ids, metric_values } => exists|
                r: &mut V,
                a: &[(AttributeRef, AttributeValue)],
                type_ids_: &[Type],
                metric_values_: &[MetricValue],
            |
                *r == *old(visitor)
                    && *final(r) == *final(visitor)
                    && a@ == event.data.attributes@
                    && type_ids_@ == type_ids@
                    && metric_values_@ == metric_values@
                    && #[trigger] call_ensures(
                        V::visit_metric_event,
                        (
                            r,
                            event.data.location,
                            event.data.time,
                            a,
                            metric,
                            type_ids_,
                            metric_values_,
                        ),
                        code,
                    ),
            EventKind::ParameterString { parameter, string } => exists|
                r: &mut V,
                a: &[(AttributeRef, AttributeValue)],
            |
                *r == *old(visitor)
                    && *final(r) == *final(visitor)
                    && a@ == event.data.attributes@
                    && #[trigger] call_ensures(
                        V::visit_parameter_string_event,
                        (r, event.data.location, event.data.time, a, parameter, string),
                        code,
                    ),
            EventKind::ParameterInt { parameter, value } => exists|
                r: &mut V,
                a: &[(AttributeRef, AttributeValue)],
            |
                *r == *old(visitor)
                    && *final(r) == *final(visitor)
                    && a@ == event.data.attributes@
                    && #[trigger] call_ensures(
                        V::visit_parameter_int_event,
                        (r, event.data.location, event.data.time, a, parameter, value),
                        code,
                    ),
            EventKind::ParameterUnsignedInt { parameter, value } => exists|
                r: &mut V,
                a: &[(AttributeRef, AttributeValue)],
            |
                *r == *old(visitor)
                    && *final(r) == *final(visitor)
                    && a@ == event.data.attributes@
                    && #[trigger] call_ensures(
                        V::visit_parameter_unsigned_int_event,
                        (r, event.data.location, event.data.time, a, parameter, value),
                        code,
                    ),
            EventKind::RmaWinCreate { win } => exists|
                r: &mut V,
                a: &[(AttributeRef, AttributeValue)],
            |
                *r == *old(visitor)
                    && *final(r) == *final(visitor)
                    && a@ == event.data.attributes@
                    && #[trigger] call_ensures(
                        V::visit_rma_win_create_event,
                        (r, event.data.location, event.data.time, a, win),
                        code,
                    ),
            EventKind::RmaWinDestroy { win } => exists|
                r: &mut V,
                a: &[(AttributeRef, AttributeValue)],
            |
                *r == *old(visitor)
                    && *final(r) == *final(visitor)
                    && a@ == event.data.attributes@
                    && #[trigger] call_ensures(
                        V::visit_rma_win_destroy_event,
                        (r, event.data.location, event.data.time, a, win),
                        code,
                    ),
            EventKind::RmaCollectiveBegin => exists|
                r: &mut V,
                a: &[(AttributeRef, AttributeValue)],
            |
                *r == *old(visitor)
                    && *final(r) == *final(visitor)
                    && a@ == event.data.attributes@
                    && #[trigger] call_ensures(
                        V::visit_rma_collective_begin_event,
                        (r, event.data.location, event.data.time, a),
                        code,
                    ),
            EventKind::RmaCollectiveEnd {
                collective_op,
                sync_level,
                win,
                root,
                bytes_sent,
                bytes_received,
            } => exists|
                r: &mut V,
                a: &[(AttributeRef, AttributeValue)],
            |
                *r == *old(visitor)
                    && *final(r) == *final(visitor)
                    && a@ == event.data.attributes@
                    && #[trigger] call_ensures(
                        V::visit_rma_collective_end_event,
                        (
                            r,
                            event.data.location,
                            event.data.time,
                            a,
                            collective_op,
                            sync_level,
                            win,
                            root,
                            bytes_sent,
                            bytes_received,
                        ),
                        code,
                    ),
            EventKind::RmaGroupSync { sync_level, win, group } => exists|
                r: &mut V,
                a: &[(AttributeRef, AttributeValue)],
            |
                *r == *old(visitor)
                    && *final(r) == *final(visitor)
                    && a@ == event.data.attributes@
                    && #[trigger] call_ensures(
                        V::visit_rma_group_sync_event,
                        (
                            r,
                            event.data.location,
                            event.data.time,
                            a,
                            sync_level,
                            win,
                            group,
                        ),
                        code,
                    ),
            EventKind::RmaRequestLock { win, remote, lock_id, lock_type } => exists|
                r: &mut V,
                a: &[(AttributeRef, AttributeValue)],
            |
                *r == *old(visitor)
                    && *final(r) == *final(visitor)
                    && a@ == event.data.attributes@
                    && #[trigger] call_ensures(
                        V::visit_rma_request_lock_event,
                        (
                            r,
                            event.data.location,
                            event.data.time,
                            a,
                            win,
                            remote,
                            lock_id,
                            lock_type,
                        ),
                        code,
                    ),
            EventKind::RmaAcquireLock { win, remote, lock_id, lock_type } => exists|
                r: &mut V,
                a: &[(AttributeRef, AttributeValue)],
            |
                *r == *old(visitor)
                    && *final(r) == *final(visitor)
                    && a@ == event.data.attributes@
                    && #[trigger] call_ensures(
                        V::visit_rma_acquire_lock_event,
                        (
                            r,
                            event.data.location,
                            event.data.time,
                            a,
                            win,
                            remote,
                            lock_id,
                            lock_type,
                        ),
                        code,
                    ),
            EventKind::RmaTryLock { win, remote, lock_id, lock_type } => exists|
                r: &mut V,
                a: &[(AttributeRef, AttributeValue)],
            |
                *r == *old(visitor)
                    && *final(r) == *final(visitor)
                    && a@ == event.data.attributes@
                    && #[trigger] call_ensures(
                        V::visit_rma_try_lock_event,
                        (
                            r,
                            event.data.location,
                            event.data.time,
                            a,
                            win,
                            remote,
                            lock_id,
                            lock_type,
                        ),
                        code,
                    ),
            EventKind::RmaReleaseLock { win, remote, lock_id } => exists|
                r: &mut V,
                a: &[(AttributeRef, AttributeValue)],
            |
                *r == *old(visitor)
                    && *final(r) == *final(visitor)
                    && a@ == event.data.attributes@
                    && #[trigger] call_ensures(
                        V::visit_rma_release_lock_event,
                        (
                            r,
                            event.data.location,
                            event.data.time,
                            a,
                            win,
                            remote,
                            lock_id,
                        ),
                        code,
                    ),
            EventKind::RmaSync { win, remote, sync_type } => exists|
                r: &mut V,
                a: &[(AttributeRef, AttributeValue)],
            |
                *r == *old(visitor)
                    && *final(r) == *final(visitor)
                    && a@ == event.data.attributes@
                    && #[trigger] call_ensures(
                        V::visit_rma_sync_event,
                        (
                            r,
                            event.data.location,
                            event.data.time,
                            a,
                            win,
                            remote,
                            sync_type,
                        ),
                        code,
                    ),
            EventKind::RmaWaitChange { win } => exists|
                r: &mut V,
                a: &[(AttributeRef, AttributeValue)],
            |
                *r == *old(visitor)
                    && *final(r) == *final(visitor)
                    && a@ == event.data.attributes@
                    && #[trigger] call_ensures(
                        V::visit_rma_wait_change_event,
                        (r, event.data.location, event.data.time, a, win),
                        code,
                    ),
            EventKind::RmaPut { win, remote, bytes, matching_id } => exists|
                r: &mut V,
                a: &[(AttributeRef, AttributeValue)],
            |
                *r == *old(visitor)
                    && *final(r) == *final(visitor)
                    && a@ == event.data.attributes@
                    && #[trigger] call_ensures(
                        V::visit_rma_put_event,
                        (
                            r,
                            event.data.location,
                            event.data.time,
                            a,
                            win,
                            remote,
                            bytes,
                            matching_id,
                        ),
                        code,
                    ),
            EventKind::RmaGet { win, remote, bytes, matching_id } => exists|
                r: &mut V,
                a: &[(AttributeRef, AttributeValue)],
            |
                *r == *old(visitor)
                    && *final(r) == *final(visitor)
                    && a@ == event.data.attributes@
                    && #[trigger] call_ensures(
                        V::visit_rma_get_event,
                        (
                            r,
                            event.data.location,
                            event.data.time,
                            a,
                            win,
                            remote,
                            bytes,
                            matching_id,
                        ),
                        code,
                    ),
            EventKind::RmaAtomic {
                win,
                remote,
                type_,
                bytes_sent,
                bytes_received,
                matching_id,
            } => exists|
                r: &mut V,
                a: &[(AttributeRef, AttributeValue)],
            |
                *r == *old(visitor)
                    && *final(r) == *final(visitor)
                    && a@ == event.data.attributes@
                    && #[trigger] call_ensures(
                        V::visit_rma_atomic_event,
                        (
                            r,
                            event.data.location,
                            event.data.time,
                            a,
                            win,
                            remote,
                            type_,
                            bytes_sent,
                            bytes_received,
                            matching_id,
                        ),
                        code,
                    ),
            EventKind::RmaOpCompleteBlocking { win, matching_id } => exists|
                r: &mut V,
                a: &[(AttributeRef, AttributeValue)],
            |
                *r == *old(visitor)
                    && *final(r) == *final(visitor)
                    && a@ == event.data.attributes@
                    && #[trigger] call_ensures(
                        V::visit_rma_op_complete_blocking_event,
                        (r, event.data.location, event.data.time, a, win, matching_id),
                        code,
                    ),
            EventKind::RmaOpCompleteNonBlocking { win, matching_id } => exists|
                r: &mut V,
                a: &[(AttributeRef, AttributeValue)],
            |
                *r == *old(visitor)
                    && *final(r) == *final(visitor)
                    && a@ == event.data.attributes@
                    && #[trigger] call_ensures(
                        V::visit_rma_op_complete_non_blocking_event,
                        (r, event.data.location, event.data.time, a, win, matching_id),
                        code,
                    ),
            EventKind::RmaOpTest { win, matching_id } => exists|
                r: &mut V,
                a: &[(AttributeRef, AttributeValue)],
            |
                *r == *old(visitor)
                    && *final(r) == *final(visitor)
                    && a@ == event.data.attributes@
                    && #[trigger] call_ensures(
                        V::visit_rma_op_test_event,
                        (r, event.data.location, event.data.time, a, win, matching_id),
                        code,
                    ),
            EventKind::RmaOpCompleteRemote { win, matching_id } => exists|
                r: &mut V,
                a: &[(AttributeRef, AttributeValue)],
            |
                *r == *old(visitor)
                    && *final(r) == *final(visitor)
                    && a@ == event.data.attributes@
                    && #[trigger] call_ensures(
                        V::visit_rma_op_complete_remote_event,
                        (r, event.data.location, event.data.time, a, win, matching_id),
                        code,
                    ),
            EventKind::ThreadFork { model, number_of_requested_threads } => exists|
                r: &mut V,
                a: &[(AttributeRef, AttributeValue)],
            |
                *r == *old(visitor)
                    && *final(r) == *final(visitor)
                    && a@ == event.data.attributes@
                    && #[trigger] call_ensures(
                        V::visit_thread_fork_event,
                        (
                            r,
                            event.data.location,
                            event.data.time,
                            a,
                            model,
                            number_of_requested_threads,
                        ),
                        code,
                    ),
            EventKind::ThreadJoin { model } => exists|
                r: &mut V,
                a: &[(AttributeRef, AttributeValue)],
            |
                *r == *old(visitor)
                    && *final(r) == *final(visitor)
                    && a@ == event.data.attributes@
                    && #[trigger] call_ensures(
                        V::visit_thread_join_event,
                        (r, event.data.location, event.data.time, a, model),
                        code,
                    ),
            EventKind::ThreadTeamBegin { thread_team } => exists|
                r: &mut V,
                a: &[(AttributeRef, AttributeValue)],
            |
                *r == *old(visitor)
                    && *final(r) == *final(visitor)
                    && a@ == event.data.attributes@
                    && #[trigger] call_ensures(
                        V::visit_thread_team_begin_event,
                        (r, event.data.location, event.data.time, a, thread_team),
                        code,
                    ),
            EventKind::ThreadTeamEnd { thread_team } => exists|
                r: &mut V,
                a: &[(AttributeRef, AttributeValue)],
            |
                *r == *old(visitor)
                    && *final(r) == *final(visitor)
                    && a@ == event.data.attributes@
                    && #[trigger] call_ensures(
                        V::visit_thread_team_end_event,
                        (r, event.data.location, event.data.time, a, thread_team),
                        code,
                    ),
            EventKind::ThreadAcquireLock { model, lock_id, acquisition_order } => exists|
                r: &mut V,
                a: &[(AttributeRef, AttributeValue)],
            |
                *r == *old(visitor)
                    && *final(r) == *final(visitor)
                    && a@ == event.data.attributes@
                    && #[trigger] call_ensures(
                        V::visit_thread_acquire_lock_event,
                        (
                            r,
                            event.data.location,
                            event.data.time,
                            a,
                            model,
                            lock_id,
                            acquisition_order,
                        ),
                        code,
                    ),
            EventKind::ThreadReleaseLock { model, lock_id, acquisition_order } => exists|
                r: &mut V,
                a: &[(AttributeRef, AttributeValue)],
            |
                *r == *old(visitor)
                    && *final(r) == *final(visitor)
                    && a@ == event.data.attributes@
                    && #[trigger] call_ensures(
                        V::visit_thread_release_lock_event,
                        (
                            r,
                            event.data.location,
                            event.data.time,
                            a,
                            model,
                            lock_id,
                            acquisition_order,
                        ),
                        code,
                    ),
            EventKind::ThreadTaskCreate {
                thread_team,
                creating_thread,
                generation_number,
            } => exists|
                r: &mut V,
                a: &[(AttributeRef, AttributeValue)],
            |
                *r == *old(visitor)
                    && *final(r) == *final(visitor)
                    && a@ == event.data.attributes@
                    && #[trigger] call_ensures(
                        V::visit_thread_task_create_event,
                        (
                            r,
                            event.data.location,
                            event.data.time,
                            a,
                            thread_team,
                            creating_thread,
                            generation_number,
                        ),
                        code,
                    ),
            EventKind::ThreadTaskSwitch {
                thread_team,
                creating_thread,
                generation_number,
            } => exists|
                r: &mut V,
                a: &[(AttributeRef, AttributeValue)],
            |
                *r == *old(visitor)
                    && *final(r) == *final(visitor)
                    && a@ == event.data.attributes@
                    && #[trigger] call_ensures(
                        V::visit_thread_task_switch_event,
                        (
                            r,
                            event.data.location,
                            event.data.time,
                            a,
                            thread_team,
                            creating_thread,
                            generation_number,
                        ),
                        code,
                    ),
            EventKind::ThreadTaskComplete {
                thread_team,
                creating_thread,
                generation_number,
            } => exists|
                r: &mut V,
                a: &[(AttributeRef, AttributeValue)],
            |
                *r == *old(visitor)
                    && *final(r) == *final(visitor)
                    && a@ == event.data.attributes@
                    && #[trigger] call_ensures(
                        V::visit_thread_task_complete_event,
                        (
                            r,
                            event.data.location,
                            event.data.time,
                            a,
                            thread_team,
                            creating_thread,
                            generation_number,
                        ),
                        code,
                    ),
            EventKind::ThreadCreate { thread_contingent, sequence_count } => exists|
                r: &mut V,
                a: &[(AttributeRef, AttributeValue)],
            |
                *r == *old(visitor)
                    && *final(r) == *final(visitor)
                    && a@ == event.data.attributes@
                    && #[trigger] call_ensures(
                        V::visit_thread_create_event,
                        (
                            r,
                            event.data.location,
                            event.data.time,
                            a,
                            thread_contingent,
                            sequence_count,
                        ),
                        code,
                    ),
            EventKind::ThreadBegin { thread_contingent, sequence_count } => exists|
                r: &mut V,
                a: &[(AttributeRef, AttributeValue)],
            |
                *r == *old(visitor)
                    && *final(r) == *final(visitor)
                    && a@ == event.data.attributes@
                    && #[trigger] call_ensures(
                        V::visit_thread_begin_event,
                        (
                            r,
                            event.data.location,
                            event.data.time,
                            a,
                            thread_contingent,
                            sequence_count,
                        ),
                        code,
                    ),
            EventKind::ThreadWait { thread_contingent, sequence_count } => exists|
                r: &mut V,
                a: &[(AttributeRef, AttributeValue)],
            |
                *r == *old(visitor)
                    && *final(r) == *final(visitor)
                    && a@ == event.data.attributes@
                    && #[trigger] call_ensures(
                        V::visit_thread_wait_event,
                        (
                            r,
                            event.data.location,
                            event.data.time,
                            a,
                            thread_contingent,
                            sequence_count,
                        ),
                        code,
                    ),
            EventKind::ThreadEnd { thread_contingent, sequence_count } => exists|
                r: &mut V,
                a: &[(AttributeRef, AttributeValue)],
            |
                *r == *old(visitor)
                    && *final(r) == *final(visitor)
                    && a@ == event.data.attributes@
                    && #[trigger] call_ensures(
                        V::visit_thread_end_event,
                        (
                            r,
                            event.data.location,
                            event.data.time,
                            a,
                            thread_contingent,
                            sequence_count,
                        ),
                        code,
                    ),
            EventKind::CallingContextEnter { calling_context, unwind_distance } => exists|
                r: &mut V,
                a: &[(AttributeRef, AttributeValue)],
            |
                *r == *old(visitor)
                    && *final(r) == *final(visitor)
                    && a@ == event.data.attributes@
                    && #[trigger] call_ensures(
                        V::visit_calling_context_enter_event,
                        (
                            r,
                            event.data.location,
                            event.data.time,
                            a,
                            calling_context,
                            unwind_distance,
                        ),
                        code,
                    ),
            EventKind::CallingContextLeave { calling_context } => exists|
                r: &mut V,
                a: &[(AttributeRef, AttributeValue)],
            |
                *r == *old(visitor)
                    && *final(r) == *final(visitor)
                    && a@ == event.data.attributes@
                    && #[trigger] call_ensures(
                        V::visit_calling_context_leave_event,
                        (r, event.data.location, event.data.time, a, calling_context),
                        code,
                    ),
            EventKind::CallingContextSample {
                calling_context,
                unwind_distance,
                interrupt_generator,
            } => exists|
                r: &mut V,
                a: &[(AttributeRef, AttributeValue)],
            |
                *r == *old(visitor)
                    && *final(r) == *final(visitor)
                    && a@ == event.data.attributes@
                    && #[trigger] call_ensures(
                        V::visit_calling_context_sample_event,
                        (
                            r,
                            event.data.location,
                            event.data.time,
                            a,
                            calling_context,
                            unwind_distance,
                            interrupt_generator,
                        ),
                        code,
                    ),
            EventKind::IoCreateHandle { handle, mode, creation_flags, status_flags } => exists|
                r: &mut V,
                a: &[(AttributeRef, AttributeValue)],
            |
                *r == *old(visitor)
                    && *final(r) == *final(visitor)
                    && a@ == event.data.attributes@
                    && #[trigger] call_ensures(
                        V::visit_io_create_handle_event,
                        (
                            r,
                            event.data.location,
                            event.data.time,
                            a,
                            handle,
                            mode,
                            creation_flags,
                            status_flags,
                        ),
                        code,
                    ),
            EventKind::IoDestroyHandle { handle } => exists|
                r: &mut V,
                a: &[(AttributeRef, AttributeValue)],
            |
                *r == *old(visitor)
                    && *final(r) == *final(visitor)
                    && a@ == event.data.attributes@
                    && #[trigger] call_ensures(
                        V::visit_io_destroy_handle_event,
                        (r, event.data.location, event.data.time, a, handle),
                        code,
                    ),
            EventKind::IoDuplicateHandle { old_handle, new_handle, status_flags } => exists|
                r: &mut V,
                a: &[(AttributeRef, AttributeValue)],
            |
                *r == *old(visitor)
                    && *final(r) == *final(visitor)
                    && a@ == event.data.attributes@
                    && #[trigger] call_ensures(
                        V::visit_io_duplicate_handle_event,
                        (
                            r,
                            event.data.location,
                            event.data.time,
                            a,
                            old_handle,
                            new_handle,
                            status_flags,
                        ),
                        code,
                    ),
            EventKind::IoSeek { handle, offset_request, whence, offset_result } => exists|
                r: &mut V,
                a: &[(AttributeRef, AttributeValue)],
            |
                *r == *old(visitor)
                    && *final(r) == *final(visitor)
                    && a@ == event.data.attributes@
                    && #[trigger] call_ensures(
                        V::visit_io_seek_event,
                        (
                            r,
                            event.data.location,
                            event.data.time,
                            a,
                            handle,
                            offset_request,
                            whence,
                            offset_result,
                        ),
                        code,
                    ),
            EventKind::IoChangeStatusFlags { handle, status_flags } => exists|
                r: &mut V,
                a: &[(AttributeRef, AttributeValue)],
            |
                *r == *old(visitor)
                    && *final(r) == *final(visitor)
                    && a@ == event.data.attributes@
                    && #[trigger] call_ensures(
                        V::visit_io_change_status_flags_event,
                        (
                            r,
                            event.data.location,
                            event.data.time,
                            a,
                            handle,
                            status_flags,
                        ),
                        code,
                    ),
            EventKind::IoDeleteFile { io_paradigm, file } => exists|
                r: &mut V,
                a: &[(AttributeRef, AttributeValue)],
            |
                *r == *old(visitor)
                    && *final(r) == *final(visitor)
                    && a@ == event.data.attributes@
                    && #[trigger] call_ensures(
                        V::visit_io_delete_file_event,
                        (r, event.data.location, event.data.time, a, io_paradigm, file),
                        code,
                    ),
            EventKind::IoOperationBegin {
                handle,
                mode,
                operation_flags,
                bytes_request,
                matching_id,
            } => exists|
                r: &mut V,
                a: &[(AttributeRef, AttributeValue)],
            |
                *r == *old(visitor)
                    && *final(r) == *final(visitor)
                    && a@ == event.data.attributes@
                    && #[trigger] call_ensures(
                        V::visit_io_operation_begin_event,
                        (
                            r,
                            event.data.location,
                            event.data.time,
                            a,
                            handle,
                            mode,
                            operation_flags,
                            bytes_request,
                            matching_id,
                        ),
                        code,
                    ),
            EventKind::IoOperationTest { handle, matching_id } => exists|
                r: &mut V,
                a: &[(AttributeRef, AttributeValue)],
            |
                *r == *old(visitor)
                    && *final(r) == *final(visitor)
                    && a@ == event.data.attributes@
                    && #[trigger] call_ensures(
                        V::visit_io_operation_test_event,
                        (
                            r,
                            event.data.location,
                            event.data.time,
                            a,
                            handle,
                            matching_id,
                        ),
                        code,
                    ),
            EventKind::IoOperationIssued { handle, matching_id } => exists|
                r: &mut V,
                a: &[(AttributeRef, AttributeValue)],
            |
                *r == *old(visitor)
                    && *final(r) == *final(visitor)
                    && a@ == event.data.attributes@
                    && #[trigger] call_ensures(
                        V::visit_io_operation_issued_event,
                        (
                            r,
                            event.data.location,
                            event.data.time,
                            a,
                            handle,
                            matching_id,
                        ),
                        code,
                    ),
            EventKind::IoOperationComplete { handle, bytes_result, matching_id } => exists|
                r: &mut V,
                a: &[(AttributeRef, AttributeValue)],
            |
                *r == *old(visitor)
                    && *final(r) == *final(visitor)
                    && a@ == event.data.attributes@
                    && #[trigger] call_ensures(
                        V::visit_io_operation_complete_event,
                        (
                            r,
                            event.data.location,
                            event.data.time,
                            a,
                            handle,
                            bytes_result,
                            matching_id,
                        ),
                        code,
                    ),
            EventKind::IoOperationCancelled { handle, matching_id } => exists|
                r: &mut V,
                a: &[(AttributeRef, AttributeValue)],
            |
                *r == *old(visitor)
                    && *final(r) == *final(visitor)
                    && a@ == event.data.attributes@
                    && #[trigger] call_ensures(
                        V::visit_io_operation_cancelled_event,
                        (
                            r,
                            event.data.location,
                            event.data.time,
                            a,
                            handle,
                            matching_id,
                        ),
                        code,
                    ),
            EventKind::IoAcquireLock { handle, lock_type } => exists|
                r: &mut V,
                a: &[(AttributeRef, AttributeValue)],
            |
                *r == *old(visitor)
                    && *final(r) == *final(visitor)
                    && a@ == event.data.attributes@
                    && #[trigger] call_ensures(
                        V::visit_io_acquire_lock_event,
                        (r, event.data.location, event.data.time, a, handle, lock_type),
                        code,
                    ),
            EventKind::IoReleaseLock { handle, lock_type } => exists|
                r: &mut V,
                a: &[(AttributeRef, AttributeValue)],
            |
                *r == *old(visitor)
                    && *final(r) == *final(visitor)
                    && a@ == event.data.attributes@
                    && #[trigger] call_ensures(
                        V::visit_io_release_lock_event,
                        (r, event.data.location, event.data.time, a, handle, lock_type),
                        code,
                    ),
            EventKind::IoTryLock { handle, lock_type } => exists|
                r: &mut V,
                a: &[(AttributeRef, AttributeValue)],
            |
                *r == *old(visitor)
                    && *final(r) == *final(visitor)
                    && a@ == event.data.attributes@
                    && #[trigger] call_ensures(
                        V::visit_io_try_lock_event,
                        (r, event.data.location, event.data.time, a, handle, lock_type),
                        code,
                    ),
            EventKind::ProgramBegin { program_name, program_arguments } => exists|
                r: &mut V,
                a: &[(AttributeRef, AttributeValue)],
                program_arguments_: &[StringRef],
            |
                *r == *old(visitor)
                    && *final(r) == *final(visitor)
                    && a@ == event.data.attributes@
                    && program_arguments_@ == program_arguments@
                    && #[trigger] call_ensures(
                        V::visit_program_begin_event,
                        (
                            r,
                            event.data.location,
                            event.data.time,
                            a,
                            program_name,
                            program_arguments_,
                        ),
                        code,
                    ),
            EventKind::ProgramEnd { exit_status } => exists|
                r: &mut V,
                a: &[(AttributeRef, AttributeValue)],
            |
                *r == *old(visitor)
                    && *final(r) == *final(visitor)
                    && a@ == event.data.attributes@
                    && #[trigger] call_ensures(
                        V::visit_program_end_event,
                        (r, event.data.location, event.data.time, a, exit_status),
                        code,
                    ),
            EventKind::NonBlockingCollectiveRequest { request_id } => exists|
                r: &mut V,
                a: &[(AttributeRef, AttributeValue)],
            |
                *r == *old(visitor)
                    && *final(r) == *final(visitor)
                    && a@ == event.data.attributes@
                    && #[trigger] call_ensures(
                        V::visit_non_blocking_collective_request_event,
                        (r, event.data.location, event.data.time, a, request_id),
                        code,
                    ),
            EventKind::NonBlockingCollectiveComplete {
                collective_op,
                communicator,
                root,
                size_sent,
                size_received,
                request_id,
            } => exists|
                r: &mut V,
                a: &[(AttributeRef, AttributeValue)],
            |
                *r == *old(visitor)
                    && *final(r) == *final(visitor)
                    && a@ == event.data.attributes@
                    && #[trigger] call_ensures(
                        V::visit_non_blocking_collective_complete_event,
                        (
                            r,
                            event.data.location,
                            event.data.time,
                            a,
                            collective_op,
                            communicator,
                            root,
                            size_sent,
                            size_received,
                            request_id,
                        ),
                        code,
                    ),
            EventKind::CommCreate { communicator } => exists|
                r: &mut V,
                a: &[(AttributeRef, AttributeValue)],
            |
                *r == *old(visitor)
                    && *final(r) == *final(visitor)
                    && a@ == event.data.attributes@
                    && #[trigger] call_ensures(
                        V::visit_comm_create_event,
                        (r, event.data.location, event.data.time, a, communicator),
                        code,
                    ),
            EventKind::CommDestroy { communicator } => exists|
                r: &mut V,
                a: &[(AttributeRef, AttributeValue)],
            |
                *r == *old(visitor)
                    && *final(r) == *final(visitor)
                    && a@ == event.data.attributes@
                    && #[trigger] call_ensures(
                        V::visit_comm_destroy_event,
                        (r, event.data.location, event.data.time, a, communicator),
                        code,
                    ),
        },
        !V::handles(event.kind.spec_event_type()) ==> code == CallbackCode::Success
            && *final(visitor) == *old(visitor),
{
    let location = event.data.location;
    let time = event.data.time;
    let attributes = event.data.attributes.as_slice();
    match &event.kind {
        EventKind::Unknown => visitor.visit_unknown_event(location, time, attributes),
        EventKind::BufferFlush { stop_time } => {
            visitor.visit_buffer_flush_event(location, time, attributes, *stop_time)
        },
        EventKind::MeasurementOnOff { measurement_mode } => visitor.visit_measurement_on_off_event(
            location,
            time,
            attributes,
            *measurement_mode,
        ),
        EventKind::Enter { region } => {
            visitor.visit_enter_event(location, time, attributes, *region)
        },
        EventKind::Leave { region } => {
            visitor.visit_leave_event(location, time, attributes, *region)
        },
        EventKind::MpiSend { receiver, communicator, msg_tag, msg_length } => {
            visitor.visit_mpi_send_event(
                location,
                time,
                attributes,
                *receiver,
                *communicator,
                *msg_tag,
                *msg_length,
            )
        },
        EventKind::MpiIsend { receiver, communicator, msg_tag, msg_length, request_id } => {
            visitor.visit_mpi_isend_event(
                location,
                time,
                attributes,
                *receiver,
                *communicator,
                *msg_tag,
                *msg_length,
                *request_id,
            )
        },
        EventKind::MpiIsendComplete { request_id } => {
            visitor.visit_mpi_isend_complete_event(
                location,
                time,
                attributes,
                *request_id,
            )
        },
        EventKind::MpiIrecvRequest { request_id } => {
            visitor.visit_mpi_irecv_request_event(
                location,
                time,
                attributes,
                *request_id,
            )
        },
        EventKind::MpiRecv { sender, communicator, msg_tag, msg_length } => {
            visitor.visit_mpi_recv_event(
                location,
                time,
                attributes,
                *sender,
                *communicator,
                *msg_tag,
                *msg_length,
            )
        },
        EventKind::MpiIrecv { sender, communicator, msg_tag, msg_length, request_id } => {
            visitor.visit_mpi_irecv_event(
                location,
                time,
                attributes,
                *sender,
                *communicator,
                *msg_tag,
                *msg_length,
                *request_id,
            )
        },
        EventKind::MpiRequestTest { request_id } => {
            visitor.visit_mpi_request_test_event(
                location,
                time,
                attributes,
                *request_id,
            )
        },
        EventKind::MpiRequestCancelled { request_id } => visitor.visit_mpi_request_cancelled_event(
            location,
            time,
            attributes,
            *request_id,
        ),
        EventKind::MpiCollectiveBegin => {
            visitor.visit_mpi_collective_begin_event(location, time, attributes)
        },
        EventKind::MpiCollectiveEnd {
            collective_op,
            communicator,
            root,
            size_sent,
            size_received,
        } => visitor.visit_mpi_collective_end_event(
            location,
            time,
            attributes,
            *collective_op,
            *communicator,
            *root,
            *size_sent,
            *size_received,
        ),
        EventKind::OmpFork { number_of_requested_threads } => visitor.visit_omp_fork_event(
            location,
            time,
            attributes,
            *number_of_requested_threads,
        ),
        EventKind::OmpJoin => visitor.visit_omp_join_event(location, time, attributes),
        EventKind::OmpAcquireLock { lock_id, acquisition_order } => {
            visitor.visit_omp_acquire_lock_event(
                location,
                time,
                attributes,
                *lock_id,
                *acquisition_order,
            )
        },
        EventKind::OmpReleaseLock { lock_id, acquisition_order } => {
            visitor.visit_omp_release_lock_event(
                location,
                time,
                attributes,
                *lock_id,
                *acquisition_order,
            )
        },
        EventKind::OmpTaskCreate { task_id } => {
            visitor.visit_omp_task_create_event(location, time, attributes, *task_id)
        },
        EventKind::OmpTaskSwitch { task_id } => {
            visitor.visit_omp_task_switch_event(location, time, attributes, *task_id)
        },
        EventKind::OmpTaskComplete { task_id } => {
            visitor.visit_omp_task_complete_event(location, time, attributes, *task_id)
        },
        EventKind::Metric { metric, type_ids, metric_values } => visitor.visit_metric_event(
            location,
            time,
            attributes,
            *metric,
            type_ids.as_slice(),
            metric_values.as_slice(),
        ),
        EventKind::ParameterString { parameter, string } => visitor.visit_parameter_string_event(
            location,
            time,
            attributes,
            *parameter,
            *string,
        ),
        EventKind::ParameterInt { parameter, value } => visitor.visit_parameter_int_event(
            location,
            time,
            attributes,
            *parameter,
            *value,
        ),
        EventKind::ParameterUnsignedInt { parameter, value } => {
            visitor.visit_parameter_unsigned_int_event(
                location,
                time,
                attributes,
                *parameter,
                *value,
            )
        },
        EventKind::RmaWinCreate { win } => {
            visitor.visit_rma_win_create_event(location, time, attributes, *win)
        },
        EventKind::RmaWinDestroy { win } => {
            visitor.visit_rma_win_destroy_event(location, time, attributes, *win)
        },
        EventKind::RmaCollectiveBegin => {
            visitor.visit_rma_collective_begin_event(location, time, attributes)
        },
        EventKind::RmaCollectiveEnd {
            collective_op,
            sync_level,
            win,
            root,
            bytes_sent,
            bytes_received,
        } => visitor.visit_rma_collective_end_event(
            location,
            time,
            attributes,
            *collective_op,
            *sync_level,
            *win,
            *root,
            *bytes_sent,
            *bytes_received,
        ),
        EventKind::RmaGroupSync { sync_level, win, group } => visitor.visit_rma_group_sync_event(
            location,
            time,
            attributes,
            *sync_level,
            *win,
            *group,
        ),
        EventKind::RmaRequestLock { win, remote, lock_id, lock_type } => {
            visitor.visit_rma_request_lock_event(
                location,
                time,
                attributes,
                *win,
                *remote,
                *lock_id,
                *lock_type,
            )
        },
        EventKind::RmaAcquireLock { win, remote, lock_id, lock_type } => {
            visitor.visit_rma_acquire_lock_event(
                location,
                time,
                attributes,
                *win,
                *remote,
                *lock_id,
                *lock_type,
            )
        },
        EventKind::RmaTryLock { win, remote, lock_id, lock_type } => {
            visitor.visit_rma_try_lock_event(
                location,
                time,
                attributes,
                *win,
                *remote,
                *lock_id,
                *lock_type,
            )
        },
        EventKind::RmaReleaseLock { win, remote, lock_id } => visitor.visit_rma_release_lock_event(
            location,
            time,
            attributes,
            *win,
            *remote,
            *lock_id,
        ),
        EventKind::RmaSync { win, remote, sync_type } => visitor.visit_rma_sync_event(
            location,
            time,
            attributes,
            *win,
            *remote,
            *sync_type,
        ),
        EventKind::RmaWaitChange { win } => {
            visitor.visit_rma_wait_change_event(location, time, attributes, *win)
        },
        EventKind::RmaPut { win, remote, bytes, matching_id } => visitor.visit_rma_put_event(
            location,
            time,
            attributes,
            *win,
            *remote,
            *bytes,
            *matching_id,
        ),
        EventKind::RmaGet { win, remote, bytes, matching_id } => visitor.visit_rma_get_event(
            location,
            time,
            attributes,
            *win,
            *remote,
            *bytes,
            *matching_id,
        ),
        EventKind::RmaAtomic {
            win,
            remote,
            type_,
            bytes_sent,
            bytes_received,
            matching_id,
        } => visitor.visit_rma_atomic_event(
            location,
            time,
            attributes,
            *win,
            *remote,
            *type_,
            *bytes_sent,
            *bytes_received,
            *matching_id,
        ),
        EventKind::RmaOpCompleteBlocking { win, matching_id } => {
            visitor.visit_rma_op_complete_blocking_event(
                location,
                time,
                attributes,
                *win,
                *matching_id,
            )
        },
        EventKind::RmaOpCompleteNonBlocking { win, matching_id } => {
            visitor.visit_rma_op_complete_non_blocking_event(
                location,
                time,
                attributes,
                *win,
                *matching_id,
            )
        },
        EventKind::RmaOpTest { win, matching_id } => {
            visitor.visit_rma_op_test_event(
                location,
                time,
                attributes,
                *win,
                *matching_id,
            )
        },
        EventKind::RmaOpCompleteRemote { win, matching_id } => {
            visitor.visit_rma_op_complete_remote_event(
                location,
                time,
                attributes,
                *win,
                *matching_id,
            )
        },
        EventKind::ThreadFork { model, number_of_requested_threads } => {
            visitor.visit_thread_fork_event(
                location,
                time,
                attributes,
                *model,
                *number_of_requested_threads,
            )
        },
        EventKind::ThreadJoin { model } => {
            visitor.visit_thread_join_event(location, time, attributes, *model)
        },
        EventKind::ThreadTeamBegin { thread_team } => {
            visitor.visit_thread_team_begin_event(
                location,
                time,
                attributes,
                *thread_team,
            )
        },
        EventKind::ThreadTeamEnd { thread_team } => {
            visitor.visit_thread_team_end_event(
                location,
                time,
                attributes,
                *thread_team,
            )
        },
        EventKind::ThreadAcquireLock { model, lock_id, acquisition_order } => {
            visitor.visit_thread_acquire_lock_event(
                location,
                time,
                attributes,
                *model,
                *lock_id,
                *acquisition_order,
            )
        },
        EventKind::ThreadReleaseLock { model, lock_id, acquisition_order } => {
            visitor.visit_thread_release_lock_event(
                location,
                time,
                attributes,
                *model,
                *lock_id,
                *acquisition_order,
            )
        },
        EventKind::ThreadTaskCreate { thread_team, creating_thread, generation_number } => {
            visitor.visit_thread_task_create_event(
                location,
                time,
                attributes,
                *thread_team,
                *creating_thread,
                *generation_number,
            )
        },
        EventKind::ThreadTaskSwitch { thread_team, creating_thread, generation_number } => {
            visitor.visit_thread_task_switch_event(
                location,
                time,
                attributes,
                *thread_team,
                *creating_thread,
                *generation_number,
            )
        },
        EventKind::ThreadTaskComplete {
            thread_team,
            creating_thread,
            generation_number,
        } => visitor.visit_thread_task_complete_event(
            location,
            time,
            attributes,
            *thread_team,
            *creating_thread,
            *generation_number,
        ),
        EventKind::ThreadCreate { thread_contingent, sequence_count } => {
            visitor.visit_thread_create_event(
                location,
                time,
                attributes,
                *thread_contingent,
                *sequence_count,
            )
        },
        EventKind::ThreadBegin { thread_contingent, sequence_count } => {
            visitor.visit_thread_begin_event(
                location,
                time,
                attributes,
                *thread_contingent,
                *sequence_count,
            )
        },
        EventKind::ThreadWait { thread_contingent, sequence_count } => {
            visitor.visit_thread_wait_event(
                location,
                time,
                attributes,
                *thread_contingent,
                *sequence_count,
            )
        },
        EventKind::ThreadEnd { thread_contingent, sequence_count } => {
            visitor.visit_thread_end_event(
                location,
                time,
                attributes,
                *thread_contingent,
                *sequence_count,
            )
        },
        EventKind::CallingContextEnter { calling_context, unwind_distance } => {
            visitor.visit_calling_context_enter_event(
                location,
                time,
                attributes,
                *calling_context,
                *unwind_distance,
            )
        },
        EventKind::CallingContextLeave { calling_context } => {
            visitor.visit_calling_context_leave_event(
                location,
                time,
                attributes,
                *calling_context,
            )
        },
        EventKind::CallingContextSample {
            calling_context,
            unwind_distance,
            interrupt_generator,
        } => visitor.visit_calling_context_sample_event(
            location,
            time,
            attributes,
            *calling_context,
            *unwind_distance,
            *interrupt_generator,
        ),
        EventKind::IoCreateHandle { handle, mode, creation_flags, status_flags } => {
            visitor.visit_io_create_handle_event(
                location,
                time,
                attributes,
                *handle,
                *mode,
                *creation_flags,
                *status_flags,
            )
        },
        EventKind::IoDestroyHandle { handle } => {
            visitor.visit_io_destroy_handle_event(location, time, attributes, *handle)
        },
        EventKind::IoDuplicateHandle { old_handle, new_handle, status_flags } => {
            visitor.visit_io_duplicate_handle_event(
                location,
                time,
                attributes,
                *old_handle,
                *new_handle,
                *status_flags,
            )
        },
        EventKind::IoSeek { handle, offset_request, whence, offset_result } => {
            visitor.visit_io_seek_event(
                location,
                time,
                attributes,
                *handle,
                *offset_request,
                *whence,
                *offset_result,
            )
        },
        EventKind::IoChangeStatusFlags { handle, status_flags } => {
            visitor.visit_io_change_status_flags_event(
                location,
                time,
                attributes,
                *handle,
                *status_flags,
            )
        },
        EventKind::IoDeleteFile { io_paradigm, file } => visitor.visit_io_delete_file_event(
            location,
            time,
            attributes,
            *io_paradigm,
            *file,
        ),
        EventKind::IoOperationBegin {
            handle,
            mode,
            operation_flags,
            bytes_request,
            matching_id,
        } => visitor.visit_io_operation_begin_event(
            location,
            time,
            attributes,
            *handle,
            *mode,
            *operation_flags,
            *bytes_request,
            *matching_id,
        ),
        EventKind::IoOperationTest { handle, matching_id } => visitor.visit_io_operation_test_event(
            location,
            time,
            attributes,
            *handle,
            *matching_id,
        ),
        EventKind::IoOperationIssued { handle, matching_id } => {
            visitor.visit_io_operation_issued_event(
                location,
                time,
                attributes,
                *handle,
                *matching_id,
            )
        },
        EventKind::IoOperationComplete { handle, bytes_result, matching_id } => {
            visitor.visit_io_operation_complete_event(
                location,
                time,
                attributes,
                *handle,
                *bytes_result,
                *matching_id,
            )
        },
        EventKind::IoOperationCancelled { handle, matching_id } => {
            visitor.visit_io_operation_cancelled_event(
                location,
                time,
                attributes,
                *handle,
                *matching_id,
            )
        },
        EventKind::IoAcquireLock { handle, lock_type } => visitor.visit_io_acquire_lock_event(
            location,
            time,
            attributes,
            *handle,
            *lock_type,
        ),
        EventKind::IoReleaseLock { handle, lock_type } => visitor.visit_io_release_lock_event(
            location,
            time,
            attributes,
            *handle,
            *lock_type,
        ),
        EventKind::IoTryLock { handle, lock_type } => {
            visitor.visit_io_try_lock_event(
                location,
                time,
                attributes,
                *handle,
                *lock_type,
            )
        },
        EventKind::ProgramBegin { program_name, program_arguments } => {
            visitor.visit_program_begin_event(
                location,
                time,
                attributes,
                *program_name,
                program_arguments.as_slice(),
            )
        },
        EventKind::ProgramEnd { exit_status } => {
            visitor.visit_program_end_event(location, time, attributes, *exit_status)
        },
        EventKind::NonBlockingCollectiveRequest { request_id } => {
            visitor.visit_non_blocking_collective_request_event(
                location,
                time,
                attributes,
                *request_id,
            )
        },
        EventKind::NonBlockingCollectiveComplete {
            collective_op,
            communicator,
            root,
            size_sent,
            size_received,
            request_id,
        } => visitor.visit_non_blocking_collective_complete_event(
            location,
            time,
            attributes,
            *collective_op,
            *communicator,
            *root,
            *size_sent,
            *size_received,
            *request_id,
        ),
        EventKind::CommCreate { communicator } => {
            visitor.visit_comm_create_event(location, time, attributes, *communicator)
        },
        EventKind::CommDestroy { communicator } => {
            visitor.visit_comm_destroy_event(location, time, attributes, *communicator)
        },
    }
}

/// A row of event consumers that acts as one. Each of its methods hands
/// the event to the method of the same kind of each consumer in the order of
/// registration, and ends the round with the first answer that is not
/// `Success`: the consumers after that one are not visited.
pub type EventVisitorMultiplexer<V> = Multiplexer<V>;

impl<V: EventVisitor> EventVisitor for Multiplexer<V> {
    fn visit_unknown_event(
        &mut self,
        location_id: LocationRef,
        time: TimeStamp,
        attributes: &[(AttributeRef, AttributeValue)],
    ) -> (code: CallbackCode)
        ensures
            exists|stop: int|
                {
                    &&& #[trigger] ends_at(old(self)@, final(self)@, code, stop)
                    &&& forall|j: int| #[trigger]
                        before_stop(j, stop) ==> exists|r: &mut V|
                            *r == old(self)@[j] && *final(r) == final(self)@[j]
                                && #[trigger] call_ensures(
                                    V::visit_unknown_event,
                                    (r, location_id, time, attributes),
                                    CallbackCode::Success,
                                )
                    &&& stop < old(self)@.len() ==> exists|r: &mut V|
                        *r == old(self)@[stop] && *final(r) == final(self)@[stop]
                            && #[trigger] call_ensures(
                                V::visit_unknown_event,
                                (r, location_id, time, attributes),
                                code,
                            )
                },
    {
        let call = |visitor: &mut V| -> (code: CallbackCode)
            ensures
                exists|r: &mut V|
                    *r == *old(visitor) && *final(r) == *final(visitor)
                        && #[trigger] call_ensures(
                            V::visit_unknown_event,
                            (r, location_id, time, attributes),
                            code,
                        ),
            {
                visitor.visit_unknown_event(location_id, time, attributes)
            };
        self.fan(call)
    }

    fn visit_buffer_flush_event(
        &mut self,
        location_id: LocationRef,
        time: TimeStamp,
        attributes: &[(AttributeRef, AttributeValue)],
        stop_time: TimeStamp,
    ) -> (code: CallbackCode)
        ensures
            exists|stop: int|
                {
                    &&& #[trigger] ends_at(old(self)@, final(self)@, code, stop)
                    &&& forall|j: int| #[trigger]
                        before_stop(j, stop) ==> exists|r: &mut V|
                            *r == old(self)@[j] && *final(r) == final(self)@[j]
                                && #[trigger] call_ensures(
                                    V::visit_buffer_flush_event,
                                    (r, location_id, time, attributes, stop_time),
                                    CallbackCode::Success,
                                )
                    &&& stop < old(self)@.len() ==> exists|r: &mut V|
                        *r == old(self)@[stop] && *final(r) == final(self)@[stop]
                            && #[trigger] call_ensures(
                                V::visit_buffer_flush_event,
                                (r, location_id, time, attributes, stop_time),
                                code,
                            )
                },
    {
        let call = |visitor: &mut V| -> (code: CallbackCode)
            ensures
                exists|r: &mut V|
                    *r == *old(visitor) && *final(r) == *final(visitor)
                        && #[trigger] call_ensures(
                            V::visit_buffer_flush_event,
                            (r, location_id, time, attributes, stop_time),
                            code,
                        ),
            {
                visitor.visit_buffer_flush_event(
                    location_id,
                    time,
                    attributes,
                    stop_time,
                )
            };
        self.fan(call)
    }

    fn visit_measurement_on_off_event(
        &mut self,
        location_id: LocationRef,
        time: TimeStamp,
        attributes: &[(AttributeRef, AttributeValue)],
        measurement_mode: MeasurementMode,
    ) -> (code: CallbackCode)
        ensures
            exists|stop: int|
                {
                    &&& #[trigger] ends_at(old(self)@, final(self)@, code, stop)
                    &&& forall|j: int| #[trigger]
                        before_stop(j, stop) ==> exists|r: &mut V|
                            *r == old(self)@[j] && *final(r) == final(self)@[j]
                                && #[trigger] call_ensures(
                                    V::visit_measurement_on_off_event,
                                    (r, location_id, time, attributes, measurement_mode),
                                    CallbackCode::Success,
                                )
                    &&& stop < old(self)@.len() ==> exists|r: &mut V|
                        *r == old(self)@[stop] && *final(r) == final(self)@[stop]
                            && #[trigger] call_ensures(
                                V::visit_measurement_on_off_event,
                                (r, location_id, time, attributes, measurement_mode),
                                code,
                            )
                },
    {
        let call = |visitor: &mut V| -> (code: CallbackCode)
            ensures
                exists|r: &mut V|
                    *r == *old(visitor) && *final(r) == *final(visitor)
                        && #[trigger] call_ensures(
                            V::visit_measurement_on_off_event,
                            (r, location_id, time, attributes, measurement_mode),
                            code,
                        ),
            {
                visitor.visit_measurement_on_off_event(
                    location_id,
                    time,
                    attributes,
                    measurement_mode,
                )
            };
        self.fan(call)
    }

    fn visit_enter_event(
        &mut self,
        location_id: LocationRef,
        time: TimeStamp,
        attributes: &[(AttributeRef, AttributeValue)],
        region: RegionRef,
    ) -> (code: CallbackCode)
        ensures
            exists|stop: int|
                {
                    &&& #[trigger] ends_at(old(self)@, final(self)@, code, stop)
                    &&& forall|j: int| #[trigger]
                        before_stop(j, stop) ==> exists|r: &mut V|
                            *r == old(self)@[j] && *final(r) == final(self)@[j]
                                && #[trigger] call_ensures(
                                    V::visit_enter_event,
                                    (r, location_id, time, attributes, region),
                                    CallbackCode::Success,
                                )
                    &&& stop < old(self)@.len() ==> exists|r: &mut V|
                        *r == old(self)@[stop] && *final(r) == final(self)@[stop]
                            && #[trigger] call_ensures(
                                V::visit_enter_event,
                                (r, location_id, time, attributes, region),
                                code,
                            )
                },
    {
        let call = |visitor: &mut V| -> (code: CallbackCode)
            ensures
                exists|r: &mut V|
                    *r == *old(visitor) && *final(r) == *final(visitor)
                        && #[trigger] call_ensures(
                            V::visit_enter_event,
                            (r, location_id, time, attributes, region),
                            code,
                        ),
            {
                visitor.visit_enter_event(location_id, time, attributes, region)
            };
        self.fan(call)
    }

    fn visit_leave_event(
        &mut self,
        location_id: LocationRef,
        time: TimeStamp,
        attributes: &[(AttributeRef, AttributeValue)],
        region: RegionRef,
    ) -> (code: CallbackCode)
        ensures
            exists|stop: int|
                {
                    &&& #[trigger] ends_at(old(self)@, final(self)@, code, stop)
                    &&& forall|j: int| #[trigger]
                        before_stop(j, stop) ==> exists|r: &mut V|
                            *r == old(self)@[j] && *final(r) == final(self)@[j]
                                && #[trigger] call_ensures(
                                    V::visit_leave_event,
                                    (r, location_id, time, attributes, region),
                                    CallbackCode::Success,
                                )
                    &&& stop < old(self)@.len() ==> exists|r: &mut V|
                        *r == old(self)@[stop] && *final(r) == final(self)@[stop]
                            && #[trigger] call_ensures(
                                V::visit_leave_event,
                                (r, location_id, time, attributes, region),
                                code,
                            )
                },
    {
        let call = |visitor: &mut V| -> (code: CallbackCode)
            ensures
                exists|r: &mut V|
                    *r == *old(visitor) && *final(r) == *final(visitor)
                        && #[trigger] call_ensures(
                            V::visit_leave_event,
                            (r, location_id, time, attributes, region),
                            code,
                        ),
            {
                visitor.visit_leave_event(location_id, time, attributes, region)
            };
        self.fan(call)
    }

    fn visit_mpi_send_event(
        &mut self,
        location_id: LocationRef,
        time: TimeStamp,
        attributes: &[(AttributeRef, AttributeValue)],
        receiver: u32,
        communicator: CommRef,
        msg_tag: u32,
        msg_length: u64,
    ) -> (code: CallbackCode)
        ensures
            exists|stop: int|
                {
                    &&& #[trigger] ends_at(old(self)@, final(self)@, code, stop)
                    &&& forall|j: int| #[trigger]
                        before_stop(j, stop) ==> exists|r: &mut V|
                            *r == old(self)@[j] && *final(r) == final(self)@[j]
                                && #[trigger] call_ensures(
                                    V::visit_mpi_send_event,
                                    (
                                        r,
                                        location_id,
                                        time,
                                        attributes,
                                        receiver,
                                        communicator,
                                        msg_tag,
                                        msg_length,
                                    ),
                                    CallbackCode::Success,
                                )
                    &&& stop < old(self)@.len() ==> exists|r: &mut V|
                        *r == old(self)@[stop] && *final(r) == final(self)@[stop]
                            && #[trigger] call_ensures(
                                V::visit_mpi_send_event,
                                (
                                    r,
                                    location_id,
                                    time,
                                    attributes,
                                    receiver,
                                    communicator,
                                    msg_tag,
                                    msg_length,
                                ),
                                code,
                            )
                },
    {
        let call = |visitor: &mut V| -> (code: CallbackCode)
            ensures
                exists|r: &mut V|
                    *r == *old(visitor) && *final(r) == *final(visitor)
                        && #[trigger] call_ensures(
                            V::visit_mpi_send_event,
                            (
                                r,
                                location_id,
                                time,
                                attributes,
                                receiver,
                                communicator,
                                msg_tag,
                                msg_length,
                            ),
                            code,
                        ),
            {
                visitor.visit_mpi_send_event(
                    location_id,
                    time,
                    attributes,
                    receiver,
                    communicator,
                    msg_tag,
                    msg_length,
                )
            };
        self.fan(call)
    }

    fn visit_mpi_isend_event(
        &mut self,
        location_id: LocationRef,
        time: TimeStamp,
        attributes: &[(AttributeRef, AttributeValue)],
        receiver: u32,
        communicator: CommRef,
        msg_tag: u32,
        msg_length: u64,
        request_id: u64,
    ) -> (code: CallbackCode)
        ensures
            exists|stop: int|
                {
                    &&& #[trigger] ends_at(old(self)@, final(self)@, code, stop)
                    &&& forall|j: int| #[trigger]
                        before_stop(j, stop) ==> exists|r: &mut V|
                            *r == old(self)@[j] && *final(r) == final(self)@[j]
                                && #[trigger] call_ensures(
                                    V::visit_mpi_isend_event,
                                    (
                                        r,
                                        location_id,
                                        time,
                                        attributes,
                                        receiver,
                                        communicator,
                                        msg_tag,
                                        msg_length,
                                        request_id,
                                    ),
                                    CallbackCode::Success,
                                )
                    &&& stop < old(self)@.len() ==> exists|r: &mut V|
                        *r == old(self)@[stop] && *final(r) == final(self)@[stop]
                            && #[trigger] call_ensures(
                                V::visit_mpi_isend_event,
                                (
                                    r,
                                    location_id,
                                    time,
                                    attributes,
                                    receiver,
                                    communicator,
                                    msg_tag,
                                    msg_length,
                                    request_id,
                                ),
                                code,
                            )
                },
    {
        let call = |visitor: &mut V| -> (code: CallbackCode)
            ensures
                exists|r: &mut V|
                    *r == *old(visitor) && *final(r) == *final(visitor)
                        && #[trigger] call_ensures(
                            V::visit_mpi_isend_event,
                            (
                                r,
                                location_id,
                                time,
                                attributes,
                                receiver,
                                communicator,
                                msg_tag,
                                msg_length,
                                request_id,
                            ),
                            code,
                        ),
            {
                visitor.visit_mpi_isend_event(
                    location_id,
                    time,
                    attributes,
                    receiver,
                    communicator,
                    msg_tag,
                    msg_length,
                    request_id,
                )
            };
        self.fan(call)
    }

    fn visit_mpi_isend_complete_event(
        &mut self,
        location_id: LocationRef,
        time: TimeStamp,
        attributes: &[(AttributeRef, AttributeValue)],
        request_id: u64,
    ) -> (code: CallbackCode)
        ensures
            exists|stop: int|
                {
                    &&& #[trigger] ends_at(old(self)@, final(self)@, code, stop)
                    &&& forall|j: int| #[trigger]
                        before_stop(j, stop) ==> exists|r: &mut V|
                            *r == old(self)@[j] && *final(r) == final(self)@[j]
                                && #[trigger] call_ensures(
                                    V::visit_mpi_isend_complete_event,
                                    (r, location_id, time, attributes, request_id),
                                    CallbackCode::Success,
                                )
                    &&& stop < old(self)@.len() ==> exists|r: &mut V|
                        *r == old(self)@[stop] && *final(r) == final(self)@[stop]
                            && #[trigger] call_ensures(
                                V::visit_mpi_isend_complete_event,
                                (r, location_id, time, attributes, request_id),
                                code,
                            )
                },
    {
        let call = |visitor: &mut V| -> (code: CallbackCode)
            ensures
                exists|r: &mut V|
                    *r == *old(visitor) && *final(r) == *final(visitor)
                        && #[trigger] call_ensures(
                            V::visit_mpi_isend_complete_event,
                            (r, location_id, time, attributes, request_id),
                            code,
                        ),
            {
                visitor.visit_mpi_isend_complete_event(
                    location_id,
                    time,
                    attributes,
                    request_id,
                )
            };
        self.fan(call)
    }

    fn visit_mpi_irecv_request_event(
        &mut self,
        location_id: LocationRef,
        time: TimeStamp,
        attributes: &[(AttributeRef, AttributeValue)],
        request_id: u64,
    ) -> (code: CallbackCode)
        ensures
            exists|stop: int|
                {
                    &&& #[trigger] ends_at(old(self)@, final(self)@, code, stop)
                    &&& forall|j: int| #[trigger]
                        before_stop(j, stop) ==> exists|r: &mut V|
                            *r == old(self)@[j] && *final(r) == final(self)@[j]
                                && #[trigger] call_ensures(
                                    V::visit_mpi_irecv_request_event,
                                    (r, location_id, time, attributes, request_id),
                                    CallbackCode::Success,
                                )
                    &&& stop < old(self)@.len() ==> exists|r: &mut V|
                        *r == old(self)@[stop] && *final(r) == final(self)@[stop]
                            && #[trigger] call_ensures(
                                V::visit_mpi_irecv_request_event,
                                (r, location_id, time, attributes, request_id),
                                code,
                            )
                },
    {
        let call = |visitor: &mut V| -> (code: CallbackCode)
            ensures
                exists|r: &mut V|
                    *r == *old(visitor) && *final(r) == *final(visitor)
                        && #[trigger] call_ensures(
                            V::visit_mpi_irecv_request_event,
                            (r, location_id, time, attributes, request_id),
                            code,
                        ),
            {
                visitor.visit_mpi_irecv_request_event(
                    location_id,
                    time,
                    attributes,
                    request_id,
                )
            };
        self.fan(call)
    }

    fn visit_mpi_recv_event(
        &mut self,
        location_id: LocationRef,
        time: TimeStamp,
        attributes: &[(AttributeRef, AttributeValue)],
        sender: u32,
        communicator: CommRef,
        msg_tag: u32,
        msg_length: u64,
    ) -> (code: CallbackCode)
        ensures
            exists|stop: int|
                {
                    &&& #[trigger] ends_at(old(self)@, final(self)@, code, stop)
                    &&& forall|j: int| #[trigger]
                        before_stop(j, stop) ==> exists|r: &mut V|
                            *r == old(self)@[j] && *final(r) == final(self)@[j]
                                && #[trigger] call_ensures(
                                    V::visit_mpi_recv_event,
                                    (
                                        r,
                                        location_id,
                                        time,
                                        attributes,
                                        sender,
                                        communicator,
                                        msg_tag,
                                        msg_length,
                                    ),
                                    CallbackCode::Success,
                                )
                    &&& stop < old(self)@.len() ==> exists|r: &mut V|
                        *r == old(self)@[stop] && *final(r) == final(self)@[stop]
                            && #[trigger] call_ensures(
                                V::visit_mpi_recv_event,
                                (
                                    r,
                                    location_id,
                                    time,
                                    attributes,
                                    sender,
                                    communicator,
                                    msg_tag,
                                    msg_length,
                                ),
                                code,
                            )
                },
    {
        let call = |visitor: &mut V| -> (code: CallbackCode)
            ensures
                exists|r: &mut V|
                    *r == *old(visitor) && *final(r) == *final(visitor)
                        && #[trigger] call_ensures(
                            V::visit_mpi_recv_event,
                            (
                                r,
                                location_id,
                                time,
                                attributes,
                                sender,
                                communicator,
                                msg_tag,
                                msg_length,
                            ),
                            code,
                        ),
            {
                visitor.visit_mpi_recv_event(
                    location_id,
                    time,
                    attributes,
                    sender,
                    communicator,
                    msg_tag,
                    msg_length,
                )
            };
        self.fan(call)
    }

    fn visit_mpi_irecv_event(
        &mut self,
        location_id: LocationRef,
        time: TimeStamp,
        attributes: &[(AttributeRef, AttributeValue)],
        sender: u32,
        communicator: CommRef,
        msg_tag: u32,
        msg_length: u64,
        request_id: u64,
    ) -> (code: CallbackCode)
        ensures
            exists|stop: int|
                {
                    &&& #[trigger] ends_at(old(self)@, final(self)@, code, stop)
                    &&& forall|j: int| #[trigger]
                        before_stop(j, stop) ==> exists|r: &mut V|
                            *r == old(self)@[j] && *final(r) == final(self)@[j]
                                && #[trigger] call_ensures(
                                    V::visit_mpi_irecv_event,
                                    (
                                        r,
                                        location_id,
                                        time,
                                        attributes,
                                        sender,
                                        communicator,
                                        msg_tag,
                                        msg_length,
                                        request_id,
                                    ),
                                    CallbackCode::Success,
                                )
                    &&& stop < old(self)@.len() ==> exists|r: &mut V|
                        *r == old(self)@[stop] && *final(r) == final(self)@[stop]
                            && #[trigger] call_ensures(
                                V::visit_mpi_irecv_event,
                                (
                                    r,
                                    location_id,
                                    time,
                                    attributes,
                                    sender,
                                    communicator,
                                    msg_tag,
                                    msg_length,
                                    request_id,
                                ),
                                code,
                            )
                },
    {
        let call = |visitor: &mut V| -> (code: CallbackCode)
            ensures
                exists|r: &mut V|
                    *r == *old(visitor) && *final(r) == *final(visitor)
                        && #[trigger] call_ensures(
                            V::visit_mpi_irecv_event,
                            (
                                r,
                                location_id,
                                time,
                                attributes,
                                sender,
                                communicator,
                                msg_tag,
                                msg_length,
                                request_id,
                            ),
                            code,
                        ),
            {
                visitor.visit_mpi_irecv_event(
                    location_id,
                    time,
                    attributes,
                    sender,
                    communicator,
                    msg_tag,
                    msg_length,
                    request_id,
                )
            };
        self.fan(call)
    }

    fn visit_mpi_request_test_event(
        &mut self,
        location_id: LocationRef,
        time: TimeStamp,
        attributes: &[(AttributeRef, AttributeValue)],
        request_id: u64,
    ) -> (code: CallbackCode)
        ensures
            exists|stop: int|
                {
                    &&& #[trigger] ends_at(old(self)@, final(self)@, code, stop)
                    &&& forall|j: int| #[trigger]
                        before_stop(j, stop) ==> exists|r: &mut V|
                            *r == old(self)@[j] && *final(r) == final(self)@[j]
                                && #[trigger] call_ensures(
                                    V::visit_mpi_request_test_event,
                                    (r, location_id, time, attributes, request_id),
                                    CallbackCode::Success,
                                )
                    &&& stop < old(self)@.len() ==> exists|r: &mut V|
                        *r == old(self)@[stop] && *final(r) == final(self)@[stop]
                            && #[trigger] call_ensures(
                                V::visit_mpi_request_test_event,
                                (r, location_id, time, attributes, request_id),
                                code,
                            )
                },
    {
        let call = |visitor: &mut V| -> (code: CallbackCode)
            ensures
                exists|r: &mut V|
                    *r == *old(visitor) && *final(r) == *final(visitor)
                        && #[trigger] call_ensures(
                            V::visit_mpi_request_test_event,
                            (r, location_id, time, attributes, request_id),
                            code,
                        ),
            {
                visitor.visit_mpi_request_test_event(
                    location_id,
                    time,
                    attributes,
                    request_id,
                )
            };
        self.fan(call)
    }

    fn visit_mpi_request_cancelled_event(
        &mut self,
        location_id: LocationRef,
        time: TimeStamp,
        attributes: &[(AttributeRef, AttributeValue)],
        request_id: u64,
    ) -> (code: CallbackCode)
        ensures
            exists|stop: int|
                {
                    &&& #[trigger] ends_at(old(self)@, final(self)@, code, stop)
                    &&& forall|j: int| #[trigger]
                        before_stop(j, stop) ==> exists|r: &mut V|
                            *r == old(self)@[j] && *final(r) == final(self)@[j]
                                && #[trigger] call_ensures(
                                    V::visit_mpi_request_cancelled_event,
                                    (r, location_id, time, attributes, request_id),
                                    CallbackCode::Success,
                                )
                    &&& stop < old(self)@.len() ==> exists|r: &mut V|
                        *r == old(self)@[stop] && *final(r) == final(self)@[stop]
                            && #[trigger] call_ensures(
                                V::visit_mpi_request_cancelled_event,
                                (r, location_id, time, attributes, request_id),
                                code,
                            )
                },
    {
        let call = |visitor: &mut V| -> (code: CallbackCode)
            ensures
                exists|r: &mut V|
                    *r == *old(visitor) && *final(r) == *final(visitor)
                        && #[trigger] call_ensures(
                            V::visit_mpi_request_cancelled_event,
                            (r, location_id, time, attributes, request_id),
                            code,
                        ),
            {
                visitor.visit_mpi_request_cancelled_event(
                    location_id,
                    time,
                    attributes,
                    request_id,
                )
            };
        self.fan(call)
    }

    fn visit_mpi_collective_begin_event(
        &mut self,
        location_id: LocationRef,
        time: TimeStamp,
        attributes: &[(AttributeRef, AttributeValue)],
    ) -> (code: CallbackCode)
        ensures
            exists|stop: int|
                {
                    &&& #[trigger] ends_at(old(self)@, final(self)@, code, stop)
                    &&& forall|j: int| #[trigger]
                        before_stop(j, stop) ==> exists|r: &mut V|
                            *r == old(self)@[j] && *final(r) == final(self)@[j]
                                && #[trigger] call_ensures(
                                    V::visit_mpi_collective_begin_event,
                                    (r, location_id, time, attributes),
                                    CallbackCode::Success,
                                )
                    &&& stop < old(self)@.len() ==> exists|r: &mut V|
                        *r == old(self)@[stop] && *final(r) == final(self)@[stop]
                            && #[trigger] call_ensures(
                                V::visit_mpi_collective_begin_event,
                                (r, location_id, time, attributes),
                                code,
                            )
                },
    {
        let call = |visitor: &mut V| -> (code: CallbackCode)
            ensures
                exists|r: &mut V|
                    *r == *old(visitor) && *final(r) == *final(visitor)
                        && #[trigger] call_ensures(
                            V::visit_mpi_collective_begin_event,
                            (r, location_id, time, attributes),
                            code,
                        ),
            {
                visitor.visit_mpi_collective_begin_event(location_id, time, attributes)
            };
        self.fan(call)
    }

    fn visit_mpi_collective_end_event(
        &mut self,
        location_id: LocationRef,
        time: TimeStamp,
        attributes: &[(AttributeRef, AttributeValue)],
        collective_op: CollectiveOp,
        communicator: CommRef,
        root: u32,
        size_sent: u64,
        size_received: u64,
    ) -> (code: CallbackCode)
        ensures
            exists|stop: int|
                {
                    &&& #[trigger] ends_at(old(self)@, final(self)@, code, stop)
                    &&& forall|j: int| #[trigger]
                        before_stop(j, stop) ==> exists|r: &mut V|
                            *r == old(self)@[j] && *final(r) == final(self)@[j]
                                && #[trigger] call_ensures(
                                    V::visit_mpi_collective_end_event,
                                    (
                                        r,
                                        location_id,
                                        time,
                                        attributes,
                                        collective_op,
                                        communicator,
                                        root,
                                        size_sent,
                                        size_received,
                                    ),
                                    CallbackCode::Success,
                                )
                    &&& stop < old(self)@.len() ==> exists|r: &mut V|
                        *r == old(self)@[stop] && *final(r) == final(self)@[stop]
                            && #[trigger] call_ensures(
                                V::visit_mpi_collective_end_event,
                                (
                                    r,
                                    location_id,
                                    time,
                                    attributes,
                                    collective_op,
                                    communicator,
                                    root,
                                    size_sent,
                                    size_received,
                                ),
                                code,
                            )
                },
    {
        let call = |visitor: &mut V| -> (code: CallbackCode)
            ensures
                exists|r: &mut V|
                    *r == *old(visitor) && *final(r) == *final(visitor)
                        && #[trigger] call_ensures(
                            V::visit_mpi_collective_end_event,
                            (
                                r,
                                location_id,
                                time,
                                attributes,
                                collective_op,
                                communicator,
                                root,
                                size_sent,
                                size_received,
                            ),
                            code,
                        ),
            {
                visitor.visit_mpi_collective_end_event(
                    location_id,
                    time,
                    attributes,
                    collective_op,
                    communicator,
                    root,
                    size_sent,
                    size_received,
                )
            };
        self.fan(call)
    }

    fn visit_omp_fork_event(
        &mut self,
        location_id: LocationRef,
        time: TimeStamp,
        attributes: &[(AttributeRef, AttributeValue)],
        number_of_requested_threads: u32,
    ) -> (code: CallbackCode)
        ensures
            exists|stop: int|
                {
                    &&& #[trigger] ends_at(old(self)@, final(self)@, code, stop)
                    &&& forall|j: int| #[trigger]
                        before_stop(j, stop) ==> exists|r: &mut V|
                            *r == old(self)@[j] && *final(r) == final(self)@[j]
                                && #[trigger] call_ensures(
                                    V::visit_omp_fork_event,
                                    (r, location_id, time, attributes, number_of_requested_threads),
                                    CallbackCode::Success,
                                )
                    &&& stop < old(self)@.len() ==> exists|r: &mut V|
                        *r == old(self)@[stop] && *final(r) == final(self)@[stop]
                            && #[trigger] call_ensures(
                                V::visit_omp_fork_event,
                                (r, location_id, time, attributes, number_of_requested_threads),
                                code,
                            )
                },
    {
        let call = |visitor: &mut V| -> (code: CallbackCode)
            ensures
                exists|r: &mut V|
                    *r == *old(visitor) && *final(r) == *final(visitor)
                        && #[trigger] call_ensures(
                            V::visit_omp_fork_event,
                            (r, location_id, time, attributes, number_of_requested_threads),
                            code,
                        ),
            {
                visitor.visit_omp_fork_event(
                    location_id,
                    time,
                    attributes,
                    number_of_requested_threads,
                )
            };
        self.fan(call)
    }

    fn visit_omp_join_event(
        &mut self,
        location_id: LocationRef,
        time: TimeStamp,
        attributes: &[(AttributeRef, AttributeValue)],
    ) -> (code: CallbackCode)
        ensures
            exists|stop: int|
                {
                    &&& #[trigger] ends_at(old(self)@, final(self)@, code, stop)
                    &&& forall|j: int| #[trigger]
                        before_stop(j, stop) ==> exists|r: &mut V|
                            *r == old(self)@[j] && *final(r) == final(self)@[j]
                                && #[trigger] call_ensures(
                                    V::visit_omp_join_event,
                                    (r, location_id, time, attributes),
                                    CallbackCode::Success,
                                )
                    &&& stop < old(self)@.len() ==> exists|r: &mut V|
                        *r == old(self)@[stop] && *final(r) == final(self)@[stop]
                            && #[trigger] call_ensures(
                                V::visit_omp_join_event,
                                (r, location_id, time, attributes),
                                code,
                            )
                },
    {
        let call = |visitor: &mut V| -> (code: CallbackCode)
            ensures
                exists|r: &mut V|
                    *r == *old(visitor) && *final(r) == *final(visitor)
                        && #[trigger] call_ensures(
                            V::visit_omp_join_event,
                            (r, location_id, time, attributes),
                            code,
                        ),
            {
                visitor.visit_omp_join_event(location_id, time, attributes)
            };
        self.fan(call)
    }

    fn visit_omp_acquire_lock_event(
        &mut self,
        location_id: LocationRef,
        time: TimeStamp,
        attributes: &[(AttributeRef, AttributeValue)],
        lock_id: u32,
        acquisition_order: u32,
    ) -> (code: CallbackCode)
        ensures
            exists|stop: int|
                {
                    &&& #[trigger] ends_at(old(self)@, final(self)@, code, stop)
                    &&& forall|j: int| #[trigger]
                        before_stop(j, stop) ==> exists|r: &mut V|
                            *r == old(self)@[j] && *final(r) == final(self)@[j]
                                && #[trigger] call_ensures(
                                    V::visit_omp_acquire_lock_event,
                                    (r, location_id, time, attributes, lock_id, acquisition_order),
                                    CallbackCode::Success,
                                )
                    &&& stop < old(self)@.len() ==> exists|r: &mut V|
                        *r == old(self)@[stop] && *final(r) == final(self)@[stop]
                            && #[trigger] call_ensures(
                                V::visit_omp_acquire_lock_event,
                                (r, location_id, time, attributes, lock_id, acquisition_order),
                                code,
                            )
                },
    {
        let call = |visitor: &mut V| -> (code: CallbackCode)
            ensures
                exists|r: &mut V|
                    *r == *old(visitor) && *final(r) == *final(visitor)
                        && #[trigger] call_ensures(
                            V::visit_omp_acquire_lock_event,
                            (r, location_id, time, attributes, lock_id, acquisition_order),
                            code,
                        ),
            {
                visitor.visit_omp_acquire_lock_event(
                    location_id,
                    time,
                    attributes,
                    lock_id,
                    acquisition_order,
                )
            };
        self.fan(call)
    }

    fn visit_omp_release_lock_event(
        &mut self,
        location_id: LocationRef,
        time: TimeStamp,
        attributes: &[(AttributeRef, AttributeValue)],
        lock_id: u32,
        acquisition_order: u32,
    ) -> (code: CallbackCode)
        ensures
            exists|stop: int|
                {
                    &&& #[trigger] ends_at(old(self)@, final(self)@, code, stop)
                    &&& forall|j: int| #[trigger]
                        before_stop(j, stop) ==> exists|r: &mut V|
                            *r == old(self)@[j] && *final(r) == final(self)@[j]
                                && #[trigger] call_ensures(
                                    V::visit_omp_release_lock_event,
                                    (r, location_id, time, attributes, lock_id, acquisition_order),
                                    CallbackCode::Success,
                                )
                    &&& stop < old(self)@.len() ==> exists|r: &mut V|
                        *r == old(self)@[stop] && *final(r) == final(self)@[stop]
                            && #[trigger] call_ensures(
                                V::visit_omp_release_lock_event,
                                (r, location_id, time, attributes, lock_id, acquisition_order),
                                code,
                            )
                },
    {
        let call = |visitor: &mut V| -> (code: CallbackCode)
            ensures
                exists|r: &mut V|
                    *r == *old(visitor) && *final(r) == *final(visitor)
                        && #[trigger] call_ensures(
                            V::visit_omp_release_lock_event,
                            (r, location_id, time, attributes, lock_id, acquisition_order),
                            code,
                        ),
            {
                visitor.visit_omp_release_lock_event(
                    location_id,
                    time,
                    attributes,
                    lock_id,
                    acquisition_order,
                )
            };
        self.fan(call)
    }

    fn visit_omp_task_create_event(
        &mut self,
        location_id: LocationRef,
        time: TimeStamp,
        attributes: &[(AttributeRef, AttributeValue)],
        task_id: u64,
    ) -> (code: CallbackCode)
        ensures
            exists|stop: int|
                {
                    &&& #[trigger] ends_at(old(self)@, final(self)@, code, stop)
                    &&& forall|j: int| #[trigger]
                        before_stop(j, stop) ==> exists|r: &mut V|
                            *r == old(self)@[j] && *final(r) == final(self)@[j]
                                && #[trigger] call_ensures(
                                    V::visit_omp_task_create_event,
                                    (r, location_id, time, attributes, task_id),
                                    CallbackCode::Success,
                                )
                    &&& stop < old(self)@.len() ==> exists|r: &mut V|
                        *r == old(self)@[stop] && *final(r) == final(self)@[stop]
                            && #[trigger] call_ensures(
                                V::visit_omp_task_create_event,
                                (r, location_id, time, attributes, task_id),
                                code,
                            )
                },
    {
        let call = |visitor: &mut V| -> (code: CallbackCode)
            ensures
                exists|r: &mut V|
                    *r == *old(visitor) && *final(r) == *final(visitor)
                        && #[trigger] call_ensures(
                            V::visit_omp_task_create_event,
                            (r, location_id, time, attributes, task_id),
                            code,
                        ),
            {
                visitor.visit_omp_task_create_event(
                    location_id,
                    time,
                    attributes,
                    task_id,
                )
            };
        self.fan(call)
    }

    fn visit_omp_task_switch_event(
        &mut self,
        location_id: LocationRef,
        time: TimeStamp,
        attributes: &[(AttributeRef, AttributeValue)],
        task_id: u64,
    ) -> (code: CallbackCode)
        ensures
            exists|stop: int|
                {
                    &&& #[trigger] ends_at(old(self)@, final(self)@, code, stop)
                    &&& forall|j: int| #[trigger]
                        before_stop(j, stop) ==> exists|r: &mut V|
                            *r == old(self)@[j] && *final(r) == final(self)@[j]
                                && #[trigger] call_ensures(
                                    V::visit_omp_task_switch_event,
                                    (r, location_id, time, attributes, task_id),
                                    CallbackCode::Success,
                                )
                    &&& stop < old(self)@.len() ==> exists|r: &mut V|
                        *r == old(self)@[stop] && *final(r) == final(self)@[stop]
                            && #[trigger] call_ensures(
                                V::visit_omp_task_switch_event,
                                (r, location_id, time, attributes, task_id),
                                code,
                            )
                },
    {
        let call = |visitor: &mut V| -> (code: CallbackCode)
            ensures
                exists|r: &mut V|
                    *r == *old(visitor) && *final(r) == *final(visitor)
                        && #[trigger] call_ensures(
                            V::visit_omp_task_switch_event,
                            (r, location_id, time, attributes, task_id),
                            code,
                        ),
            {
                visitor.visit_omp_task_switch_event(
                    location_id,
                    time,
                    attributes,
                    task_id,
                )
            };
        self.fan(call)
    }

    fn visit_omp_task_complete_event(
        &mut self,
        location_id: LocationRef,
        time: TimeStamp,
        attributes: &[(AttributeRef, AttributeValue)],
        task_id: u64,
    ) -> (code: CallbackCode)
        ensures
            exists|stop: int|
                {
                    &&& #[trigger] ends_at(old(self)@, final(self)@, code, stop)
                    &&& forall|j: int| #[trigger]
                        before_stop(j, stop) ==> exists|r: &mut V|
                            *r == old(self)@[j] && *final(r) == final(self)@[j]
                                && #[trigger] call_ensures(
                                    V::visit_omp_task_complete_event,
                                    (r, location_id, time, attributes, task_id),
                                    CallbackCode::Success,
                                )
                    &&& stop < old(self)@.len() ==> exists|r: &mut V|
                        *r == old(self)@[stop] && *final(r) == final(self)@[stop]
                            && #[trigger] call_ensures(
                                V::visit_omp_task_complete_event,
                                (r, location_id, time, attributes, task_id),
                                code,
                            )
                },
    {
        let call = |visitor: &mut V| -> (code: CallbackCode)
            ensures
                exists|r: &mut V|
                    *r == *old(visitor) && *final(r) == *final(visitor)
                        && #[trigger] call_ensures(
                            V::visit_omp_task_complete_event,
                            (r, location_id, time, attributes, task_id),
                            code,
                        ),
            {
                visitor.visit_omp_task_complete_event(
                    location_id,
                    time,
                    attributes,
                    task_id,
                )
            };
        self.fan(call)
    }

    fn visit_metric_event(
        &mut self,
        location_id: LocationRef,
        time: TimeStamp,
        attributes: &[(AttributeRef, AttributeValue)],
        metric: MetricRef,
        type_ids: &[Type],
        metric_values: &[MetricValue],
    ) -> (code: CallbackCode)
        ensures
            exists|stop: int|
                {
                    &&& #[trigger] ends_at(old(self)@, final(self)@, code, stop)
                    &&& forall|j: int| #[trigger]
                        before_stop(j, stop) ==> exists|r: &mut V|
                            *r == old(self)@[j] && *final(r) == final(self)@[j]
                                && #[trigger] call_ensures(
                                    V::visit_metric_event,
                                    (
                                        r,
                                        location_id,
                                        time,
                                        attributes,
                                        metric,
                                        type_ids,
                                        metric_values,
                                    ),
                                    CallbackCode::Success,
                                )
                    &&& stop < old(self)@.len() ==> exists|r: &mut V|
                        *r == old(self)@[stop] && *final(r) == final(self)@[stop]
                            && #[trigger] call_ensures(
                                V::visit_metric_event,
                                (r, location_id, time, attributes, metric, type_ids, metric_values),
                                code,
                            )
                },
    {
        let call = |visitor: &mut V| -> (code: CallbackCode)
            ensures
                exists|r: &mut V|
                    *r == *old(visitor) && *final(r) == *final(visitor)
                        && #[trigger] call_ensures(
                            V::visit_metric_event,
                            (r, location_id, time, attributes, metric, type_ids, metric_values),
                            code,
                        ),
            {
                visitor.visit_metric_event(
                    location_id,
                    time,
                    attributes,
                    metric,
                    type_ids,
                    metric_values,
                )
            };
        self.fan(call)
    }

    fn visit_parameter_string_event(
        &mut self,
        location_id: LocationRef,
        time: TimeStamp,
        attributes: &[(AttributeRef, AttributeValue)],
        parameter: ParameterRef,
        string: StringRef,
    ) -> (code: CallbackCode)
        ensures
            exists|stop: int|
                {
                    &&& #[trigger] ends_at(old(self)@, final(self)@, code, stop)
                    &&& forall|j: int| #[trigger]
                        before_stop(j, stop) ==> exists|r: &mut V|
                            *r == old(self)@[j] && *final(r) == final(self)@[j]
                                && #[trigger] call_ensures(
                                    V::visit_parameter_string_event,
                                    (r, location_id, time, attributes, parameter, string),
                                    CallbackCode::Success,
                                )
                    &&& stop < old(self)@.len() ==> exists|r: &mut V|
                        *r == old(self)@[stop] && *final(r) == final(self)@[stop]
                            && #[trigger] call_ensures(
                                V::visit_parameter_string_event,
                                (r, location_id, time, attributes, parameter, string),
                                code,
                            )
                },
    {
        let call = |visitor: &mut V| -> (code: CallbackCode)
            ensures
                exists|r: &mut V|
                    *r == *old(visitor) && *final(r) == *final(visitor)
                        && #[trigger] call_ensures(
                            V::visit_parameter_string_event,
                            (r, location_id, time, attributes, parameter, string),
                            code,
                        ),
            {
                visitor.visit_parameter_string_event(
                    location_id,
                    time,
                    attributes,
                    parameter,
                    string,
                )
            };
        self.fan(call)
    }

    fn visit_parameter_int_event(
        &mut self,
        location_id: LocationRef,
        time: TimeStamp,
        attributes: &[(AttributeRef, AttributeValue)],
        parameter: ParameterRef,
        value: i64,
    ) -> (code: CallbackCode)
        ensures
            exists|stop: int|
                {
                    &&& #[trigger] ends_at(old(self)@, final(self)@, code, stop)
                    &&& forall|j: int| #[trigger]
                        before_stop(j, stop) ==> exists|r: &mut V|
                            *r == old(self)@[j] && *final(r) == final(self)@[j]
                                && #[trigger] call_ensures(
                                    V::visit_parameter_int_event,
                                    (r, location_id, time, attributes, parameter, value),
                                    CallbackCode::Success,
                                )
                    &&& stop < old(self)@.len() ==> exists|r: &mut V|
                        *r == old(self)@[stop] && *final(r) == final(self)@[stop]
                            && #[trigger] call_ensures(
                                V::visit_parameter_int_event,
                                (r, location_id, time, attributes, parameter, value),
                                code,
                            )
                },
    {
        let call = |visitor: &mut V| -> (code: CallbackCode)
            ensures
                exists|r: &mut V|
                    *r == *old(visitor) && *final(r) == *final(visitor)
                        && #[trigger] call_ensures(
                            V::visit_parameter_int_event,
                            (r, location_id, time, attributes, parameter, value),
                            code,
                        ),
            {
                visitor.visit_parameter_int_event(
                    location_id,
                    time,
                    attributes,
                    parameter,
                    value,
                )
            };
        self.fan(call)
    }

    fn visit_parameter_unsigned_int_event(
        &mut self,
        location_id: LocationRef,
        time: TimeStamp,
        attributes: &[(AttributeRef, AttributeValue)],
        parameter: ParameterRef,
        value: u64,
    ) -> (code: CallbackCode)
        ensures
            exists|stop: int|
                {
                    &&& #[trigger] ends_at(old(self)@, final(self)@, code, stop)
                    &&& forall|j: int| #[trigger]
                        before_stop(j, stop) ==> exists|r: &mut V|
                            *r == old(self)@[j] && *final(r) == final(self)@[j]
                                && #[trigger] call_ensures(
                                    V::visit_parameter_unsigned_int_event,
                                    (r, location_id, time, attributes, parameter, value),
                                    CallbackCode::Success,
                                )
                    &&& stop < old(self)@.len() ==> exists|r: &mut V|
                        *r == old(self)@[stop] && *final(r) == final(self)@[stop]
                            && #[trigger] call_ensures(
                                V::visit_parameter_unsigned_int_event,
                                (r, location_id, time, attributes, parameter, value),
                                code,
                            )
                },
    {
        let call = |visitor: &mut V| -> (code: CallbackCode)
            ensures
                exists|r: &mut V|
                    *r == *old(visitor) && *final(r) == *final(visitor)
                        && #[trigger] call_ensures(
                            V::visit_parameter_unsigned_int_event,
                            (r, location_id, time, attributes, parameter, value),
                            code,
                        ),
            {
                visitor.visit_parameter_unsigned_int_event(
                    location_id,
                    time,
                    attributes,
                    parameter,
                    value,
                )
            };
        self.fan(call)
    }

    fn visit_rma_win_create_event(
        &mut self,
        location_id: LocationRef,
        time: TimeStamp,
        attributes: &[(AttributeRef, AttributeValue)],
        win: RmaWinRef,
    ) -> (code: CallbackCode)
        ensures
            exists|stop: int|
                {
                    &&& #[trigger] ends_at(old(self)@, final(self)@, code, stop)
                    &&& forall|j: int| #[trigger]
                        before_stop(j, stop) ==> exists|r: &mut V|
                            *r == old(self)@[j] && *final(r) == final(self)@[j]
                                && #[trigger] call_ensures(
                                    V::visit_rma_win_create_event,
                                    (r, location_id, time, attributes, win),
                                    CallbackCode::Success,
                                )
                    &&& stop < old(self)@.len() ==> exists|r: &mut V|
                        *r == old(self)@[stop] && *final(r) == final(self)@[stop]
                            && #[trigger] call_ensures(
                                V::visit_rma_win_create_event,
                                (r, location_id, time, attributes, win),
                                code,
                            )
                },
    {
        let call = |visitor: &mut V| -> (code: CallbackCode)
            ensures
                exists|r: &mut V|
                    *r == *old(visitor) && *final(r) == *final(visitor)
                        && #[trigger] call_ensures(
                            V::visit_rma_win_create_event,
                            (r, location_id, time, attributes, win),
                            code,
                        ),
            {
                visitor.visit_rma_win_create_event(location_id, time, attributes, win)
            };
        self.fan(call)
    }

    fn visit_rma_win_destroy_event(
        &mut self,
        location_id: LocationRef,
        time: TimeStamp,
        attributes: &[(AttributeRef, AttributeValue)],
        win: RmaWinRef,
    ) -> (code: CallbackCode)
        ensures
            exists|stop: int|
                {
                    &&& #[trigger] ends_at(old(self)@, final(self)@, code, stop)
                    &&& forall|j: int| #[trigger]
                        before_stop(j, stop) ==> exists|r: &mut V|
                            *r == old(self)@[j] && *final(r) == final(self)@[j]
                                && #[trigger] call_ensures(
                                    V::visit_rma_win_destroy_event,
                                    (r, location_id, time, attributes, win),
                                    CallbackCode::Success,
                                )
                    &&& stop < old(self)@.len() ==> exists|r: &mut V|
                        *r == old(self)@[stop] && *final(r) == final(self)@[stop]
                            && #[trigger] call_ensures(
                                V::visit_rma_win_destroy_event,
                                (r, location_id, time, attributes, win),
                                code,
                            )
                },
    {
        let call = |visitor: &mut V| -> (code: CallbackCode)
            ensures
                exists|r: &mut V|
                    *r == *old(visitor) && *final(r) == *final(visitor)
                        && #[trigger] call_ensures(
                            V::visit_rma_win_destroy_event,
                            (r, location_id, time, attributes, win),
                            code,
                        ),
            {
                visitor.visit_rma_win_destroy_event(location_id, time, attributes, win)
            };
        self.fan(call)
    }

    fn visit_rma_collective_begin_event(
        &mut self,
        location_id: LocationRef,
        time: TimeStamp,
        attributes: &[(AttributeRef, AttributeValue)],
    ) -> (code: CallbackCode)
        ensures
            exists|stop: int|
                {
                    &&& #[trigger] ends_at(old(self)@, final(self)@, code, stop)
                    &&& forall|j: int| #[trigger]
                        before_stop(j, stop) ==> exists|r: &mut V|
                            *r == old(self)@[j] && *final(r) == final(self)@[j]
                                && #[trigger] call_ensures(
                                    V::visit_rma_collective_begin_event,
                                    (r, location_id, time, attributes),
                                    CallbackCode::Success,
                                )
                    &&& stop < old(self)@.len() ==> exists|r: &mut V|
                        *r == old(self)@[stop] && *final(r) == final(self)@[stop]
                            && #[trigger] call_ensures(
                                V::visit_rma_collective_begin_event,
                                (r, location_id, time, attributes),
                                code,
                            )
                },
    {
        let call = |visitor: &mut V| -> (code: CallbackCode)
            ensures
                exists|r: &mut V|
                    *r == *old(visitor) && *final(r) == *final(visitor)
                        && #[trigger] call_ensures(
                            V::visit_rma_collective_begin_event,
                            (r, location_id, time, attributes),
                            code,
                        ),
            {
                visitor.visit_rma_collective_begin_event(location_id, time, attributes)
            };
        self.fan(call)
    }

    fn visit_rma_collective_end_event(
        &mut self,
        location_id: LocationRef,
        time: TimeStamp,
        attributes: &[(AttributeRef, AttributeValue)],
        collective_op: CollectiveOp,
        sync_level: RmaSyncLevel,
        win: RmaWinRef,
        root: u32,
        bytes_sent: u64,
        bytes_received: u64,
    ) -> (code: CallbackCode)
        ensures
            exists|stop: int|
                {
                    &&& #[trigger] ends_at(old(self)@, final(self)@, code, stop)
                    &&& forall|j: int| #[trigger]
                        before_stop(j, stop) ==> exists|r: &mut V|
                            *r == old(self)@[j] && *final(r) == final(self)@[j]
                                && #[trigger] call_ensures(
                                    V::visit_rma_collective_end_event,
                                    (
                                        r,
                                        location_id,
                                        time,
                                        attributes,
                                        collective_op,
                                        sync_level,
                                        win,
                                        root,
                                        bytes_sent,
                                        bytes_received,
                                    ),
                                    CallbackCode::Success,
                                )
                    &&& stop < old(self)@.len() ==> exists|r: &mut V|
                        *r == old(self)@[stop] && *final(r) == final(self)@[stop]
                            && #[trigger] call_ensures(
                                V::visit_rma_collective_end_event,
                                (
                                    r,
                                    location_id,
                                    time,
                                    attributes,
                                    collective_op,
                                    sync_level,
                                    win,
                                    root,
                                    bytes_sent,
                                    bytes_received,
                                ),
                                code,
                            )
                },
    {
        let call = |visitor: &mut V| -> (code: CallbackCode)
            ensures
                exists|r: &mut V|
                    *r == *old(visitor) && *final(r) == *final(visitor)
                        && #[trigger] call_ensures(
                            V::visit_rma_collective_end_event,
                            (
                                r,
                                location_id,
                                time,
                                attributes,
                                collective_op,
                                sync_level,
                                win,
                                root,
                                bytes_sent,
                                bytes_received,
                            ),
                            code,
                        ),
            {
                visitor.visit_rma_collective_end_event(
                    location_id,
                    time,
                    attributes,
                    collective_op,
                    sync_level,
                    win,
                    root,
                    bytes_sent,
                    bytes_received,
                )
            };
        self.fan(call)
    }

    fn visit_rma_group_sync_event(
        &mut self,
        location_id: LocationRef,
        time: TimeStamp,
        attributes: &[(AttributeRef, AttributeValue)],
        sync_level: RmaSyncLevel,
        win: RmaWinRef,
        group: GroupRef,
    ) -> (code: CallbackCode)
        ensures
            exists|stop: int|
                {
                    &&& #[trigger] ends_at(old(self)@, final(self)@, code, stop)
                    &&& forall|j: int| #[trigger]
                        before_stop(j, stop) ==> exists|r: &mut V|
                            *r == old(self)@[j] && *final(r) == final(self)@[j]
                                && #[trigger] call_ensures(
                                    V::visit_rma_group_sync_event,
                                    (r, location_id, time, attributes, sync_level, win, group),
                                    CallbackCode::Success,
                                )
                    &&& stop < old(self)@.len() ==> exists|r: &mut V|
                        *r == old(self)@[stop] && *final(r) == final(self)@[stop]
                            && #[trigger] call_ensures(
                                V::visit_rma_group_sync_event,
                                (r, location_id, time, attributes, sync_level, win, group),
                                code,
                            )
                },
    {
        let call = |visitor: &mut V| -> (code: CallbackCode)
            ensures
                exists|r: &mut V|
                    *r == *old(visitor) && *final(r) == *final(visitor)
                        && #[trigger] call_ensures(
                            V::visit_rma_group_sync_event,
                            (r, location_id, time, attributes, sync_level, win, group),
                            code,
                        ),
            {
                visitor.visit_rma_group_sync_event(
                    location_id,
                    time,
                    attributes,
                    sync_level,
                    win,
                    group,
                )
            };
        self.fan(call)
    }

    fn visit_rma_request_lock_event(
        &mut self,
        location_id: LocationRef,
        time: TimeStamp,
        attributes: &[(AttributeRef, AttributeValue)],
        win: RmaWinRef,
        remote: u32,
        lock_id: u64,
        lock_type: LockType,
    ) -> (code: CallbackCode)
        ensures
            exists|stop: int|
                {
                    &&& #[trigger] ends_at(old(self)@, final(self)@, code, stop)
                    &&& forall|j: int| #[trigger]
                        before_stop(j, stop) ==> exists|r: &mut V|
                            *r == old(self)@[j] && *final(r) == final(self)@[j]
                                && #[trigger] call_ensures(
                                    V::visit_rma_request_lock_event,
                                    (
                                        r,
                                        location_id,
                                        time,
                                        attributes,
                                        win,
                                        remote,
                                        lock_id,
                                        lock_type,
                                    ),
                                    CallbackCode::Success,
                                )
                    &&& stop < old(self)@.len() ==> exists|r: &mut V|
                        *r == old(self)@[stop] && *final(r) == final(self)@[stop]
                            && #[trigger] call_ensures(
                                V::visit_rma_request_lock_event,
                                (r, location_id, time, attributes, win, remote, lock_id, lock_type),
                                code,
                            )
                },
    {
        let call = |visitor: &mut V| -> (code: CallbackCode)
            ensures
                exists|r: &mut V|
                    *r == *old(visitor) && *final(r) == *final(visitor)
                        && #[trigger] call_ensures(
                            V::visit_rma_request_lock_event,
                            (r, location_id, time, attributes, win, remote, lock_id, lock_type),
                            code,
                        ),
            {
                visitor.visit_rma_request_lock_event(
                    location_id,
                    time,
                    attributes,
                    win,
                    remote,
                    lock_id,
                    lock_type,
                )
            };
        self.fan(call)
    }

    fn visit_rma_acquire_lock_event(
        &mut self,
        location_id: LocationRef,
        time: TimeStamp,
        attributes: &[(AttributeRef, AttributeValue)],
        win: RmaWinRef,
        remote: u32,
        lock_id: u64,
        lock_type: LockType,
    ) -> (code: CallbackCode)
        ensures
            exists|stop: int|
                {
                    &&& #[trigger] ends_at(old(self)@, final(self)@, code, stop)
                    &&& forall|j: int| #[trigger]
                        before_stop(j, stop) ==> exists|r: &mut V|
                            *r == old(self)@[j] && *final(r) == final(self)@[j]
                                && #[trigger] call_ensures(
                                    V::visit_rma_acquire_lock_event,
                                    (
                                        r,
                                        location_id,
                                        time,
                                        attributes,
                                        win,
                                        remote,
                                        lock_id,
                                        lock_type,
                                    ),
                                    CallbackCode::Success,
                                )
                    &&& stop < old(self)@.len() ==> exists|r: &mut V|
                        *r == old(self)@[stop] && *final(r) == final(self)@[stop]
                            && #[trigger] call_ensures(
                                V::visit_rma_acquire_lock_event,
                                (r, location_id, time, attributes, win, remote, lock_id, lock_type),
                                code,
                            )
                },
    {
        let call = |visitor: &mut V| -> (code: CallbackCode)
            ensures
                exists|r: &mut V|
                    *r == *old(visitor) && *final(r) == *final(visitor)
                        && #[trigger] call_ensures(
                            V::visit_rma_acquire_lock_event,
                            (r, location_id, time, attributes, win, remote, lock_id, lock_type),
                            code,
                        ),
            {
                visitor.visit_rma_acquire_lock_event(
                    location_id,
                    time,
                    attributes,
                    win,
                    remote,
                    lock_id,
                    lock_type,
                )
            };
        self.fan(call)
    }

    fn visit_rma_try_lock_event(
        &mut self,
        location_id: LocationRef,
        time: TimeStamp,
        attributes: &[(AttributeRef, AttributeValue)],
        win: RmaWinRef,
        remote: u32,
        lock_id: u64,
        lock_type: LockType,
    ) -> (code: CallbackCode)
        ensures
            exists|stop: int|
                {
                    &&& #[trigger] ends_at(old(self)@, final(self)@, code, stop)
                    &&& forall|j: int| #[trigger]
                        before_stop(j, stop) ==> exists|r: &mut V|
                            *r == old(self)@[j] && *final(r) == final(self)@[j]
                                && #[trigger] call_ensures(
                                    V::visit_rma_try_lock_event,
                                    (
                                        r,
                                        location_id,
                                        time,
                                        attributes,
                                        win,
                                        remote,
                                        lock_id,
                                        lock_type,
                                    ),
                                    CallbackCode::Success,
                                )
                    &&& stop < old(self)@.len() ==> exists|r: &mut V|
                        *r == old(self)@[stop] && *final(r) == final(self)@[stop]
                            && #[trigger] call_ensures(
                                V::visit_rma_try_lock_event,
                                (r, location_id, time, attributes, win, remote, lock_id, lock_type),
                                code,
                            )
                },
    {
        let call = |visitor: &mut V| -> (code: CallbackCode)
            ensures
                exists|r: &mut V|
                    *r == *old(visitor) && *final(r) == *final(visitor)
                        && #[trigger] call_ensures(
                            V::visit_rma_try_lock_event,
                            (r, location_id, time, attributes, win, remote, lock_id, lock_type),
                            code,
                        ),
            {
                visitor.visit_rma_try_lock_event(
                    location_id,
                    time,
                    attributes,
                    win,
                    remote,
                    lock_id,
                    lock_type,
                )
            };
        self.fan(call)
    }

    fn visit_rma_release_lock_event(
        &mut self,
        location_id: LocationRef,
        time: TimeStamp,
        attributes: &[(AttributeRef, AttributeValue)],
        win: RmaWinRef,
        remote: u32,
        lock_id: u64,
    ) -> (code: CallbackCode)
        ensures
            exists|stop: int|
                {
                    &&& #[trigger] ends_at(old(self)@, final(self)@, code, stop)
                    &&& forall|j: int| #[trigger]
                        before_stop(j, stop) ==> exists|r: &mut V|
                            *r == old(self)@[j] && *final(r) == final(self)@[j]
                                && #[trigger] call_ensures(
                                    V::visit_rma_release_lock_event,
                                    (r, location_id, time, attributes, win, remote, lock_id),
                                    CallbackCode::Success,
                                )
                    &&& stop < old(self)@.len() ==> exists|r: &mut V|
                        *r == old(self)@[stop] && *final(r) == final(self)@[stop]
                            && #[trigger] call_ensures(
                                V::visit_rma_release_lock_event,
                                (r, location_id, time, attributes, win, remote, lock_id),
                                code,
                            )
                },
    {
        let call = |visitor: &mut V| -> (code: CallbackCode)
            ensures
                exists|r: &mut V|
                    *r == *old(visitor) && *final(r) == *final(visitor)
                        && #[trigger] call_ensures(
                            V::visit_rma_release_lock_event,
                            (r, location_id, time, attributes, win, remote, lock_id),
                            code,
                        ),
            {
                visitor.visit_rma_release_lock_event(
                    location_id,
                    time,
                    attributes,
                    win,
                    remote,
                    lock_id,
                )
            };
        self.fan(call)
    }

    fn visit_rma_sync_event(
        &mut self,
        location_id: LocationRef,
        time: TimeStamp,
        attributes: &[(AttributeRef, AttributeValue)],
        win: RmaWinRef,
        remote: u32,
        sync_type: RmaSyncType,
    ) -> (code: CallbackCode)
        ensures
            exists|stop: int|
                {
                    &&& #[trigger] ends_at(old(self)@, final(self)@, code, stop)
                    &&& forall|j: int| #[trigger]
                        before_stop(j, stop) ==> exists|r: &mut V|
                            *r == old(self)@[j] && *final(r) == final(self)@[j]
                                && #[trigger] call_ensures(
                                    V::visit_rma_sync_event,
                                    (r, location_id, time, attributes, win, remote, sync_type),
                                    CallbackCode::Success,
                                )
                    &&& stop < old(self)@.len() ==> exists|r: &mut V|
                        *r == old(self)@[stop] && *final(r) == final(self)@[stop]
                            && #[trigger] call_ensures(
                                V::visit_rma_sync_event,
                                (r, location_id, time, attributes, win, remote, sync_type),
                                code,
                            )
                },
    {
        let call = |visitor: &mut V| -> (code: CallbackCode)
            ensures
                exists|r: &mut V|
                    *r == *old(visitor) && *final(r) == *final(visitor)
                        && #[trigger] call_ensures(
                            V::visit_rma_sync_event,
                            (r, location_id, time, attributes, win, remote, sync_type),
                            code,
                        ),
            {
                visitor.visit_rma_sync_event(
                    location_id,
                    time,
                    attributes,
                    win,
                    remote,
                    sync_type,
                )
            };
        self.fan(call)
    }

    fn visit_rma_wait_change_event(
        &mut self,
        location_id: LocationRef,
        time: TimeStamp,
        attributes: &[(AttributeRef, AttributeValue)],
        win: RmaWinRef,
    ) -> (code: CallbackCode)
        ensures
            exists|stop: int|
                {
                    &&& #[trigger] ends_at(old(self)@, final(self)@, code, stop)
                    &&& forall|j: int| #[trigger]
                        before_stop(j, stop) ==> exists|r: &mut V|
                            *r == old(self)@[j] && *final(r) == final(self)@[j]
                                && #[trigger] call_ensures(
                                    V::visit_rma_wait_change_event,
                                    (r, location_id, time, attributes, win),
                                    CallbackCode::Success,
                                )
                    &&& stop < old(self)@.len() ==> exists|r: &mut V|
                        *r == old(self)@[stop] && *final(r) == final(self)@[stop]
                            && #[trigger] call_ensures(
                                V::visit_rma_wait_change_event,
                                (r, location_id, time, attributes, win),
                                code,
                            )
                },
    {
        let call = |visitor: &mut V| -> (code: CallbackCode)
            ensures
                exists|r: &mut V|
                    *r == *old(visitor) && *final(r) == *final(visitor)
                        && #[trigger] call_ensures(
                            V::visit_rma_wait_change_event,
                            (r, location_id, time, attributes, win),
                            code,
                        ),
            {
                visitor.visit_rma_wait_change_event(location_id, time, attributes, win)
            };
        self.fan(call)
    }

    fn visit_rma_put_event(
        &mut self,
        location_id: LocationRef,
        time: TimeStamp,
        attributes: &[(AttributeRef, AttributeValue)],
        win: RmaWinRef,
        remote: u32,
        bytes: u64,
        matching_id: u64,
    ) -> (code: CallbackCode)
        ensures
            exists|stop: int|
                {
                    &&& #[trigger] ends_at(old(self)@, final(self)@, code, stop)
                    &&& forall|j: int| #[trigger]
                        before_stop(j, stop) ==> exists|r: &mut V|
                            *r == old(self)@[j] && *final(r) == final(self)@[j]
                                && #[trigger] call_ensures(
                                    V::visit_rma_put_event,
                                    (
                                        r,
                                        location_id,
                                        time,
                                        attributes,
                                        win,
                                        remote,
                                        bytes,
                                        matching_id,
                                    ),
                                    CallbackCode::Success,
                                )
                    &&& stop < old(self)@.len() ==> exists|r: &mut V|
                        *r == old(self)@[stop] && *final(r) == final(self)@[stop]
                            && #[trigger] call_ensures(
                                V::visit_rma_put_event,
                                (r, location_id, time, attributes, win, remote, bytes, matching_id),
                                code,
                            )
                },
    {
        let call = |visitor: &mut V| -> (code: CallbackCode)
            ensures
                exists|r: &mut V|
                    *r == *old(visitor) && *final(r) == *final(visitor)
                        && #[trigger] call_ensures(
                            V::visit_rma_put_event,
                            (r, location_id, time, attributes, win, remote, bytes, matching_id),
                            code,
                        ),
            {
                visitor.visit_rma_put_event(
                    location_id,
                    time,
                    attributes,
                    win,
                    remote,
                    bytes,
                    matching_id,
                )
            };
        self.fan(call)
    }

    fn visit_rma_get_event(
        &mut self,
        location_id: LocationRef,
        time: TimeStamp,
        attributes: &[(AttributeRef, AttributeValue)],
        win: RmaWinRef,
        remote: u32,
        bytes: u64,
        matching_id: u64,
    ) -> (code: CallbackCode)
        ensures
            exists|stop: int|
                {
                    &&& #[trigger] ends_at(old(self)@, final(self)@, code, stop)
                    &&& forall|j: int| #[trigger]
                        before_stop(j, stop) ==> exists|r: &mut V|
                            *r == old(self)@[j] && *final(r) == final(self)@[j]
                                && #[trigger] call_ensures(
                                    V::visit_rma_get_event,
                                    (
                                        r,
                                        location_id,
                                        time,
                                        attributes,
                                        win,
                                        remote,
                                        bytes,
                                        matching_id,
                                    ),
                                    CallbackCode::Success,
                                )
                    &&& stop < old(self)@.len() ==> exists|r: &mut V|
                        *r == old(self)@[stop] && *final(r) == final(self)@[stop]
                            && #[trigger] call_ensures(
                                V::visit_rma_get_event,
                                (r, location_id, time, attributes, win, remote, bytes, matching_id),
                                code,
                            )
                },
    {
        let call = |visitor: &mut V| -> (code: CallbackCode)
            ensures
                exists|r: &mut V|
                    *r == *old(visitor) && *final(r) == *final(visitor)
                        && #[trigger] call_ensures(
                            V::visit_rma_get_event,
                            (r, location_id, time, attributes, win, remote, bytes, matching_id),
                            code,
                        ),
            {
                visitor.visit_rma_get_event(
                    location_id,
                    time,
                    attributes,
                    win,
                    remote,
                    bytes,
                    matching_id,
                )
            };
        self.fan(call)
    }

    fn visit_rma_atomic_event(
        &mut self,
        location_id: LocationRef,
        time: TimeStamp,
        attributes: &[(AttributeRef, AttributeValue)],
        win: RmaWinRef,
        remote: u32,
        type_: RmaAtomicType,
        bytes_sent: u64,
        bytes_received: u64,
        matching_id: u64,
    ) -> (code: CallbackCode)
        ensures
            exists|stop: int|
                {
                    &&& #[trigger] ends_at(old(self)@, final(self)@, code, stop)
                    &&& forall|j: int| #[trigger]
                        before_stop(j, stop) ==> exists|r: &mut V|
                            *r == old(self)@[j] && *final(r) == final(self)@[j]
                                && #[trigger] call_ensures(
                                    V::visit_rma_atomic_event,
                                    (
                                        r,
                                        location_id,
                                        time,
                                        attributes,
                                        win,
                                        remote,
                                        type_,
                                        bytes_sent,
                                        bytes_received,
                                        matching_id,
                                    ),
                                    CallbackCode::Success,
                                )
                    &&& stop < old(self)@.len() ==> exists|r: &mut V|
                        *r == old(self)@[stop] && *final(r) == final(self)@[stop]
                            && #[trigger] call_ensures(
                                V::visit_rma_atomic_event,
                                (
                                    r,
                                    location_id,
                                    time,
                                    attributes,
                                    win,
                                    remote,
                                    type_,
                                    bytes_sent,
                                    bytes_received,
                                    matching_id,
                                ),
                                code,
                            )
                },
    {
        let call = |visitor: &mut V| -> (code: CallbackCode)
            ensures
                exists|r: &mut V|
                    *r == *old(visitor) && *final(r) == *final(visitor)
                        && #[trigger] call_ensures(
                            V::visit_rma_atomic_event,
                            (
                                r,
                                location_id,
                                time,
                                attributes,
                                win,
                                remote,
                                type_,
                                bytes_sent,
                                bytes_received,
                                matching_id,
                            ),
                            code,
                        ),
            {
                visitor.visit_rma_atomic_event(
                    location_id,
                    time,
                    attributes,
                    win,
                    remote,
                    type_,
                    bytes_sent,
                    bytes_received,
                    matching_id,
                )
            };
        self.fan(call)
    }

    fn visit_rma_op_complete_blocking_event(
        &mut self,
        location_id: LocationRef,
        time: TimeStamp,
        attributes: &[(AttributeRef, AttributeValue)],
        win: RmaWinRef,
        matching_id: u64,
    ) -> (code: CallbackCode)
        ensures
            exists|stop: int|
                {
                    &&& #[trigger] ends_at(old(self)@, final(self)@, code, stop)
                    &&& forall|j: int| #[trigger]
                        before_stop(j, stop) ==> exists|r: &mut V|
                            *r == old(self)@[j] && *final(r) == final(self)@[j]
                                && #[trigger] call_ensures(
                                    V::visit_rma_op_complete_blocking_event,
                                    (r, location_id, time, attributes, win, matching_id),
                                    CallbackCode::Success,
                                )
                    &&& stop < old(self)@.len() ==> exists|r: &mut V|
                        *r == old(self)@[stop] && *final(r) == final(self)@[stop]
                            && #[trigger] call_ensures(
                                V::visit_rma_op_complete_blocking_event,
                                (r, location_id, time, attributes, win, matching_id),
                                code,
                            )
                },
    {
        let call = |visitor: &mut V| -> (code: CallbackCode)
            ensures
                exists|r: &mut V|
                    *r == *old(visitor) && *final(r) == *final(visitor)
                        && #[trigger] call_ensures(
                            V::visit_rma_op_complete_blocking_event,
                            (r, location_id, time, attributes, win, matching_id),
                            code,
                        ),
            {
                visitor.visit_rma_op_complete_blocking_event(
                    location_id,
                    time,
                    attributes,
                    win,
                    matching_id,
                )
            };
        self.fan(call)
    }

    fn visit_rma_op_complete_non_blocking_event(
        &mut self,
        location_id: LocationRef,
        time: TimeStamp,
        attributes: &[(AttributeRef, AttributeValue)],
        win: RmaWinRef,
        matching_id: u64,
    ) -> (code: CallbackCode)
        ensures
            exists|stop: int|
                {
                    &&& #[trigger] ends_at(old(self)@, final(self)@, code, stop)
                    &&& forall|j: int| #[trigger]
                        before_stop(j, stop) ==> exists|r: &mut V|
                            *r == old(self)@[j] && *final(r) == final(self)@[j]
                                && #[trigger] call_ensures(
                                    V::visit_rma_op_complete_non_blocking_event,
                                    (r, location_id, time, attributes, win, matching_id),
                                    CallbackCode::Success,
                                )
                    &&& stop < old(self)@.len() ==> exists|r: &mut V|
                        *r == old(self)@[stop] && *final(r) == final(self)@[stop]
                            && #[trigger] call_ensures(
                                V::visit_rma_op_complete_non_blocking_event,
                                (r, location_id, time, attributes, win, matching_id),
                                code,
                            )
                },
    {
        let call = |visitor: &mut V| -> (code: CallbackCode)
            ensures
                exists|r: &mut V|
                    *r == *old(visitor) && *final(r) == *final(visitor)
                        && #[trigger] call_ensures(
                            V::visit_rma_op_complete_non_blocking_event,
                            (r, location_id, time, attributes, win, matching_id),
                            code,
                        ),
            {
                visitor.visit_rma_op_complete_non_blocking_event(
                    location_id,
                    time,
                    attributes,
                    win,
                    matching_id,
                )
            };
        self.fan(call)
    }

    fn visit_rma_op_test_event(
        &mut self,
        location_id: LocationRef,
        time: TimeStamp,
        attributes: &[(AttributeRef, AttributeValue)],
        win: RmaWinRef,
        matching_id: u64,
    ) -> (code: CallbackCode)
        ensures
            exists|stop: int|
                {
                    &&& #[trigger] ends_at(old(self)@, final(self)@, code, stop)
                    &&& forall|j: int| #[trigger]
                        before_stop(j, stop) ==> exists|r: &mut V|
                            *r == old(self)@[j] && *final(r) == final(self)@[j]
                                && #[trigger] call_ensures(
                                    V::visit_rma_op_test_event,
                                    (r, location_id, time, attributes, win, matching_id),
                                    CallbackCode::Success,
                                )
                    &&& stop < old(self)@.len() ==> exists|r: &mut V|
                        *r == old(self)@[stop] && *final(r) == final(self)@[stop]
                            && #[trigger] call_ensures(
                                V::visit_rma_op_test_event,
                                (r, location_id, time, attributes, win, matching_id),
                                code,
                            )
                },
    {
        let call = |visitor: &mut V| -> (code: CallbackCode)
            ensures
                exists|r: &mut V|
                    *r == *old(visitor) && *final(r) == *final(visitor)
                        && #[trigger] call_ensures(
                            V::visit_rma_op_test_event,
                            (r, location_id, time, attributes, win, matching_id),
                            code,
                        ),
            {
                visitor.visit_rma_op_test_event(
                    location_id,
                    time,
                    attributes,
                    win,
                    matching_id,
                )
            };
        self.fan(call)
    }

    fn visit_rma_op_complete_remote_event(
        &mut self,
        location_id: LocationRef,
        time: TimeStamp,
        attributes: &[(AttributeRef, AttributeValue)],
        win: RmaWinRef,
        matching_id: u64,
    ) -> (code: CallbackCode)
        ensures
            exists|stop: int|
                {
                    &&& #[trigger] ends_at(old(self)@, final(self)@, code, stop)
                    &&& forall|j: int| #[trigger]
                        before_stop(j, stop) ==> exists|r: &mut V|
                            *r == old(self)@[j] && *final(r) == final(self)@[j]
                                && #[trigger] call_ensures(
                                    V::visit_rma_op_complete_remote_event,
                                    (r, location_id, time, attributes, win, matching_id),
                                    CallbackCode::Success,
                                )
                    &&& stop < old(self)@.len() ==> exists|r: &mut V|
                        *r == old(self)@[stop] && *final(r) == final(self)@[stop]
                            && #[trigger] call_ensures(
                                V::visit_rma_op_complete_remote_event,
                                (r, location_id, time, attributes, win, matching_id),
                                code,
                            )
                },
    {
        let call = |visitor: &mut V| -> (code: CallbackCode)
            ensures
                exists|r: &mut V|
                    *r == *old(visitor) && *final(r) == *final(visitor)
                        && #[trigger] call_ensures(
                            V::visit_rma_op_complete_remote_event,
                            (r, location_id, time, attributes, win, matching_id),
                            code,
                        ),
            {
                visitor.visit_rma_op_complete_remote_event(
                    location_id,
                    time,
                    attributes,
                    win,
                    matching_id,
                )
            };
        self.fan(call)
    }

    fn visit_thread_fork_event(
        &mut self,
        location_id: LocationRef,
        time: TimeStamp,
        attributes: &[(AttributeRef, AttributeValue)],
        model: Paradigm,
        number_of_requested_threads: u32,
    ) -> (code: CallbackCode)
        ensures
            exists|stop: int|
                {
                    &&& #[trigger] ends_at(old(self)@, final(self)@, code, stop)
                    &&& forall|j: int| #[trigger]
                        before_stop(j, stop) ==> exists|r: &mut V|
                            *r == old(self)@[j] && *final(r) == final(self)@[j]
                                && #[trigger] call_ensures(
                                    V::visit_thread_fork_event,
                                    (
                                        r,
                                        location_id,
                                        time,
                                        attributes,
                                        model,
                                        number_of_requested_threads,
                                    ),
                                    CallbackCode::Success,
                                )
                    &&& stop < old(self)@.len() ==> exists|r: &mut V|
                        *r == old(self)@[stop] && *final(r) == final(self)@[stop]
                            && #[trigger] call_ensures(
                                V::visit_thread_fork_event,
                                (
                                    r,
                                    location_id,
                                    time,
                                    attributes,
                                    model,
                                    number_of_requested_threads,
                                ),
                                code,
                            )
                },
    {
        let call = |visitor: &mut V| -> (code: CallbackCode)
            ensures
                exists|r: &mut V|
                    *r == *old(visitor) && *final(r) == *final(visitor)
                        && #[trigger] call_ensures(
                            V::visit_thread_fork_event,
                            (r, location_id, time, attributes, model, number_of_requested_threads),
                            code,
                        ),
            {
                visitor.visit_thread_fork_event(
                    location_id,
                    time,
                    attributes,
                    model,
                    number_of_requested_threads,
                )
            };
        self.fan(call)
    }

    fn visit_thread_join_event(
        &mut self,
        location_id: LocationRef,
        time: TimeStamp,
        attributes: &[(AttributeRef, AttributeValue)],
        model: Paradigm,
    ) -> (code: CallbackCode)
        ensures
            exists|stop: int|
                {
                    &&& #[trigger] ends_at(old(self)@, final(self)@, code, stop)
                    &&& forall|j: int| #[trigger]
                        before_stop(j, stop) ==> exists|r: &mut V|
                            *r == old(self)@[j] && *final(r) == final(self)@[j]
                                && #[trigger] call_ensures(
                                    V::visit_thread_join_event,
                                    (r, location_id, time, attributes, model),
                                    CallbackCode::Success,
                                )
                    &&& stop < old(self)@.len() ==> exists|r: &mut V|
                        *r == old(self)@[stop] && *final(r) == final(self)@[stop]
                            && #[trigger] call_ensures(
                                V::visit_thread_join_event,
                                (r, location_id, time, attributes, model),
                                code,
                            )
                },
    {
        let call = |visitor: &mut V| -> (code: CallbackCode)
            ensures
                exists|r: &mut V|
                    *r == *old(visitor) && *final(r) == *final(visitor)
                        && #[trigger] call_ensures(
                            V::visit_thread_join_event,
                            (r, location_id, time, attributes, model),
                            code,
                        ),
            {
                visitor.visit_thread_join_event(location_id, time, attributes, model)
            };
        self.fan(call)
    }

    fn visit_thread_team_begin_event(
        &mut self,
        location_id: LocationRef,
        time: TimeStamp,
        attributes: &[(AttributeRef, AttributeValue)],
        thread_team: CommRef,
    ) -> (code: CallbackCode)
        ensures
            exists|stop: int|
                {
                    &&& #[trigger] ends_at(old(self)@, final(self)@, code, stop)
                    &&& forall|j: int| #[trigger]
                        before_stop(j, stop) ==> exists|r: &mut V|
                            *r == old(self)@[j] && *final(r) == final(self)@[j]
                                && #[trigger] call_ensures(
                                    V::visit_thread_team_begin_event,
                                    (r, location_id, time, attributes, thread_team),
                                    CallbackCode::Success,
                                )
                    &&& stop < old(self)@.len() ==> exists|r: &mut V|
                        *r == old(self)@[stop] && *final(r) == final(self)@[stop]
                            && #[trigger] call_ensures(
                                V::visit_thread_team_begin_event,
                                (r, location_id, time, attributes, thread_team),
                                code,
                            )
                },
    {
        let call = |visitor: &mut V| -> (code: CallbackCode)
            ensures
                exists|r: &mut V|
                    *r == *old(visitor) && *final(r) == *final(visitor)
                        && #[trigger] call_ensures(
                            V::visit_thread_team_begin_event,
                            (r, location_id, time, attributes, thread_team),
                            code,
                        ),
            {
                visitor.visit_thread_team_begin_event(
                    location_id,
                    time,
                    attributes,
                    thread_team,
                )
            };
        self.fan(call)
    }

    fn visit_thread_team_end_event(
        &mut self,
        location_id: LocationRef,
        time: TimeStamp,
        attributes: &[(AttributeRef, AttributeValue)],
        thread_team: CommRef,
    ) -> (code: CallbackCode)
        ensures
            exists|stop: int|
                {
                    &&& #[trigger] ends_at(old(self)@, final(self)@, code, stop)
                    &&& forall|j: int| #[trigger]
                        before_stop(j, stop) ==> exists|r: &mut V|
                            *r == old(self)@[j] && *final(r) == final(self)@[j]
                                && #[trigger] call_ensures(
                                    V::visit_thread_team_end_event,
                                    (r, location_id, time, attributes, thread_team),
                                    CallbackCode::Success,
                                )
                    &&& stop < old(self)@.len() ==> exists|r: &mut V|
                        *r == old(self)@[stop] && *final(r) == final(self)@[stop]
                            && #[trigger] call_ensures(
                                V::visit_thread_team_end_event,
                                (r, location_id, time, attributes, thread_team),
                                code,
                            )
                },
    {
        let call = |visitor: &mut V| -> (code: CallbackCode)
            ensures
                exists|r: &mut V|
                    *r == *old(visitor) && *final(r) == *final(visitor)
                        && #[trigger] call_ensures(
                            V::visit_thread_team_end_event,
                            (r, location_id, time, attributes, thread_team),
                            code,
                        ),
            {
                visitor.visit_thread_team_end_event(
                    location_id,
                    time,
                    attributes,
                    thread_team,
                )
            };
        self.fan(call)
    }

    fn visit_thread_acquire_lock_event(
        &mut self,
        location_id: LocationRef,
        time: TimeStamp,
        attributes: &[(AttributeRef, AttributeValue)],
        model: Paradigm,
        lock_id: u32,
        acquisition_order: u32,
    ) -> (code: CallbackCode)
        ensures
            exists|stop: int|
                {
                    &&& #[trigger] ends_at(old(self)@, final(self)@, code, stop)
                    &&& forall|j: int| #[trigger]
                        before_stop(j, stop) ==> exists|r: &mut V|
                            *r == old(self)@[j] && *final(r) == final(self)@[j]
                                && #[trigger] call_ensures(
                                    V::visit_thread_acquire_lock_event,
                                    (
                                        r,
                                        location_id,
                                        time,
                                        attributes,
                                        model,
                                        lock_id,
                                        acquisition_order,
                                    ),
                                    CallbackCode::Success,
                                )
                    &&& stop < old(self)@.len() ==> exists|r: &mut V|
                        *r == old(self)@[stop] && *final(r) == final(self)@[stop]
                            && #[trigger] call_ensures(
                                V::visit_thread_acquire_lock_event,
                                (
                                    r,
                                    location_id,
                                    time,
                                    attributes,
                                    model,
                                    lock_id,
                                    acquisition_order,
                                ),
                                code,
                            )
                },
    {
        let call = |visitor: &mut V| -> (code: CallbackCode)
            ensures
                exists|r: &mut V|
                    *r == *old(visitor) && *final(r) == *final(visitor)
                        && #[trigger] call_ensures(
                            V::visit_thread_acquire_lock_event,
                            (r, location_id, time, attributes, model, lock_id, acquisition_order),
                            code,
                        ),
            {
                visitor.visit_thread_acquire_lock_event(
                    location_id,
                    time,
                    attributes,
                    model,
                    lock_id,
                    acquisition_order,
                )
            };
        self.fan(call)
    }

    fn visit_thread_release_lock_event(
        &mut self,
        location_id: LocationRef,
        time: TimeStamp,
        attributes: &[(AttributeRef, AttributeValue)],
        model: Paradigm,
        lock_id: u32,
        acquisition_order: u32,
    ) -> (code: CallbackCode)
        ensures
            exists|stop: int|
                {
                    &&& #[trigger] ends_at(old(self)@, final(self)@, code, stop)
                    &&& forall|j: int| #[trigger]
                        before_stop(j, stop) ==> exists|r: &mut V|
                            *r == old(self)@[j] && *final(r) == final(self)@[j]
                                && #[trigger] call_ensures(
                                    V::visit_thread_release_lock_event,
                                    (
                                        r,
                                        location_id,
                                        time,
                                        attributes,
                                        model,
                                        lock_id,
                                        acquisition_order,
                                    ),
                                    CallbackCode::Success,
                                )
                    &&& stop < old(self)@.len() ==> exists|r: &mut V|
                        *r == old(self)@[stop] && *final(r) == final(self)@[stop]
                            && #[trigger] call_ensures(
                                V::visit_thread_release_lock_event,
                                (
                                    r,
                                    location_id,
                                    time,
                                    attributes,
                                    model,
                                    lock_id,
                                    acquisition_order,
                                ),
                                code,
                            )
                },
    {
        let call = |visitor: &mut V| -> (code: CallbackCode)
            ensures
                exists|r: &mut V|
                    *r == *old(visitor) && *final(r) == *final(visitor)
                        && #[trigger] call_ensures(
                            V::visit_thread_release_lock_event,
                            (r, location_id, time, attributes, model, lock_id, acquisition_order),
                            code,
                        ),
            {
                visitor.visit_thread_release_lock_event(
                    location_id,
                    time,
                    attributes,
                    model,
                    lock_id,
                    acquisition_order,
                )
            };
        self.fan(call)
    }

    fn visit_thread_task_create_event(
        &mut self,
        location_id: LocationRef,
        time: TimeStamp,
        attributes: &[(AttributeRef, AttributeValue)],
        thread_team: CommRef,
        creating_thread: u32,
        generation_number: u32,
    ) -> (code: CallbackCode)
        ensures
            exists|stop: int|
                {
                    &&& #[trigger] ends_at(old(self)@, final(self)@, code, stop)
                    &&& forall|j: int| #[trigger]
                        before_stop(j, stop) ==> exists|r: &mut V|
                            *r == old(self)@[j] && *final(r) == final(self)@[j]
                                && #[trigger] call_ensures(
                                    V::visit_thread_task_create_event,
                                    (
                                        r,
                                        location_id,
                                        time,
                                        attributes,
                                        thread_team,
                                        creating_thread,
                                        generation_number,
                                    ),
                                    CallbackCode::Success,
                                )
                    &&& stop < old(self)@.len() ==> exists|r: &mut V|
                        *r == old(self)@[stop] && *final(r) == final(self)@[stop]
                            && #[trigger] call_ensures(
                                V::visit_thread_task_create_event,
                                (
                                    r,
                                    location_id,
                                    time,
                                    attributes,
                                    thread_team,
                                    creating_thread,
                                    generation_number,
                                ),
                                code,
                            )
                },
    {
        let call = |visitor: &mut V| -> (code: CallbackCode)
            ensures
                exists|r: &mut V|
                    *r == *old(visitor) && *final(r) == *final(visitor)
                        && #[trigger] call_ensures(
                            V::visit_thread_task_create_event,
                            (
                                r,
                                location_id,
                                time,
                                attributes,
                                thread_team,
                                creating_thread,
                                generation_number,
                            ),
                            code,
                        ),
            {
                visitor.visit_thread_task_create_event(
                    location_id,
                    time,
                    attributes,
                    thread_team,
                    creating_thread,
                    generation_number,
                )
            };
        self.fan(call)
    }

    fn visit_thread_task_switch_event(
        &mut self,
        location_id: LocationRef,
        time: TimeStamp,
        attributes: &[(AttributeRef, AttributeValue)],
        thread_team: CommRef,
        creating_thread: u32,
        generation_number: u32,
    ) -> (code: CallbackCode)
        ensures
            exists|stop: int|
                {
                    &&& #[trigger] ends_at(old(self)@, final(self)@, code, stop)
                    &&& forall|j: int| #[trigger]
                        before_stop(j, stop) ==> exists|r: &mut V|
                            *r == old(self)@[j] && *final(r) == final(self)@[j]
                                && #[trigger] call_ensures(
                                    V::visit_thread_task_switch_event,
                                    (
                                        r,
                                        location_id,
                                        time,
                                        attributes,
                                        thread_team,
                                        creating_thread,
                                        generation_number,
                                    ),
                                    CallbackCode::Success,
                                )
                    &&& stop < old(self)@.len() ==> exists|r: &mut V|
                        *r == old(self)@[stop] && *final(r) == final(self)@[stop]
                            && #[trigger] call_ensures(
                                V::visit_thread_task_switch_event,
                                (
                                    r,
                                    location_id,
                                    time,
                                    attributes,
                                    thread_team,
                                    creating_thread,
                                    generation_number,
                                ),
                                code,
                            )
                },
    {
        let call = |visitor: &mut V| -> (code: CallbackCode)
            ensures
                exists|r: &mut V|
                    *r == *old(visitor) && *final(r) == *final(visitor)
                        && #[trigger] call_ensures(
                            V::visit_thread_task_switch_event,
                            (
                                r,
                                location_id,
                                time,
                                attributes,
                                thread_team,
                                creating_thread,
                                generation_number,
                            ),
                            code,
                        ),
            {
                visitor.visit_thread_task_switch_event(
                    location_id,
                    time,
                    attributes,
                    thread_team,
                    creating_thread,
                    generation_number,
                )
            };
        self.fan(call)
    }

    fn visit_thread_task_complete_event(
        &mut self,
        location_id: LocationRef,
        time: TimeStamp,
        attributes: &[(AttributeRef, AttributeValue)],
        thread_team: CommRef,
        creating_thread: u32,
        generation_number: u32,
    ) -> (code: CallbackCode)
        ensures
            exists|stop: int|
                {
                    &&& #[trigger] ends_at(old(self)@, final(self)@, code, stop)
                    &&& forall|j: int| #[trigger]
                        before_stop(j, stop) ==> exists|r: &mut V|
                            *r == old(self)@[j] && *final(r) == final(self)@[j]
                                && #[trigger] call_ensures(
                                    V::visit_thread_task_complete_event,
                                    (
                                        r,
                                        location_id,
                                        time,
                                        attributes,
                                        thread_team,
                                        creating_thread,
                                        generation_number,
                                    ),
                                    CallbackCode::Success,
                                )
                    &&& stop < old(self)@.len() ==> exists|r: &mut V|
                        *r == old(self)@[stop] && *final(r) == final(self)@[stop]
                            && #[trigger] call_ensures(
                                V::visit_thread_task_complete_event,
                                (
                                    r,
                                    location_id,
                                    time,
                                    attributes,
                                    thread_team,
                                    creating_thread,
                                    generation_number,
                                ),
                                code,
                            )
                },
    {
        let call = |visitor: &mut V| -> (code: CallbackCode)
            ensures
                exists|r: &mut V|
                    *r == *old(visitor) && *final(r) == *final(visitor)
                        && #[trigger] call_ensures(
                            V::visit_thread_task_complete_event,
                            (
                                r,
                                location_id,
                                time,
                                attributes,
                                thread_team,
                                creating_thread,
                                generation_number,
                            ),
                            code,
                        ),
            {
                visitor.visit_thread_task_complete_event(
                    location_id,
                    time,
                    attributes,
                    thread_team,
                    creating_thread,
                    generation_number,
                )
            };
        self.fan(call)
    }

    fn visit_thread_create_event(
        &mut self,
        location_id: LocationRef,
        time: TimeStamp,
        attributes: &[(AttributeRef, AttributeValue)],
        thread_contingent: CommRef,
        sequence_count: u64,
    ) -> (code: CallbackCode)
        ensures
            exists|stop: int|
                {
                    &&& #[trigger] ends_at(old(self)@, final(self)@, code, stop)
                    &&& forall|j: int| #[trigger]
                        before_stop(j, stop) ==> exists|r: &mut V|
                            *r == old(self)@[j] && *final(r) == final(self)@[j]
                                && #[trigger] call_ensures(
                                    V::visit_thread_create_event,
                                    (
                                        r,
                                        location_id,
                                        time,
                                        attributes,
                                        thread_contingent,
                                        sequence_count,
                                    ),
                                    CallbackCode::Success,
                                )
                    &&& stop < old(self)@.len() ==> exists|r: &mut V|
                        *r == old(self)@[stop] && *final(r) == final(self)@[stop]
                            && #[trigger] call_ensures(
                                V::visit_thread_create_event,
                                (
                                    r,
                                    location_id,
                                    time,
                                    attributes,
                                    thread_contingent,
                                    sequence_count,
                                ),
                                code,
                            )
                },
    {
        let call = |visitor: &mut V| -> (code: CallbackCode)
            ensures
                exists|r: &mut V|
                    *r == *old(visitor) && *final(r) == *final(visitor)
                        && #[trigger] call_ensures(
                            V::visit_thread_create_event,
                            (r, location_id, time, attributes, thread_contingent, sequence_count),
                            code,
                        ),
            {
                visitor.visit_thread_create_event(
                    location_id,
                    time,
                    attributes,
                    thread_contingent,
                    sequence_count,
                )
            };
        self.fan(call)
    }

    fn visit_thread_begin_event(
        &mut self,
        location_id: LocationRef,
        time: TimeStamp,
        attributes: &[(AttributeRef, AttributeValue)],
        thread_contingent: CommRef,
        sequence_count: u64,
    ) -> (code: CallbackCode)
        ensures
            exists|stop: int|
                {
                    &&& #[trigger] ends_at(old(self)@, final(self)@, code, stop)
                    &&& forall|j: int| #[trigger]
                        before_stop(j, stop) ==> exists|r: &mut V|
                            *r == old(self)@[j] && *final(r) == final(self)@[j]
                                && #[trigger] call_ensures(
                                    V::visit_thread_begin_event,
                                    (
                                        r,
                                        location_id,
                                        time,
                                        attributes,
                                        thread_contingent,
                                        sequence_count,
                                    ),
                                    CallbackCode::Success,
                                )
                    &&& stop < old(self)@.len() ==> exists|r: &mut V|
                        *r == old(self)@[stop] && *final(r) == final(self)@[stop]
                            && #[trigger] call_ensures(
                                V::visit_thread_begin_event,
                                (
                                    r,
                                    location_id,
                                    time,
                                    attributes,
                                    thread_contingent,
                                    sequence_count,
                                ),
                                code,
                            )
                },
    {
        let call = |visitor: &mut V| -> (code: CallbackCode)
            ensures
                exists|r: &mut V|
                    *r == *old(visitor) && *final(r) == *final(visitor)
                        && #[trigger] call_ensures(
                            V::visit_thread_begin_event,
                            (r, location_id, time, attributes, thread_contingent, sequence_count),
                            code,
                        ),
            {
                visitor.visit_thread_begin_event(
                    location_id,
                    time,
                    attributes,
                    thread_contingent,
                    sequence_count,
                )
            };
        self.fan(call)
    }

    fn visit_thread_wait_event(
        &mut self,
        location_id: LocationRef,
        time: TimeStamp,
        attributes: &[(AttributeRef, AttributeValue)],
        thread_contingent: CommRef,
        sequence_count: u64,
    ) -> (code: CallbackCode)
        ensures
            exists|stop: int|
                {
                    &&& #[trigger] ends_at(old(self)@, final(self)@, code, stop)
                    &&& forall|j: int| #[trigger]
                        before_stop(j, stop) ==> exists|r: &mut V|
                            *r == old(self)@[j] && *final(r) == final(self)@[j]
                                && #[trigger] call_ensures(
                                    V::visit_thread_wait_event,
                                    (
                                        r,
                                        location_id,
                                        time,
                                        attributes,
                                        thread_contingent,
                                        sequence_count,
                                    ),
                                    CallbackCode::Success,
                                )
                    &&& stop < old(self)@.len() ==> exists|r: &mut V|
                        *r == old(self)@[stop] && *final(r) == final(self)@[stop]
                            && #[trigger] call_ensures(
                                V::visit_thread_wait_event,
                                (
                                    r,
                                    location_id,
                                    time,
                                    attributes,
                                    thread_contingent,
                                    sequence_count,
                                ),
                                code,
                            )
                },
    {
        let call = |visitor: &mut V| -> (code: CallbackCode)
            ensures
                exists|r: &mut V|
                    *r == *old(visitor) && *final(r) == *final(visitor)
                        && #[trigger] call_ensures(
                            V::visit_thread_wait_event,
                            (r, location_id, time, attributes, thread_contingent, sequence_count),
                            code,
                        ),
            {
                visitor.visit_thread_wait_event(
                    location_id,
                    time,
                    attributes,
                    thread_contingent,
                    sequence_count,
                )
            };
        self.fan(call)
    }

    fn visit_thread_end_event(
        &mut self,
        location_id: LocationRef,
        time: TimeStamp,
        attributes: &[(AttributeRef, AttributeValue)],
        thread_contingent: CommRef,
        sequence_count: u64,
    ) -> (code: CallbackCode)
        ensures
            exists|stop: int|
                {
                    &&& #[trigger] ends_at(old(self)@, final(self)@, code, stop)
                    &&& forall|j: int| #[trigger]
                        before_stop(j, stop) ==> exists|r: &mut V|
                            *r == old(self)@[j] && *final(r) == final(self)@[j]
                                && #[trigger] call_ensures(
                                    V::visit_thread_end_event,
                                    (
                                        r,
                                        location_id,
                                        time,
                                        attributes,
                                        thread_contingent,
                                        sequence_count,
                                    ),
                                    CallbackCode::Success,
                                )
                    &&& stop < old(self)@.len() ==> exists|r: &mut V|
                        *r == old(self)@[stop] && *final(r) == final(self)@[stop]
                            && #[trigger] call_ensures(
                                V::visit_thread_end_event,
                                (
                                    r,
                                    location_id,
                                    time,
                                    attributes,
                                    thread_contingent,
                                    sequence_count,
                                ),
                                code,
                            )
                },
    {
        let call = |visitor: &mut V| -> (code: CallbackCode)
            ensures
                exists|r: &mut V|
                    *r == *old(visitor) && *final(r) == *final(visitor)
                        && #[trigger] call_ensures(
                            V::visit_thread_end_event,
                            (r, location_id, time, attributes, thread_contingent, sequence_count),
                            code,
                        ),
            {
                visitor.visit_thread_end_event(
                    location_id,
                    time,
                    attributes,
                    thread_contingent,
                    sequence_count,
                )
            };
        self.fan(call)
    }

    fn visit_calling_context_enter_event(
        &mut self,
        location_id: LocationRef,
        time: TimeStamp,
        attributes: &[(AttributeRef, AttributeValue)],
        calling_context: CallingContextRef,
        unwind_distance: u32,
    ) -> (code: CallbackCode)
        ensures
            exists|stop: int|
                {
                    &&& #[trigger] ends_at(old(self)@, final(self)@, code, stop)
                    &&& forall|j: int| #[trigger]
                        before_stop(j, stop) ==> exists|r: &mut V|
                            *r == old(self)@[j] && *final(r) == final(self)@[j]
                                && #[trigger] call_ensures(
                                    V::visit_calling_context_enter_event,
                                    (
                                        r,
                                        location_id,
                                        time,
                                        attributes,
                                        calling_context,
                                        unwind_distance,
                                    ),
                                    CallbackCode::Success,
                                )
                    &&& stop < old(self)@.len() ==> exists|r: &mut V|
                        *r == old(self)@[stop] && *final(r) == final(self)@[stop]
                            && #[trigger] call_ensures(
                                V::visit_calling_context_enter_event,
                                (
                                    r,
                                    location_id,
                                    time,
                                    attributes,
                                    calling_context,
                                    unwind_distance,
                                ),
                                code,
                            )
                },
    {
        let call = |visitor: &mut V| -> (code: CallbackCode)
            ensures
                exists|r: &mut V|
                    *r == *old(visitor) && *final(r) == *final(visitor)
                        && #[trigger] call_ensures(
                            V::visit_calling_context_enter_event,
                            (r, location_id, time, attributes, calling_context, unwind_distance),
                            code,
                        ),
            {
                visitor.visit_calling_context_enter_event(
                    location_id,
                    time,
                    attributes,
                    calling_context,
                    unwind_distance,
                )
            };
        self.fan(call)
    }

    fn visit_calling_context_leave_event(
        &mut self,
        location_id: LocationRef,
        time: TimeStamp,
        attributes: &[(AttributeRef, AttributeValue)],
        calling_context: CallingContextRef,
    ) -> (code: CallbackCode)
        ensures
            exists|stop: int|
                {
                    &&& #[trigger] ends_at(old(self)@, final(self)@, code, stop)
                    &&& forall|j: int| #[trigger]
                        before_stop(j, stop) ==> exists|r: &mut V|
                            *r == old(self)@[j] && *final(r) == final(self)@[j]
                                && #[trigger] call_ensures(
                                    V::visit_calling_context_leave_event,
                                    (r, location_id, time, attributes, calling_context),
                                    CallbackCode::Success,
                                )
                    &&& stop < old(self)@.len() ==> exists|r: &mut V|
                        *r == old(self)@[stop] && *final(r) == final(self)@[stop]
                            && #[trigger] call_ensures(
                                V::visit_calling_context_leave_event,
                                (r, location_id, time, attributes, calling_context),
                                code,
                            )
                },
    {
        let call = |visitor: &mut V| -> (code: CallbackCode)
            ensures
                exists|r: &mut V|
                    *r == *old(visitor) && *final(r) == *final(visitor)
                        && #[trigger] call_ensures(
                            V::visit_calling_context_leave_event,
                            (r, location_id, time, attributes, calling_context),
                            code,
                        ),
            {
                visitor.visit_calling_context_leave_event(
                    location_id,
                    time,
                    attributes,
                    calling_context,
                )
            };
        self.fan(call)
    }

    fn visit_calling_context_sample_event(
        &mut self,
        location_id: LocationRef,
        time: TimeStamp,
        attributes: &[(AttributeRef, AttributeValue)],
        calling_context: CallingContextRef,
        unwind_distance: u32,
        interrupt_generator: InterruptGeneratorRef,
    ) -> (code: CallbackCode)
        ensures
            exists|stop: int|
                {
                    &&& #[trigger] ends_at(old(self)@, final(self)@, code, stop)
                    &&& forall|j: int| #[trigger]
                        before_stop(j, stop) ==> exists|r: &mut V|
                            *r == old(self)@[j] && *final(r) == final(self)@[j]
                                && #[trigger] call_ensures(
                                    V::visit_calling_context_sample_event,
                                    (
                                        r,
                                        location_id,
                                        time,
                                        attributes,
                                        calling_context,
                                        unwind_distance,
                                        interrupt_generator,
                                    ),
                                    CallbackCode::Success,
                                )
                    &&& stop < old(self)@.len() ==> exists|r: &mut V|
                        *r == old(self)@[stop] && *final(r) == final(self)@[stop]
                            && #[trigger] call_ensures(
                                V::visit_calling_context_sample_event,
                                (
                                    r,
                                    location_id,
                                    time,
                                    attributes,
                                    calling_context,
                                    unwind_distance,
                                    interrupt_generator,
                                ),
                                code,
                            )
                },
    {
        let call = |visitor: &mut V| -> (code: CallbackCode)
            ensures
                exists|r: &mut V|
                    *r == *old(visitor) && *final(r) == *final(visitor)
                        && #[trigger] call_ensures(
                            V::visit_calling_context_sample_event,
                            (
                                r,
                                location_id,
                                time,
                                attributes,
                                calling_context,
                                unwind_distance,
                                interrupt_generator,
                            ),
                            code,
                        ),
            {
                visitor.visit_calling_context_sample_event(
                    location_id,
                    time,
                    attributes,
                    calling_context,
                    unwind_distance,
                    interrupt_generator,
                )
            };
        self.fan(call)
    }

    fn visit_io_create_handle_event(
        &mut self,
        location_id: LocationRef,
        time: TimeStamp,
        attributes: &[(AttributeRef, AttributeValue)],
        handle: IoHandleRef,
        mode: IoAccessMode,
        creation_flags: IoCreationFlag,
        status_flags: IoStatusFlag,
    ) -> (code: CallbackCode)
        ensures
            exists|stop: int|
                {
                    &&& #[trigger] ends_at(old(self)@, final(self)@, code, stop)
                    &&& forall|j: int| #[trigger]
                        before_stop(j, stop) ==> exists|r: &mut V|
                            *r == old(self)@[j] && *final(r) == final(self)@[j]
                                && #[trigger] call_ensures(
                                    V::visit_io_create_handle_event,
                                    (
                                        r,
                                        location_id,
                                        time,
                                        attributes,
                                        handle,
                                        mode,
                                        creation_flags,
                                        status_flags,
                                    ),
                                    CallbackCode::Success,
                                )
                    &&& stop < old(self)@.len() ==> exists|r: &mut V|
                        *r == old(self)@[stop] && *final(r) == final(self)@[stop]
                            && #[trigger] call_ensures(
                                V::visit_io_create_handle_event,
                                (
                                    r,
                                    location_id,
                                    time,
                                    attributes,
                                    handle,
                                    mode,
                                    creation_flags,
                                    status_flags,
                                ),
                                code,
                            )
                },
    {
        let call = |visitor: &mut V| -> (code: CallbackCode)
            ensures
                exists|r: &mut V|
                    *r == *old(visitor) && *final(r) == *final(visitor)
                        && #[trigger] call_ensures(
                            V::visit_io_create_handle_event,
                            (
                                r,
                                location_id,
                                time,
                                attributes,
                                handle,
                                mode,
                                creation_flags,
                                status_flags,
                            ),
                            code,
                        ),
            {
                visitor.visit_io_create_handle_event(
                    location_id,
                    time,
                    attributes,
                    handle,
                    mode,
                    creation_flags,
                    status_flags,
                )
            };
        self.fan(call)
    }

    fn visit_io_destroy_handle_event(
        &mut self,
        location_id: LocationRef,
        time: TimeStamp,
        attributes: &[(AttributeRef, AttributeValue)],
        handle: IoHandleRef,
    ) -> (code: CallbackCode)
        ensures
            exists|stop: int|
                {
                    &&& #[trigger] ends_at(old(self)@, final(self)@, code, stop)
                    &&& forall|j: int| #[trigger]
                        before_stop(j, stop) ==> exists|r: &mut V|
                            *r == old(self)@[j] && *final(r) == final(self)@[j]
                                && #[trigger] call_ensures(
                                    V::visit_io_destroy_handle_event,
                                    (r, location_id, time, attributes, handle),
                                    CallbackCode::Success,
                                )
                    &&& stop < old(self)@.len() ==> exists|r: &mut V|
                        *r == old(self)@[stop] && *final(r) == final(self)@[stop]
                            && #[trigger] call_ensures(
                                V::visit_io_destroy_handle_event,
                                (r, location_id, time, attributes, handle),
                                code,
                            )
                },
    {
        let call = |visitor: &mut V| -> (code: CallbackCode)
            ensures
                exists|r: &mut V|
                    *r == *old(visitor) && *final(r) == *final(visitor)
                        && #[trigger] call_ensures(
                            V::visit_io_destroy_handle_event,
                            (r, location_id, time, attributes, handle),
                            code,
                        ),
            {
                visitor.visit_io_destroy_handle_event(
                    location_id,
                    time,
                    attributes,
                    handle,
                )
            };
        self.fan(call)
    }

    fn visit_io_duplicate_handle_event(
        &mut self,
        location_id: LocationRef,
        time: TimeStamp,
        attributes: &[(AttributeRef, AttributeValue)],
        old_handle: IoHandleRef,
        new_handle: IoHandleRef,
        status_flags: IoStatusFlag,
    ) -> (code: CallbackCode)
        ensures
            exists|stop: int|
                {
                    &&& #[trigger] ends_at(old(self)@, final(self)@, code, stop)
                    &&& forall|j: int| #[trigger]
                        before_stop(j, stop) ==> exists|r: &mut V|
                            *r == old(self)@[j] && *final(r) == final(self)@[j]
                                && #[trigger] call_ensures(
                                    V::visit_io_duplicate_handle_event,
                                    (
                                        r,
                                        location_id,
                                        time,
                                        attributes,
                                        old_handle,
                                        new_handle,
                                        status_flags,
                                    ),
                                    CallbackCode::Success,
                                )
                    &&& stop < old(self)@.len() ==> exists|r: &mut V|
                        *r == old(self)@[stop] && *final(r) == final(self)@[stop]
                            && #[trigger] call_ensures(
                                V::visit_io_duplicate_handle_event,
                                (
                                    r,
                                    location_id,
                                    time,
                                    attributes,
                                    old_handle,
                                    new_handle,
                                    status_flags,
                                ),
                                code,
                            )
                },
    {
        let call = |visitor: &mut V| -> (code: CallbackCode)
            ensures
                exists|r: &mut V|
                    *r == *old(visitor) && *final(r) == *final(visitor)
                        && #[trigger] call_ensures(
                            V::visit_io_duplicate_handle_event,
                            (
                                r,
                                location_id,
                                time,
                                attributes,
                                old_handle,
                                new_handle,
                                status_flags,
                            ),
                            code,
                        ),
            {
                visitor.visit_io_duplicate_handle_event(
                    location_id,
                    time,
                    attributes,
                    old_handle,
                    new_handle,
                    status_flags,
                )
            };
        self.fan(call)
    }

    fn visit_io_seek_event(
        &mut self,
        location_id: LocationRef,
        time: TimeStamp,
        attributes: &[(AttributeRef, AttributeValue)],
        handle: IoHandleRef,
        offset_request: i64,
        whence: IoSeekOption,
        offset_result: u64,
    ) -> (code: CallbackCode)
        ensures
            exists|stop: int|
                {
                    &&& #[trigger] ends_at(old(self)@, final(self)@, code, stop)
                    &&& forall|j: int| #[trigger]
                        before_stop(j, stop) ==> exists|r: &mut V|
                            *r == old(self)@[j] && *final(r) == final(self)@[j]
                                && #[trigger] call_ensures(
                                    V::visit_io_seek_event,
                                    (
                                        r,
                                        location_id,
                                        time,
                                        attributes,
                                        handle,
                                        offset_request,
                                        whence,
                                        offset_result,
                                    ),
                                    CallbackCode::Success,
                                )
                    &&& stop < old(self)@.len() ==> exists|r: &mut V|
                        *r == old(self)@[stop] && *final(r) == final(self)@[stop]
                            && #[trigger] call_ensures(
                                V::visit_io_seek_event,
                                (
                                    r,
                                    location_id,
                                    time,
                                    attributes,
                                    handle,
                                    offset_request,
                                    whence,
                                    offset_result,
                                ),
                                code,
                            )
                },
    {
        let call = |visitor: &mut V| -> (code: CallbackCode)
            ensures
                exists|r: &mut V|
                    *r == *old(visitor) && *final(r) == *final(visitor)
                        && #[trigger] call_ensures(
                            V::visit_io_seek_event,
                            (
                                r,
                                location_id,
                                time,
                                attributes,
                                handle,
                                offset_request,
                                whence,
                                offset_result,
                            ),
                            code,
                        ),
            {
                visitor.visit_io_seek_event(
                    location_id,
                    time,
                    attributes,
                    handle,
                    offset_request,
                    whence,
                    offset_result,
                )
            };
        self.fan(call)
    }

    fn visit_io_change_status_flags_event(
        &mut self,
        location_id: LocationRef,
        time: TimeStamp,
        attributes: &[(AttributeRef, AttributeValue)],
        handle: IoHandleRef,
        status_flags: IoStatusFlag,
    ) -> (code: CallbackCode)
        ensures
            exists|stop: int|
                {
                    &&& #[trigger] ends_at(old(self)@, final(self)@, code, stop)
                    &&& forall|j: int| #[trigger]
                        before_stop(j, stop) ==> exists|r: &mut V|
                            *r == old(self)@[j] && *final(r) == final(self)@[j]
                                && #[trigger] call_ensures(
                                    V::visit_io_change_status_flags_event,
                                    (r, location_id, time, attributes, handle, status_flags),
                                    CallbackCode::Success,
                                )
                    &&& stop < old(self)@.len() ==> exists|r: &mut V|
                        *r == old(self)@[stop] && *final(r) == final(self)@[stop]
                            && #[trigger] call_ensures(
                                V::visit_io_change_status_flags_event,
                                (r, location_id, time, attributes, handle, status_flags),
                                code,
                            )
                },
    {
        let call = |visitor: &mut V| -> (code: CallbackCode)
            ensures
                exists|r: &mut V|
                    *r == *old(visitor) && *final(r) == *final(visitor)
                        && #[trigger] call_ensures(
                            V::visit_io_change_status_flags_event,
                            (r, location_id, time, attributes, handle, status_flags),
                            code,
                        ),
            {
                visitor.visit_io_change_status_flags_event(
                    location_id,
                    time,
                    attributes,
                    handle,
                    status_flags,
                )
            };
        self.fan(call)
    }

    fn visit_io_delete_file_event(
        &mut self,
        location_id: LocationRef,
        time: TimeStamp,
        attributes: &[(AttributeRef, AttributeValue)],
        io_paradigm: IoParadigmRef,
        file: IoFileRef,
    ) -> (code: CallbackCode)
        ensures
            exists|stop: int|
                {
                    &&& #[trigger] ends_at(old(self)@, final(self)@, code, stop)
                    &&& forall|j: int| #[trigger]
                        before_stop(j, stop) ==> exists|r: &mut V|
                            *r == old(self)@[j] && *final(r) == final(self)@[j]
                                && #[trigger] call_ensures(
                                    V::visit_io_delete_file_event,
                                    (r, location_id, time, attributes, io_paradigm, file),
                                    CallbackCode::Success,
                                )
                    &&& stop < old(self)@.len() ==> exists|r: &mut V|
                        *r == old(self)@[stop] && *final(r) == final(self)@[stop]
                            && #[trigger] call_ensures(
                                V::visit_io_delete_file_event,
                                (r, location_id, time, attributes, io_paradigm, file),
                                code,
                            )
                },
    {
        let call = |visitor: &mut V| -> (code: CallbackCode)
            ensures
                exists|r: &mut V|
                    *r == *old(visitor) && *final(r) == *final(visitor)
                        && #[trigger] call_ensures(
                            V::visit_io_delete_file_event,
                            (r, location_id, time, attributes, io_paradigm, file),
                            code,
                        ),
            {
                visitor.visit_io_delete_file_event(
                    location_id,
                    time,
                    attributes,
                    io_paradigm,
                    file,
                )
            };
        self.fan(call)
    }

    fn visit_io_operation_begin_event(
        &mut self,
        location_id: LocationRef,
        time: TimeStamp,
        attributes: &[(AttributeRef, AttributeValue)],
        handle: IoHandleRef,
        mode: IoOperationMode,
        operation_flags: IoOperationFlag,
        bytes_request: u64,
        matching_id: u64,
    ) -> (code: CallbackCode)
        ensures
            exists|stop: int|
                {
                    &&& #[trigger] ends_at(old(self)@, final(self)@, code, stop)
                    &&& forall|j: int| #[trigger]
                        before_stop(j, stop) ==> exists|r: &mut V|
                            *r == old(self)@[j] && *final(r) == final(self)@[j]
                                && #[trigger] call_ensures(
                                    V::visit_io_operation_begin_event,
                                    (
                                        r,
                                        location_id,
                                        time,
                                        attributes,
                                        handle,
                                        mode,
                                        operation_flags,
                                        bytes_request,
                                        matching_id,
                                    ),
                                    CallbackCode::Success,
                                )
                    &&& stop < old(self)@.len() ==> exists|r: &mut V|
                        *r == old(self)@[stop] && *final(r) == final(self)@[stop]
                            && #[trigger] call_ensures(
                                V::visit_io_operation_begin_event,
                                (
                                    r,
                                    location_id,
                                    time,
                                    attributes,
                                    handle,
                                    mode,
                                    operation_flags,
                                    bytes_request,
                                    matching_id,
                                ),
                                code,
                            )
                },
    {
        let call = |visitor: &mut V| -> (code: CallbackCode)
            ensures
                exists|r: &mut V|
                    *r == *old(visitor) && *final(r) == *final(visitor)
                        && #[trigger] call_ensures(
                            V::visit_io_operation_begin_event,
                            (
                                r,
                                location_id,
                                time,
                                attributes,
                                handle,
                                mode,
                                operation_flags,
                                bytes_request,
                                matching_id,
                            ),
                            code,
                        ),
            {
                visitor.visit_io_operation_begin_event(
                    location_id,
                    time,
                    attributes,
                    handle,
                    mode,
                    operation_flags,
                    bytes_request,
                    matching_id,
                )
            };
        self.fan(call)
    }

    fn visit_io_operation_test_event(
        &mut self,
        location_id: LocationRef,
        time: TimeStamp,
        attributes: &[(AttributeRef, AttributeValue)],
        handle: IoHandleRef,
        matching_id: u64,
    ) -> (code: CallbackCode)
        ensures
            exists|stop: int|
                {
                    &&& #[trigger] ends_at(old(self)@, final(self)@, code, stop)
                    &&& forall|j: int| #[trigger]
                        before_stop(j, stop) ==> exists|r: &mut V|
                            *r == old(self)@[j] && *final(r) == final(self)@[j]
                                && #[trigger] call_ensures(
                                    V::visit_io_operation_test_event,
                                    (r, location_id, time, attributes, handle, matching_id),
                                    CallbackCode::Success,
                                )
                    &&& stop < old(self)@.len() ==> exists|r: &mut V|
                        *r == old(self)@[stop] && *final(r) == final(self)@[stop]
                            && #[trigger] call_ensures(
                                V::visit_io_operation_test_event,
                                (r, location_id, time, attributes, handle, matching_id),
                                code,
                            )
                },
    {
        let call = |visitor: &mut V| -> (code: CallbackCode)
            ensures
                exists|r: &mut V|
                    *r == *old(visitor) && *final(r) == *final(visitor)
                        && #[trigger] call_ensures(
                            V::visit_io_operation_test_event,
                            (r, location_id, time, attributes, handle, matching_id),
                            code,
                        ),
            {
                visitor.visit_io_operation_test_event(
                    location_id,
                    time,
                    attributes,
                    handle,
                    matching_id,
                )
            };
        self.fan(call)
    }

    fn visit_io_operation_issued_event(
        &mut self,
        location_id: LocationRef,
        time: TimeStamp,
        attributes: &[(AttributeRef, AttributeValue)],
        handle: IoHandleRef,
        matching_id: u64,
    ) -> (code: CallbackCode)
        ensures
            exists|stop: int|
                {
                    &&& #[trigger] ends_at(old(self)@, final(self)@, code, stop)
                    &&& forall|j: int| #[trigger]
                        before_stop(j, stop) ==> exists|r: &mut V|
                            *r == old(self)@[j] && *final(r) == final(self)@[j]
                                && #[trigger] call_ensures(
                                    V::visit_io_operation_issued_event,
                                    (r, location_id, time, attributes, handle, matching_id),
                                    CallbackCode::Success,
                                )
                    &&& stop < old(self)@.len() ==> exists|r: &mut V|
                        *r == old(self)@[stop] && *final(r) == final(self)@[stop]
                            && #[trigger] call_ensures(
                                V::visit_io_operation_issued_event,
                                (r, location_id, time, attributes, handle, matching_id),
                                code,
                            )
                },
    {
        let call = |visitor: &mut V| -> (code: CallbackCode)
            ensures
                exists|r: &mut V|
                    *r == *old(visitor) && *final(r) == *final(visitor)
                        && #[trigger] call_ensures(
                            V::visit_io_operation_issued_event,
                            (r, location_id, time, attributes, handle, matching_id),
                            code,
                        ),
            {
                visitor.visit_io_operation_issued_event(
                    location_id,
                    time,
                    attributes,
                    handle,
                    matching_id,
                )
            };
        self.fan(call)
    }

    fn visit_io_operation_complete_event(
        &mut self,
        location_id: LocationRef,
        time: TimeStamp,
        attributes: &[(AttributeRef, AttributeValue)],
        handle: IoHandleRef,
        bytes_result: u64,
        matching_id: u64,
    ) -> (code: CallbackCode)
        ensures
            exists|stop: int|
                {
                    &&& #[trigger] ends_at(old(self)@, final(self)@, code, stop)
                    &&& forall|j: int| #[trigger]
                        before_stop(j, stop) ==> exists|r: &mut V|
                            *r == old(self)@[j] && *final(r) == final(self)@[j]
                                && #[trigger] call_ensures(
                                    V::visit_io_operation_complete_event,
                                    (
                                        r,
                                        location_id,
                                        time,
                                        attributes,
                                        handle,
                                        bytes_result,
                                        matching_id,
                                    ),
                                    CallbackCode::Success,
                                )
                    &&& stop < old(self)@.len() ==> exists|r: &mut V|
                        *r == old(self)@[stop] && *final(r) == final(self)@[stop]
                            && #[trigger] call_ensures(
                                V::visit_io_operation_complete_event,
                                (
                                    r,
                                    location_id,
                                    time,
                                    attributes,
                                    handle,
                                    bytes_result,
                                    matching_id,
                                ),
                                code,
                            )
                },
    {
        let call = |visitor: &mut V| -> (code: CallbackCode)
            ensures
                exists|r: &mut V|
                    *r == *old(visitor) && *final(r) == *final(visitor)
                        && #[trigger] call_ensures(
                            V::visit_io_operation_complete_event,
                            (r, location_id, time, attributes, handle, bytes_result, matching_id),
                            code,
                        ),
            {
                visitor.visit_io_operation_complete_event(
                    location_id,
                    time,
                    attributes,
                    handle,
                    bytes_result,
                    matching_id,
                )
            };
        self.fan(call)
    }

    fn visit_io_operation_cancelled_event(
        &mut self,
        location_id: LocationRef,
        time: TimeStamp,
        attributes: &[(AttributeRef, AttributeValue)],
        handle: IoHandleRef,
        matching_id: u64,
    ) -> (code: CallbackCode)
        ensures
            exists|stop: int|
                {
                    &&& #[trigger] ends_at(old(self)@, final(self)@, code, stop)
                    &&& forall|j: int| #[trigger]
                        before_stop(j, stop) ==> exists|r: &mut V|
                            *r == old(self)@[j] && *final(r) == final(self)@[j]
                                && #[trigger] call_ensures(
                                    V::visit_io_operation_cancelled_event,
                                    (r, location_id, time, attributes, handle, matching_id),
                                    CallbackCode::Success,
                                )
                    &&& stop < old(self)@.len() ==> exists|r: &mut V|
                        *r == old(self)@[stop] && *final(r) == final(self)@[stop]
                            && #[trigger] call_ensures(
                                V::visit_io_operation_cancelled_event,
                                (r, location_id, time, attributes, handle, matching_id),
                                code,
                            )
                },
    {
        let call = |visitor: &mut V| -> (code: CallbackCode)
            ensures
                exists|r: &mut V|
                    *r == *old(visitor) && *final(r) == *final(visitor)
                        && #[trigger] call_ensures(
                            V::visit_io_operation_cancelled_event,
                            (r, location_id, time, attributes, handle, matching_id),
                            code,
                        ),
            {
                visitor.visit_io_operation_cancelled_event(
                    location_id,
                    time,
                    attributes,
                    handle,
                    matching_id,
                )
            };
        self.fan(call)
    }

    fn visit_io_acquire_lock_event(
        &mut self,
        location_id: LocationRef,
        time: TimeStamp,
        attributes: &[(AttributeRef, AttributeValue)],
        handle: IoHandleRef,
        lock_type: LockType,
    ) -> (code: CallbackCode)
        ensures
            exists|stop: int|
                {
                    &&& #[trigger] ends_at(old(self)@, final(self)@, code, stop)
                    &&& forall|j: int| #[trigger]
                        before_stop(j, stop) ==> exists|r: &mut V|
                            *r == old(self)@[j] && *final(r) == final(self)@[j]
                                && #[trigger] call_ensures(
                                    V::visit_io_acquire_lock_event,
                                    (r, location_id, time, attributes, handle, lock_type),
                                    CallbackCode::Success,
                                )
                    &&& stop < old(self)@.len() ==> exists|r: &mut V|
                        *r == old(self)@[stop] && *final(r) == final(self)@[stop]
                            && #[trigger] call_ensures(
                                V::visit_io_acquire_lock_event,
                                (r, location_id, time, attributes, handle, lock_type),
                                code,
                            )
                },
    {
        let call = |visitor: &mut V| -> (code: CallbackCode)
            ensures
                exists|r: &mut V|
                    *r == *old(visitor) && *final(r) == *final(visitor)
                        && #[trigger] call_ensures(
                            V::visit_io_acquire_lock_event,
                            (r, location_id, time, attributes, handle, lock_type),
                            code,
                        ),
            {
                visitor.visit_io_acquire_lock_event(
                    location_id,
                    time,
                    attributes,
                    handle,
                    lock_type,
                )
            };
        self.fan(call)
    }

    fn visit_io_release_lock_event(
        &mut self,
        location_id: LocationRef,
        time: TimeStamp,
        attributes: &[(AttributeRef, AttributeValue)],
        handle: IoHandleRef,
        lock_type: LockType,
    ) -> (code: CallbackCode)
        ensures
            exists|stop: int|
                {
                    &&& #[trigger] ends_at(old(self)@, final(self)@, code, stop)
                    &&& forall|j: int| #[trigger]
                        before_stop(j, stop) ==> exists|r: &mut V|
                            *r == old(self)@[j] && *final(r) == final(self)@[j]
                                && #[trigger] call_ensures(
                                    V::visit_io_release_lock_event,
                                    (r, location_id, time, attributes, handle, lock_type),
                                    CallbackCode::Success,
                                )
                    &&& stop < old(self)@.len() ==> exists|r: &mut V|
                        *r == old(self)@[stop] && *final(r) == final(self)@[stop]
                            && #[trigger] call_ensures(
                                V::visit_io_release_lock_event,
                                (r, location_id, time, attributes, handle, lock_type),
                                code,
                            )
                },
    {
        let call = |visitor: &mut V| -> (code: CallbackCode)
            ensures
                exists|r: &mut V|
                    *r == *old(visitor) && *final(r) == *final(visitor)
                        && #[trigger] call_ensures(
                            V::visit_io_release_lock_event,
                            (r, location_id, time, attributes, handle, lock_type),
                            code,
                        ),
            {
                visitor.visit_io_release_lock_event(
                    location_id,
                    time,
                    attributes,
                    handle,
                    lock_type,
                )
            };
        self.fan(call)
    }

    fn visit_io_try_lock_event(
        &mut self,
        location_id: LocationRef,
        time: TimeStamp,
        attributes: &[(AttributeRef, AttributeValue)],
        handle: IoHandleRef,
        lock_type: LockType,
    ) -> (code: CallbackCode)
        ensures
            exists|stop: int|
                {
                    &&& #[trigger] ends_at(old(self)@, final(self)@, code, stop)
                    &&& forall|j: int| #[trigger]
                        before_stop(j, stop) ==> exists|r: &mut V|
                            *r == old(self)@[j] && *final(r) == final(self)@[j]
                                && #[trigger] call_ensures(
                                    V::visit_io_try_lock_event,
                                    (r, location_id, time, attributes, handle, lock_type),
                                    CallbackCode::Success,
                                )
                    &&& stop < old(self)@.len() ==> exists|r: &mut V|
                        *r == old(self)@[stop] && *final(r) == final(self)@[stop]
                            && #[trigger] call_ensures(
                                V::visit_io_try_lock_event,
                                (r, location_id, time, attributes, handle, lock_type),
                                code,
                            )
                },
    {
        let call = |visitor: &mut V| -> (code: CallbackCode)
            ensures
                exists|r: &mut V|
                    *r == *old(visitor) && *final(r) == *final(visitor)
                        && #[trigger] call_ensures(
                            V::visit_io_try_lock_event,
                            (r, location_id, time, attributes, handle, lock_type),
                            code,
                        ),
            {
                visitor.visit_io_try_lock_event(
                    location_id,
                    time,
                    attributes,
                    handle,
                    lock_type,
                )
            };
        self.fan(call)
    }

    fn visit_program_begin_event(
        &mut self,
        location_id: LocationRef,
        time: TimeStamp,
        attributes: &[(AttributeRef, AttributeValue)],
        program_name: StringRef,
        program_arguments: &[StringRef],
    ) -> (code: CallbackCode)
        ensures
            exists|stop: int|
                {
                    &&& #[trigger] ends_at(old(self)@, final(self)@, code, stop)
                    &&& forall|j: int| #[trigger]
                        before_stop(j, stop) ==> exists|r: &mut V|
                            *r == old(self)@[j] && *final(r) == final(self)@[j]
                                && #[trigger] call_ensures(
                                    V::visit_program_begin_event,
                                    (
                                        r,
                                        location_id,
                                        time,
                                        attributes,
                                        program_name,
                                        program_arguments,
                                    ),
                                    CallbackCode::Success,
                                )
                    &&& stop < old(self)@.len() ==> exists|r: &mut V|
                        *r == old(self)@[stop] && *final(r) == final(self)@[stop]
                            && #[trigger] call_ensures(
                                V::visit_program_begin_event,
                                (r, location_id, time, attributes, program_name, program_arguments),
                                code,
                            )
                },
    {
        let call = |visitor: &mut V| -> (code: CallbackCode)
            ensures
                exists|r: &mut V|
                    *r == *old(visitor) && *final(r) == *final(visitor)
                        && #[trigger] call_ensures(
                            V::visit_program_begin_event,
                            (r, location_id, time, attributes, program_name, program_arguments),
                            code,
                        ),
            {
                visitor.visit_program_begin_event(
                    location_id,
                    time,
                    attributes,
                    program_name,
                    program_arguments,
                )
            };
        self.fan(call)
    }

    fn visit_program_end_event(
        &mut self,
        location_id: LocationRef,
        time: TimeStamp,
        attributes: &[(AttributeRef, AttributeValue)],
        exit_status: i64,
    ) -> (code: CallbackCode)
        ensures
            exists|stop: int|
                {
                    &&& #[trigger] ends_at(old(self)@, final(self)@, code, stop)
                    &&& forall|j: int| #[trigger]
                        before_stop(j, stop) ==> exists|r: &mut V|
                            *r == old(self)@[j] && *final(r) == final(self)@[j]
                                && #[trigger] call_ensures(
                                    V::visit_program_end_event,
                                    (r, location_id, time, attributes, exit_status),
                                    CallbackCode::Success,
                                )
                    &&& stop < old(self)@.len() ==> exists|r: &mut V|
                        *r == old(self)@[stop] && *final(r) == final(self)@[stop]
                            && #[trigger] call_ensures(
                                V::visit_program_end_event,
                                (r, location_id, time, attributes, exit_status),
                                code,
                            )
                },
    {
        let call = |visitor: &mut V| -> (code: CallbackCode)
            ensures
                exists|r: &mut V|
                    *r == *old(visitor) && *final(r) == *final(visitor)
                        && #[trigger] call_ensures(
                            V::visit_program_end_event,
                            (r, location_id, time, attributes, exit_status),
                            code,
                        ),
            {
                visitor.visit_program_end_event(
                    location_id,
                    time,
                    attributes,
                    exit_status,
                )
            };
        self.fan(call)
    }

    fn visit_non_blocking_collective_request_event(
        &mut self,
        location_id: LocationRef,
        time: TimeStamp,
        attributes: &[(AttributeRef, AttributeValue)],
        request_id: u64,
    ) -> (code: CallbackCode)
        ensures
            exists|stop: int|
                {
                    &&& #[trigger] ends_at(old(self)@, final(self)@, code, stop)
                    &&& forall|j: int| #[trigger]
                        before_stop(j, stop) ==> exists|r: &mut V|
                            *r == old(self)@[j] && *final(r) == final(self)@[j]
                                && #[trigger] call_ensures(
                                    V::visit_non_blocking_collective_request_event,
                                    (r, location_id, time, attributes, request_id),
                                    CallbackCode::Success,
                                )
                    &&& stop < old(self)@.len() ==> exists|r: &mut V|
                        *r == old(self)@[stop] && *final(r) == final(self)@[stop]
                            && #[trigger] call_ensures(
                                V::visit_non_blocking_collective_request_event,
                                (r, location_id, time, attributes, request_id),
                                code,
                            )
                },
    {
        let call = |visitor: &mut V| -> (code: CallbackCode)
            ensures
                exists|r: &mut V|
                    *r == *old(visitor) && *final(r) == *final(visitor)
                        && #[trigger] call_ensures(
                            V::visit_non_blocking_collective_request_event,
                            (r, location_id, time, attributes, request_id),
                            code,
                        ),
            {
                visitor.visit_non_blocking_collective_request_event(
                    location_id,
                    time,
                    attributes,
                    request_id,
                )
            };
        self.fan(call)
    }

    fn visit_non_blocking_collective_complete_event(
        &mut self,
        location_id: LocationRef,
        time: TimeStamp,
        attributes: &[(AttributeRef, AttributeValue)],
        collective_op: CollectiveOp,
        communicator: CommRef,
        root: u32,
        size_sent: u64,
        size_received: u64,
        request_id: u64,
    ) -> (code: CallbackCode)
        ensures
            exists|stop: int|
                {
                    &&& #[trigger] ends_at(old(self)@, final(self)@, code, stop)
                    &&& forall|j: int| #[trigger]
                        before_stop(j, stop) ==> exists|r: &mut V|
                            *r == old(self)@[j] && *final(r) == final(self)@[j]
                                && #[trigger] call_ensures(
                                    V::visit_non_blocking_collective_complete_event,
                                    (
                                        r,
                                        location_id,
                                        time,
                                        attributes,
                                        collective_op,
                                        communicator,
                                        root,
                                        size_sent,
                                        size_received,
                                        request_id,
                                    ),
                                    CallbackCode::Success,
                                )
                    &&& stop < old(self)@.len() ==> exists|r: &mut V|
                        *r == old(self)@[stop] && *final(r) == final(self)@[stop]
                            && #[trigger] call_ensures(
                                V::visit_non_blocking_collective_complete_event,
                                (
                                    r,
                                    location_id,
                                    time,
                                    attributes,
                                    collective_op,
                                    communicator,
                                    root,
                                    size_sent,
                                    size_received,
                                    request_id,
                                ),
                                code,
                            )
                },
    {
        let call = |visitor: &mut V| -> (code: CallbackCode)
            ensures
                exists|r: &mut V|
                    *r == *old(visitor) && *final(r) == *final(visitor)
                        && #[trigger] call_ensures(
                            V::visit_non_blocking_collective_complete_event,
                            (
                                r,
                                location_id,
                                time,
                                attributes,
                                collective_op,
                                communicator,
                                root,
                                size_sent,
                                size_received,
                                request_id,
                            ),
                            code,
                        ),
            {
                visitor.visit_non_blocking_collective_complete_event(
                    location_id,
                    time,
                    attributes,
                    collective_op,
                    communicator,
                    root,
                    size_sent,
                    size_received,
                    request_id,
                )
            };
        self.fan(call)
    }

    fn visit_comm_create_event(
        &mut self,
        location_id: LocationRef,
        time: TimeStamp,
        attributes: &[(AttributeRef, AttributeValue)],
        communicator: CommRef,
    ) -> (code: CallbackCode)
        ensures
            exists|stop: int|
                {
                    &&& #[trigger] ends_at(old(self)@, final(self)@, code, stop)
                    &&& forall|j: int| #[trigger]
                        before_stop(j, stop) ==> exists|r: &mut V|
                            *r == old(self)@[j] && *final(r) == final(self)@[j]
                                && #[trigger] call_ensures(
                                    V::visit_comm_create_event,
                                    (r, location_id, time, attributes, communicator),
                                    CallbackCode::Success,
                                )
                    &&& stop < old(self)@.len() ==> exists|r: &mut V|
                        *r == old(self)@[stop] && *final(r) == final(self)@[stop]
                            && #[trigger] call_ensures(
                                V::visit_comm_create_event,
                                (r, location_id, time, attributes, communicator),
                                code,
                            )
                },
    {
        let call = |visitor: &mut V| -> (code: CallbackCode)
            ensures
                exists|r: &mut V|
                    *r == *old(visitor) && *final(r) == *final(visitor)
                        && #[trigger] call_ensures(
                            V::visit_comm_create_event,
                            (r, location_id, time, attributes, communicator),
                            code,
                        ),
            {
                visitor.visit_comm_create_event(
                    location_id,
                    time,
                    attributes,
                    communicator,
                )
            };
        self.fan(call)
    }

    fn visit_comm_destroy_event(
        &mut self,
        location_id: LocationRef,
        time: TimeStamp,
        attributes: &[(AttributeRef, AttributeValue)],
        communicator: CommRef,
    ) -> (code: CallbackCode)
        ensures
            exists|stop: int|
                {
                    &&& #[trigger] ends_at(old(self)@, final(self)@, code, stop)
                    &&& forall|j: int| #[trigger]
                        before_stop(j, stop) ==> exists|r: &mut V|
                            *r == old(self)@[j] && *final(r) == final(self)@[j]
                                && #[trigger] call_ensures(
                                    V::visit_comm_destroy_event,
                                    (r, location_id, time, attributes, communicator),
                                    CallbackCode::Success,
                                )
                    &&& stop < old(self)@.len() ==> exists|r: &mut V|
                        *r == old(self)@[stop] && *final(r) == final(self)@[stop]
                            && #[trigger] call_ensures(
                                V::visit_comm_destroy_event,
                                (r, location_id, time, attributes, communicator),
                                code,
                            )
                },
    {
        let call = |visitor: &mut V| -> (code: CallbackCode)
            ensures
                exists|r: &mut V|
                    *r == *old(visitor) && *final(r) == *final(visitor)
                        && #[trigger] call_ensures(
                            V::visit_comm_destroy_event,
                            (r, location_id, time, attributes, communicator),
                            code,
                        ),
            {
                visitor.visit_comm_destroy_event(
                    location_id,
                    time,
                    attributes,
                    communicator,
                )
            };
        self.fan(call)
    }
}

} // verus!
