//! The buffer between the engine, which delivers events in batches, and the
//! consumer, who asks for one event at a time.
use vstd::prelude::*;
use std::collections::VecDeque;
use crate::error::StatusCode;
use crate::event::event_struct::Event;
use crate::native::ErrorCode;
use crate::native::OTF2_SUCCESS;

verus! {

/// What the consumer's request for the next event comes to.
#[derive(Debug, Clone, PartialEq, Eq)]
pub enum Next {
    /// The next event of the sequence.
    Event(Event),
    /// The buffer is empty and more may come: have the engine read a batch
    /// of this many events, report how that went with `batch_read`, and ask
    /// again.
    Read(u64),
    /// The sequence is at its end.
    End,
}

/// The state of the buffer: the events that were delivered and not yet
/// handed on, the oldest first; the size of a batch; and whether the engine
/// has run out of events.
pub struct IterState {
    pub queue: Seq<Event>,
    pub batch_size: u64,
    pub exhausted: bool,
}

impl IterState {
    /// The buffer before anything was read.
    pub open spec fn start(batch_size: u64) -> IterState {
        IterState { queue: Seq::empty(), batch_size, exhausted: false }
    }

    /// What the next request comes to: the oldest buffered event if there is
    /// one; with an empty buffer the end, if the engine has run out, and
    /// else a read of one batch.
    pub open spec fn next(self) -> Next {
        if self.queue.len() > 0 {
            Next::Event(self.queue[0])
        } else if self.exhausted {
            Next::End
        } else {
            Next::Read(self.batch_size)
        }
    }

    /// The buffer after the request: an event that was handed on has left
    /// it, and nothing else has changed.
    pub open spec fn after_next(self) -> IterState {
        if self.queue.len() > 0 {
            IterState { queue: self.queue.skip(1), ..self }
        } else {
            self
        }
    }

    /// The buffer after the engine appended `event`.
    pub open spec fn after_push(self, event: Event) -> IterState {
        IterState { queue: self.queue.push(event), ..self }
    }

    /// The buffer after a read that returned `status` and reported
    /// `events_read` events. A read that succeeded with fewer events than a
    /// batch holds, or with none, was the last: the engine has run out. A
    /// read that failed changes nothing.
    pub open spec fn after_batch(self, status: ErrorCode, events_read: u64) -> IterState {
        if status.is_success() {
            IterState {
                exhausted: self.exhausted || events_read < self.batch_size || events_read == 0,
                ..self
            }
        } else {
            self
        }
    }
}

/// The events that an engine with `remaining` still to deliver hands over in
/// one read of `n` events: the first `n` of them, or all if there are fewer.
pub open spec fn batch_of(remaining: Seq<Event>, n: u64) -> Seq<Event> {
    if n <= remaining.len() {
        remaining.take(n as int)
    } else {
        remaining
    }
}

/// The buffer after one read from an engine that has `remaining` still to
/// deliver: the batch is appended, and its size is what the read reports.
pub open spec fn after_read(state: IterState, remaining: Seq<Event>) -> IterState {
    let batch = batch_of(remaining, state.batch_size);
    (IterState { queue: state.queue + batch, ..state }).after_batch(
        ErrorCode(OTF2_SUCCESS),
        batch.len() as u64,
    )
}

/// The events that a consumer receives who asks until the end, from a buffer
/// in `state` over an engine that has `remaining` still to deliver and
/// answers every read in full.
pub open spec fn consumed(state: IterState, remaining: Seq<Event>) -> Seq<Event>
    decreases remaining.len(), state.queue.len(), (if state.exhausted {
        0nat
    } else {
        1nat
    }),
{
    match state.next() {
        Next::Event(event) => seq![event] + consumed(state.after_next(), remaining),
        Next::End => Seq::empty(),
        Next::Read(_) => {
            let batch = batch_of(remaining, state.batch_size);
            consumed(after_read(state, remaining), remaining.skip(batch.len() as int))
        },
    }
}

/// From any buffer that has not lost track of the engine, the consumer
/// receives what is buffered followed by what the engine still has.
pub proof fn lemma_consumed(state: IterState, remaining: Seq<Event>)
    requires
        state.batch_size >= 1,
        state.exhausted ==> remaining.len() == 0,
    ensures
        consumed(state, remaining) == state.queue + remaining,
    decreases remaining.len(), state.queue.len(), (if state.exhausted {
        0nat
    } else {
        1nat
    }),
{
    if state.queue.len() > 0 {
        lemma_consumed(state.after_next(), remaining);
        assert(seq![state.queue[0]] + (state.queue.skip(1) + remaining) =~= state.queue
            + remaining);
    } else if state.exhausted {
        assert(state.queue + remaining =~= Seq::<Event>::empty());
    } else {
        let batch = batch_of(remaining, state.batch_size);
        let filled = after_read(state, remaining);
        let rest = remaining.skip(batch.len() as int);
        assert(filled.queue =~= batch);
        if batch.len() < state.batch_size {
            assert(rest.len() == 0);
        }
        lemma_consumed(filled, rest);
        assert(batch + rest =~= remaining);
        assert(state.queue + remaining =~= remaining);
    }
}

/// The size of a batch does not show: whatever it is, from one event to a
/// batch to more than the trace holds, the consumer receives every event of
/// the trace, once, in the order in which the engine delivers them.
pub proof fn lemma_batch_size_invariance(events: Seq<Event>, batch_size: u64)
    requires
        batch_size >= 1,
    ensures
        consumed(IterState::start(batch_size), events) == events,
{
    lemma_consumed(IterState::start(batch_size), events);
    assert(Seq::<Event>::empty() + events =~= events);
}

/// The number of reads that the engine is asked for while a consumer asks
/// until the end, from a buffer in `state` over an engine that has
/// `remaining` still to deliver and answers every read in full.
pub open spec fn reads(state: IterState, remaining: Seq<Event>) -> nat
    decreases remaining.len(), state.queue.len(), (if state.exhausted {
        0nat
    } else {
        1nat
    }),
{
    match state.next() {
        Next::Event(_) => reads(state.after_next(), remaining),
        Next::End => 0,
        Next::Read(_) => {
            let batch = batch_of(remaining, state.batch_size);
            1 + reads(after_read(state, remaining), remaining.skip(batch.len() as int))
        },
    }
}

/// A trace of `n` events takes `n / batch_size + 1` reads: one for each
/// full batch, and one more, which comes back short and tells that the
/// engine has run out. A buffer that knows already that the engine has run
/// out asks for none.
pub proof fn lemma_reads(state: IterState, remaining: Seq<Event>)
    requires
        state.batch_size >= 1,
        state.exhausted ==> remaining.len() == 0,
    ensures
        reads(state, remaining) == (if state.exhausted {
            0
        } else {
            remaining.len() as int / state.batch_size as int + 1
        }),
    decreases remaining.len(), state.queue.len(), (if state.exhausted {
        0nat
    } else {
        1nat
    }),
{
    let b = state.batch_size as int;
    let n = remaining.len() as int;
    if state.queue.len() > 0 {
        lemma_reads(state.after_next(), remaining);
    } else if state.exhausted {
    } else {
        let batch = batch_of(remaining, state.batch_size);
        let filled = after_read(state, remaining);
        let rest = remaining.skip(batch.len() as int);
        lemma_reads(filled, rest);
        if n < b {
            assert(n / b == 0) by (nonlinear_arith)
                requires
                    0 <= n < b,
            ;
        } else {
            assert((n - b) / b == n / b - 1) by (nonlinear_arith)
                requires
                    b >= 1,
                    n >= b,
            ;
        }
    }
}

/// The lazy, forward-only sequence of the events of a trace. The engine's
/// callbacks append to `event_queue`; the consumer takes from its front.
pub struct EventIter {
    pub event_queue: VecDeque<Event>,
    batch_size: u64,
    exhausted: bool,
}

impl View for EventIter {
    type V = IterState;

    closed spec fn view(&self) -> IterState {
        IterState {
            queue: self.event_queue@,
            batch_size: self.batch_size,
            exhausted: self.exhausted,
        }
    }
}

impl EventIter {
    /// An empty buffer for batches of `batch_size` events.
    pub fn new(batch_size: u64) -> (it: Self)
        ensures
            it@ == IterState::start(batch_size),
    {
        EventIter { event_queue: VecDeque::new(), batch_size, exhausted: false }
    }

    /// The size of a batch.
    pub fn batch_size(&self) -> (n: u64)
        ensures
            n == self@.batch_size,
    {
        self.batch_size
    }

    /// Appends an event to the buffer, as a callback of the engine does.
    pub fn push(&mut self, event: Event)
        ensures
            final(self)@ == old(self)@.after_push(event),
    {
        self.event_queue.push_back(event);
    }

    /// The next event, a read that has to be made first, or the end. Only a
    /// request that finds the buffer empty leads to a read, and none does
    /// once the engine has run out.
    pub fn next(&mut self) -> (next: Next)
        ensures
            next == old(self)@.next(),
            final(self)@ == old(self)@.after_next(),
    {
        let ghost before = self.event_queue@;
        match self.event_queue.pop_front() {
            Some(event) => {
                proof {
                    assert(self.event_queue@ =~= before.skip(1));
                }
                Next::Event(event)
            },
            None => {
                if self.exhausted {
                    Next::End
                } else {
                    Next::Read(self.batch_size)
                }
            },
        }
    }

    /// Takes in how a read went: the status of the call and the number of
    /// events that the engine reports to have read. A failure is handed on
    /// and leaves the buffer as it is, with the events it holds; the caller
    /// may ask again. A success tells whether the engine has run out.
    pub fn batch_read(&mut self, status: ErrorCode, events_read: u64) -> (r: Result<
        u64,
        StatusCode,
    >)
        ensures
            final(self)@ == old(self)@.after_batch(status, events_read),
            status.is_success() ==> r == Ok::<u64, StatusCode>(events_read),
            !status.is_success() ==> r == Err::<u64, StatusCode>(StatusCode::spec_from_raw(status)),
    {
        if status.0 == OTF2_SUCCESS {
            if events_read < self.batch_size || events_read == 0 {
                self.exhausted = true;
            }
            Ok(events_read)
        } else {
            Err(StatusCode::from_raw(status))
        }
    }
}

} // verus!
