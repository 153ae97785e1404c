//! Consumers of records, and the multiplexer that hands one record to a row
//! of them in order until one of them objects.
use vstd::prelude::*;
use crate::native::CallbackCode;

verus! {

/// A consumer of records of type `R`. It may keep state, and it answers each
/// record with a code: `Success` to go on, anything else to stop the read.
pub trait Visit<R>: Sized {
    /// What one visit may do: that the consumer `self`, shown `record`, can
    /// become `after` and answer `code`. Each consumer says this of itself;
    /// one that does not say it promises nothing.
    open spec fn visits(self, record: R, after: Self, code: CallbackCode) -> bool {
        true
    }

    /// Shows the record to the consumer.
    fn visit(&mut self, record: &R) -> (code: CallbackCode)
        ensures
            old(self).visits(*record, *final(self), code),
    ;
}

/// The target of the engine's callbacks: it takes each record as it is
/// decoded, and its answer goes back to the engine, which stops reading at
/// any answer but `Success`.
pub trait Sink<R>: Sized {
    /// What taking one record may do: that the target `self`, given
    /// `record`, can become `after` and answer `code`. Each target says this
    /// of itself; one that does not say it promises nothing.
    open spec fn accepts(self, record: R, after: Self, code: CallbackCode) -> bool {
        true
    }

    /// Gives the record to the target.
    fn accept(&mut self, record: R) -> (code: CallbackCode)
        ensures
            old(self).accepts(record, *final(self), code),
    ;
}

/// A consumer as the target of the callbacks: each record is shown to the
/// consumer as soon as it is decoded, and the consumer's answer is the
/// callback's.
pub struct Dispatch<V>(pub V);

impl<R, V: Visit<R>> Sink<R> for Dispatch<V> {
    open spec fn accepts(self, record: R, after: Self, code: CallbackCode) -> bool {
        self.0.visits(record, after.0, code)
    }

    fn accept(&mut self, record: R) -> (code: CallbackCode) {
        self.0.visit(&record)
    }
}

/// Two consumers of different types act as one: the record goes to the first
/// and, unless that one objects, to the second. Pairs nest, so that a row of
/// any types can be written as a pair of pairs.
impl<R, A: Visit<R>, B: Visit<R>> Visit<R> for (A, B) {
    open spec fn visits(self, record: R, after: Self, code: CallbackCode) -> bool {
        ||| self.0.visits(record, after.0, code) && code != CallbackCode::Success && after.1
            == self.1
        ||| self.0.visits(record, after.0, CallbackCode::Success) && self.1.visits(
            record,
            after.1,
            code,
        )
    }

    fn visit(&mut self, record: &R) -> (code: CallbackCode) {
        let first = self.0.visit(record);
        if first != CallbackCode::Success {
            return first;
        }
        self.1.visit(record)
    }
}

/// That handing `record` to the consumers `before`, in order, stopped at the
/// index `stop`: every consumer before `stop` was visited and went on; the
/// one at `stop`, if there is one, was visited and answered `code`, which is
/// not `Success`; the consumers after it were not visited and are as they
/// were. With `stop` at the end of the row all went on and `code` is
/// `Success`.
pub open spec fn stops_at<R, V: Visit<R>>(
    before: Seq<V>,
    record: R,
    after: Seq<V>,
    code: CallbackCode,
    stop: int,
) -> bool {
    &&& after.len() == before.len()
    &&& 0 <= stop <= before.len()
    &&& forall|j: int|
        0 <= j < stop ==> (#[trigger] before[j]).visits(record, after[j], CallbackCode::Success)
    &&& stop < before.len() ==> before[stop].visits(record, after[stop], code) && code
        != CallbackCode::Success
    &&& stop == before.len() ==> code == CallbackCode::Success
    &&& forall|j: int| stop < j < before.len() ==> #[trigger] after[j] == before[j]
}

/// That a round over the consumers `before` ended at the index `stop` with
/// `code`: the row kept its length, `code` is `Success` exactly where the
/// round reached the end of the row, and the consumers after `stop` are as
/// they were.
pub open spec fn ends_at<V>(before: Seq<V>, after: Seq<V>, code: CallbackCode, stop: int) -> bool {
    &&& after.len() == before.len()
    &&& 0 <= stop <= before.len()
    &&& stop == before.len() <==> code == CallbackCode::Success
    &&& forall|j: int| stop < j < before.len() ==> #[trigger] after[j] == before[j]
}

/// That the index `j` stands before the stop of a round: the consumer there
/// was visited and went on.
pub open spec fn before_stop(j: int, stop: int) -> bool {
    0 <= j < stop
}

/// That handing `record` to the consumers `before`, in order and up to the
/// first that objects, can leave them as `after` and give `code`.
pub open spec fn fans_out<R, V: Visit<R>>(
    before: Seq<V>,
    record: R,
    after: Seq<V>,
    code: CallbackCode,
) -> bool {
    exists|stop: int| #[trigger] stops_at(before, record, after, code, stop)
}

/// The first objection ends the round: where the consumer at `first` never
/// answers `record` with `Success`, the round does not end in `Success`, the
/// code it ends in is the answer of a consumer at or before `first`, and no
/// consumer after `first` is visited, so each of them is as it was.
pub proof fn lemma_short_circuit<R, V: Visit<R>>(
    before: Seq<V>,
    record: R,
    after: Seq<V>,
    code: CallbackCode,
    first: int,
)
    requires
        fans_out(before, record, after, code),
        0 <= first < before.len(),
        forall|next: V| !#[trigger] before[first].visits(record, next, CallbackCode::Success),
    ensures
        code != CallbackCode::Success,
        exists|stop: int|
            0 <= stop <= first && (#[trigger] before[stop]).visits(record, after[stop], code),
        forall|j: int| first < j < before.len() ==> #[trigger] after[j] == before[j],
{
    let stop = choose|stop: int| #[trigger] stops_at(before, record, after, code, stop);
    if stop > first {
        assert(before[first].visits(record, after[first], CallbackCode::Success));
    }
    assert(before[stop].visits(record, after[stop], code));
}

/// A round over consumers that all go on visits every one of them and ends
/// in `Success`.
pub proof fn lemma_all_continue<R, V: Visit<R>>(
    before: Seq<V>,
    record: R,
    after: Seq<V>,
    code: CallbackCode,
)
    requires
        fans_out(before, record, after, code),
        forall|j: int, next: V, c: CallbackCode|
            0 <= j < before.len() && #[trigger] before[j].visits(record, next, c) ==> c
                == CallbackCode::Success,
    ensures
        code == CallbackCode::Success,
        forall|j: int|
            0 <= j < before.len() ==> (#[trigger] before[j]).visits(
                record,
                after[j],
                CallbackCode::Success,
            ),
{
    let stop = choose|stop: int| #[trigger] stops_at(before, record, after, code, stop);
    if stop < before.len() {
        assert(before[stop].visits(record, after[stop], code));
    }
}

/// An ordered row of consumers that acts as one consumer: a record goes to
/// each in the order of registration, and the first answer that is not
/// `Success` ends the round and is the answer of the row.
pub struct Multiplexer<V> {
    pub visitors: Vec<V>,
}

impl<V> View for Multiplexer<V> {
    type V = Seq<V>;

    open spec fn view(&self) -> Seq<V> {
        self.visitors@
    }
}

impl<V> Multiplexer<V> {
    /// A row without consumers.
    pub fn new() -> (mux: Self)
        ensures
            mux@ == Seq::<V>::empty(),
    {
        Self { visitors: Vec::new() }
    }

    /// Registers a consumer behind those that are registered.
    pub fn add_visitor(&mut self, visitor: V)
        ensures
            final(self)@ == old(self)@.push(visitor),
    {
        self.visitors.push(visitor);
    }

    /// The number of consumers registered.
    pub fn len(&self) -> (n: usize)
        ensures
            n == self@.len(),
    {
        self.visitors.len()
    }

    /// Hands each consumer in turn to `call`, in the order of registration,
    /// and ends the round with the first answer that is not `Success`. Every
    /// consumer before the stop was handed to `call`, is as `call` left it,
    /// and `call` answered `Success` for it; the consumer at the stop, if
    /// there is one, was handed to `call`, is as `call` left it, and the
    /// answer of the round is what `call` answered for it; the consumers
    /// after the stop were not handed over and are as they were.
    pub fn fan<F: Fn(&mut V) -> CallbackCode>(&mut self, call: F) -> (code: CallbackCode)
        requires
            forall|visitor: &mut V| call_requires(call, (visitor,)),
        ensures
            exists|stop: int|
                {
                    &&& #[trigger] ends_at(old(self)@, final(self)@, code, stop)
                    &&& forall|j: int| #[trigger]
                        before_stop(j, stop) ==> exists|r: &mut V|
                            *r == old(self)@[j] && *final(r) == final(self)@[j]
                                && #[trigger] call_ensures(call, (r,), CallbackCode::Success)
                    &&& stop < old(self)@.len() ==> exists|r: &mut V|
                        *r == old(self)@[stop] && *final(r) == final(self)@[stop]
                            && #[trigger] call_ensures(call, (r,), code)
                },
    {
        let mut i: usize = 0;
        let n = self.visitors.len();
        while i < n
            invariant
                self.visitors.len() == n,
                n == old(self).visitors.len(),
                i <= n,
                forall|visitor: &mut V| call_requires(call, (visitor,)),
                forall|j: int|
                    i <= j < n ==> #[trigger] self.visitors@[j] == old(self).visitors@[j],
                forall|j: int| #[trigger]
                    before_stop(j, i as int) ==> exists|r: &mut V|
                        *r == old(self).visitors@[j] && *final(r) == self.visitors@[j]
                            && #[trigger] call_ensures(call, (r,), CallbackCode::Success),
            decreases n - i,
        {
            let ghost before = self.visitors@;
            let code = call(&mut self.visitors[i]);
            proof {
                assert forall|j: int| #[trigger] before_stop(j, i as int) implies exists|r: &mut V|
                    *r == old(self).visitors@[j] && *final(r) == self.visitors@[j]
                        && #[trigger] call_ensures(call, (r,), CallbackCode::Success) by {
                    assert(self.visitors@[j] == before[j]);
                }
            }
            if code != CallbackCode::Success {
                proof {
                    assert(ends_at(old(self)@, self@, code, i as int));
                }
                return code;
            }
            proof {
                assert forall|j: int| #[trigger] before_stop(j, i + 1) implies exists|r: &mut V|
                    *r == old(self).visitors@[j] && *final(r) == self.visitors@[j]
                        && #[trigger] call_ensures(call, (r,), CallbackCode::Success) by {
                    if j < i {
                        assert(before_stop(j, i as int));
                    }
                }
            }
            i += 1;
        }
        proof {
            assert(ends_at(old(self)@, self@, CallbackCode::Success, n as int));
        }
        CallbackCode::Success
    }
}

impl<R, V: Visit<R>> Visit<R> for Multiplexer<V> {
    open spec fn visits(self, record: R, after: Self, code: CallbackCode) -> bool {
        fans_out(self@, record, after@, code)
    }

    /// Shows the record to each consumer in the order of registration, up to
    /// the first that answers anything but `Success`.
    fn visit(&mut self, record: &R) -> (code: CallbackCode) {
        let mut i: usize = 0;
        let n = self.visitors.len();
        while i < n
            invariant
                self.visitors.len() == n,
                n == old(self).visitors.len(),
                i <= n,
                forall|j: int|
                    0 <= j < i ==> (#[trigger] old(self).visitors@[j]).visits(
                        *record,
                        self.visitors@[j],
                        CallbackCode::Success,
                    ),
                forall|j: int|
                    i <= j < n ==> #[trigger] self.visitors@[j] == old(self).visitors@[j],
            decreases n - i,
        {
            let code = self.visitors[i].visit(record);
            if code != CallbackCode::Success {
                proof {
                    assert(stops_at(old(self)@, *record, self@, code, i as int));
                }
                return code;
            }
            i += 1;
        }
        proof {
            assert(stops_at(old(self)@, *record, self@, CallbackCode::Success, n as int));
        }
        CallbackCode::Success
    }
}

} // verus!
