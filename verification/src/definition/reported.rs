//! What the list of definitions holds once the engine has reported a whole
//! row of records: every record of a known kind, in the order of the report.
use vstd::prelude::*;
use crate::definition::defs::defined_by;
use crate::definition::defs::lemma_push_keeps_parents_first;
use crate::definition::defs::parents_first;
use crate::definition::defs::Definition;
use crate::definition::defs::DefinitionKind;
use crate::definition::global_reader_callbacks::DefinitionList;
use crate::native::CallbackCode;
use crate::visitor::Sink;

verus! {

/// The records that a list keeps of a report: those of a known kind, in the
/// order in which they were reported.
pub open spec fn materialized(reported: Seq<Definition>) -> Seq<Definition>
    decreases reported.len(),
{
    if reported.len() == 0 {
        Seq::empty()
    } else if reported.last() is Unknown {
        materialized(reported.drop_last())
    } else {
        materialized(reported.drop_last()).push(reported.last())
    }
}

/// That `lists` are the states of one list while `reported` was handed to
/// it record by record: `lists[i]` took `reported[i]` and became
/// `lists[i + 1]`.
pub open spec fn filled(lists: Seq<DefinitionList>, reported: Seq<Definition>) -> bool {
    &&& lists.len() == reported.len() + 1
    &&& forall|i: int|
        0 <= i < reported.len() ==> (#[trigger] lists[i]).accepts(
            reported[i],
            lists[i + 1],
            CallbackCode::Success,
        )
}

/// The number of records of one kind in a row.
pub open spec fn count_of(kind: DefinitionKind, records: Seq<Definition>) -> nat
    decreases records.len(),
{
    if records.len() == 0 {
        0
    } else if records.last().spec_kind() == kind {
        count_of(kind, records.drop_last()) + 1
    } else {
        count_of(kind, records.drop_last())
    }
}

/// A list that was empty before the report holds, after it, the records of
/// known kind that were reported, each once, with the values reported and in
/// the order of the report.
pub proof fn lemma_list_holds_the_report(lists: Seq<DefinitionList>, reported: Seq<Definition>)
    requires
        filled(lists, reported),
        lists[0]@ == Seq::<Definition>::empty(),
    ensures
        lists.last()@ == materialized(reported),
    decreases reported.len(),
{
    if reported.len() > 0 {
        let n = reported.len() as int;
        let before = lists.drop_last();
        let earlier = reported.drop_last();
        assert forall|i: int| 0 <= i < earlier.len() implies (#[trigger] before[i]).accepts(
            earlier[i],
            before[i + 1],
            CallbackCode::Success,
        ) by {
            assert(lists[i].accepts(reported[i], lists[i + 1], CallbackCode::Success));
        }
        lemma_list_holds_the_report(before, earlier);
        assert(before.last() == lists[n - 1]);
        assert(lists[n - 1].accepts(reported[n - 1], lists[n], CallbackCode::Success));
    }
}

/// Nothing of a known kind is lost and nothing is added: the list holds as
/// many records of each known kind as were reported.
pub proof fn lemma_every_known_record_is_kept(kind: DefinitionKind, reported: Seq<Definition>)
    requires
        kind != DefinitionKind::Unknown,
    ensures
        count_of(kind, materialized(reported)) == count_of(kind, reported),
    decreases reported.len(),
{
    if reported.len() > 0 {
        let earlier = reported.drop_last();
        lemma_every_known_record_is_kept(kind, earlier);
        if !(reported.last() is Unknown) {
            let kept = materialized(earlier).push(reported.last());
            assert(kept.drop_last() =~= materialized(earlier));
            assert(kept.last() == reported.last());
        }
    }
}

/// A record of a known kind that was reported stands in the list.
pub proof fn lemma_known_record_is_in_the_list(reported: Seq<Definition>, at: int)
    requires
        0 <= at < reported.len(),
        !(reported[at] is Unknown),
    ensures
        exists|k: int|
            0 <= k < materialized(reported).len() && #[trigger] materialized(reported)[k]
                == reported[at],
    decreases reported.len(),
{
    let earlier = reported.drop_last();
    if at == reported.len() - 1 {
        let k = materialized(earlier).len() as int;
        assert(materialized(reported)[k] == reported[at]);
    } else {
        lemma_known_record_is_in_the_list(earlier, at);
        let k = choose|k: int|
            0 <= k < materialized(earlier).len() && #[trigger] materialized(earlier)[k]
                == earlier[at];
        assert(materialized(reported)[k] == reported[at]);
    }
}

/// The list keeps the order of the report: where the engine reported every
/// parent at or before its children, every record of the list that names a
/// parent stands at or after the record that defines the parent.
pub proof fn lemma_list_keeps_parents_first(reported: Seq<Definition>)
    requires
        parents_first(reported),
    ensures
        parents_first(materialized(reported)),
    decreases reported.len(),
{
    if reported.len() > 0 {
        let n = reported.len() as int;
        let earlier = reported.drop_last();
        let last = reported.last();
        assert forall|i: int|
            0 <= i < earlier.len() && (#[trigger] earlier[i]).parent() is Some implies defined_by(
            earlier,
            i,
            earlier[i].parent(),
        ) by {
            assert(earlier[i] == reported[i]);
            assert(defined_by(reported, i, reported[i].parent()));
            let j = choose|j: int|
                0 <= j <= i && j < reported.len() && (#[trigger] reported[j]).node()
                    == reported[i].parent();
            assert(earlier[j] == reported[j]);
        }
        lemma_list_keeps_parents_first(earlier);
        if !(last is Unknown) {
            let kept = materialized(earlier);
            if last.parent() is Some && last.node() != last.parent() {
                assert(defined_by(reported, n - 1, reported[n - 1].parent()));
                let j = choose|j: int|
                    0 <= j <= n - 1 && j < reported.len() && (#[trigger] reported[j]).node()
                        == last.parent();
                assert(j < n - 1);
                assert(earlier[j] == reported[j]);
                lemma_known_record_is_in_the_list(earlier, j);
                let k = choose|k: int|
                    0 <= k < kept.len() && #[trigger] kept[k] == earlier[j];
                assert(kept[k].node() == last.parent());
                assert(defined_by(kept, kept.len() - 1, last.parent()));
            }
            lemma_push_keeps_parents_first(kept, last);
        }
    }
}

} // verus!
