//! The latest-state backend: one row per entity, holding what was last
//! submitted for it.

use crate::json::printed_text;
use crate::model::record::BooruRecord;
use crate::persistence::lifecycle::BackendState;
use crate::persistence::PersistenceError;
use crate::record::EntityKey;
use crate::snowflake::{i64_to_u64, reinterpret_as_u64};
use vstd::prelude::*;

verus! {

/// The key of the row that keeps the latest state of the entity that
/// `record` is about. The entity's ID is taken bit for bit.
pub open spec fn spec_key_of(record: &BooruRecord) -> EntityKey {
    EntityKey {
        type_id: record.spec_type_id(),
        entity_type: record.spec_entity_type_id(),
        entity_id: reinterpret_as_u64(record.spec_entity_id()),
    }
}

/// The key of the row that keeps the latest state of the entity that
/// `record` is about.
pub fn key_of(record: &BooruRecord) -> (key: EntityKey)
    ensures
        key == spec_key_of(record),
{
    EntityKey {
        type_id: record.type_id(),
        entity_type: record.entity_type_id(),
        entity_id: i64_to_u64(record.entity_id()),
    }
}

/// Decide on a submission to the latest-state backend: it is refused while
/// the backend shuts down, and otherwise upserted under the key of its
/// entity.
pub fn on_submit(state: &BackendState, record: &BooruRecord) -> (res: Result<
    EntityKey,
    PersistenceError,
>)
    requires
        *state != BackendState::Uninitialized,
    ensures
        res is Ok <==> state.accepts(),
        res matches Ok(key) ==> key == spec_key_of(record),
        res matches Err(e) ==> e is ShuttingDown,
{
    match state.gate() {
        Ok(()) => Ok(key_of(record)),
        Err(e) => Err(e),
    }
}

/// One accepted submission: the key of the entity, and its data as stored.
pub struct Submission {
    pub key: EntityKey,
    pub data: Seq<char>,
}

/// The table after one more submission: the row of its key holds its data,
/// all of it and nothing of what was there; every other row stays.
pub open spec fn upsert(table: Map<EntityKey, Seq<char>>, submission: Submission) -> Map<
    EntityKey,
    Seq<char>,
> {
    table.insert(submission.key, submission.data)
}

/// The table after all of `submissions`, in the order in which the backend
/// accepted them, starting from an empty table.
pub open spec fn table_after(submissions: Seq<Submission>) -> Map<EntityKey, Seq<char>>
    decreases submissions.len(),
{
    if submissions.len() == 0 {
        Map::empty()
    } else {
        upsert(table_after(submissions.drop_last()), submissions.last())
    }
}

/// Whether submission `i` is the last one for its key.
pub open spec fn is_last_for_key(submissions: Seq<Submission>, i: int) -> bool {
    &&& 0 <= i < submissions.len()
    &&& forall|j: int| i < j < submissions.len() ==> (#[trigger] submissions[j]).key
        != submissions[i].key
}

/// The table holds, for every key, exactly the data of the submission that
/// was accepted last for that key.
pub proof fn lemma_last_write_wins(submissions: Seq<Submission>, i: int)
    requires
        is_last_for_key(submissions, i),
    ensures
        table_after(submissions).dom().contains(submissions[i].key),
        table_after(submissions)[submissions[i].key] == submissions[i].data,
    decreases submissions.len(),
{
    if i < submissions.len() - 1 {
        let earlier = submissions.drop_last();
        assert(submissions.last().key != submissions[i].key);
        assert(is_last_for_key(earlier, i)) by {
            assert forall|j: int| i < j < earlier.len() implies (#[trigger] earlier[j]).key
                != earlier[i].key by {
                assert(earlier[j] == submissions[j]);
            }
        }
        lemma_last_write_wins(earlier, i);
        assert(earlier[i] == submissions[i]);
    }
}

/// The table has a row exactly for the keys that something was submitted for.
pub proof fn lemma_one_row_per_key(submissions: Seq<Submission>, key: EntityKey)
    ensures
        table_after(submissions).dom().contains(key) <==> exists|i: int|
            0 <= i < submissions.len() && (#[trigger] submissions[i]).key == key,
    decreases submissions.len(),
{
    if submissions.len() > 0 {
        let earlier = submissions.drop_last();
        lemma_one_row_per_key(earlier, key);
        if table_after(submissions).dom().contains(key) {
            if submissions.last().key == key {
                assert(submissions[submissions.len() - 1].key == key);
            } else {
                let i = choose|i: int| 0 <= i < earlier.len() && (#[trigger] earlier[i]).key == key;
                assert(submissions[i].key == key);
            }
        }
        if exists|i: int| 0 <= i < submissions.len() && (#[trigger] submissions[i]).key == key {
            let i = choose|i: int| 0 <= i < submissions.len() && (#[trigger] submissions[i]).key
                == key;
            if i < submissions.len() - 1 {
                assert(earlier[i].key == key);
            }
        }
    }
}

/// What the backend upserts for a record that it accepted: the JSON text of
/// the record, under the key of its entity.
pub open spec fn submission_of(record: BooruRecord) -> Submission {
    Submission { key: spec_key_of(&record), data: printed_text(record.document()) }
}

/// After any run of accepted records, the row of an entity holds the JSON
/// text of the record that was accepted last for it, whole and unmixed.
pub proof fn lemma_latest_record_wins(records: Seq<BooruRecord>, i: int)
    requires
        0 <= i < records.len(),
        forall|j: int|
            i < j < records.len() ==> spec_key_of(&#[trigger] records[j]) != spec_key_of(
                &records[i],
            ),
    ensures
        table_after(records.map_values(|record: BooruRecord| submission_of(record)))[spec_key_of(
            &records[i],
        )] == printed_text(records[i].document()),
{
    let submissions = records.map_values(|record: BooruRecord| submission_of(record));
    assert(is_last_for_key(submissions, i)) by {
        assert forall|j: int| i < j < submissions.len() implies (#[trigger] submissions[j]).key
            != submissions[i].key by {
            assert(submissions[j] == submission_of(records[j]));
        }
    }
    lemma_last_write_wins(submissions, i);
}

} // verus!
