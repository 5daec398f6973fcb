use multibooru::danbooru::record::{PostState, TagState};
use multibooru::model::record::BooruRecord;
use multibooru::persistence::consumer::{
    decode_delivery, on_stored, row_of, Handling, Verdict,
};
use multibooru::persistence::duplicater::{combine, rejection, route, Delivery, Route};
use multibooru::persistence::latest_state::{key_of, on_submit};
use multibooru::persistence::lifecycle::BackendState;
use multibooru::persistence::metrics::{RecordLabels, RecordStatus};
use multibooru::persistence::pile_of_files::{file_name, fresh_file_name, name_for};
use multibooru::snowflake::ClockError;
use multibooru::persistence::PersistenceError;
use multibooru::record::{EntityKey, Record, RecordData};
use multibooru::record_types::danbooru::comment::{CommentRecord, CommentState};
use multibooru::record_types::danbooru::DanbooruRecord;
use multibooru::{DateTime, Snowflake};
use std::collections::HashMap;

fn is_shutting_down(result: &Result<(), PersistenceError>) -> bool {
    matches!(result, Err(PersistenceError::ShuttingDown))
}

#[test]
fn second_backends_error_surfaces_when_the_first_succeeded() {
    // the first backend has stored its copy; the second one's error is the answer
    let mut first_store: Vec<u32> = Vec::new();
    first_store.push(1);
    let answer = combine(
        Delivery::Answered(Ok(())),
        Delivery::Answered(Err(PersistenceError::DatabaseError(
            "disk full".to_string(),
        ))),
    );
    match answer {
        Err(PersistenceError::DatabaseError(why)) => assert_eq!(why, "disk full"),
        other => panic!("not the second backend's error: {other:?}"),
    }
    assert_eq!(first_store, vec![1]);
}

#[test]
fn both_successes_make_a_success() {
    assert!(combine(Delivery::Answered(Ok(())), Delivery::Answered(Ok(()))).is_ok());
}

#[test]
fn after_a_first_error_the_second_answer_stands() {
    let failed = || Delivery::Answered(Err(PersistenceError::Unknown("first".to_string())));
    assert!(combine(failed(), Delivery::Answered(Ok(()))).is_ok());
    match combine(
        failed(),
        Delivery::Answered(Err(PersistenceError::Unknown("second".to_string()))),
    ) {
        Err(PersistenceError::Unknown(why)) => assert_eq!(why, "second"),
        other => panic!("not the second error: {other:?}"),
    }
    assert!(is_shutting_down(&combine(
        failed(),
        Delivery::Answered(Err(PersistenceError::ShuttingDown))
    )));
}

#[test]
fn dropped_backend_is_told_apart() {
    let dropped = |answer: Result<(), PersistenceError>| {
        matches!(answer, Err(PersistenceError::DuplicaterSenderDropped))
    };
    assert!(dropped(combine(Delivery::Dropped, Delivery::Answered(Ok(())))));
    assert!(dropped(combine(Delivery::Answered(Ok(())), Delivery::Dropped)));
    assert!(dropped(combine(Delivery::Dropped, Delivery::Dropped)));
    assert!(dropped(combine(
        Delivery::Dropped,
        Delivery::Answered(Err(PersistenceError::ShuttingDown))
    )));
    assert!(dropped(combine(
        Delivery::Answered(Err(PersistenceError::ShuttingDown)),
        Delivery::Dropped
    )));
}

#[test]
fn fan_out_rejects_locally_once_shutting_down() {
    assert_eq!(route(false), Route::ForwardToBoth);
    assert_eq!(route(true), Route::RejectLocally);
    assert!(is_shutting_down(&rejection()));
}

#[test]
fn backend_goes_through_its_life() {
    let mut state = BackendState::new();
    assert_eq!(state, BackendState::Uninitialized);
    state.init();
    assert_eq!(state, BackendState::Ready);
    state.init();
    assert_eq!(state, BackendState::Ready);
    assert!(state.gate().is_ok());
    state.begin_shutdown();
    assert_eq!(state, BackendState::ShuttingDown);
    assert!(is_shutting_down(&state.gate()));
    state.init();
    assert_eq!(state, BackendState::ShuttingDown);
    state.finish_shutdown();
    assert_eq!(state, BackendState::Closed);
    assert!(is_shutting_down(&state.gate()));
    state.begin_shutdown();
    assert_eq!(state, BackendState::Closed);
    state.finish_shutdown();
    assert_eq!(state, BackendState::Closed);
}

#[test]
fn end_of_shutdown_before_its_begin_changes_nothing() {
    let mut state = BackendState::Ready;
    state.finish_shutdown();
    assert_eq!(state, BackendState::Ready);
    let mut fresh = BackendState::new();
    fresh.begin_shutdown();
    assert_eq!(fresh, BackendState::ShuttingDown);
}

fn comment_data(id: u64, body: &str) -> RecordData {
    RecordData::Danbooru(DanbooruRecord::Comment(CommentRecord {
        id,
        state: CommentState::Present {
            post_id: 1,
            created_at: DateTime { secs: 100, nanos: 0 },
            updated_at: DateTime { secs: 200, nanos: 0 },
            creator_id: 3,
            updater_id: 3,
            body: body.to_string(),
            score: 0,
            do_not_bump_post: false,
            is_sticky: false,
        },
    }))
}

#[test]
fn latest_state_holds_the_last_submission_of_each_key() {
    let mut table: HashMap<EntityKey, String> = HashMap::new();
    let submissions = vec![
        comment_data(1, "first"),
        comment_data(2, "other entity"),
        comment_data(1, "second"),
        RecordData::Danbooru(DanbooruRecord::Comment(CommentRecord {
            id: 1,
            state: CommentState::Absent,
        })),
    ];
    for data in &submissions {
        let row = row_of(&Record {
            id: Snowflake::from_value(1),
            data: data.clone(),
        })
        .unwrap();
        table.insert(data.key(), row.data_json);
    }
    assert_eq!(table.len(), 2);
    let key = EntityKey {
        type_id: 3,
        entity_type: 1,
        entity_id: 1,
    };
    assert_eq!(submissions[0].key(), key);
    assert_eq!(submissions[2].key(), key);
    assert_eq!(submissions[3].key(), key);
    assert_eq!(table[&key], "{\"Danbooru\":{\"Comment\":{\"id\":1,\"state\":\"Absent\"}}}");
    let other = EntityKey {
        type_id: 3,
        entity_type: 1,
        entity_id: 2,
    };
    assert!(table[&other].contains("other entity"));
}

#[test]
fn latest_state_backend_keys_by_booru_kind_and_id() {
    let post = BooruRecord::from_danbooru(multibooru::danbooru::record::Record::Post {
        id: 5,
        state: PostState::MissingTemporarily,
    });
    assert_eq!(
        key_of(&post),
        EntityKey {
            type_id: 1,
            entity_type: 1,
            entity_id: 5
        }
    );
    let tag = BooruRecord::from_danbooru(multibooru::danbooru::record::Record::Tag {
        id: -1,
        state: TagState::MissingPermanently,
    });
    assert_eq!(
        key_of(&tag),
        EntityKey {
            type_id: 1,
            entity_type: 2,
            entity_id: u64::MAX
        }
    );
    assert_eq!(on_submit(&BackendState::Ready, &tag).unwrap(), key_of(&tag));
    assert!(matches!(
        on_submit(&BackendState::ShuttingDown, &tag),
        Err(PersistenceError::ShuttingDown)
    ));
    assert!(matches!(
        on_submit(&BackendState::Closed, &post),
        Err(PersistenceError::ShuttingDown)
    ));
}

#[test]
fn files_are_named_by_identifiers() {
    assert_eq!(file_name(Snowflake::from_value(65538)), "65538.json");
    assert_eq!(file_name(Snowflake::from_value(-3)), "-3.json");
    let first = fresh_file_name().unwrap();
    assert!(first.ends_with(".json"));
    let stem = &first[..first.len() - 5];
    let id = Snowflake::parse(stem).unwrap();
    assert_eq!(file_name(id), first);
    assert!(id.as_time().elapsed().unwrap() < std::time::Duration::from_secs(5));
}

#[test]
fn fresh_names_of_one_moment_differ() {
    let mut names = std::collections::HashSet::new();
    let mut discriminators = std::collections::HashSet::new();
    for _ in 0..64 {
        let name = fresh_file_name().unwrap();
        let id = Snowflake::parse(&name[..name.len() - 5]).unwrap();
        discriminators.insert(id.low_bits());
        names.insert(name);
    }
    // 64 names within a few milliseconds: with one fixed discriminator most would clash
    assert!(discriminators.len() > 32);
    assert!(names.len() > 32);
}

#[test]
fn names_tell_identifiers_apart() {
    let first = Snowflake::from_parts(1_700_000_000_000, 1).unwrap();
    let second = Snowflake::from_parts(1_700_000_000_000, 2).unwrap();
    assert_ne!(file_name(first), file_name(second));
    assert_ne!(
        file_name(Snowflake::from_value(1)),
        file_name(Snowflake::from_value(-1))
    );
    assert_ne!(
        file_name(Snowflake::from_value(10)),
        file_name(Snowflake::from_value(1))
    );
}

#[test]
fn message_with_two_tags_is_rejected_without_requeue() {
    let media = "{\"locator\":{\"Danbooru\":{\"hash\":\"h\",\"ext\":\"png\"}},\
                 \"state\":\"NotDownloadedYet\"}";
    let comment = "{\"Comment\":{\"id\":1,\"state\":\"Absent\"}}";
    let one_tag = format!("{{\"id\":1,\"data\":{{\"Media\":{media}}}}}");
    assert!(decode_delivery(one_tag.as_bytes()).is_ok());
    for content in [
        format!("{{\"id\":1,\"data\":{{\"Media\":{media},\"Danbooru\":{comment}}}}}"),
        format!("{{\"id\":1,\"data\":{{\"Media\":{media},\"Danbooru\":7}}}}"),
        format!("{{\"id\":1,\"data\":{{\"Danbooru\":{comment},\"Rule34\":{comment}}}}}"),
        format!("{{\"id\":1,\"data\":{{\"Danbooru\":{comment},\"note\":null}}}}"),
        "{\"id\":1,\"data\":{\"Danbooru\":{\"Comment\":{\"id\":1,\"state\":\"Absent\"},\
         \"Post\":1}}}"
            .to_string(),
        "{\"id\":1,\"data\":{\"Danbooru\":{\"Comment\":{\"id\":1,\"state\":{\"Present\":{\
         \"post_id\":1,\"created_at\":\"2023-05-01T12:30:00Z\",\
         \"updated_at\":\"2023-05-01T12:30:00Z\",\"creator_id\":1,\"updater_id\":1,\
         \"body\":\"b\",\"score\":0,\"do_not_bump_post\":false,\"is_sticky\":false},\
         \"Deleted\":{\"post_id\":1,\"created_at\":\"2023-05-01T12:30:00Z\",\
         \"updated_at\":\"2023-05-01T12:30:00Z\",\"creator_id\":1,\"updater_id\":1}}}}}}"
            .to_string(),
        format!(
            "{{\"id\":1,\"data\":{{\"Media\":{{\"locator\":{{\"Danbooru\":{{\"hash\":\"h\",\
             \"ext\":\"png\"}},\"Gelbooru\":1}},\"state\":\"NotDownloadedYet\"}}}}}}"
        ),
        format!(
            "{{\"id\":1,\"data\":{{\"Media\":{{\"locator\":{{\"Danbooru\":{{\"hash\":\"h\",\
             \"ext\":\"png\"}}}},\"state\":{{\"DownloadError\":\"slow\",\
             \"Present\":{{\"media_ref\":\"r\"}}}}}}}}}}"
        ),
    ] {
        assert_eq!(
            decode_delivery(content.as_bytes()).unwrap_err(),
            Handling {
                verdict: Verdict::Reject { requeue: false },
                status: RecordStatus::FailedToParse,
            },
            "{content}"
        );
    }
}

#[test]
fn undecodable_message_is_rejected_without_requeue() {
    let mut stored_rows = 0;
    let mut failed_to_parse = 0;
    for content in [
        &b"not a record"[..],
        &b""[..],
        &b"{\"id\":1}"[..],
        &b"{\"id\":\"1\",\"data\":{\"Danbooru\":{\"Comment\":{\"id\":1,\"state\":\"Absent\"}}}}"[..],
        &b"{\"id\":1,\"data\":{\"Gelbooru\":{}}}"[..],
        &b"{\"id\":1,\"data\":{\"Danbooru\":{\"Comment\":{\"id\":1,\"state\":\"Gone\"}}}}"[..],
        &[0xff, 0xfe][..],
    ] {
        match decode_delivery(content) {
            Ok(_) => stored_rows += 1,
            Err(handling) => {
                assert_eq!(
                    handling,
                    Handling {
                        verdict: Verdict::Reject { requeue: false },
                        status: RecordStatus::FailedToParse,
                    }
                );
                failed_to_parse += 1;
            }
        }
    }
    assert_eq!(stored_rows, 0);
    assert_eq!(failed_to_parse, 7);
}

#[test]
fn decodable_message_becomes_a_row() {
    let content =
        b"{\"id\":65538,\"data\":{\"Danbooru\":{\"Comment\":{\"id\":9,\"state\":\"Absent\"}}}}";
    let record = decode_delivery(content).unwrap();
    assert_eq!(record.id, Snowflake::from_value(65538));
    let row = row_of(&record).unwrap();
    assert_eq!(row.id, 65538);
    assert_eq!(row.type_id, 3);
    assert_eq!(row.booru_id, 1);
    assert_eq!(row.entity_type, 1);
    assert_eq!(row.entity_id, 9);
    assert_eq!(
        row.data_json,
        "{\"Danbooru\":{\"Comment\":{\"id\":9,\"state\":\"Absent\"}}}"
    );
}

#[test]
fn entity_id_is_stored_bit_for_bit() {
    let record = Record {
        id: Snowflake::from_value(1),
        data: RecordData::Danbooru(DanbooruRecord::Comment(CommentRecord {
            id: u64::MAX,
            state: CommentState::Absent,
        })),
    };
    assert_eq!(row_of(&record).unwrap().entity_id, -1);
}

#[test]
fn unwritable_record_counts_as_failed_to_save() {
    let record = Record {
        id: Snowflake::from_value(1),
        data: RecordData::Danbooru(DanbooruRecord::Comment(CommentRecord {
            id: 1,
            state: CommentState::Deleted {
                post_id: 1,
                created_at: DateTime { secs: i64::MAX, nanos: 0 },
                updated_at: DateTime { secs: 0, nanos: 0 },
                creator_id: 1,
                updater_id: 1,
            },
        })),
    };
    assert_eq!(
        row_of(&record).unwrap_err(),
        Handling {
            verdict: Verdict::Reject { requeue: false },
            status: RecordStatus::FailedToSave,
        }
    );
}

#[test]
fn storage_answer_decides_between_ack_and_reject() {
    assert_eq!(
        on_stored(true),
        Handling {
            verdict: Verdict::Ack,
            status: RecordStatus::Stored,
        }
    );
    assert_eq!(
        on_stored(false),
        Handling {
            verdict: Verdict::Reject { requeue: false },
            status: RecordStatus::FailedToSave,
        }
    );
}

#[test]
fn outcomes_are_counted_under_their_names() {
    assert_eq!(RecordStatus::Stored.label(), "ok");
    assert_eq!(RecordStatus::FailedToParse.label(), "failed_to_parse");
    assert_eq!(RecordStatus::FailedToSave.label(), "failed_to_save");
    let labels = RecordLabels {
        status: RecordStatus::FailedToSave,
    };
    assert_eq!(labels.status, RecordStatus::FailedToSave);
}

#[test]
fn file_is_named_for_the_identifier_that_was_made() {
    assert_eq!(
        name_for(Ok(Snowflake::from_value(65538))),
        Ok("65538.json".to_string())
    );
    assert_eq!(
        name_for(Err(ClockError::BeforeEpoch)),
        Err(ClockError::BeforeEpoch)
    );
    assert_eq!(
        name_for(Err(ClockError::TooFarInFuture)),
        Err(ClockError::TooFarInFuture)
    );
}
