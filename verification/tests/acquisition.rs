use multibooru::acquisition::danbooru_comment::{
    new_comments, new_deletions, DeletedComment, FullComment, IdHolder,
};
use multibooru::acquisition::fresh::{fresh_order, Mark};
use multibooru::acquisition::mint::{mint_record, reseal};
use multibooru::acquisition::poll::{
    PollEvent, PollLoop, TooManyErrors, ERROR_LIMIT, MAX_DELAY_SECS, MIN_DELAY_SECS,
};
use multibooru::acquisition::rule34_comment;
use multibooru::record::{Record, RecordData};
use multibooru::record_types::danbooru::comment::CommentState;
use multibooru::record_types::danbooru::DanbooruRecord;
use multibooru::record_types::rule34;
use multibooru::snowflake::ClockError;
use multibooru::{DateTime, Snowflake};

fn at(secs: i64) -> DateTime {
    DateTime { secs, nanos: 0 }
}

fn comment(id: u64, updated: i64, score: i64) -> FullComment {
    FullComment {
        id,
        created_at: at(1_000),
        post_id: 77,
        creator_id: 5,
        body: format!("comment {id}"),
        score,
        updated_at: at(updated),
        updater_id: 6,
        do_not_bump_post: false,
        is_deleted: false,
        is_sticky: true,
    }
}

/// Run one batch as a polling loop does: hand the new entries over in
/// order, note each, close the batch.
fn run_batch(state: &mut PollLoop<DateTime>, page: Vec<FullComment>) -> Vec<Record> {
    let order = new_comments(&page, &state.watermark);
    let mut submitted = Vec::new();
    for index in order {
        let mark = page[index].updated_at;
        let record = mint_record(page[index].clone().into_record_data()).unwrap();
        submitted.push(record);
        assert_eq!(state.step(PollEvent::EntryPublished(mark)), Ok(()));
    }
    assert_eq!(state.step(PollEvent::BatchFinished), Ok(()));
    submitted
}

fn updated_at(record: &Record) -> DateTime {
    match &record.data {
        RecordData::Danbooru(DanbooruRecord::Comment(comment)) => match &comment.state {
            CommentState::Present { updated_at, .. } => *updated_at,
            other => panic!("not present: {other:?}"),
        },
        other => panic!("not a danbooru comment: {other:?}"),
    }
}

#[test]
fn out_of_order_page_is_submitted_in_watermark_order() {
    let (t1, t2, t3) = (2_000, 3_000, 4_000);
    let mut state = PollLoop::start(at(1_500), 30);
    let page = vec![comment(3, t3, 0), comment(1, t1, 0), comment(2, t2, 0)];
    let submitted = run_batch(&mut state, page);
    let times: Vec<DateTime> = submitted.iter().map(updated_at).collect();
    assert_eq!(times, vec![at(t1), at(t2), at(t3)]);
    assert_eq!(state.watermark, at(t3));
    assert_eq!(state.delay_secs, 25);
    assert_eq!(state.published, 0);
    assert_eq!(state.error_count, 0);
}

#[test]
fn ten_idle_batches_lengthen_the_delay_by_fifty_seconds() {
    let mut state = PollLoop::start(at(0), 30);
    for _ in 0..10 {
        run_batch(&mut state, vec![]);
    }
    assert_eq!(state.delay_secs, 80);
}

#[test]
fn idle_delay_reaches_the_ceiling_and_stays_there() {
    let mut state = PollLoop::start(at(0), 30);
    for _ in 0..353 {
        run_batch(&mut state, vec![]);
    }
    assert_eq!(state.delay_secs, 1795);
    run_batch(&mut state, vec![]);
    assert_eq!(state.delay_secs, 1800);
    for _ in 0..10 {
        run_batch(&mut state, vec![]);
        assert_eq!(state.delay_secs, 1800);
    }
    assert_eq!(MAX_DELAY_SECS, 1800);
}

#[test]
fn busy_delay_reaches_the_floor_and_stays_there() {
    let mut state = PollLoop::start(0u64, 20);
    for round in 0..5u64 {
        state.step(PollEvent::EntryPublished(round * 2 + 1)).unwrap();
        state.step(PollEvent::EntryPublished(round * 2 + 2)).unwrap();
        state.step(PollEvent::BatchFinished).unwrap();
    }
    assert_eq!(state.delay_secs, 10);
    assert_eq!(MIN_DELAY_SECS, 10);
    assert_eq!(state.watermark, 10);
}

#[test]
fn one_entry_leaves_the_delay() {
    let mut state = PollLoop::start(0u64, 30);
    state.step(PollEvent::EntryPublished(4)).unwrap();
    state.step(PollEvent::BatchFinished).unwrap();
    assert_eq!(state.delay_secs, 30);
    assert_eq!(state.watermark, 4);
}

#[test]
fn start_brings_the_delay_into_its_bounds() {
    assert_eq!(PollLoop::start(0u64, 0).delay_secs, 10);
    assert_eq!(PollLoop::start(0u64, 150).delay_secs, 150);
    assert_eq!(PollLoop::start(0u64, 5000).delay_secs, 1800);
}

#[test]
fn score_drift_does_not_move_the_watermark() {
    let mut state = PollLoop::start(at(0), 30);
    let first = run_batch(&mut state, vec![comment(1, 2_000, 10)]);
    assert_eq!(first.len(), 1);
    assert_eq!(state.watermark, at(2_000));
    // the same comment again, with another score and nothing else changed
    let again = run_batch(&mut state, vec![comment(1, 2_000, 99)]);
    assert!(again.is_empty());
    assert_eq!(state.watermark, at(2_000));
    assert_eq!(new_comments(&vec![comment(1, 2_000, -5)], &at(2_000)), Vec::<usize>::new());
}

#[test]
fn watermark_never_moves_back() {
    let mut state = PollLoop::start(at(0), 30);
    state.step(PollEvent::EntryPublished(at(50))).unwrap();
    state.step(PollEvent::EntryPublished(at(20))).unwrap();
    assert_eq!(state.watermark, at(50));
    state.step(PollEvent::BatchFailed).unwrap();
    state.step(PollEvent::EntryFailed).unwrap();
    state.step(PollEvent::BatchFinished).unwrap();
    assert_eq!(state.watermark, at(50));
}

#[test]
fn sixth_error_ends_the_loop() {
    let mut state = PollLoop::start(0u64, 30);
    for seen in 1..=ERROR_LIMIT {
        assert_eq!(state.step(PollEvent::BatchFailed), Ok(()));
        assert_eq!(state.error_count, seen);
    }
    // successes in between do not reset the count
    state.step(PollEvent::EntryPublished(1)).unwrap();
    state.step(PollEvent::BatchFinished).unwrap();
    assert_eq!(state.error_count, 5);
    assert_eq!(
        state.step(PollEvent::EntryFailed),
        Err(TooManyErrors { error_count: 6 })
    );
    assert_eq!(
        state.record_error(),
        Err(TooManyErrors { error_count: 7 })
    );
}

#[test]
fn failed_batch_leaves_the_delay() {
    let mut state = PollLoop::start(0u64, 30);
    state.step(PollEvent::BatchFailed).unwrap();
    assert_eq!(state.delay_secs, 30);
    assert_eq!(state.error_count, 1);
}

#[test]
fn error_count_stops_at_the_greatest_number() {
    let mut state = PollLoop::start(0u64, 30);
    state.error_count = u32::MAX;
    assert_eq!(
        state.record_error(),
        Err(TooManyErrors {
            error_count: u32::MAX
        })
    );
    state.published = u32::MAX;
    state.record_published(1);
    assert_eq!(state.published, u32::MAX);
}

#[test]
fn sleep_lies_within_five_seconds_of_the_delay() {
    let state = PollLoop::start(0u64, 30);
    assert_eq!(state.sleep_bounds(), (25_000, 35_000));
    let mut seen_different = false;
    let first = state.next_sleep_millis();
    for _ in 0..200 {
        let millis = state.next_sleep_millis();
        assert!((25_000..35_000).contains(&millis));
        seen_different |= millis != first;
    }
    assert!(seen_different);
    assert_eq!(PollLoop::start(0u64, 10).sleep_bounds(), (5_000, 15_000));
    assert_eq!(
        PollLoop::start(0u64, 1800).sleep_bounds(),
        (1_795_000, 1_805_000)
    );
}

#[test]
fn fresh_order_skips_what_is_not_past_the_watermark() {
    assert_eq!(fresh_order(&vec![5u64, 3, 9, 4, 4], &4), vec![0, 2]);
    assert_eq!(fresh_order(&vec![1u64, 2, 3], &3), Vec::<usize>::new());
    assert_eq!(fresh_order(&Vec::<u64>::new(), &0), Vec::<usize>::new());
}

#[test]
fn fresh_order_keeps_page_order_among_equal_marks() {
    assert_eq!(
        fresh_order(&vec![7u64, 5, 7, 5, 6], &0),
        vec![1, 3, 4, 0, 2]
    );
}

#[test]
fn marks_are_ordered_by_seconds_then_nanoseconds() {
    let early = DateTime { secs: 10, nanos: 999_999_999 };
    let late = DateTime { secs: 11, nanos: 0 };
    let later = DateTime { secs: 11, nanos: 1 };
    let before_epoch = DateTime { secs: -1, nanos: 500 };
    assert!(late.exceeds(&early));
    assert!(!early.exceeds(&late));
    assert!(later.exceeds(&late));
    assert!(!late.exceeds(&late));
    assert!(late.is_after(&before_epoch));
    assert!(DateTime::epoch().is_after(&before_epoch));
    assert_eq!(early.latest(late), late);
    assert_eq!(late.latest(early), late);
    assert_eq!(DateTime::epoch(), DateTime { secs: 0, nanos: 0 });
    assert!(9u64.exceeds(&8));
    assert!(!8u64.exceeds(&8));
}

#[test]
fn deleted_comments_are_selected_alike() {
    let page = vec![
        DeletedComment {
            id: 1,
            created_at: at(1),
            post_id: 2,
            creator: IdHolder { id: 3 },
            updated_at: at(40),
            updater: IdHolder { id: 4 },
            is_deleted: true,
        },
        DeletedComment {
            id: 2,
            created_at: at(1),
            post_id: 2,
            creator: IdHolder { id: 3 },
            updated_at: at(30),
            updater: IdHolder { id: 9 },
            is_deleted: true,
        },
    ];
    assert_eq!(new_deletions(&page, &at(10)), vec![1, 0]);
    assert_eq!(new_deletions(&page, &at(30)), vec![0]);
    match page[0].into_record_data() {
        RecordData::Danbooru(DanbooruRecord::Comment(record)) => {
            assert_eq!(record.id, 1);
            match record.state {
                CommentState::Deleted {
                    post_id,
                    created_at,
                    updated_at,
                    creator_id,
                    updater_id,
                } => {
                    assert_eq!(post_id, 2);
                    assert_eq!(created_at, at(1));
                    assert_eq!(updated_at, at(40));
                    assert_eq!(creator_id, 3);
                    assert_eq!(updater_id, 4);
                }
                other => panic!("not deleted: {other:?}"),
            }
        }
        other => panic!("not a danbooru comment: {other:?}"),
    }
}

#[test]
fn full_comment_becomes_a_present_comment() {
    match comment(12, 2_000, -3).into_record_data() {
        RecordData::Danbooru(DanbooruRecord::Comment(record)) => {
            assert_eq!(record.id, 12);
            assert_eq!(record.entity_id(), 12);
            match record.state {
                CommentState::Present {
                    post_id,
                    created_at,
                    updated_at,
                    creator_id,
                    updater_id,
                    body,
                    score,
                    do_not_bump_post,
                    is_sticky,
                } => {
                    assert_eq!(post_id, 77);
                    assert_eq!(created_at, at(1_000));
                    assert_eq!(updated_at, at(2_000));
                    assert_eq!(creator_id, 5);
                    assert_eq!(updater_id, 6);
                    assert_eq!(body, "comment 12");
                    assert_eq!(score, -3);
                    assert!(!do_not_bump_post);
                    assert!(is_sticky);
                }
                other => panic!("not present: {other:?}"),
            }
        }
        other => panic!("not a danbooru comment: {other:?}"),
    }
}

fn rule34_comment(id: u64, created_at: &str) -> rule34_comment::Comment {
    rule34_comment::Comment {
        created_at: created_at.to_string(),
        post_id: 10,
        body: "nice".to_string(),
        creator: "someone".to_string(),
        id,
        creator_id: 4,
    }
}

#[test]
fn rule34_comments_are_taken_in_the_order_of_their_ids() {
    let page = vec![
        rule34_comment(30, "2023-05-01 12:30"),
        rule34_comment(10, "2023-05-01 12:31"),
        rule34_comment(20, "2023-05-01 12:32"),
    ];
    assert_eq!(rule34_comment::new_comments(&page, 0), vec![1, 2, 0]);
    assert_eq!(rule34_comment::new_comments(&page, 10), vec![2, 0]);
    assert_eq!(rule34_comment::new_comments(&page, 30), Vec::<usize>::new());
}

#[test]
fn rule34_date_is_read_to_the_minute() {
    assert_eq!(
        rule34_comment(1, "2023-05-01 12:30").created_at(),
        Some(DateTime { secs: 1_682_944_200, nanos: 0 })
    );
    assert_eq!(
        rule34_comment(1, "1970-01-01 00:00").created_at(),
        Some(DateTime::epoch())
    );
    assert_eq!(rule34_comment(1, "yesterday").created_at(), None);
    assert_eq!(rule34_comment(1, "2023-05-01 12:60").created_at(), None);
    assert_eq!(rule34_comment(1, "2023-13-01 12:00").created_at(), None);
    assert_eq!(rule34_comment(1, "").created_at(), None);
}

#[test]
fn malformed_date_skips_one_entry_only() {
    let page = vec![
        rule34_comment(1, "2023-05-01 12:30"),
        rule34_comment(2, "garbage"),
        rule34_comment(3, "2023-05-01 12:32"),
    ];
    let mut state = PollLoop::start(0u64, 30);
    let mut submitted = Vec::new();
    for index in rule34_comment::new_comments(&page, state.watermark) {
        match page[index].created_at() {
            Some(date) => {
                submitted.push(page[index].clone().into_record_data(date));
                state.step(PollEvent::EntryPublished(page[index].id)).unwrap();
            }
            None => state.step(PollEvent::EntryFailed).unwrap(),
        }
    }
    state.step(PollEvent::BatchFinished).unwrap();
    assert_eq!(submitted.len(), 2);
    assert_eq!(state.watermark, 3);
    assert_eq!(state.error_count, 1);
    assert_eq!(state.delay_secs, 25);
}

#[test]
fn rule34_comment_becomes_a_present_comment() {
    let date = DateTime { secs: 1_682_944_200, nanos: 0 };
    match rule34_comment(8, "2023-05-01 12:30").into_record_data(date) {
        RecordData::Rule34(rule34::Rule34Record::Comment(record)) => {
            assert_eq!(record.id, 8);
            match record.state {
                rule34::comment::CommentState::Present {
                    post_id,
                    author_id,
                    author_name,
                    created_at,
                    text,
                    score,
                    is_reported,
                } => {
                    assert_eq!(post_id, 10);
                    assert_eq!(author_id, Some(4));
                    assert_eq!(author_name, "someone");
                    assert_eq!(created_at, date);
                    assert_eq!(text, "nice");
                    assert_eq!(score, None);
                    assert_eq!(is_reported, None);
                }
                other => panic!("not present: {other:?}"),
            }
        }
        other => panic!("not a rule34 comment: {other:?}"),
    }
}

#[test]
fn minted_records_carry_the_time_and_a_discriminator() {
    let before = std::time::SystemTime::now()
        .duration_since(std::time::UNIX_EPOCH)
        .unwrap()
        .as_millis() as u64;
    let first = mint_record(comment(1, 5, 0).into_record_data()).unwrap();
    let after = std::time::SystemTime::now()
        .duration_since(std::time::UNIX_EPOCH)
        .unwrap()
        .as_millis() as u64;
    assert!(before <= first.id.timestamp_millis());
    assert!(first.id.timestamp_millis() <= after);
    let mut discriminators = std::collections::HashSet::new();
    for _ in 0..64 {
        let record = mint_record(comment(1, 5, 0).into_record_data()).unwrap();
        discriminators.insert(record.id.low_bits());
    }
    assert!(discriminators.len() > 1);
}

#[test]
fn new_record_takes_its_discriminator_from_the_data() {
    let record = Record::new(comment(1, 5, 0).into_record_data()).unwrap();
    assert!(record.id.low_bits() < u16::MAX);
    let again = Record::new(comment(1, 5, 0).into_record_data()).unwrap();
    assert_eq!(record.id.low_bits(), again.id.low_bits());
}

#[test]
fn record_is_made_of_data_hash_and_clock() {
    let made = Record::from_clock(comment(1, 5, 0).into_record_data(), 65_535 + 7, Some(1_000))
        .unwrap();
    assert_eq!(made.id, Snowflake::from_parts(1_000, 7).unwrap());
    assert_eq!(updated_at(&made), at(5));
    let wrapped = Record::from_clock(comment(1, 5, 0).into_record_data(), u64::MAX, Some(2))
        .unwrap();
    assert_eq!(wrapped.id.low_bits(), (u64::MAX % 65_535) as u16);
    assert_eq!(wrapped.id.timestamp_millis(), 2);
    assert_eq!(
        Record::from_clock(comment(1, 5, 0).into_record_data(), 1, None)
            .unwrap_err(),
        ClockError::BeforeEpoch
    );
    assert_eq!(
        Record::from_clock(comment(1, 5, 0).into_record_data(), 1, Some(1u128 << 48))
            .unwrap_err(),
        ClockError::TooFarInFuture
    );
}

#[test]
fn resealing_replaces_the_discriminator_only() {
    let made = Record::from_clock(comment(9, 5, 0).into_record_data(), 7, Some(1_000));
    let sealed = reseal(made, 0xbeef).unwrap();
    assert_eq!(sealed.id, Snowflake::from_parts(1_000, 0xbeef).unwrap());
    assert_eq!(updated_at(&sealed), at(5));
    assert_eq!(
        reseal(Err(ClockError::TooFarInFuture), 1).unwrap_err(),
        ClockError::TooFarInFuture
    );
    assert_eq!(
        reseal(Err(ClockError::BeforeEpoch), 1).unwrap_err(),
        ClockError::BeforeEpoch
    );
}
