use multibooru::record::{BooruId, EntityKey, RecordData, RecordType};
use multibooru::record_types::danbooru::comment as danbooru_comment;
use multibooru::record_types::danbooru::{DanbooruRecord, DanbooruRecordType};
use multibooru::record_types::media::resource_locator::MediaResourceLocator;
use multibooru::record_types::media::state::MediaState;
use multibooru::record_types::media::{MediaRecord, MediaStateSimple};
use multibooru::record_types::rule34::comment as rule34_comment;
use multibooru::record_types::rule34::{Rule34EntityType, Rule34Record};
use sha2::Digest;

fn locator(hash: &str, ext: &str) -> MediaResourceLocator {
    MediaResourceLocator::Danbooru {
        hash: hash.to_string(),
        ext: ext.to_string(),
    }
}

fn media(state: MediaState) -> MediaRecord {
    MediaRecord {
        locator: locator("09bbe06d7f8c4bb3d2e992221693c21e", "png"),
        state,
    }
}

#[test]
fn media_state_is_told_without_what_it_carries() {
    assert_eq!(
        media(MediaState::NotDownloadedYet).get_state(),
        MediaStateSimple::NotDownloadedYet
    );
    assert_eq!(
        media(MediaState::DownloadError("x".to_string())).get_state(),
        MediaStateSimple::DownloadError
    );
    assert_eq!(
        media(MediaState::Present {
            media_ref: "r".to_string()
        })
        .get_state(),
        MediaStateSimple::Present
    );
    assert_eq!(MediaStateSimple::NotDownloadedYet.code(), 0);
    assert_eq!(MediaStateSimple::DownloadError.code(), 1);
    assert_eq!(MediaStateSimple::Present.code(), 2);
}

#[test]
fn locator_key_is_the_head_of_its_digest() {
    let mut hasher = sha2::Sha512::new();
    hasher.update(b"danbooru");
    hasher.update(b"09bbe06d7f8c4bb3d2e992221693c21e");
    hasher.update(b"png");
    let digest = hasher.finalize();
    let mut head = [0u8; 8];
    head.copy_from_slice(&digest[0..8]);
    let key = locator("09bbe06d7f8c4bb3d2e992221693c21e", "png").true_hash_as_u64();
    assert_eq!(key, u64::from_be_bytes(head));
    assert_ne!(key, locator("09bbe06d7f8c4bb3d2e992221693c21e", "jpg").true_hash_as_u64());
}

#[test]
fn locator_key_of_empty_parts() {
    let digest = sha2::Sha512::digest(b"danbooru");
    let mut head = [0u8; 8];
    head.copy_from_slice(&digest[0..8]);
    assert_eq!(locator("", "").true_hash_as_u64(), u64::from_be_bytes(head));
}

#[test]
fn locator_key_takes_the_text_as_utf8() {
    let digest = sha2::Sha512::digest("danbooruh\u{e4}sh\u{1f600}".as_bytes());
    let mut head = [0u8; 8];
    head.copy_from_slice(&digest[0..8]);
    assert_eq!(
        locator("h\u{e4}sh", "\u{1f600}").true_hash_as_u64(),
        u64::from_be_bytes(head)
    );
}

#[test]
fn record_data_tells_its_type_kind_and_entity() {
    let danbooru = RecordData::Danbooru(DanbooruRecord::Comment(
        danbooru_comment::CommentRecord {
            id: 41,
            state: danbooru_comment::CommentState::Absent,
        },
    ));
    assert_eq!(danbooru.type_id(), RecordType::Danbooru);
    assert_eq!(danbooru.type_id().code(), 3);
    assert_eq!(danbooru.entity_type(), 1);
    assert_eq!(danbooru.booru_id(), BooruId::Danbooru);
    assert_eq!(danbooru.booru_id().code(), 1);
    assert_eq!(danbooru.entity_id(), 41);

    let rule34 = RecordData::Rule34(Rule34Record::Comment(rule34_comment::CommentRecord {
        id: 42,
        state: rule34_comment::CommentState::Absent,
    }));
    assert_eq!(rule34.type_id(), RecordType::Rule34);
    assert_eq!(rule34.type_id().code(), 2);
    assert_eq!(rule34.entity_type(), 1);
    assert_eq!(rule34.booru_id(), BooruId::Rule34);
    assert_eq!(rule34.booru_id().code(), 2);
    assert_eq!(rule34.entity_id(), 42);

    let record = media(MediaState::Present {
        media_ref: "r".to_string(),
    });
    let expected = record.locator.true_hash_as_u64();
    let data = RecordData::Media(record);
    assert_eq!(data.type_id(), RecordType::Media);
    assert_eq!(data.type_id().code(), 1);
    assert_eq!(data.entity_type(), 2);
    assert_eq!(data.booru_id(), BooruId::Danbooru);
    assert_eq!(data.entity_id(), expected);
    assert_eq!(
        data.key(),
        EntityKey {
            type_id: 1,
            entity_type: 2,
            entity_id: expected
        }
    );
}

#[test]
fn kinds_of_entity_have_fixed_numbers() {
    assert_eq!(DanbooruRecordType::Comment.code(), 1);
    assert_eq!(Rule34EntityType::Comment.code(), 1);
    let danbooru = DanbooruRecord::Comment(danbooru_comment::CommentRecord {
        id: 1,
        state: danbooru_comment::CommentState::Absent,
    });
    assert_eq!(danbooru.entity_type(), DanbooruRecordType::Comment);
    assert_eq!(danbooru.entity_id(), 1);
    let rule34 = Rule34Record::Comment(rule34_comment::CommentRecord {
        id: 2,
        state: rule34_comment::CommentState::Absent,
    });
    assert_eq!(rule34.entity_type(), Rule34EntityType::Comment);
    assert_eq!(rule34.entity_id(), 2);
}

#[test]
fn state_of_the_same_entity_shares_its_key() {
    let present = RecordData::Danbooru(DanbooruRecord::Comment(
        danbooru_comment::CommentRecord {
            id: 5,
            state: danbooru_comment::CommentState::Deleted {
                post_id: 1,
                created_at: multibooru::DateTime { secs: 1, nanos: 0 },
                updated_at: multibooru::DateTime { secs: 2, nanos: 0 },
                creator_id: 1,
                updater_id: 2,
            },
        },
    ));
    let absent = RecordData::Danbooru(DanbooruRecord::Comment(
        danbooru_comment::CommentRecord {
            id: 5,
            state: danbooru_comment::CommentState::Absent,
        },
    ));
    assert_eq!(present.key(), absent.key());
    let rule34 = RecordData::Rule34(Rule34Record::Comment(rule34_comment::CommentRecord {
        id: 5,
        state: rule34_comment::CommentState::Absent,
    }));
    assert_ne!(present.key(), rule34.key());
}

#[test]
fn payloads_convert_into_record_data() {
    let data: RecordData = media(MediaState::NotDownloadedYet).into();
    assert_eq!(data.type_id(), RecordType::Media);
    let data: RecordData = DanbooruRecord::Comment(danbooru_comment::CommentRecord {
        id: 1,
        state: danbooru_comment::CommentState::Absent,
    })
    .into();
    assert_eq!(data.type_id(), RecordType::Danbooru);
    let data: RecordData = Rule34Record::Comment(rule34_comment::CommentRecord {
        id: 1,
        state: rule34_comment::CommentState::Absent,
    })
    .into();
    assert_eq!(data.type_id(), RecordType::Rule34);
}
