use chrono::{Duration, TimeZone, Utc};
use multibooru::acquisition::danbooru_comment::{comments_of_listing, deletions_of_listing};
use multibooru::danbooru::record::{PostState, Record, TagState};
use multibooru::danbooru::tag::TagCategory;
use multibooru::danbooru::wire::{posts_of_listing, tags_of_listing, versions_of_listing};
use multibooru::danbooru::{Post, PostVersion, Rating, Tag};
use multibooru::model::record::BooruRecord;
use multibooru::DateTime;

fn stamp(time: chrono::DateTime<Utc>) -> DateTime {
    DateTime {
        secs: time.timestamp(),
        nanos: time.timestamp_subsec_nanos(),
    }
}

/// As a separate function to avoid clutter
fn get_test_json_string() -> &'static str {
    r#"{
        "id":4777148,
        "created_at":"2021-09-14T14:33:47.088-04:00",
        "uploader_id":350028,
        "score":1,
        "source":"https://www.pokemon.jp/look/comic/detail/16524.html",
        "md5":"6a12e49132031646924596e21f7ccab9",
        "last_comment_bumped_at":null,
        "rating":"g",
        "image_width":402,
        "image_height":1283,
        "tag_string":"4koma blank_eyes blastoise blush bowl chopsticks comic company_name copyright_name food furigana highres litten mundane_utility nagashi_soumen narration no_humans noodles official_art pokemon pokemon_(creature) popplio rowlet soumen sound_effects sparkle speech_bubble sweatdrop translated water yamashita_takahiro",
        "fav_count":1,
        "file_ext":"jpg",
        "last_noted_at":"2021-09-24T02:45:30.453-04:00",
        "parent_id":null,
        "has_children":false,
        "approver_id":728936,
        "tag_count_general":22,
        "tag_count_artist":1,
        "tag_count_character":4,
        "tag_count_copyright":1,
        "file_size":237334,
        "up_score":1,
        "down_score":0,
        "is_pending":false,
        "is_flagged":false,
        "is_deleted":false,
        "tag_count":31,
        "updated_at":"2022-05-23T14:12:15.938-04:00",
        "is_banned":false,
        "pixiv_id":null,
        "last_commented_at":null,
        "has_active_children":false,
        "bit_flags":2,
        "tag_count_meta":3,
        "has_large":false,
        "has_visible_children":false,
        "tag_string_general":"4koma blank_eyes blush bowl chopsticks comic company_name copyright_name food furigana mundane_utility nagashi_soumen narration no_humans noodles pokemon_(creature) soumen sound_effects sparkle speech_bubble sweatdrop water",
        "tag_string_character":"blastoise litten popplio rowlet",
        "tag_string_copyright":"pokemon",
        "tag_string_artist":"yamashita_takahiro",
        "tag_string_meta":"highres official_art translated",
        "file_url":"https://cdn.donmai.us/original/6a/12/6a12e49132031646924596e21f7ccab9.jpg",
        "large_file_url":"https://cdn.donmai.us/original/6a/12/6a12e49132031646924596e21f7ccab9.jpg",
        "preview_file_url":"https://cdn.donmai.us/preview/6a/12/6a12e49132031646924596e21f7ccab9.jpg"
        }"#
}

#[test]
fn post_test_deserialize_danbooru_post_json() {
    let data = get_test_json_string();

    let post: Post = Post::from_json(data)
        .expect("failed to deserialize JSON that should be valid -- error in test");
    assert_eq!(post.id, 4777148);
    assert_eq!(
        post.created_at,
        stamp(
            Utc.with_ymd_and_hms(2021, 9, 14, 14 + 4, 33, 47).unwrap()
                + Duration::milliseconds(088)
        )
    ); // Their timezone is -4, so add 4h to get UTC
    assert_eq!(post.uploader_id, 350028);
    assert_eq!(post.score, 1);
    assert_eq!(
        post.source,
        Some("https://www.pokemon.jp/look/comic/detail/16524.html".to_string())
    );
    assert_eq!(
        post.md5,
        Some([
            0x6a, 0x12, 0xe4, 0x91, 0x32, 0x03, 0x16, 0x46, 0x92, 0x45, 0x96, 0xe2, 0x1f, 0x7c,
            0xca, 0xb9
        ])
    );
    assert_eq!(post.last_comment_bumped_at, None);
    assert_eq!(post.image_height, 1283);
    assert_eq!(post.image_width, 402);

    assert_eq!(post.rating, Rating::General);
    assert_eq!(post.image_width, 402);
    assert_eq!(post.image_height, 1283);
    assert_eq!(post.fav_count, 1);
    assert_eq!(
        post.last_noted_at,
        Some(stamp(
            Utc.with_ymd_and_hms(2021, 9, 24, 02 + 4, 45, 30).unwrap()
                + Duration::milliseconds(453)
        ))
    ); // Their timezone is -4, so add 4h to get UTC
    assert_eq!(post.parent_id, None);

    assert_eq!(post.has_children, false);
    assert_eq!(post.has_active_children, false);
    assert_eq!(post.has_visible_children, false);

    assert_eq!(post.approver_id, Some(728936));
    assert_eq!(post.file_size, 237334);
    assert_eq!(post.up_score, Some(1));
    assert_eq!(post.down_score, Some(0));

    assert_eq!(post.is_pending, false);
    assert_eq!(post.is_flagged, false);
    assert_eq!(post.is_deleted, false);
    assert_eq!(post.is_banned, false);

    assert_eq!(
        post.updated_at,
        stamp(
            Utc.with_ymd_and_hms(2022, 5, 23, 14 + 4, 12, 15).unwrap()
                + Duration::milliseconds(938)
        )
    ); // Their timezone is -4, so add 4h to get UTC
    assert_eq!(post.pixiv_id, None);
    assert_eq!(post.last_commented_at, None);
    assert_eq!(
        post.tags_general,
        vec![
            "4koma",
            "blank_eyes",
            "blush",
            "bowl",
            "chopsticks",
            "comic",
            "company_name",
            "copyright_name",
            "food",
            "furigana",
            "mundane_utility",
            "nagashi_soumen",
            "narration",
            "no_humans",
            "noodles",
            "pokemon_(creature)",
            "soumen",
            "sound_effects",
            "sparkle",
            "speech_bubble",
            "sweatdrop",
            "water"
        ]
    );
    assert_eq!(
        post.tags_character,
        vec!["blastoise", "litten", "popplio", "rowlet"]
    );
    assert_eq!(post.tags_copyright, vec!["pokemon"]);
    assert_eq!(post.tags_artist, vec!["yamashita_takahiro"]);
    assert_eq!(
        post.tags_meta,
        vec!["highres", "official_art", "translated"]
    );
    assert!(post.tag_string_is_union());
    assert_eq!(
        post.url,
        "https://cdn.donmai.us/original/6a/12/6a12e49132031646924596e21f7ccab9.jpg"
    );
    assert_eq!(post.file_ext, "jpg");

    assert_eq!(post.has_large, false);

    assert_eq!(post.bit_flags, 2);
}

#[test]
fn posts_test_deserialize_danbooru_post_json() {
    let data = get_test_json_string();
    let post: Post = Post::from_json(data)
        .expect("failed to deserialize JSON that should be valid -- error in test");
    assert_eq!(post.id, 4777148);
    assert_eq!(
        post.created_at,
        stamp(
            Utc.with_ymd_and_hms(2021, 9, 14, 18, 33, 47).unwrap() + Duration::milliseconds(088)
        )
    );
    assert_eq!(post.uploader_id, 350028);
    assert_eq!(post.score, 1);
    assert_eq!(
        post.source,
        Some("https://www.pokemon.jp/look/comic/detail/16524.html".to_string())
    );
    assert_eq!(
        post.md5,
        Some([
            0x6a, 0x12, 0xe4, 0x91, 0x32, 0x03, 0x16, 0x46, 0x92, 0x45, 0x96, 0xe2, 0x1f, 0x7c,
            0xca, 0xb9
        ])
    );

    assert_eq!(post.rating, Rating::General);
    assert_eq!(post.image_width, 402);
    assert_eq!(post.image_height, 1283);
    assert_eq!(post.fav_count, 1);
    assert_eq!(
        post.last_noted_at,
        Some(stamp(
            Utc.with_ymd_and_hms(2021, 9, 24, 06, 45, 30).unwrap() + Duration::milliseconds(453)
        ))
    );
    assert_eq!(post.parent_id, None);
    assert_eq!(post.has_children, false);
    assert_eq!(post.approver_id, Some(728936));
    assert_eq!(post.file_size, 237334);
    assert_eq!(post.up_score, Some(1));
    assert_eq!(post.down_score, Some(0));
    assert_eq!(
        post.updated_at,
        stamp(
            Utc.with_ymd_and_hms(2022, 5, 23, 18, 12, 15).unwrap() + Duration::milliseconds(938)
        )
    );
    assert_eq!(post.pixiv_id, None);
    assert_eq!(post.last_commented_at, None);
    assert_eq!(
        post.tags_general,
        vec![
            "4koma",
            "blank_eyes",
            "blush",
            "bowl",
            "chopsticks",
            "comic",
            "company_name",
            "copyright_name",
            "food",
            "furigana",
            "mundane_utility",
            "nagashi_soumen",
            "narration",
            "no_humans",
            "noodles",
            "pokemon_(creature)",
            "soumen",
            "sound_effects",
            "sparkle",
            "speech_bubble",
            "sweatdrop",
            "water"
        ]
    );
    assert_eq!(
        post.tags_character,
        vec!["blastoise", "litten", "popplio", "rowlet"]
    );
    assert_eq!(post.tags_copyright, vec!["pokemon"]);
    assert_eq!(post.tags_artist, vec!["yamashita_takahiro"]);
    assert_eq!(
        post.tags_meta,
        vec!["highres", "official_art", "translated"]
    );
    assert_eq!(
        post.url,
        "https://cdn.donmai.us/original/6a/12/6a12e49132031646924596e21f7ccab9.jpg"
    );
}

fn same_post(a: &Post, b: &Post) -> bool {
    format!("{a:?}") == format!("{b:?}")
}

#[test]
fn test_serialize_and_deserialize() {
    let data = get_test_json_string();
    // First deserialize the listing's JSON into a Post
    let post: Post = Post::from_json(data).expect("Error in deserializing Post from JSON");
    // Then serialize the Post into JSON
    let serialized = post.to_json().expect("Error in serializing Post to JSON");
    // Then deserialize the JSON back into a Post
    let post2: Post =
        Post::from_json(&serialized).expect("Error in deserializing Post from JSON");
    // The two posts should be equal
    assert!(same_post(&post, &post2));
    // Finally, serialize the second Post into JSON
    let serialized2 = post2.to_json().expect("Error in serializing Post to JSON");
    // The two JSON strings should be equal
    assert_eq!(serialized, serialized2);
}

fn get_test_data() -> &'static str {
    r#"
        {"id":35923751,
        "post_id":5039418,
        "tags":"1boy basil_(omori) blonde_hair blue_eyes brown_vest camera closed_mouth collared_shirt english_commentary field flower flower_field from_side hair_flower hair_ornament highres holding holding_camera jeanty_art leaf omori orange_background orange_sky orange_theme outdoors pink_flower shirt short_sleeves sky solo sunflower sunset upper_body vest white_shirt yellow_flower",
        "added_tags":["orange_background","orange_theme"],
        "removed_tags":[],
        "updater_id":200729,
        "updated_at":"2022-01-08T13:41:49.000-05:00",
        "rating":"s",
        "rating_changed":false,
        "parent_id":null,
        "parent_changed":false,
        "source":"https://twitter.com/jeanty_art/status/1479025928562958338",
        "source_changed":false,
        "version":2,
        "obsolete_added_tags":"",
        "obsolete_removed_tags":"",
        "unchanged_tags":"1boy basil_(omori) blonde_hair blue_eyes brown_vest camera closed_mouth collared_shirt english_commentary field flower flower_field from_side hair_flower hair_ornament highres holding holding_camera jeanty_art leaf omori orange_sky outdoors pink_flower shirt short_sleeves sky solo sunflower sunset upper_body vest white_shirt yellow_flower"
    }"#
}

#[test]
fn test_deserialize_danbooru_postversion() {
    let data = get_test_data();
    let common_tags = vec![
        "1boy",
        "basil_(omori)",
        "blonde_hair",
        "blue_eyes",
        "brown_vest",
        "camera",
        "closed_mouth",
        "collared_shirt",
        "english_commentary",
        "field",
        "flower",
        "flower_field",
        "from_side",
        "hair_flower",
        "hair_ornament",
        "highres",
        "holding",
        "holding_camera",
        "jeanty_art",
        "leaf",
        "omori",
        "orange_sky",
        "outdoors",
        "pink_flower",
        "shirt",
        "short_sleeves",
        "sky",
        "solo",
        "sunflower",
        "sunset",
        "upper_body",
        "vest",
        "white_shirt",
        "yellow_flower",
    ];
    let added_tags = vec!["orange_background", "orange_theme"];
    let mut total_tags = common_tags.clone();
    total_tags.extend(added_tags.clone());
    total_tags.sort();
    let none: Vec<String> = vec![];

    let postversion: PostVersion = PostVersion::from_json(data).unwrap();
    assert_eq!(postversion.id, 35923751);
    assert_eq!(postversion.post_id, 5039418);
    assert_eq!(postversion.version, 2);
    assert_eq!(postversion.updater_id, 200729);
    assert_eq!(
        postversion.updated_at,
        stamp(Utc.with_ymd_and_hms(2022, 1, 8, 13 + 5, 41, 49).unwrap())
    );
    assert_eq!(postversion.tags, total_tags);
    assert_eq!(postversion.added_tags, added_tags);
    assert_eq!(postversion.removed_tags, none);
    assert_eq!(postversion.unchanged_tags, common_tags);
    assert_eq!(postversion.obsolete_added_tags, none);
    assert_eq!(postversion.obsolete_removed_tags, none);

    assert_eq!(postversion.rating, Rating::Sensitive);
    assert_eq!(postversion.rating_changed, false);
    assert_eq!(postversion.parent_id, None);
    assert_eq!(postversion.parent_changed, false);

    assert_eq!(
        postversion.source,
        "https://twitter.com/jeanty_art/status/1479025928562958338"
    );
    assert_eq!(postversion.source_changed, false);
}

#[test]
fn test_deserialize_danbooru_tag_json() {
    let data = r#"
        {
            "id": 2716,
            "name": "cat",
            "post_count": 53522,
            "category": 0,
            "created_at": "2013-02-28T00:28:48.044-05:00",
            "updated_at": "2019-08-30T17:23:14.479-04:00",
            "is_deprecated": false,
            "words": [
              "cat"
            ]
          }
        "#;

    let tag: Tag = Tag::from_json(data).unwrap();
    assert_eq!(tag.id, 2716);
    assert_eq!(tag.name, "cat");
    assert_eq!(tag.post_count, 53522);
    assert_eq!(tag.category, TagCategory::General);
    assert_eq!(
        tag.created_at,
        stamp(
            Utc.with_ymd_and_hms(2013, 02, 28, 00 + 5, 28, 48).unwrap()
                + Duration::milliseconds(044)
        )
    );
    assert_eq!(
        tag.updated_at,
        stamp(
            Utc.with_ymd_and_hms(2019, 08, 30, 17 + 4, 23, 14).unwrap()
                + Duration::milliseconds(479)
        )
    );
    assert_eq!(tag.is_deprecated, false);
}

#[test]
fn post_is_written_under_the_names_of_the_store() {
    let post = Post::from_json(get_test_json_string()).unwrap();
    let written: serde_json::Value = serde_json::from_str(&post.to_json().unwrap()).unwrap();
    let members = written.as_object().unwrap();
    assert_eq!(members.len(), 37);
    assert_eq!(members["tags_artist"], "yamashita_takahiro");
    assert_eq!(members["tags_character"], "blastoise litten popplio rowlet");
    assert_eq!(
        members["url"],
        "https://cdn.donmai.us/original/6a/12/6a12e49132031646924596e21f7ccab9.jpg"
    );
    assert_eq!(members["md5"], "6a12e49132031646924596e21f7ccab9");
    assert_eq!(members["rating"], "g");
    assert_eq!(members["created_at"], "2021-09-14T18:33:47.088Z");
    assert!(members["last_commented_at"].is_null());
    assert_eq!(members["file_size"], 237334);
    assert!(!members.contains_key("tag_string"));
    assert!(!members.contains_key("file_url"));
}

#[test]
fn post_without_a_needed_member_is_not_read() {
    let whole: serde_json::Value = serde_json::from_str(get_test_json_string()).unwrap();
    for name in ["id", "created_at", "rating", "file_url", "tag_string_meta", "bit_flags"] {
        let mut members = whole.as_object().unwrap().clone();
        members.remove(name);
        let text = serde_json::to_string(&serde_json::Value::Object(members)).unwrap();
        assert!(Post::from_json(&text).is_none(), "{name}");
    }
    for name in ["approver_id", "md5", "source", "last_noted_at", "tag_count"] {
        let mut members = whole.as_object().unwrap().clone();
        members.remove(name);
        let text = serde_json::to_string(&serde_json::Value::Object(members)).unwrap();
        assert!(Post::from_json(&text).is_some(), "{name}");
    }
    for (name, wrong) in [
        ("rating", "\"x\""),
        ("md5", "\"6a12\""),
        ("image_width", "-1"),
        ("image_width", "4294967296"),
        ("score", "2147483648"),
        ("created_at", "\"14 September\""),
        ("has_large", "0"),
        ("tag_string", "[\"a\"]"),
    ] {
        let mut members = whole.as_object().unwrap().clone();
        members.insert(name.to_string(), serde_json::from_str(wrong).unwrap());
        let text = serde_json::to_string(&serde_json::Value::Object(members)).unwrap();
        assert!(Post::from_json(&text).is_none(), "{name}");
    }
    assert!(Post::from_json("").is_none());
    assert!(Post::from_json("[]").is_none());
}

#[test]
fn unknown_category_is_not_read() {
    let data = r#"{"id": 1, "name": "x", "post_count": 0, "category": 2,
        "created_at": "2013-02-28T00:28:48Z", "updated_at": "2013-02-28T00:28:48Z",
        "is_deprecated": true}"#;
    assert!(Tag::from_json(data).is_none());
    let meta = data.replace("\"category\": 2", "\"category\": 5");
    let tag = Tag::from_json(&meta).unwrap();
    assert_eq!(tag.category, TagCategory::Meta);
    assert!(tag.is_deprecated);
    let written: serde_json::Value = serde_json::from_str(&tag.to_json().unwrap()).unwrap();
    assert_eq!(written["category"], 5);
    assert_eq!(written["created_at"], "2013-02-28T00:28:48Z");
}

#[test]
fn listings_are_read_item_by_item() {
    let post = get_test_json_string();
    let page = format!("[{post},{post}]");
    let posts = posts_of_listing(page.as_bytes()).unwrap();
    assert_eq!(posts.len(), 2);
    assert_eq!(posts[1].id, 4777148);
    assert_eq!(posts_of_listing(b"[]").unwrap().len(), 0);
    assert!(posts_of_listing(format!("[{post},{{}}]").as_bytes()).is_none());
    assert!(posts_of_listing(post.as_bytes()).is_none());
    assert!(posts_of_listing(b"<html>busy</html>").is_none());

    let version = get_test_data();
    let versions = versions_of_listing(format!("[{version}]").as_bytes()).unwrap();
    assert_eq!(versions.len(), 1);
    assert_eq!(versions[0].id, 35923751);
    assert!(tags_of_listing(format!("[{version}]").as_bytes()).is_none());
    assert_eq!(tags_of_listing(b" [ ] ").unwrap().len(), 0);
}

#[test]
fn comment_listings_are_read() {
    let page = r#"[
      {"id":3,"created_at":"2023-05-01T10:00:00.000-04:00","post_id":7,"creator_id":11,
       "body":"third","score":-2,"updated_at":"2023-05-01T12:00:00.500-04:00","updater_id":12,
       "do_not_bump_post":false,"is_deleted":false,"is_sticky":true},
      {"id":1,"created_at":"2023-05-01T09:00:00.000-04:00","post_id":7,"creator_id":11,
       "body":"first","score":5,"updated_at":"2023-05-01T09:00:00.000-04:00","updater_id":11,
       "do_not_bump_post":true,"is_deleted":false,"is_sticky":false}
    ]"#;
    let comments = comments_of_listing(page.as_bytes()).unwrap();
    assert_eq!(comments.len(), 2);
    assert_eq!(comments[0].id, 3);
    assert_eq!(comments[0].body, "third");
    assert_eq!(comments[0].score, -2);
    assert_eq!(comments[0].updater_id, 12);
    assert!(comments[0].is_sticky);
    assert_eq!(
        comments[0].updated_at,
        DateTime { secs: 1_682_956_800, nanos: 500_000_000 }
    );
    assert_eq!(comments[1].created_at, DateTime { secs: 1_682_946_000, nanos: 0 });
    assert!(comments[1].do_not_bump_post);
    assert!(comments_of_listing(b"{\"success\":false}").is_none());
    assert!(comments_of_listing(b"[{\"id\":1}]").is_none());

    let deleted = r#"[{"id":9,"created_at":"2023-05-01T09:00:00Z","post_id":7,
       "creator":{"id":11},"updated_at":"2023-05-02T09:00:00Z","updater":{"id":1},
       "is_deleted":true}]"#;
    let deletions = deletions_of_listing(deleted.as_bytes()).unwrap();
    assert_eq!(deletions.len(), 1);
    assert_eq!(deletions[0].id, 9);
    assert_eq!(deletions[0].creator.id, 11);
    assert_eq!(deletions[0].updater.id, 1);
    assert!(deletions[0].is_deleted);
    assert!(deletions_of_listing(page.as_bytes()).is_none());
}

#[test]
fn booru_records_are_written_with_their_tags() {
    let gap = BooruRecord::from_danbooru(Record::Post {
        id: 104,
        state: PostState::MissingTemporarily,
    });
    assert_eq!(
        gap.to_json().unwrap(),
        "{\"booru\":\"Danbooru\",\"data\":{\"data\":{\"id\":104,\
         \"state\":\"MissingTemporarily\"},\"entity\":\"Post\"}}"
    );
    let gone = BooruRecord::from_danbooru(Record::Tag {
        id: 5,
        state: TagState::MissingPermanently,
    });
    let written: serde_json::Value = serde_json::from_str(&gone.to_json().unwrap()).unwrap();
    assert_eq!(written["booru"], "Danbooru");
    assert_eq!(written["data"]["entity"], "Tag");
    assert_eq!(written["data"]["data"]["id"], 5);
    assert_eq!(written["data"]["data"]["state"], "MissingPermanently");

    let post = Post::from_json(get_test_json_string()).unwrap();
    let exists = BooruRecord::from_danbooru(Record::Post {
        id: 4777148,
        state: PostState::Exists(post),
    });
    let written: serde_json::Value = serde_json::from_str(&exists.to_json().unwrap()).unwrap();
    assert_eq!(written["data"]["data"]["state"]["Exists"]["id"], 4777148);
    assert_eq!(written["data"]["data"]["state"]["Exists"]["rating"], "g");

    let version = PostVersion::from_json(get_test_data()).unwrap();
    let stated = BooruRecord::from_danbooru(Record::PostVersion {
        id: version.id,
        state: version,
    });
    let written: serde_json::Value = serde_json::from_str(&stated.to_json().unwrap()).unwrap();
    assert_eq!(written["data"]["entity"], "PostVersion");
    assert_eq!(written["data"]["data"]["state"]["added_tags"][1], "orange_theme");
    assert_eq!(written["data"]["data"]["state"]["obsolete_added_tags"], "");
}
