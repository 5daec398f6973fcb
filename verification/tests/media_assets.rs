use multibooru::media_assets::database::{asset_of_row, row_of_asset, AssetRow, BadRow};
use multibooru::media_assets::download::{
    extension_in, fits, temporary_file_name, Download, FileTooBig, MAX_ASSET_SIZE,
};
use multibooru::media_assets::media_asset::MediaAsset;
use multibooru::media_assets::media_type::{ImageType, MediaType};
use multibooru::media_assets::store::{
    file_step, on_url_lookup, plan_store, AssetWrite, FileStep, StorePlan, StoredAsset,
    UrlDecision,
};
use sha2::Digest;
use std::collections::HashMap;
use std::path::PathBuf;

#[test]
fn test_path() {
    let asset = MediaAsset {
        hash: [
            0xab, 0xcd, 0xef, 0x01, 0x23, 0x45, 0x67, 0x89, 0xab, 0xcd, 0xef, 0x01, 0x23, 0x45,
            0x67, 0x89, 0xab, 0xcd, 0xef, 0x01, 0x23, 0x45, 0x67, 0x89, 0xab, 0xcd, 0xef, 0x01,
            0x23, 0x45, 0x67, 0x89,
        ],
        size: 0,
        media_type: MediaType::Image(ImageType::Jpeg),
    };
    assert_eq!(
        PathBuf::from(asset.path()),
        PathBuf::from(
            "ab/cd/abcdef0123456789abcdef0123456789abcdef0123456789abcdef0123456789.jpg"
        )
    );
}

#[test]
fn path_of_an_unknown_type_ends_in_bin() {
    let mut hash = [0u8; 32];
    hash[0] = 0x0f;
    hash[1] = 0xa0;
    hash[31] = 0x01;
    let asset = MediaAsset {
        hash,
        size: 9,
        media_type: MediaType::Unknown,
    };
    assert_eq!(
        asset.path(),
        "0f/a0/0fa0000000000000000000000000000000000000000000000000000000000001.bin"
    );
}

#[test]
fn extensions_of_the_table() {
    assert_eq!(ImageType::Jpeg.extension(), "jpg");
    assert_eq!(ImageType::Png.extension(), "png");
    assert_eq!(ImageType::Gif.extension(), "gif");
    assert_eq!(ImageType::Webp.extension(), "webp");
    assert_eq!(MediaType::Unknown.extension(), "bin");
    assert_eq!(MediaType::Image(ImageType::Webp).extension(), "webp");
    assert_eq!(ImageType::try_from_extension("jpg"), Some(ImageType::Jpeg));
    assert_eq!(ImageType::try_from_extension("jpeg"), Some(ImageType::Jpeg));
    assert_eq!(ImageType::try_from_extension("png"), Some(ImageType::Png));
    assert_eq!(ImageType::try_from_extension("gif"), Some(ImageType::Gif));
    assert_eq!(ImageType::try_from_extension("webp"), Some(ImageType::Webp));
    assert_eq!(ImageType::try_from_extension("JPG"), None);
    assert_eq!(ImageType::try_from_extension(""), None);
    assert_eq!(ImageType::try_from_extension("bin"), None);
}

#[test]
fn media_type_is_told_whatever_the_case() {
    assert_eq!(
        MediaType::from_extension("JPG"),
        MediaType::Image(ImageType::Jpeg)
    );
    assert_eq!(
        MediaType::from_extension("Jpeg"),
        MediaType::Image(ImageType::Jpeg)
    );
    assert_eq!(
        MediaType::from_extension("png"),
        MediaType::Image(ImageType::Png)
    );
    assert_eq!(
        MediaType::from_extension("WebP"),
        MediaType::Image(ImageType::Webp)
    );
    assert_eq!(MediaType::from_extension("mp4"), MediaType::Unknown);
    assert_eq!(MediaType::from_extension(""), MediaType::Unknown);
}

#[test]
fn extension_follows_the_last_dot() {
    assert_eq!(
        extension_in("https://cdn.donmai.us/original/6a/12/6a12.jpg"),
        "jpg"
    );
    assert_eq!(extension_in("a.b.c"), "c");
    assert_eq!(extension_in("nodots"), "nodots");
    assert_eq!(extension_in("trailing."), "");
    assert_eq!(extension_in(""), "");
    assert_eq!(extension_in(".hidden"), "hidden");
}

#[test]
fn download_is_hashed_and_measured_over_its_chunks() {
    let mut download = Download::begin();
    assert_eq!(download.size(), 0);
    assert_eq!(download.receive(b"ab"), Ok(()));
    assert_eq!(download.receive(b""), Ok(()));
    assert_eq!(download.receive(b"c"), Ok(()));
    assert_eq!(download.size(), 3);
    let asset = download.finish("https://example.org/files/picture.PNG");
    let expected: [u8; 32] = sha2::Sha256::digest(b"abc").into();
    assert_eq!(asset.hash, expected);
    assert_eq!(
        hex::encode(asset.hash),
        "ba7816bf8f01cfea414140de5dae2223b00361a396177a9cb410ff61f20015ad"
    );
    assert_eq!(asset.size, 3);
    assert_eq!(asset.media_type, MediaType::Image(ImageType::Png));
}

#[test]
fn empty_download_is_an_asset_too() {
    let asset = Download::begin().finish("https://example.org/x");
    assert_eq!(
        hex::encode(asset.hash),
        "e3b0c44298fc1c149afbf4c8996fb92427ae41e4649b934ca495991b7852b855"
    );
    assert_eq!(asset.size, 0);
    assert_eq!(asset.media_type, MediaType::Unknown);
}

#[test]
fn download_past_the_largest_size_is_refused() {
    assert_eq!(MAX_ASSET_SIZE, 4 * 1024 * 1024 * 1024 - 1);
    assert!(fits(0, 0));
    assert!(fits(0, u32::MAX as usize));
    assert!(fits(u32::MAX as u64 - 1, 1));
    assert!(fits(u32::MAX as u64, 0));
    assert!(!fits(u32::MAX as u64, 1));
    assert!(!fits(1, u32::MAX as usize));
    assert!(!fits(0, u32::MAX as usize + 1));
    assert!(!fits(u64::MAX, 1));
    assert!(!fits(5, usize::MAX));
    // a failed download is never planned for: the tables stay as they are
    let tables = Tables::default();
    let failed: Result<(), FileTooBig> = Err(FileTooBig);
    assert_eq!(failed, Err(FileTooBig));
    assert_eq!(tables.assets.len(), 0);
    assert_eq!(tables.web.len(), 0);
}

#[test]
fn chunks_within_the_largest_size_are_taken() {
    let mut download = Download::begin();
    let chunk = vec![7u8; 1 << 16];
    for _ in 0..16 {
        assert_eq!(download.receive(&chunk), Ok(()));
    }
    assert_eq!(download.size(), 1 << 20);
    let asset = download.finish("big.gif");
    assert_eq!(asset.size, 1 << 20);
    let expected: [u8; 32] = sha2::Sha256::digest(vec![7u8; 1 << 20]).into();
    assert_eq!(asset.hash, expected);
}

#[test]
fn temporary_names_end_in_tmp_and_differ() {
    let first = temporary_file_name();
    let second = temporary_file_name();
    assert!(first.ends_with(".tmp"));
    assert!(second.ends_with(".tmp"));
    assert_eq!(first.len(), 36 + 4);
    assert_ne!(first, second);
    for name in [first, second] {
        for (place, c) in name[..36].chars().enumerate() {
            if [8, 13, 18, 23].contains(&place) {
                assert_eq!(c, '-');
            } else {
                assert!(matches!(c, '0'..='9' | 'a'..='f'), "{name}");
            }
        }
        assert!(!name.contains('/'));
        assert_eq!(uuid::Uuid::parse_str(&name[..36]).unwrap().get_version_num(), 4);
    }
}

#[test]
fn temporary_file_is_moved_only_for_new_content() {
    let row = StoredAsset {
        size: 1,
        media_type: MediaType::Unknown,
    };
    assert_eq!(file_step(AssetWrite::Create(row)), FileStep::MoveIntoPlace);
    assert_eq!(
        file_step(AssetWrite::Upgrade(MediaType::Image(ImageType::Gif))),
        FileStep::Discard
    );
    assert_eq!(file_step(AssetWrite::Keep), FileStep::Discard);
    let downloaded = asset(3, 42, MediaType::Image(ImageType::Jpeg));
    assert_eq!(
        file_step(plan_store(downloaded, None).unwrap().write),
        FileStep::MoveIntoPlace
    );
    let stored = StoredAsset {
        size: 42,
        media_type: MediaType::Unknown,
    };
    assert_eq!(
        file_step(plan_store(downloaded, Some(stored)).unwrap().write),
        FileStep::Discard
    );
}

fn asset(first_byte: u8, size: u32, media_type: MediaType) -> MediaAsset {
    let mut hash = [0u8; 32];
    hash[0] = first_byte;
    MediaAsset {
        hash,
        size,
        media_type,
    }
}

/// The two tables of the store, kept in memory: what the plans are carried
/// out on.
#[derive(Default)]
struct Tables {
    assets: HashMap<[u8; 32], StoredAsset>,
    web: HashMap<String, [u8; 32]>,
}

impl Tables {
    fn lookup_url(&self, url: &str) -> Option<MediaAsset> {
        let hash = self.web.get(url)?;
        let row = self.assets.get(hash)?;
        Some(MediaAsset {
            hash: *hash,
            size: row.size,
            media_type: row.media_type,
        })
    }

    fn carry_out(&mut self, url: &str, plan: StorePlan) {
        match plan.write {
            AssetWrite::Create(row) => {
                assert!(self.assets.insert(plan.asset.hash, row).is_none());
            }
            AssetWrite::Upgrade(media_type) => {
                self.assets.get_mut(&plan.asset.hash).unwrap().media_type = media_type;
            }
            AssetWrite::Keep => {}
        }
        self.web.insert(url.to_string(), plan.asset.hash);
    }

    fn request(&mut self, url: &str, downloaded: MediaAsset) -> MediaAsset {
        match on_url_lookup(self.lookup_url(url)) {
            UrlDecision::Reply(known) => known,
            UrlDecision::Download => {
                let existing = self.assets.get(&downloaded.hash).copied();
                let plan = plan_store(downloaded, existing).expect("no collision");
                self.carry_out(url, plan);
                plan.asset
            }
        }
    }
}

#[test]
fn same_content_under_two_urls_is_stored_once() {
    let mut tables = Tables::default();
    let first = tables.request(
        "https://a.example/one.png",
        asset(7, 100, MediaType::Image(ImageType::Png)),
    );
    assert_eq!(tables.assets.len(), 1);
    let second = tables.request(
        "https://b.example/other.png",
        asset(7, 100, MediaType::Image(ImageType::Png)),
    );
    assert_eq!(second.hash, first.hash);
    assert_eq!(tables.assets.len(), 1);
    assert_eq!(tables.web.len(), 2);
    assert_eq!(tables.web["https://a.example/one.png"], first.hash);
    assert_eq!(tables.web["https://b.example/other.png"], first.hash);
}

#[test]
fn known_url_is_answered_without_a_download() {
    let mut tables = Tables::default();
    let first = tables.request("u", asset(1, 10, MediaType::Unknown));
    // whatever a download would bring, the index answers
    let again = tables.request("u", asset(2, 20, MediaType::Image(ImageType::Gif)));
    assert_eq!(again, first);
    assert_eq!(tables.assets.len(), 1);
    assert_eq!(
        on_url_lookup(None).clone_decision(),
        DecisionKind::Download
    );
}

#[derive(Debug, PartialEq)]
enum DecisionKind {
    Reply,
    Download,
}

trait CloneDecision {
    fn clone_decision(&self) -> DecisionKind;
}

impl CloneDecision for UrlDecision {
    fn clone_decision(&self) -> DecisionKind {
        match self {
            UrlDecision::Reply(_) => DecisionKind::Reply,
            UrlDecision::Download => DecisionKind::Download,
        }
    }
}

#[test]
fn new_hash_is_created() {
    let downloaded = asset(3, 42, MediaType::Image(ImageType::Jpeg));
    let plan = plan_store(downloaded, None).unwrap();
    assert_eq!(
        plan.write,
        AssetWrite::Create(StoredAsset {
            size: 42,
            media_type: MediaType::Image(ImageType::Jpeg)
        })
    );
    assert_eq!(plan.asset, downloaded);
}

#[test]
fn unknown_type_is_upgraded_once_known() {
    let downloaded = asset(3, 42, MediaType::Image(ImageType::Jpeg));
    let stored = StoredAsset {
        size: 42,
        media_type: MediaType::Unknown,
    };
    let plan = plan_store(downloaded, Some(stored)).unwrap();
    assert_eq!(
        plan.write,
        AssetWrite::Upgrade(MediaType::Image(ImageType::Jpeg))
    );
    assert_eq!(plan.asset, downloaded);
}

#[test]
fn known_type_is_kept() {
    let downloaded = asset(3, 42, MediaType::Image(ImageType::Jpeg));
    let stored = StoredAsset {
        size: 42,
        media_type: MediaType::Image(ImageType::Png),
    };
    let plan = plan_store(downloaded, Some(stored)).unwrap();
    assert_eq!(plan.write, AssetWrite::Keep);
    assert_eq!(plan.asset.media_type, MediaType::Image(ImageType::Png));
    assert_eq!(plan.asset.hash, downloaded.hash);
    assert_eq!(plan.asset.size, 42);

    let unknown_again = asset(3, 42, MediaType::Unknown);
    let still_unknown = StoredAsset {
        size: 42,
        media_type: MediaType::Unknown,
    };
    let plan = plan_store(unknown_again, Some(still_unknown)).unwrap();
    assert_eq!(plan.write, AssetWrite::Keep);
    assert_eq!(plan.asset, unknown_again);
}

#[test]
fn same_hash_with_another_size_is_a_collision() {
    let downloaded = asset(3, 42, MediaType::Image(ImageType::Jpeg));
    let stored = StoredAsset {
        size: 43,
        media_type: MediaType::Image(ImageType::Jpeg),
    };
    let collision = plan_store(downloaded, Some(stored)).unwrap_err();
    assert_eq!(collision.downloaded, downloaded);
    assert_eq!(collision.existing, stored);
}

#[test]
fn rows_of_the_asset_table() {
    let stored = asset(9, 1234, MediaType::Image(ImageType::Webp));
    let row = row_of_asset(&stored);
    assert_eq!(row.sha256, stored.hash.to_vec());
    assert_eq!(row.size, 1234);
    assert_eq!(row.media_type_json, "{\"image\":\"webp\"}");
    assert_eq!(asset_of_row(&row), Ok(stored));

    let unknown = asset(9, 0, MediaType::Unknown);
    let row = row_of_asset(&unknown);
    assert_eq!(row.media_type_json, "\"unknown\"");
    assert_eq!(asset_of_row(&row), Ok(unknown));
}

#[test]
fn media_types_as_json() {
    assert_eq!(
        MediaType::Image(ImageType::Jpeg).to_json(),
        "{\"image\":\"jpeg\"}"
    );
    assert_eq!(
        MediaType::from_json("{\"image\":\"jpeg\"}"),
        Some(MediaType::Image(ImageType::Jpeg))
    );
    assert_eq!(
        MediaType::from_json(" { \"image\" : \"png\" } "),
        Some(MediaType::Image(ImageType::Png))
    );
    assert_eq!(
        MediaType::from_json("{\"image\":\"gif\"}"),
        Some(MediaType::Image(ImageType::Gif))
    );
    assert_eq!(MediaType::from_json("\"unknown\""), Some(MediaType::Unknown));
    assert_eq!(MediaType::from_json("\"jpeg\""), None);
    assert_eq!(
        MediaType::from_json("{\"image\":\"jpeg\",\"video\":\"mp4\"}"),
        None
    );
    assert_eq!(MediaType::from_json("{}"), None);
    assert_eq!(MediaType::from_json("{\"image\":\"bmp\"}"), None);
    assert_eq!(MediaType::from_json("{\"image\":1}"), None);
    assert_eq!(MediaType::from_json("not json"), None);
}

#[test]
fn bad_rows_are_told_apart() {
    let good = AssetRow {
        sha256: vec![1u8; 32],
        media_type_json: "\"unknown\"".to_string(),
        size: 5,
    };
    assert!(asset_of_row(&good).is_ok());
    let mut short = good.clone();
    short.sha256 = vec![1u8; 31];
    assert_eq!(asset_of_row(&short), Err(BadRow::HashLength(31)));
    let mut odd = good.clone();
    odd.media_type_json = "\"video\"".to_string();
    assert_eq!(asset_of_row(&odd), Err(BadRow::MediaType));
    let mut negative = good.clone();
    negative.size = -1;
    assert_eq!(asset_of_row(&negative), Err(BadRow::Size(-1)));
    let mut huge = good.clone();
    huge.size = 1 << 32;
    assert_eq!(asset_of_row(&huge), Err(BadRow::Size(1 << 32)));
    let mut largest = good.clone();
    largest.size = u32::MAX as i64;
    assert_eq!(asset_of_row(&largest).unwrap().size, u32::MAX);
}
