//! The rows of the asset table, and the assets that they stand for.

use crate::json::{
    object,
    parse,
    parsed,
    print_text,
    printed_text,
    text,
    tree,
    variant,
    JsonTree,
};
use crate::media_assets::media_asset::MediaAsset;
use crate::media_assets::media_type::{ImageType, MediaType};
use crate::text::same_text;
use crate::wire::field::put_text;
use serde_json::Value;
use vstd::prelude::*;
use vstd::string::StringSliceAdditionalSpecFns;

verus! {

/// One row of the asset table, as the database hands it out.
#[derive(Clone, Debug)]
pub struct AssetRow {
    pub sha256: Vec<u8>,
    pub media_type_json: String,
    pub size: i64,
}

/// Why a row of the asset table is no asset.
#[derive(Clone, Copy, Debug, PartialEq, Eq, Structural)]
pub enum BadRow {
    /// The hash is not 32 bytes long, but this long.
    HashLength(usize),
    /// The media type is none that is known here.
    MediaType,
    /// The size is none that an asset can have.
    Size(i64),
}

impl ImageType {
    /// The name of the image type in a document.
    pub open spec fn spec_name(self) -> Seq<char> {
        match self {
            ImageType::Jpeg => "jpeg"@,
            ImageType::Png => "png"@,
            ImageType::Gif => "gif"@,
            ImageType::Webp => "webp"@,
        }
    }

    /// The image type that a name stands for, if any.
    pub open spec fn spec_of_name(name: Seq<char>) -> Option<ImageType> {
        if name == "jpeg"@ {
            Some(ImageType::Jpeg)
        } else if name == "png"@ {
            Some(ImageType::Png)
        } else if name == "gif"@ {
            Some(ImageType::Gif)
        } else if name == "webp"@ {
            Some(ImageType::Webp)
        } else {
            None
        }
    }

    /// The name of the image type in a document.
    pub fn name(&self) -> (name: &'static str)
        ensures
            name@ == self.spec_name(),
    {
        match self {
            ImageType::Jpeg => "jpeg",
            ImageType::Png => "png",
            ImageType::Gif => "gif",
            ImageType::Webp => "webp",
        }
    }

    /// Read an image type from its name.
    pub fn of_name(name: &str) -> (image: Option<ImageType>)
        ensures
            image == ImageType::spec_of_name(name@),
    {
        if same_text(name, "jpeg") {
            Some(ImageType::Jpeg)
        } else if same_text(name, "png") {
            Some(ImageType::Png)
        } else if same_text(name, "gif") {
            Some(ImageType::Gif)
        } else if same_text(name, "webp") {
            Some(ImageType::Webp)
        } else {
            None
        }
    }
}

/// The text that stands under the tag `name`, where the document is an
/// object with that one member and the member is a text.
pub open spec fn variant_text(document: JsonTree, name: Seq<char>) -> Option<Seq<char>> {
    match document.variant(name) {
        Some(found) => found.as_text(),
        None => None,
    }
}

impl MediaType {
    /// The document that stands for the media type.
    pub open spec fn document(self) -> JsonTree {
        match self {
            MediaType::Image(image) => JsonTree::empty_object().with(
                "image"@,
                JsonTree::Text(image.spec_name()),
            ),
            MediaType::Unknown => JsonTree::Text("unknown"@),
        }
    }

    /// The media type that a document stands for, if any: the bare name
    /// `unknown`, or an object whose one member is the tag `image`.
    pub open spec fn of_document(document: JsonTree) -> Option<MediaType> {
        if document == JsonTree::Text("unknown"@) {
            Some(MediaType::Unknown)
        } else {
            match variant_text(document, "image"@) {
                Some(name) => match ImageType::spec_of_name(name) {
                    Some(image) => Some(MediaType::Image(image)),
                    None => None,
                },
                None => None,
            }
        }
    }

    /// The media type that a JSON text stands for, if any.
    pub open spec fn of_json(written: Seq<char>) -> Option<MediaType> {
        match parsed(vstd::utf8::encode_utf8(written)) {
            Some(document) => MediaType::of_document(document),
            None => None,
        }
    }

    /// Write the media type as a document.
    pub fn encode(&self) -> (document: Value)
        ensures
            tree(document) == self.document(),
    {
        match self {
            MediaType::Image(image) => {
                let mut tagged = object();
                put_text(&mut tagged, "image", image.name());
                tagged
            },
            MediaType::Unknown => text("unknown"),
        }
    }

    /// Read a media type from a document.
    pub fn decode(document: &Value) -> (media_type: Option<MediaType>)
        ensures
            media_type == MediaType::of_document(tree(*document)),
    {
        if let Some(name) = document.as_str() {
            if same_text(name, "unknown") {
                return Some(MediaType::Unknown);
            }
        }
        let found = variant(document, "image")?;
        let name = found.as_str()?;
        let image = ImageType::of_name(name)?;
        Some(MediaType::Image(image))
    }

    /// Write the media type as the JSON text that the asset table keeps.
    pub fn to_json(&self) -> (written: String)
        ensures
            written@ == printed_text(self.document()),
    {
        print_text(&self.encode()).unwrap()
    }

    /// Read a media type from the JSON text that the asset table keeps.
    pub fn from_json(written: &str) -> (media_type: Option<MediaType>)
        ensures
            media_type == MediaType::of_json(written@),
    {
        let document = parse(written.as_bytes())?;
        MediaType::decode(&document)
    }
}

/// Every media type that was written as a document reads as itself.
pub proof fn lemma_media_type_round_trip(media_type: MediaType)
    ensures
        MediaType::of_document(media_type.document()) == Some(media_type),
{
    reveal_strlit("jpeg");
    reveal_strlit("png");
    reveal_strlit("gif");
    reveal_strlit("webp");
    reveal_strlit("image");
    reveal_strlit("unknown");
    assert("jpeg"@.len() == 4 && "png"@.len() == 3 && "gif"@.len() == 3 && "webp"@.len() == 4);
    assert("jpeg"@[0] == 'j' && "webp"@[0] == 'w' && "png"@[0] == 'p' && "gif"@[0] == 'g');
    match media_type {
        MediaType::Unknown => {},
        MediaType::Image(image) => {
            assert(variant_text(media_type.document(), "image"@) == Some(image.spec_name()));
        },
    }
}

/// The asset that a row stands for.
///
/// The hash must be 32 bytes long, the media type one that is known here,
/// and the size one that fits an asset.
pub fn asset_of_row(row: &AssetRow) -> (res: Result<MediaAsset, BadRow>)
    ensures
        res is Ok <==> row.sha256@.len() == 32 && MediaType::of_json(row.media_type_json@)
            is Some && 0 <= row.size <= u32::MAX,
        res matches Ok(asset) ==> asset.hash@ == row.sha256@ && Some(asset.media_type)
            == MediaType::of_json(row.media_type_json@) && asset.size == row.size,
        res matches Err(BadRow::HashLength(len)) ==> len == row.sha256@.len() && len != 32,
        res matches Err(BadRow::MediaType) ==> row.sha256@.len() == 32 && MediaType::of_json(
            row.media_type_json@,
        ) is None,
        res matches Err(BadRow::Size(size)) ==> size == row.size && !(0 <= size <= u32::MAX),
{
    if row.sha256.len() != 32 {
        return Err(BadRow::HashLength(row.sha256.len()));
    }
    let media_type = match MediaType::from_json(row.media_type_json.as_str()) {
        Some(media_type) => media_type,
        None => {
            return Err(BadRow::MediaType);
        },
    };
    if row.size < 0 || row.size > u32::MAX as i64 {
        return Err(BadRow::Size(row.size));
    }
    let mut hash: [u8; 32] = [0u8;32];
    let mut i: usize = 0;
    while i < 32
        invariant
            i <= 32,
            row.sha256@.len() == 32,
            forall|j: int| 0 <= j < i ==> hash@[j] == row.sha256@[j],
        decreases 32 - i,
    {
        hash[i] = row.sha256[i];
        i += 1;
    }
    assert(hash@ =~= row.sha256@);
    Ok(MediaAsset { hash, size: row.size as u32, media_type })
}

/// The row that is written for an asset.
pub fn row_of_asset(asset: &MediaAsset) -> (row: AssetRow)
    ensures
        row.sha256@ == asset.hash@,
        row.size == asset.size,
        row.media_type_json@ == printed_text(asset.media_type.document()),
{
    let media_type_json = asset.media_type.to_json();
    let sha256 = vstd::slice::slice_to_vec(asset.hash.as_slice());
    AssetRow { sha256, media_type_json, size: asset.size as i64 }
}

} // verus!
