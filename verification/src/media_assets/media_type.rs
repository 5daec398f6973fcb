//! The kinds of media that the store knows.

use crate::text::same_text;
use vstd::prelude::*;

verus! {

/// This enum represents the type of a media asset.
///
/// `Unknown` means that a media type has been met that the table below does
/// not hold yet: the table must then be extended. An asset is never dropped
/// for it.
#[derive(Debug, Clone, Copy, PartialEq, Eq, Structural, Hash)]
pub enum MediaType {
    /// The asset represents an image file type.
    Image(ImageType),
    /// The asset represents an unknown media type.
    Unknown,
}

#[derive(Debug, Clone, Copy, PartialEq, Eq, Structural, Hash)]
pub enum ImageType {
    /// The asset is a JPEG image.
    Jpeg,
    /// The asset is a PNG image.
    Png,
    /// The asset is a GIF image.
    Gif,
    /// The asset is a WebP image.
    Webp,
}

/// `text` with every character in lower case, as `str::to_lowercase` gives it.
pub uninterp spec fn lowercase(text: Seq<char>) -> Seq<char>;

/// `str::to_lowercase`: the lower-case text is a function of the text alone.
pub assume_specification[ str::to_lowercase ](string: &str) -> (lower: String)
    ensures
        lower@ == lowercase(string@),
;

impl ImageType {
    pub open spec fn spec_extension(self) -> Seq<char> {
        match self {
            ImageType::Jpeg => "jpg"@,
            ImageType::Png => "png"@,
            ImageType::Gif => "gif"@,
            ImageType::Webp => "webp"@,
        }
    }

    /// The image type that a file extension stands for, if any. The
    /// extension is taken as it is written: `JPG` is no extension of the
    /// table.
    pub open spec fn spec_try_from_extension(extension: Seq<char>) -> Option<ImageType> {
        if extension == "jpg"@ || extension == "jpeg"@ {
            Some(ImageType::Jpeg)
        } else if extension == "png"@ {
            Some(ImageType::Png)
        } else if extension == "gif"@ {
            Some(ImageType::Gif)
        } else if extension == "webp"@ {
            Some(ImageType::Webp)
        } else {
            None
        }
    }

    /// Get the file extension corresponding to this image type.
    /// For example, a JPEG image has the extension `jpg`.
    pub fn extension(&self) -> (ext: &'static str)
        ensures
            ext@ == self.spec_extension(),
    {
        match self {
            ImageType::Jpeg => "jpg",
            ImageType::Png => "png",
            ImageType::Gif => "gif",
            ImageType::Webp => "webp",
        }
    }

    /// Derive the image type from a file extension.
    pub fn try_from_extension(extension: &str) -> (image: Option<ImageType>)
        ensures
            image == ImageType::spec_try_from_extension(extension@),
    {
        if same_text(extension, "jpg") || same_text(extension, "jpeg") {
            Some(ImageType::Jpeg)
        } else if same_text(extension, "png") {
            Some(ImageType::Png)
        } else if same_text(extension, "gif") {
            Some(ImageType::Gif)
        } else if same_text(extension, "webp") {
            Some(ImageType::Webp)
        } else {
            None
        }
    }
}

impl MediaType {
    pub open spec fn spec_extension(self) -> Seq<char> {
        match self {
            MediaType::Image(image) => image.spec_extension(),
            MediaType::Unknown => "bin"@,
        }
    }

    /// The media type of an extension that is already in lower case.
    pub open spec fn of_lowercase_extension(extension: Seq<char>) -> MediaType {
        match ImageType::spec_try_from_extension(extension) {
            Some(image) => MediaType::Image(image),
            None => MediaType::Unknown,
        }
    }

    /// The media type that a file extension stands for, whatever its case.
    pub open spec fn spec_from_extension(extension: Seq<char>) -> MediaType {
        MediaType::of_lowercase_extension(lowercase(extension))
    }

    /// Get the file extension corresponding to this media type.
    /// For example, a JPEG image has the extension `jpg`.
    pub fn extension(&self) -> (ext: &'static str)
        ensures
            ext@ == self.spec_extension(),
    {
        match self {
            MediaType::Image(image_type) => image_type.extension(),
            MediaType::Unknown => "bin",
        }
    }

    /// Derive the media type from a file extension. An extension that the
    /// table does not hold gives `Unknown`, never an error.
    pub fn from_extension(extension: &str) -> (media_type: MediaType)
        ensures
            media_type == MediaType::spec_from_extension(extension@),
    {
        let extension = extension.to_lowercase();
        match ImageType::try_from_extension(extension.as_str()) {
            Some(image) => MediaType::Image(image),
            None => MediaType::Unknown,
        }
    }
}

/// Every known type comes back from its own extension.
pub proof fn lemma_extension_round_trip(image: ImageType)
    ensures
        ImageType::spec_try_from_extension(image.spec_extension()) == Some(image),
{
    reveal_strlit("jpg");
    reveal_strlit("jpeg");
    reveal_strlit("png");
    reveal_strlit("gif");
    reveal_strlit("webp");
    match image {
        ImageType::Jpeg => {},
        ImageType::Png => {
            assert("png"@.len() == 3 && "jpeg"@.len() == 4);
            assert("png"@[0] == 'p' && "jpg"@[0] == 'j');
        },
        ImageType::Gif => {
            assert("gif"@[0] == 'g' && "jpg"@[0] == 'j' && "png"@[0] == 'p');
            assert("gif"@.len() == 3 && "jpeg"@.len() == 4);
        },
        ImageType::Webp => {
            assert("webp"@[0] == 'w' && "jpeg"@[0] == 'j');
            assert("webp"@.len() == 4 && "jpg"@.len() == 3 && "png"@.len() == 3 && "gif"@.len()
                == 3);
        },
    }
}

} // verus!
