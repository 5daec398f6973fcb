//! How far the download of a media file has come.

use vstd::prelude::*;

verus! {

#[derive(Clone, Debug, Hash)]
pub enum MediaState {
    /// We have not yet tried downloading this media.
    NotDownloadedYet,
    /// We have tried downloading it, but got an error.
    /// The error text is included.
    DownloadError(String),
    /// We have successfully downloaded the media, and the description is
    /// provided. If this record is issued more than once, the latest state is
    /// to be used.
    Present {
        /// A reference into whatever is storing the files, such as a file name.
        media_ref: String,
    },
}

pub enum MediaStateView {
    NotDownloadedYet,
    DownloadError(Seq<char>),
    Present { media_ref: Seq<char> },
}

impl View for MediaState {
    type V = MediaStateView;

    open spec fn view(&self) -> MediaStateView {
        match *self {
            MediaState::NotDownloadedYet => MediaStateView::NotDownloadedYet,
            MediaState::DownloadError(text) => MediaStateView::DownloadError(text@),
            MediaState::Present { media_ref } => MediaStateView::Present { media_ref: media_ref@ },
        }
    }
}

} // verus!
