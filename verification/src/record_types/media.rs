//! Records about media files.

pub mod resource_locator;
pub mod state;

use crate::record_types::media::resource_locator::{
    MediaResourceLocator,
    MediaResourceLocatorView,
};
use crate::record_types::media::state::{MediaState, MediaStateView};
use vstd::prelude::*;

verus! {

#[derive(Clone, Debug, Hash)]
pub struct MediaRecord {
    pub locator: MediaResourceLocator,
    pub state: MediaState,
}

pub struct MediaRecordView {
    pub locator: MediaResourceLocatorView,
    pub state: MediaStateView,
}

impl View for MediaRecord {
    type V = MediaRecordView;

    open spec fn view(&self) -> MediaRecordView {
        MediaRecordView { locator: self.locator@, state: self.state@ }
    }
}

/// The state of a media file without what it carries.
#[derive(Clone, Copy, Debug, PartialEq, Eq, Structural)]
pub enum MediaStateSimple {
    NotDownloadedYet,
    DownloadError,
    Present,
}

impl MediaStateSimple {
    /// The number under which this state is stored. It never changes.
    pub open spec fn spec_code(self) -> u32 {
        match self {
            MediaStateSimple::NotDownloadedYet => 0,
            MediaStateSimple::DownloadError => 1,
            MediaStateSimple::Present => 2,
        }
    }

    #[verifier::when_used_as_spec(spec_code)]
    pub fn code(self) -> (c: u32)
        ensures
            c == self.spec_code(),
    {
        match self {
            MediaStateSimple::NotDownloadedYet => 0,
            MediaStateSimple::DownloadError => 1,
            MediaStateSimple::Present => 2,
        }
    }
}

impl MediaRecord {
    pub open spec fn spec_state(&self) -> MediaStateSimple {
        match self.state {
            MediaState::NotDownloadedYet => MediaStateSimple::NotDownloadedYet,
            MediaState::DownloadError(_) => MediaStateSimple::DownloadError,
            MediaState::Present { .. } => MediaStateSimple::Present,
        }
    }

    /// Which state the media file is in.
    pub fn get_state(&self) -> (state: MediaStateSimple)
        ensures
            state == self.spec_state(),
    {
        match self.state {
            MediaState::NotDownloadedYet => MediaStateSimple::NotDownloadedYet,
            MediaState::DownloadError(_) => MediaStateSimple::DownloadError,
            MediaState::Present { .. } => MediaStateSimple::Present,
        }
    }
}

} // verus!
