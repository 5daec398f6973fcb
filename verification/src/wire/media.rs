//! Media records on the wire.

use crate::json::{
    member,
    object,
    put,
    text,
    tree,
    variant,
    JsonTree,
};
use crate::record_types::media::resource_locator::{
    MediaResourceLocator,
    MediaResourceLocatorView,
};
use crate::record_types::media::state::{MediaState, MediaStateView};
use crate::record_types::media::{MediaRecord, MediaRecordView};
use crate::wire::field::{field_text, get_text, put_text};
use serde_json::Value;
use vstd::prelude::*;

verus! {

impl MediaResourceLocatorView {
    /// The document that stands for the locator: the imageboard, and under
    /// it what finds the file there.
    pub open spec fn document(self) -> JsonTree {
        match self {
            MediaResourceLocatorView::Danbooru { hash, ext } => JsonTree::empty_object().with(
                "Danbooru"@,
                JsonTree::empty_object().with("hash"@, JsonTree::Text(hash)).with(
                    "ext"@,
                    JsonTree::Text(ext),
                ),
            ),
        }
    }

    /// The locator that a document stands for, if any: an object whose one
    /// member is the tag of the imageboard.
    pub open spec fn of_document(document: JsonTree) -> Option<MediaResourceLocatorView> {
        match document.variant("Danbooru"@) {
            Some(fields) => if field_text(fields, "hash"@) is Some && field_text(fields, "ext"@)
                is Some {
                Some(
                    MediaResourceLocatorView::Danbooru {
                        hash: field_text(fields, "hash"@)->0,
                        ext: field_text(fields, "ext"@)->0,
                    },
                )
            } else {
                None
            },
            None => None,
        }
    }
}

impl MediaResourceLocator {
    /// Write the locator as a document.
    pub fn encode(&self) -> (document: Value)
        ensures
            tree(document) == self@.document(),
    {
        match self {
            MediaResourceLocator::Danbooru { hash, ext } => {
                let mut fields = object();
                put_text(&mut fields, "hash", hash.as_str());
                put_text(&mut fields, "ext", ext.as_str());
                let mut tagged = object();
                put(&mut tagged, "Danbooru", fields);
                tagged
            },
        }
    }

    /// Read a locator from a document; `None` where the document is none of
    /// a locator.
    pub fn decode(document: &Value) -> (locator: Option<MediaResourceLocator>)
        ensures
            locator is Some <==> MediaResourceLocatorView::of_document(tree(*document)) is Some,
            locator matches Some(l) ==> MediaResourceLocatorView::of_document(tree(*document))
                == Some(l@),
    {
        let fields = variant(document, "Danbooru")?;
        let hash = get_text(fields, "hash")?;
        let ext = get_text(fields, "ext")?;
        Some(MediaResourceLocator::Danbooru { hash, ext })
    }
}

impl MediaStateView {
    /// The document that stands for the state.
    pub open spec fn document(self) -> JsonTree {
        match self {
            MediaStateView::NotDownloadedYet => JsonTree::Text("NotDownloadedYet"@),
            MediaStateView::DownloadError(why) => JsonTree::empty_object().with(
                "DownloadError"@,
                JsonTree::Text(why),
            ),
            MediaStateView::Present { media_ref } => JsonTree::empty_object().with(
                "Present"@,
                JsonTree::empty_object().with("media_ref"@, JsonTree::Text(media_ref)),
            ),
        }
    }

    /// The state that a document stands for, if any: the bare name of a
    /// variant that carries nothing, or an object whose one member is the tag
    /// of a variant that carries something.
    pub open spec fn of_document(document: JsonTree) -> Option<MediaStateView> {
        if document == JsonTree::Text("NotDownloadedYet"@) {
            Some(MediaStateView::NotDownloadedYet)
        } else if document.variant("DownloadError"@) is Some {
            match field_text(document, "DownloadError"@) {
                Some(why) => Some(MediaStateView::DownloadError(why)),
                None => None,
            }
        } else if document.variant("Present"@) is Some {
            match field_text(document.variant("Present"@)->0, "media_ref"@) {
                Some(media_ref) => Some(MediaStateView::Present { media_ref }),
                None => None,
            }
        } else {
            None
        }
    }
}

impl MediaState {
    /// Write the state as a document.
    pub fn encode(&self) -> (document: Value)
        ensures
            tree(document) == self@.document(),
    {
        match self {
            MediaState::NotDownloadedYet => text("NotDownloadedYet"),
            MediaState::DownloadError(why) => {
                let mut tagged = object();
                put_text(&mut tagged, "DownloadError", why.as_str());
                tagged
            },
            MediaState::Present { media_ref } => {
                let mut fields = object();
                put_text(&mut fields, "media_ref", media_ref.as_str());
                let mut tagged = object();
                put(&mut tagged, "Present", fields);
                tagged
            },
        }
    }

    /// Read a state from a document; `None` where the document is none of a
    /// state.
    pub fn decode(document: &Value) -> (state: Option<MediaState>)
        ensures
            state is Some <==> MediaStateView::of_document(tree(*document)) is Some,
            state matches Some(s) ==> MediaStateView::of_document(tree(*document)) == Some(s@),
    {
        if let Some(name) = document.as_str() {
            if crate::text::same_text(name, "NotDownloadedYet") {
                return Some(MediaState::NotDownloadedYet);
            }
        }
        if variant(document, "DownloadError").is_some() {
            let why = get_text(document, "DownloadError")?;
            return Some(MediaState::DownloadError(why));
        }
        if let Some(fields) = variant(document, "Present") {
            let media_ref = get_text(fields, "media_ref")?;
            return Some(MediaState::Present { media_ref });
        }
        None
    }
}

impl MediaRecordView {
    /// The document that stands for the record: its locator and its state.
    pub open spec fn document(self) -> JsonTree {
        JsonTree::empty_object().with("locator"@, self.locator.document()).with(
            "state"@,
            self.state.document(),
        )
    }

    /// The record that a document stands for, if any.
    pub open spec fn of_document(document: JsonTree) -> Option<MediaRecordView> {
        if document.member("locator"@) is Some && document.member("state"@) is Some
            && MediaResourceLocatorView::of_document(document.member("locator"@)->0) is Some
            && MediaStateView::of_document(document.member("state"@)->0) is Some {
            Some(
                MediaRecordView {
                    locator: MediaResourceLocatorView::of_document(
                        document.member("locator"@)->0,
                    )->0,
                    state: MediaStateView::of_document(document.member("state"@)->0)->0,
                },
            )
        } else {
            None
        }
    }
}

impl MediaRecord {
    /// Write the record as a document.
    pub fn encode(&self) -> (document: Value)
        ensures
            tree(document) == self@.document(),
    {
        let mut document = object();
        put(&mut document, "locator", self.locator.encode());
        put(&mut document, "state", self.state.encode());
        document
    }

    /// Read a record from a document; `None` where the document is none of
    /// a record.
    pub fn decode(document: &Value) -> (record: Option<MediaRecord>)
        ensures
            record is Some <==> MediaRecordView::of_document(tree(*document)) is Some,
            record matches Some(r) ==> MediaRecordView::of_document(tree(*document)) == Some(r@),
    {
        let locator = MediaResourceLocator::decode(member(document, "locator")?)?;
        let state = MediaState::decode(member(document, "state")?)?;
        Some(MediaRecord { locator, state })
    }
}

/// A media record that was written reads as itself.
pub proof fn lemma_record_round_trip(record: MediaRecordView)
    ensures
        MediaRecordView::of_document(record.document()) == Some(record),
{
    reveal_strlit("hash");
    reveal_strlit("ext");
    reveal_strlit("locator");
    reveal_strlit("state");
    reveal_strlit("DownloadError");
    reveal_strlit("Present");
    reveal_strlit("NotDownloadedYet");
    assert("hash"@.len() == 4 && "ext"@.len() == 3 && "locator"@.len() == 7 && "state"@.len() == 5
        && "DownloadError"@.len() == 13 && "Present"@.len() == 7);
    let document = record.document();
    assert(document.member("locator"@) == Some(record.locator.document()));
    assert(document.member("state"@) == Some(record.state.document()));
    match record.locator {
        MediaResourceLocatorView::Danbooru { hash, ext } => {
            let fields = record.locator.document().variant("Danbooru"@)->0;
            assert(field_text(fields, "hash"@) == Some(hash));
            assert(field_text(fields, "ext"@) == Some(ext));
        },
    }
    assert(MediaResourceLocatorView::of_document(record.locator.document()) == Some(
        record.locator,
    ));
    match record.state {
        MediaStateView::NotDownloadedYet => {},
        MediaStateView::DownloadError(why) => {
            assert(field_text(record.state.document(), "DownloadError"@) == Some(why));
        },
        MediaStateView::Present { media_ref } => {
            assert(record.state.document().variant("DownloadError"@) is None);
            let fields = record.state.document().variant("Present"@)->0;
            assert(field_text(fields, "media_ref"@) == Some(media_ref));
        },
    }
    assert(MediaStateView::of_document(record.state.document()) == Some(record.state));
}

} // verus!
