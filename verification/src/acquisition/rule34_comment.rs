//! Comments as the Rule34 listing gives them, and the records made of them.

use crate::acquisition::fresh::{fresh_order, is_fresh_order};
use crate::date_time::DateTime;
use crate::record::{RecordData, RecordDataView};
use crate::record_types::rule34::comment::{
    CommentRecord,
    CommentRecordView,
    CommentState,
    CommentStateView,
};
use crate::record_types::rule34::{Rule34Record, Rule34RecordView};
use vstd::prelude::*;

verus! {

/// A comment of the listing. Its date comes as text.
#[derive(Clone, Debug)]
pub struct Comment {
    pub created_at: String,
    pub post_id: u64,
    pub body: String,
    pub creator: String,
    pub id: u64,
    pub creator_id: u64,
}

/// The format in which the listing writes a comment's date.
pub open spec fn date_format() -> Seq<char> {
    "%Y-%m-%d %H:%M"@
}

/// What `text` means as a date and time of day without a time zone, read by
/// `format` and taken as UTC; `None` where `text` does not fit `format`.
pub uninterp spec fn naive_date_time(text: Seq<char>, format: Seq<char>) -> Option<DateTime>;

impl Comment {
    /// The record data that states this comment as present, created at
    /// `created_at`. The listing gives neither a score nor whether the
    /// comment was reported.
    pub open spec fn spec_record_data(&self, created_at: DateTime) -> RecordDataView {
        RecordDataView::Rule34(
            Rule34RecordView::Comment(
                CommentRecordView {
                    id: self.id,
                    state: CommentStateView::Present {
                        post_id: self.post_id,
                        author_id: Some(self.creator_id),
                        author_name: self.creator@,
                        created_at,
                        text: self.body@,
                        score: None,
                        is_reported: None,
                    },
                },
            ),
        )
    }

    /// The date of the comment, or `None` where its text is no date. A comment
    /// without a date is skipped; the rest of its page is not.
    pub fn created_at(&self) -> (date: Option<DateTime>)
        ensures
            date == naive_date_time(self.created_at@, date_format()),
    {
        parse_naive_date_time(self.created_at.as_str(), "%Y-%m-%d %H:%M")
    }

    /// Turn the comment, with its date read, into record data.
    pub fn into_record_data(self, created_at: DateTime) -> (data: RecordData)
        ensures
            data@ == self.spec_record_data(created_at),
    {
        RecordData::Rule34(
            Rule34Record::Comment(
                CommentRecord {
                    id: self.id,
                    state: CommentState::Present {
                        post_id: self.post_id,
                        author_id: Some(self.creator_id),
                        author_name: self.creator,
                        created_at,
                        text: self.body,
                        score: None,
                        is_reported: None,
                    },
                },
            ),
        )
    }
}

/// The IDs of a page of comments, in page order.
pub open spec fn id_marks(page: Seq<Comment>) -> Seq<u64> {
    Seq::new(page.len(), |i: int| page[i].id)
}

/// Which comments of the page have an ID above the watermark, in ascending
/// order of their IDs.
pub fn new_comments(page: &Vec<Comment>, greatest_id_sent: u64) -> (order: Vec<usize>)
    ensures
        is_fresh_order(id_marks(page@), greatest_id_sent, order@),
{
    let mut marks: Vec<u64> = Vec::new();
    let mut i: usize = 0;
    while i < page.len()
        invariant
            i <= page.len(),
            marks@ == id_marks(page@.take(i as int)),
        decreases page.len() - i,
    {
        marks.push(page[i].id);
        assert(marks@ =~= id_marks(page@.take(i + 1)));
        i += 1;
    }
    assert(page@.take(i as int) == page@);
    fresh_order(&marks, &greatest_id_sent)
}

/// `chrono::NaiveDateTime::parse_from_str(text, format)`, then `and_utc()`,
/// handed out as seconds and nanoseconds. What is read is a function of the
/// text and the format alone; text that does not fit gives `None`.
#[verifier::external_body]
fn parse_naive_date_time(text: &str, format: &str) -> (date: Option<DateTime>)
    ensures
        date == naive_date_time(text@, format@),
{
    match chrono::NaiveDateTime::parse_from_str(text, format) {
        Ok(naive) => {
            let utc = naive.and_utc();
            Some(DateTime { secs: utc.timestamp(), nanos: utc.timestamp_subsec_nanos() })
        },
        Err(_) => None,
    }
}

} // verus!
