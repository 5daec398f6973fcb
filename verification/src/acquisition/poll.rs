//! The state that one polling loop carries from one iteration to the next:
//! its watermark, its delay and its count of errors.
//!
//! The loop itself sleeps, fetches and publishes elsewhere; here stands what
//! it decides. Each thing that happens to the loop is a [`PollEvent`], and
//! [`PollLoop::step`] gives the state that follows and says whether the loop
//! may go on.

use crate::acquisition::fresh::Mark;
use rand::Rng;
use vstd::prelude::*;

verus! {

/// The shortest delay between two polls, in seconds.
pub const MIN_DELAY_SECS: u32 = 10;

/// The longest delay between two polls, in seconds.
pub const MAX_DELAY_SECS: u32 = 1800;

/// By how much the delay grows or shrinks after a batch, in seconds.
pub const DELAY_STEP_SECS: u32 = 5;

/// How far a sleep may lie from the delay, in seconds.
pub const JITTER_SECS: u32 = 5;

/// How many errors a loop bears; the next one ends it.
pub const ERROR_LIMIT: u32 = 5;

/// A delay brought into the allowed range.
pub open spec fn clamp_delay(delay_secs: int) -> int {
    if delay_secs < MIN_DELAY_SECS {
        MIN_DELAY_SECS as int
    } else if delay_secs > MAX_DELAY_SECS {
        MAX_DELAY_SECS as int
    } else {
        delay_secs
    }
}

/// The delay after a batch in which `published` entries were handed over:
/// longer after none, shorter after more than one, the same after exactly one.
pub open spec fn next_delay(delay_secs: int, published: int) -> int {
    if published == 0 {
        clamp_delay(delay_secs + DELAY_STEP_SECS)
    } else if published > 1 {
        clamp_delay(delay_secs - DELAY_STEP_SECS)
    } else {
        clamp_delay(delay_secs)
    }
}

/// The delay after `batches` batches in a row without any new entry.
pub open spec fn delay_after_idle(delay_secs: int, batches: nat) -> int
    decreases batches,
{
    if batches == 0 {
        delay_secs
    } else {
        next_delay(delay_after_idle(delay_secs, (batches - 1) as nat), 0)
    }
}

/// One more, but never past what the counter can hold.
pub open spec fn bump(count: u32) -> u32 {
    if count < u32::MAX {
        (count + 1) as u32
    } else {
        count
    }
}

/// The loop has seen more errors than it bears and must end.
#[derive(Clone, Copy, Debug, PartialEq, Eq, Structural)]
pub struct TooManyErrors {
    /// The number of errors seen, the last one included.
    pub error_count: u32,
}

/// What can happen to a polling loop.
#[derive(Clone, Copy, Debug)]
pub enum PollEvent<K: Mark> {
    /// The page could not be fetched, read or parsed: the batch is skipped.
    BatchFailed,
    /// One entry could not be turned into a record or encoded: it is skipped.
    EntryFailed,
    /// One entry was handed over; it carried this mark.
    EntryPublished(K),
    /// All entries of the page have been gone through.
    BatchFinished,
}

/// The state of one polling loop. It lives as long as the process and is
/// owned by the one task that runs the loop.
#[derive(Clone, Copy, Debug)]
pub struct PollLoop<K: Mark> {
    /// The highest mark handed over so far.
    pub watermark: K,
    /// The time between two polls, in seconds.
    pub delay_secs: u32,
    /// The errors seen since the loop began. It is never reset.
    pub error_count: u32,
    /// The entries handed over in the batch at hand.
    pub published: u32,
}

impl<K: Mark> PollLoop<K> {
    /// The delay lies within its bounds.
    pub open spec fn wf(self) -> bool {
        MIN_DELAY_SECS <= self.delay_secs <= MAX_DELAY_SECS
    }

    /// The state after a batch that could not be had, or after an entry that
    /// had to be skipped: one more error, nothing else.
    pub open spec fn after_error(self) -> Self {
        PollLoop { error_count: bump(self.error_count), ..self }
    }

    /// The state after an entry with `mark` was handed over: the watermark
    /// moves up to the mark, and never back.
    pub open spec fn after_published(self, mark: K) -> Self {
        PollLoop {
            watermark: if mark.rank() > self.watermark.rank() {
                mark
            } else {
                self.watermark
            },
            published: bump(self.published),
            ..self
        }
    }

    /// The state after a batch: the delay follows the number of entries handed
    /// over, and the count starts anew.
    pub open spec fn after_batch(self) -> Self {
        PollLoop {
            delay_secs: next_delay(self.delay_secs as int, self.published as int) as u32,
            published: 0,
            ..self
        }
    }

    /// The state that follows `event`.
    pub open spec fn after(self, event: PollEvent<K>) -> Self {
        match event {
            PollEvent::BatchFailed => PollLoop { published: 0, ..self.after_error() },
            PollEvent::EntryFailed => self.after_error(),
            PollEvent::EntryPublished(mark) => self.after_published(mark),
            PollEvent::BatchFinished => self.after_batch(),
        }
    }

    /// Whether the loop must end in this state.
    pub open spec fn exhausted(self) -> bool {
        self.error_count > ERROR_LIMIT
    }

    /// A loop that has handed over nothing yet. `watermark` is where it
    /// starts; the delay is brought into its bounds.
    pub fn start(watermark: K, delay_secs: u32) -> (state: Self)
        ensures
            state.wf(),
            state == (PollLoop {
                watermark,
                delay_secs: clamp_delay(delay_secs as int) as u32,
                error_count: 0,
                published: 0,
            }),
    {
        let delay_secs = if delay_secs < MIN_DELAY_SECS {
            MIN_DELAY_SECS
        } else if delay_secs > MAX_DELAY_SECS {
            MAX_DELAY_SECS
        } else {
            delay_secs
        };
        PollLoop { watermark, delay_secs, error_count: 0, published: 0 }
    }

    /// Between which bounds the next sleep lies, in milliseconds: the first
    /// is the shortest sleep, the second lies just past the longest.
    pub fn sleep_bounds(&self) -> (bounds: (u64, u64))
        requires
            self.wf(),
        ensures
            bounds.0 == (self.delay_secs - JITTER_SECS) * 1000,
            bounds.1 == (self.delay_secs + JITTER_SECS) * 1000,
            bounds.0 < bounds.1,
    {
        let low: u64 = (self.delay_secs - JITTER_SECS) as u64 * 1000;
        let high: u64 = (self.delay_secs + JITTER_SECS) as u64 * 1000;
        (low, high)
    }

    /// Draw the length of the next sleep, in milliseconds. Which length comes
    /// is up to chance; it lies within the bounds.
    pub fn next_sleep_millis(&self) -> (millis: u64)
        requires
            self.wf(),
        ensures
            (self.delay_secs - JITTER_SECS) * 1000 <= millis < (self.delay_secs + JITTER_SECS)
                * 1000,
    {
        let (low, high) = self.sleep_bounds();
        uniform_between(low, high)
    }

    /// Count one error. The loop may go on until it has seen more than
    /// [`ERROR_LIMIT`] of them.
    pub fn record_error(&mut self) -> (res: Result<(), TooManyErrors>)
        ensures
            *final(self) == old(self).after_error(),
            final(self).exhausted() <==> res is Err,
            res matches Err(e) ==> e.error_count == final(self).error_count,
    {
        if self.error_count < u32::MAX {
            self.error_count = self.error_count + 1;
        }
        if self.error_count > ERROR_LIMIT {
            Err(TooManyErrors { error_count: self.error_count })
        } else {
            Ok(())
        }
    }

    /// Note that an entry with `mark` was handed over.
    pub fn record_published(&mut self, mark: K)
        ensures
            *final(self) == old(self).after_published(mark),
            final(self).watermark.rank() >= old(self).watermark.rank(),
            final(self).watermark.rank() >= mark.rank(),
    {
        if mark.exceeds(&self.watermark) {
            self.watermark = mark;
        }
        if self.published < u32::MAX {
            self.published = self.published + 1;
        }
    }

    /// Close the batch at hand and set the delay for the next one.
    pub fn finish_batch(&mut self)
        requires
            old(self).wf(),
        ensures
            *final(self) == old(self).after_batch(),
            final(self).wf(),
    {
        if self.published == 0 {
            if self.delay_secs + DELAY_STEP_SECS <= MAX_DELAY_SECS {
                self.delay_secs = self.delay_secs + DELAY_STEP_SECS;
            } else {
                self.delay_secs = MAX_DELAY_SECS;
            }
        } else if self.published > 1 {
            if self.delay_secs >= MIN_DELAY_SECS + DELAY_STEP_SECS {
                self.delay_secs = self.delay_secs - DELAY_STEP_SECS;
            } else {
                self.delay_secs = MIN_DELAY_SECS;
            }
        }
        self.published = 0;
    }

    /// Take in one event. The state moves as [`PollLoop::after`] says; the
    /// result is an error exactly when the loop has now seen too many errors
    /// and must end.
    pub fn step(&mut self, event: PollEvent<K>) -> (res: Result<(), TooManyErrors>)
        requires
            old(self).wf(),
        ensures
            *final(self) == old(self).after(event),
            final(self).wf(),
            res is Err <==> (final(self).exhausted() && (event is BatchFailed
                || event is EntryFailed)),
            res matches Err(e) ==> e.error_count == final(self).error_count,
    {
        match event {
            PollEvent::BatchFailed => {
                self.published = 0;
                self.record_error()
            },
            PollEvent::EntryFailed => self.record_error(),
            PollEvent::EntryPublished(mark) => {
                self.record_published(mark);
                Ok(())
            },
            PollEvent::BatchFinished => {
                self.finish_batch();
                Ok(())
            },
        }
    }
}

/// `rand::thread_rng().gen_range(low..high)`: a number of the half-open
/// range, which must not be empty. Which one is up to chance.
#[verifier::external_body]
fn uniform_between(low: u64, high: u64) -> (drawn: u64)
    requires
        low < high,
    ensures
        low <= drawn < high,
{
    rand::thread_rng().gen_range(low..high)
}

/// A delay within its bounds stays within them after any batch.
pub proof fn lemma_delay_stays_bounded(delay_secs: int, published: int)
    ensures
        MIN_DELAY_SECS <= next_delay(delay_secs, published) <= MAX_DELAY_SECS,
{
}

/// No event moves the watermark back, and only a published entry moves it.
pub proof fn lemma_watermark_never_regresses<K: Mark>(state: PollLoop<K>, event: PollEvent<K>)
    ensures
        state.after(event).watermark.rank() >= state.watermark.rank(),
        !(event is EntryPublished) ==> state.after(event).watermark == state.watermark,
{
}

/// Batches without any new entry lengthen the delay by one step each, up to
/// the longest delay.
pub proof fn lemma_idle_delay(delay_secs: int, batches: nat)
    requires
        MIN_DELAY_SECS <= delay_secs <= MAX_DELAY_SECS,
    ensures
        delay_after_idle(delay_secs, batches) == if delay_secs + DELAY_STEP_SECS * batches
            <= MAX_DELAY_SECS {
            delay_secs + DELAY_STEP_SECS * batches
        } else {
            MAX_DELAY_SECS as int
        },
    decreases batches,
{
    if batches > 0 {
        lemma_idle_delay(delay_secs, (batches - 1) as nat);
    }
}

/// Once the delay has reached the longest delay, further batches without any
/// new entry leave it there.
pub proof fn lemma_idle_delay_stays_at_ceiling(batches: nat)
    ensures
        delay_after_idle(MAX_DELAY_SECS as int, batches) == MAX_DELAY_SECS,
    decreases batches,
{
    if batches > 0 {
        lemma_idle_delay_stays_at_ceiling((batches - 1) as nat);
    }
}

/// The error count is never reset: no event lowers it.
pub proof fn lemma_errors_never_reset<K: Mark>(state: PollLoop<K>, event: PollEvent<K>)
    ensures
        state.after(event).error_count >= state.error_count,
{
}

} // verus!
