//! The state synchronizer: which samples of the playback state are worth
//! telling the host, and when the polling stops. Each sample is held
//! against the one read just before it.
//!
//! The loop that sleeps and reads belongs to the host. Each cycle it hands
//! over what it read, or that the session is gone, and does what it is told.

use vstd::prelude::*;
use crate::port::{Reply, ReplyModel};
use crate::state::spec_reply_at;

verus! {

/// A change of position counts above this many millionths of a second.
pub const POSITION_THRESHOLD: i64 = 400_000;

/// A change of duration counts above this many millionths of a second.
pub const DURATION_THRESHOLD: i64 = 100_000;

/// The time between two samples, in milliseconds.
pub const POLL_INTERVAL_MS: u64 = 500;

/// One sample of the playback state: position and duration in millionths of
/// a second, and whether playback is paused.
#[derive(Clone, Copy, Debug, PartialEq, Eq, Structural)]
pub struct Sample {
    pub position: i64,
    pub duration: i64,
    pub paused: bool,
}

/// What the polling loop does after a cycle.
#[derive(Clone, Copy, Debug, PartialEq, Eq, Structural)]
pub enum SyncStep {
    /// Tell the host this sample, then go on.
    Emit(Sample),
    /// Tell the host nothing, and go on.
    Quiet,
    /// End the loop.
    Stop,
}

/// The synchronizer: the previous sample read, and whether the loop has
/// ended.
#[derive(Clone, Copy, Debug, PartialEq, Eq, Structural)]
pub struct Synchronizer {
    /// The previous sample read; `None` before the first cycle.
    pub last: Option<Sample>,
    /// Whether the loop has ended.
    pub stopped: bool,
}

/// How far two numbers are apart.
pub open spec fn distance(a: i64, b: i64) -> int {
    if a >= b {
        a - b
    } else {
        b - a
    }
}

/// Whether a sample differs enough from the previous one: the position by
/// more than [`POSITION_THRESHOLD`], or the duration by more than
/// [`DURATION_THRESHOLD`], or the pause flag at all. The first sample always
/// does.
pub open spec fn spec_changed(last: Option<Sample>, now: Sample) -> bool {
    match last {
        None => true,
        Some(before) => {
            ||| distance(now.position, before.position) > POSITION_THRESHOLD
            ||| distance(now.duration, before.duration) > DURATION_THRESHOLD
            ||| now.paused != before.paused
        },
    }
}

/// The sample that three replies stand for: position, duration and pause
/// flag, in that order. A read that failed counts as zero, or as playing.
pub open spec fn spec_sample(replies: Seq<ReplyModel>) -> Sample {
    Sample {
        position: spec_reply_at(replies, 0).millionths_or(0),
        duration: spec_reply_at(replies, 1).millionths_or(0),
        paused: spec_reply_at(replies, 2).flag_or(false),
    }
}

impl Synchronizer {
    /// The synchronizer after a cycle and what the loop does: `reading` is
    /// the sample that was read, or `None` if the session is gone.
    ///
    /// A missing session ends the loop for good. Otherwise the sample is
    /// told exactly when it differs enough from the previous sample, and in
    /// either case it becomes the previous sample of the next cycle.
    pub open spec fn spec_observe(self, reading: Option<Sample>) -> (Synchronizer, SyncStep) {
        if self.stopped {
            (self, SyncStep::Stop)
        } else {
            match reading {
                None => (Synchronizer { stopped: true, ..self }, SyncStep::Stop),
                Some(now) => (
                    Synchronizer { last: Some(now), ..self },
                    if spec_changed(self.last, now) {
                        SyncStep::Emit(now)
                    } else {
                        SyncStep::Quiet
                    },
                ),
            }
        }
    }

    /// The synchronizer after a series of cycles.
    pub open spec fn spec_observe_all(self, readings: Seq<Option<Sample>>) -> Synchronizer
        decreases readings.len(),
    {
        if readings.len() == 0 {
            self
        } else {
            self.spec_observe(readings[0]).0.spec_observe_all(readings.drop_first())
        }
    }

    /// A synchronizer that has told nothing yet.
    pub fn new() -> (fresh: Synchronizer)
        ensures
            fresh == (Synchronizer { last: None, stopped: false }),
    {
        Synchronizer { last: None, stopped: false }
    }

    /// Takes the reading of one cycle and says what the loop does.
    pub fn observe(&mut self, reading: Option<Sample>) -> (step: SyncStep)
        ensures
            (*final(self), step) == old(self).spec_observe(reading),
    {
        if self.stopped {
            return SyncStep::Stop;
        }
        match reading {
            None => {
                self.stopped = true;
                SyncStep::Stop
            },
            Some(now) => {
                let differs = changed(self.last, now);
                self.last = Some(now);
                if differs {
                    SyncStep::Emit(now)
                } else {
                    SyncStep::Quiet
                }
            },
        }
    }
}

fn apart_by_more(a: i64, b: i64, threshold: i64) -> (more: bool)
    ensures
        more == (distance(a, b) > threshold),
{
    let gap: i128 = if a >= b {
        a as i128 - b as i128
    } else {
        b as i128 - a as i128
    };
    gap > threshold as i128
}

/// Whether a sample differs enough from the previous one to be told.
pub fn changed(last: Option<Sample>, now: Sample) -> (differs: bool)
    ensures
        differs == spec_changed(last, now),
{
    match last {
        None => true,
        Some(before) => {
            apart_by_more(now.position, before.position, POSITION_THRESHOLD) || apart_by_more(
                now.duration,
                before.duration,
                DURATION_THRESHOLD,
            ) || now.paused != before.paused
        },
    }
}

/// The sample that the replies to the reads of position, duration and pause
/// flag stand for, in that order.
pub fn sample_from_replies(replies: &Vec<Reply>) -> (sample: Sample)
    ensures
        sample == spec_sample(replies.deep_view()),
{
    let position: i64 = if 0 < replies.len() {
        replies[0].millionths_or(0)
    } else {
        0
    };
    let duration: i64 = if 1 < replies.len() {
        replies[1].millionths_or(0)
    } else {
        0
    };
    let paused: bool = if 2 < replies.len() {
        replies[2].flag_or(false)
    } else {
        false
    };
    Sample { position, duration, paused }
}

/// The loop ends for good: once the session was found gone, every later
/// cycle says stop and changes nothing, whatever is read.
pub proof fn lemma_stop_is_final(sync: Synchronizer, readings: Seq<Option<Sample>>)
    requires
        sync.stopped,
    ensures
        sync.spec_observe_all(readings) == sync,
        forall|reading: Option<Sample>| sync.spec_observe(reading) == (sync, SyncStep::Stop),
    decreases readings.len(),
{
    if readings.len() > 0 {
        lemma_stop_is_final(sync, readings.drop_first());
    }
}

/// A sample is told exactly when it differs from the previous sample: in a
/// running synchronizer that has read `before`, the cycle that reads `now`
/// tells it if the position moved by more than [`POSITION_THRESHOLD`], the
/// duration by more than [`DURATION_THRESHOLD`] or the pause flag changed,
/// and is quiet otherwise. Whatever was read earlier plays no part.
pub proof fn lemma_told_iff_changed(sync: Synchronizer, before: Sample, now: Sample)
    requires
        !sync.stopped,
    ensures
        sync.spec_observe(Some(before)).0.spec_observe(Some(now)).1 == (if distance(
            now.position,
            before.position,
        ) > POSITION_THRESHOLD || distance(now.duration, before.duration) > DURATION_THRESHOLD || now.paused
            != before.paused {
            SyncStep::Emit(now)
        } else {
            SyncStep::Quiet
        }),
        sync.spec_observe(Some(before)).0.spec_observe(Some(now)).0.last == Some(now),
{
}

/// The first cycle of a loop always tells its sample.
pub proof fn lemma_first_sample_is_told(now: Sample)
    ensures
        (Synchronizer { last: None, stopped: false }).spec_observe(Some(now)).1 == SyncStep::Emit(now),
{
}

/// A quiet cycle means a sample close to the previous one, and the quiet
/// sample is the one that the next cycle is held against.
pub proof fn lemma_quiet_means_close(sync: Synchronizer, now: Sample)
    requires
        sync.spec_observe(Some(now)).1 == SyncStep::Quiet,
    ensures
        sync.last matches Some(before) && distance(now.position, before.position) <= POSITION_THRESHOLD
            && distance(now.duration, before.duration) <= DURATION_THRESHOLD && now.paused == before.paused,
        sync.spec_observe(Some(now)).0 == (Synchronizer { last: Some(now), ..sync }),
{
}

/// Reading the same sample twice in a row is quiet the second time.
pub proof fn lemma_repeat_is_quiet(sync: Synchronizer, now: Sample)
    requires
        !sync.stopped,
    ensures
        sync.spec_observe(Some(now)).0.spec_observe(Some(now)).1 == SyncStep::Quiet,
{
}

} // verus!
