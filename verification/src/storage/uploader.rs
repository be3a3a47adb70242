//! The record of a completed segment, its key in the object store, and the
//! protocol for uploading it: attempt, and on failure retry with a doubling
//! delay until the configured number of failures is reached.

use crate::clock::{format_utc, utc_formatted, DATE_FORMAT};
use crate::config::UploadConfig;
use crate::text::{file_name, file_name_of, is_plain_name, joined, lemma_file_name_of_joined};
use vstd::arithmetic::power2::{lemma_pow2_pos, lemma_pow2_unfold, pow2};
use vstd::prelude::*;

verus! {

/// A completed segment, ready for upload.
#[derive(Debug, Clone)]
pub struct SegmentInfo {
    /// The camera that recorded the segment.
    pub camera_id: String,
    /// Where the segment lies on the local disk.
    pub local_path: String,
    /// When the segment was found complete: seconds since the Unix epoch, UTC.
    pub timestamp: i64,
}

/// The file name used in a key where the local path ends in no file name.
pub const UNKNOWN_FILE: &'static str = "unknown";

/// The file name under which a local path is stored: the name of the file it
/// ends in, or `UNKNOWN_FILE` where it ends in none.
pub open spec fn key_file_name(local_path: Seq<char>) -> Seq<char> {
    match file_name_of(local_path) {
        Some(name) => name,
        None => UNKNOWN_FILE@,
    }
}

/// A storage key: `{camera_id}/{date}/{file_name}`.
pub open spec fn key_text(camera_id: Seq<char>, date: Seq<char>, file_name: Seq<char>) -> Seq<
    char,
> {
    camera_id + seq!['/'] + date + seq!['/'] + file_name
}

/// The key of a segment, where `date` is its completion date as text, if the
/// date can be written.
pub open spec fn key_for(segment: SegmentInfo, date: Option<Seq<char>>) -> Option<Seq<char>> {
    match date {
        Some(d) => Some(key_text(segment.camera_id@, d, key_file_name(segment.local_path@))),
        None => None,
    }
}

/// The key of a segment: its camera, the UTC date of its completion as
/// `YYYYMMDD`, and its file name. `None` where the timestamp lies outside the
/// years that can be written.
pub open spec fn storage_key_of(segment: SegmentInfo) -> Option<Seq<char>> {
    key_for(segment, utc_formatted(segment.timestamp as int, DATE_FORMAT@))
}

/// Puts a key together from its three parts.
pub fn build_key(camera_id: &str, date: &str, file_name: &str) -> (key: String)
    ensures
        key@ == key_text(camera_id@, date@, file_name@),
{
    proof {
        reveal_strlit("/");
    }
    let mut key = String::from_str(camera_id);
    key.append("/");
    key.append(date);
    key.append("/");
    key.append(file_name);
    assert(key@ =~= key_text(camera_id@, date@, file_name@));
    key
}

/// The key of `segment` for the completion date `date`, as text.
pub fn key_with_date(segment: &SegmentInfo, date: Option<String>) -> (key: Option<String>)
    ensures
        key.deep_view() == key_for(*segment, date.deep_view()),
{
    match date {
        Some(d) => {
            let key = match file_name(segment.local_path.as_str()) {
                Some(name) => build_key(segment.camera_id.as_str(), d.as_str(), name.as_str()),
                None => build_key(segment.camera_id.as_str(), d.as_str(), UNKNOWN_FILE),
            };
            Some(key)
        },
        None => None,
    }
}

/// The key under which `segment` is stored.
pub fn storage_key(segment: &SegmentInfo) -> (key: Option<String>)
    ensures
        key.deep_view() == storage_key_of(*segment),
{
    let date = format_utc(segment.timestamp, DATE_FORMAT);
    key_with_date(segment, date)
}

/// Seconds to wait after the `failures`-th failed attempt in a row, for
/// `failures >= 1`: the configured delay, doubled once for each failure after
/// the first.
pub open spec fn retry_delay(retry_backoff_secs: nat, failures: nat) -> nat {
    retry_backoff_secs * pow2((failures - 1) as nat)
}

/// Where the upload of one segment stands.
#[derive(Debug, Clone, Copy, PartialEq, Eq, Structural)]
pub enum UploadPhase {
    /// An attempt is due or under way.
    Attempting,
    /// An attempt succeeded.
    Uploaded,
    /// The last allowed attempt failed.
    Abandoned,
}

/// What to do after an attempt.
#[derive(Debug, Clone, Copy, PartialEq, Eq, Structural)]
pub enum UploadStep {
    /// The upload succeeded: delete the local file. A failure to delete does
    /// not change the outcome.
    Uploaded,
    /// The attempt failed: wait this many seconds, then attempt again.
    RetryAfter { wait_secs: u64 },
    /// The attempt failed and was the last one allowed: leave the local file
    /// where it is and make no further attempt.
    Abandoned,
}

/// The state of an upload as the contracts see it.
pub struct UploadAttemptView {
    pub max_retries: nat,
    pub retry_backoff_secs: nat,
    /// Failed attempts so far.
    pub retry_count: nat,
    pub phase: UploadPhase,
}

/// The step after one more failure when `failures` is the number of failed
/// attempts including it: give up once `max_retries` is reached, else retry
/// after `retry_delay`.
pub open spec fn step_after_failure(max_retries: nat, retry_backoff_secs: nat, failures: nat)
    -> UploadStep {
    if failures >= max_retries {
        UploadStep::Abandoned
    } else {
        UploadStep::RetryAfter { wait_secs: retry_delay(retry_backoff_secs, failures) as u64 }
    }
}

impl UploadAttemptView {
    /// The upload after a successful attempt.
    pub open spec fn succeeded(self) -> UploadAttemptView {
        UploadAttemptView { phase: UploadPhase::Uploaded, ..self }
    }

    /// The upload after a failed attempt.
    pub open spec fn failed(self) -> UploadAttemptView {
        UploadAttemptView {
            retry_count: self.retry_count + 1,
            phase: if self.retry_count + 1 >= self.max_retries {
                UploadPhase::Abandoned
            } else {
                UploadPhase::Attempting
            },
            ..self
        }
    }

    /// Whether the delay after the next failure, should it lead to a retry,
    /// fits the machine's 64-bit seconds.
    pub open spec fn next_delay_fits(self) -> bool {
        self.retry_count + 1 < self.max_retries ==> retry_delay(
            self.retry_backoff_secs,
            self.retry_count + 1,
        ) <= u64::MAX
    }

    /// The upload after `n` failed attempts in a row. Once it is abandoned,
    /// no attempt is made and nothing changes.
    pub open spec fn after_failures(self, n: nat) -> UploadAttemptView
        decreases n,
    {
        if n == 0 {
            self
        } else {
            let before = self.after_failures((n - 1) as nat);
            if before.phase == UploadPhase::Attempting {
                before.failed()
            } else {
                before
            }
        }
    }
}

/// The retry state of one segment's upload.
pub struct UploadAttemptState {
    max_retries: u32,
    retry_backoff_secs: u64,
    retry_count: u32,
    phase: UploadPhase,
}

impl View for UploadAttemptState {
    type V = UploadAttemptView;

    closed spec fn view(&self) -> UploadAttemptView {
        UploadAttemptView {
            max_retries: self.max_retries as nat,
            retry_backoff_secs: self.retry_backoff_secs as nat,
            retry_count: self.retry_count as nat,
            phase: self.phase,
        }
    }
}

/// `retry_delay` by machine arithmetic: `None` where it exceeds 64 bits.
pub fn checked_retry_delay(retry_backoff_secs: u64, failures: u32) -> (delay: Option<u64>)
    requires
        failures >= 1,
    ensures
        match delay {
            Some(d) => d == retry_delay(retry_backoff_secs as nat, failures as nat),
            None => retry_delay(retry_backoff_secs as nat, failures as nat) > u64::MAX,
        },
{
    if retry_backoff_secs == 0 {
        assert(retry_delay(0, failures as nat) == 0) by (nonlinear_arith)
            requires
                retry_delay(0, failures as nat) == 0 * pow2((failures - 1) as nat),
        ;
        return Some(0);
    }
    let mut delay: u64 = retry_backoff_secs;
    let mut doubled: u32 = 0;
    proof {
        lemma_pow2_unfold(1);
        assert(pow2(0) == 1) by {
            vstd::arithmetic::power2::lemma2_to64();
        }
    }
    while doubled < failures - 1
        invariant
            failures >= 1,
            doubled <= failures - 1,
            retry_backoff_secs > 0,
            delay == retry_backoff_secs * pow2(doubled as nat),
        decreases failures - 1 - doubled,
    {
        proof {
            lemma_pow2_unfold((doubled + 1) as nat);
            assert(retry_backoff_secs * pow2((doubled + 1) as nat) == 2 * (retry_backoff_secs
                * pow2(doubled as nat))) by (nonlinear_arith)
                requires
                    pow2((doubled + 1) as nat) == 2 * pow2(doubled as nat),
            ;
        }
        match delay.checked_mul(2) {
            Some(d) => {
                delay = d;
            },
            None => {
                proof {
                    lemma_delay_grows(
                        retry_backoff_secs as nat,
                        (doubled + 2) as nat,
                        failures as nat,
                    );
                }
                return None;
            },
        }
        doubled += 1;
    }
    Some(delay)
}

/// Later retries never wait less than earlier ones.
pub proof fn lemma_delay_grows(retry_backoff_secs: nat, earlier: nat, later: nat)
    requires
        1 <= earlier <= later,
    ensures
        retry_delay(retry_backoff_secs, earlier) <= retry_delay(retry_backoff_secs, later),
    decreases later - earlier,
{
    if earlier < later {
        lemma_delay_grows(retry_backoff_secs, earlier, (later - 1) as nat);
        lemma_pow2_unfold((later - 1) as nat);
        lemma_pow2_pos((later - 2) as nat);
        assert(retry_backoff_secs * pow2((later - 2) as nat) <= retry_backoff_secs * pow2(
            (later - 1) as nat,
        )) by (nonlinear_arith)
            requires
                pow2((later - 1) as nat) == 2 * pow2((later - 2) as nat),
        ;
    }
}

/// The retry schedule of an upload that keeps failing, from the state before
/// the first attempt. Below `max_retries` failures it is still attempting,
/// and the `k`-th failure was answered with a retry after
/// `retry_backoff_secs * 2^(k-1)` seconds. The failure that reaches
/// `max_retries` abandons the segment (the first one where no retry is
/// configured), and from then on nothing changes: no further attempt is made.
pub proof fn lemma_retry_schedule(fresh: UploadAttemptView, k: nat)
    requires
        fresh.retry_count == 0,
        fresh.phase == UploadPhase::Attempting,
    ensures
        k < fresh.max_retries ==> fresh.after_failures(k).phase == UploadPhase::Attempting
            && fresh.after_failures(k).retry_count == k,
        1 <= k < fresh.max_retries && fresh.retry_backoff_secs * pow2((k - 1) as nat) <= u64::MAX
            ==> (step_after_failure(fresh.max_retries, fresh.retry_backoff_secs, k) matches UploadStep::RetryAfter {
            wait_secs,
        } && wait_secs == fresh.retry_backoff_secs * pow2((k - 1) as nat)),
        k >= 1 && k >= fresh.max_retries ==> fresh.after_failures(k).phase
            == UploadPhase::Abandoned && step_after_failure(
            fresh.max_retries,
            fresh.retry_backoff_secs,
            k,
        ) == UploadStep::Abandoned,
        k >= 1 && k >= fresh.max_retries ==> fresh.after_failures(k).retry_count == (if
            fresh.max_retries == 0 {
            1
        } else {
            fresh.max_retries
        }),
        fresh.after_failures(k).max_retries == fresh.max_retries,
        fresh.after_failures(k).retry_backoff_secs == fresh.retry_backoff_secs,
    decreases k,
{
    if k > 0 {
        lemma_retry_schedule(fresh, (k - 1) as nat);
    }
}

/// A segment that lies under a directory by a plain name is stored under
/// that name: the file name in the key is the one the detector tracked.
pub proof fn lemma_key_keeps_file_name(dir: Seq<char>, name: Seq<char>)
    requires
        is_plain_name(name),
    ensures
        key_file_name(joined(dir, name)) == name,
{
    lemma_file_name_of_joined(dir, name);
}

impl UploadAttemptState {
    #[verifier::type_invariant]
    spec fn well_formed(self) -> bool {
        self.phase == UploadPhase::Attempting ==> self.retry_count < self.max_retries
            || self.retry_count == 0
    }

    /// The state before the first attempt.
    pub fn new(config: &UploadConfig) -> (state: UploadAttemptState)
        ensures
            state@ == (UploadAttemptView {
                max_retries: config.max_retries as nat,
                retry_backoff_secs: config.retry_backoff_secs as nat,
                retry_count: 0,
                phase: UploadPhase::Attempting,
            }),
    {
        UploadAttemptState {
            max_retries: config.max_retries,
            retry_backoff_secs: config.retry_backoff_secs,
            retry_count: 0,
            phase: UploadPhase::Attempting,
        }
    }

    /// Failed attempts so far.
    pub fn retry_count(&self) -> (n: u32)
        ensures
            n == self@.retry_count,
    {
        self.retry_count
    }

    pub fn phase(&self) -> (phase: UploadPhase)
        ensures
            phase == self@.phase,
    {
        self.phase
    }

    /// Whether `on_failure` may be called: an attempt is due and the delay
    /// it would answer with fits 64 bits.
    pub fn can_fail(&self) -> (ok: bool)
        ensures
            ok == (self@.phase == UploadPhase::Attempting && self@.next_delay_fits()),
    {
        proof {
            use_type_invariant(self);
        }
        if self.phase != UploadPhase::Attempting {
            return false;
        }
        if self.retry_count + 1 >= self.max_retries {
            return true;
        }
        checked_retry_delay(self.retry_backoff_secs, self.retry_count + 1).is_some()
    }

    /// The attempt succeeded.
    pub fn on_success(&mut self) -> (step: UploadStep)
        requires
            old(self)@.phase == UploadPhase::Attempting,
        ensures
            final(self)@ == old(self)@.succeeded(),
            step == UploadStep::Uploaded,
    {
        self.phase = UploadPhase::Uploaded;
        UploadStep::Uploaded
    }

    /// The attempt failed. The failure is counted; with `max_retries`
    /// reached the segment is abandoned, else the next attempt is due after
    /// `retry_backoff_secs * 2^(failures - 1)` seconds.
    pub fn on_failure(&mut self) -> (step: UploadStep)
        requires
            old(self)@.phase == UploadPhase::Attempting,
            old(self)@.next_delay_fits(),
        ensures
            final(self)@ == old(self)@.failed(),
            step == step_after_failure(
                old(self)@.max_retries,
                old(self)@.retry_backoff_secs,
                old(self)@.retry_count + 1,
            ),
            step matches UploadStep::RetryAfter { wait_secs } ==> wait_secs == retry_delay(
                old(self)@.retry_backoff_secs,
                old(self)@.retry_count + 1,
            ),
    {
        proof {
            use_type_invariant(&*self);
        }
        let failures = self.retry_count + 1;
        if failures >= self.max_retries {
            self.phase = UploadPhase::Abandoned;
            self.retry_count = failures;
            return UploadStep::Abandoned;
        }
        self.retry_count = failures;
        let wait_secs = checked_retry_delay(self.retry_backoff_secs, failures).unwrap();
        UploadStep::RetryAfter { wait_secs }
    }

    /// Takes in the result of an attempt. `None`, with the state unchanged,
    /// where no attempt was due or where the delay before the next one does
    /// not fit 64 bits; otherwise what `on_success` or `on_failure` answers.
    pub fn on_attempt(&mut self, succeeded: bool) -> (step: Option<UploadStep>)
        ensures
            old(self)@.phase != UploadPhase::Attempting ==> step is None,
            old(self)@.phase == UploadPhase::Attempting && succeeded ==> step == Some(
                UploadStep::Uploaded,
            ) && final(self)@ == old(self)@.succeeded(),
            old(self)@.phase == UploadPhase::Attempting && !succeeded && old(
                self,
            )@.next_delay_fits() ==> step == Some(
                step_after_failure(
                    old(self)@.max_retries,
                    old(self)@.retry_backoff_secs,
                    old(self)@.retry_count + 1,
                ),
            ) && final(self)@ == old(self)@.failed(),
            old(self)@.phase == UploadPhase::Attempting && !succeeded && !old(
                self,
            )@.next_delay_fits() ==> step is None,
            step is None ==> final(self)@ == old(self)@,
    {
        if self.phase != UploadPhase::Attempting {
            return None;
        }
        if succeeded {
            return Some(self.on_success());
        }
        if self.can_fail() {
            Some(self.on_failure())
        } else {
            None
        }
    }
}

} // verus!
