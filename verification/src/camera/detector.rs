//! Segment boundary detection.
//!
//! The capture tool never says that it closed a file. It does say, on its
//! diagnostic stream, when it opens one: a line that holds
//! `Opening '<path>' for writing`. The detector keeps the name of the file
//! that is open; when the next one opens, or the stream ends, the file it kept
//! is complete.

use crate::clock::utc_now;
use crate::storage::uploader::SegmentInfo;
use crate::text::{
    file_name, file_name_of, is_plain_name, join_path, joined, lemma_final_component,
    line_mentions_error, mentions_error,
};
use regex::Regex;
use vstd::prelude::*;

verus! {

/// The expression that recognises the report of an opened file. Its first
/// group is the path between the quotes.
pub const OPEN_PATTERN: &'static str = "Opening '([^']+)' for writing";

/// The text of the first capture group in the leftmost match of the regular
/// expression `pattern` in `haystack`, as the `regex` crate finds it. `None`
/// where `pattern` is no valid expression, where nothing in `haystack` matches
/// it, or where the group took no part in the match.
pub uninterp spec fn first_capture(pattern: Seq<char>, haystack: Seq<char>) -> Option<Seq<char>>;

/// Trusted: compiles `pattern` with `regex::Regex::new`, searches `haystack`
/// with `Regex::captures` and copies out group 1 of what was found. The
/// contract only gives that result its name, `first_capture`; it claims
/// nothing about which text matches.
#[verifier::external_body]
fn regex_first_capture(pattern: &str, haystack: &str) -> (found: Option<String>)
    ensures
        found.deep_view() == first_capture(pattern@, haystack@),
{
    let re = Regex::new(pattern).ok()?;
    let caps = re.captures(haystack)?;
    caps.get(1).map(|m| m.as_str().to_string())
}

/// The path that `line` reports as opened for writing, if it reports one.
pub open spec fn opened_path(line: Seq<char>) -> Option<Seq<char>> {
    first_capture(OPEN_PATTERN@, line)
}

/// The name under which an opened path is tracked: the name of the file it
/// ends in. A path that ends in no file name, such as `/` or `..`, names no
/// file, and nothing is tracked for it.
pub open spec fn tracked_name(path: Seq<char>) -> Option<Seq<char>> {
    file_name_of(path)
}

/// The open segment after an event, where `opened` is the path that the
/// event reports as opened (`None` for any other line).
pub open spec fn next_open(current: Option<Seq<char>>, opened: Option<Seq<char>>) -> Option<
    Seq<char>,
> {
    match opened {
        Some(path) => tracked_name(path),
        None => current,
    }
}

/// The segment that an event closes: the one that was open, if the event
/// reports a newly opened file.
pub open spec fn closed_by(current: Option<Seq<char>>, opened: Option<Seq<char>>) -> Option<
    Seq<char>,
> {
    match opened {
        Some(_) => current,
        None => None,
    }
}

/// The full local path of a segment name, if there is one.
pub open spec fn path_under(temp_dir: Seq<char>, name: Option<Seq<char>>) -> Option<Seq<char>> {
    match name {
        Some(n) => Some(joined(temp_dir, n)),
        None => None,
    }
}

/// A tracked name names one file in the camera's directory.
pub proof fn lemma_tracked_name_is_plain(path: Seq<char>)
    ensures
        tracked_name(path) matches Some(name) ==> is_plain_name(name),
{
    lemma_final_component(path);
}

/// The open segment once `lines` have been read, where `current` was open
/// before the first of them.
pub open spec fn open_after(current: Option<Seq<char>>, lines: Seq<Seq<char>>) -> Option<
    Seq<char>,
>
    decreases lines.len(),
{
    if lines.len() == 0 {
        current
    } else {
        next_open(open_after(current, lines.drop_last()), opened_path(lines.last()))
    }
}

/// The names of the segments closed while `lines` were read, in the order in
/// which they were closed.
pub open spec fn closed_while(current: Option<Seq<char>>, lines: Seq<Seq<char>>) -> Seq<Seq<char>>
    decreases lines.len(),
{
    if lines.len() == 0 {
        Seq::empty()
    } else {
        let before = lines.drop_last();
        closed_while(current, before) + zero_or_one(
            closed_by(open_after(current, before), opened_path(lines.last())),
        )
    }
}

/// The sequence that holds `name`, if there is one, and nothing else.
pub open spec fn zero_or_one(name: Option<Seq<char>>) -> Seq<Seq<char>> {
    match name {
        Some(n) => seq![n],
        None => Seq::empty(),
    }
}

/// The files that `lines` report as opened, by tracked name, in order.
pub open spec fn opened_files(lines: Seq<Seq<char>>) -> Seq<Seq<char>>
    decreases lines.len(),
{
    if lines.len() == 0 {
        Seq::empty()
    } else {
        let before = opened_files(lines.drop_last());
        match opened_path(lines.last()) {
            Some(path) => before + zero_or_one(tracked_name(path)),
            None => before,
        }
    }
}

/// Everything a fresh detector closes over a whole stream: what it closes
/// while reading `lines`, then the segment still open when the stream ends.
pub open spec fn closed_by_stream(lines: Seq<Seq<char>>) -> Seq<Seq<char>> {
    closed_while(None, lines) + zero_or_one(open_after(None, lines))
}

/// One completed segment per opened file, in the order of opening: over any
/// stream a fresh detector closes exactly the files that the stream reports as
/// opened. While the stream lasts it has closed all of them but the one that
/// is still open, which it closes when the stream ends.
pub proof fn lemma_one_segment_per_opened_file(lines: Seq<Seq<char>>)
    ensures
        closed_by_stream(lines) == opened_files(lines),
        closed_while(None, lines).len() + zero_or_one(open_after(None, lines)).len()
            == opened_files(lines).len(),
        closed_while(None, lines) == opened_files(lines).take(
            closed_while(None, lines).len() as int,
        ),
    decreases lines.len(),
{
    if lines.len() > 0 {
        let before = lines.drop_last();
        lemma_one_segment_per_opened_file(before);
        let open = open_after(None, before);
        assert(closed_while(None, before) + zero_or_one(open) == opened_files(before));
        match opened_path(lines.last()) {
            Some(path) => {
                assert(closed_while(None, lines) == opened_files(before));
                assert(open_after(None, lines) == tracked_name(path));
            },
            None => {
                assert(closed_while(None, lines) =~= closed_while(None, before));
            },
        }
    }
    assert(closed_by_stream(lines) =~= opened_files(lines));
    assert(closed_while(None, lines) =~= opened_files(lines).take(
        closed_while(None, lines).len() as int,
    ));
}

/// A line that reports no opened file leaves the open segment as it was and
/// closes nothing.
pub proof fn lemma_other_line_changes_nothing(current: Option<Seq<char>>, line: Seq<char>)
    requires
        opened_path(line) is None,
    ensures
        next_open(current, opened_path(line)) == current,
        closed_by(current, opened_path(line)) is None,
        open_after(current, seq![line]) == current,
        closed_while(current, seq![line]) == Seq::<Seq<char>>::empty(),
{
    assert(seq![line].drop_last() =~= Seq::<Seq<char>>::empty());
    assert(seq![line].last() == line);
    assert(open_after(current, seq![line].drop_last()) == current);
    assert(closed_while(current, seq![line].drop_last()) =~= Seq::<Seq<char>>::empty());
    assert(closed_while(current, seq![line]) =~= Seq::<Seq<char>>::empty());
}

/// What the detector is: its camera, the directory the segments are written
/// to, and the name of the segment that is open.
pub struct DetectorView {
    pub camera_id: Seq<char>,
    pub temp_dir: Seq<char>,
    pub current: Option<Seq<char>>,
}

/// The detector of one capture process.
pub struct Detector {
    camera_id: String,
    temp_dir: String,
    current_segment: Option<String>,
}

/// What one line of diagnostics meant.
pub struct LineReport {
    /// The line mentions an error and should be surfaced.
    pub is_error: bool,
    /// Full local path of the segment that this line closed.
    pub completed: Option<String>,
    /// Name of the segment that this line opened.
    pub started: Option<String>,
}

impl View for Detector {
    type V = DetectorView;

    closed spec fn view(&self) -> DetectorView {
        DetectorView {
            camera_id: self.camera_id@,
            temp_dir: self.temp_dir@,
            current: self.current_segment.deep_view(),
        }
    }
}

impl Detector {
    /// A detector with no segment open.
    pub fn new(camera_id: String, temp_dir: String) -> (d: Detector)
        ensures
            d@ == (DetectorView { camera_id: camera_id@, temp_dir: temp_dir@, current: None }),
    {
        Detector { camera_id, temp_dir, current_segment: None }
    }

    /// Name of the segment that is open.
    pub fn current_segment(&self) -> (name: Option<String>)
        ensures
            name.deep_view() == self@.current,
    {
        match &self.current_segment {
            Some(n) => Some(n.clone()),
            None => None,
        }
    }

    /// Takes in one event of the stream: `opened` is the path that a line
    /// reported as opened, or `None` for any other line. Returns the full
    /// path of the segment that the event closed.
    pub fn advance(&mut self, opened: Option<String>) -> (completed: Option<String>)
        ensures
            final(self)@.camera_id == old(self)@.camera_id,
            final(self)@.temp_dir == old(self)@.temp_dir,
            final(self)@.current == next_open(old(self)@.current, opened.deep_view()),
            completed.deep_view() == path_under(
                old(self)@.temp_dir,
                closed_by(old(self)@.current, opened.deep_view()),
            ),
    {
        match opened {
            None => None,
            Some(path) => {
                let completed = match self.current_segment.take() {
                    Some(previous) => Some(join_path(self.temp_dir.as_str(), previous.as_str())),
                    None => None,
                };
                self.current_segment = file_name(path.as_str());
                completed
            },
        }
    }

    /// Takes in one line of the diagnostic stream.
    ///
    /// A line that reports no opened file changes nothing and closes nothing.
    pub fn on_line(&mut self, line: &str) -> (report: LineReport)
        ensures
            report.is_error == mentions_error(line@),
            final(self)@.camera_id == old(self)@.camera_id,
            final(self)@.temp_dir == old(self)@.temp_dir,
            final(self)@.current == next_open(old(self)@.current, opened_path(line@)),
            report.completed.deep_view() == path_under(
                old(self)@.temp_dir,
                closed_by(old(self)@.current, opened_path(line@)),
            ),
            report.started.deep_view() == (if opened_path(line@) is Some {
                final(self)@.current
            } else {
                None
            }),
            opened_path(line@) is None ==> final(self)@ == old(self)@ && report.completed is None
                && report.started is None,
    {
        let is_error = line_mentions_error(line);
        let opened = regex_first_capture(OPEN_PATTERN, line);
        let matched = opened.is_some();
        let completed = self.advance(opened);
        let started = if matched {
            self.current_segment()
        } else {
            None
        };
        LineReport { is_error, completed, started }
    }

    /// The stream ended: the segment that was open, if any, is complete.
    /// Returns its full path.
    pub fn finish(&mut self) -> (completed: Option<String>)
        ensures
            final(self)@.camera_id == old(self)@.camera_id,
            final(self)@.temp_dir == old(self)@.temp_dir,
            final(self)@.current is None,
            completed.deep_view() == path_under(old(self)@.temp_dir, old(self)@.current),
    {
        match self.current_segment.take() {
            Some(last) => Some(join_path(self.temp_dir.as_str(), last.as_str())),
            None => None,
        }
    }

    /// The record for a closed segment at `path`, made at time `timestamp`
    /// (seconds since the Unix epoch). `size` is what a look at the disk found:
    /// the file's size, or `None` where there is no such file, and then there
    /// is no record.
    pub fn record_at(&self, path: String, size: Option<u64>, timestamp: i64) -> (record: Option<
        SegmentInfo,
    >)
        ensures
            record is Some <==> size is Some,
            record matches Some(r) ==> r.camera_id@ == self@.camera_id && r.local_path@ == path@
                && r.timestamp == timestamp,
    {
        match size {
            Some(_) => Some(
                SegmentInfo { camera_id: self.camera_id.clone(), local_path: path, timestamp },
            ),
            None => None,
        }
    }

    /// The record for a closed segment at `path`, stamped with the time of
    /// the call. `size` is as for `record_at`.
    pub fn record(&self, path: String, size: Option<u64>) -> (record: Option<SegmentInfo>)
        ensures
            record is Some <==> size is Some,
            record matches Some(r) ==> r.camera_id@ == self@.camera_id && r.local_path@ == path@,
    {
        let now = utc_now();
        self.record_at(path, size, now)
    }
}

} // verus!
