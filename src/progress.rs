//! The progress protocol: sequence-numbered start, progress, error and done
//! events, with progress events throttled to a minimum interval.
//!
//! Events are queued in the reporter; a consumer drains them with
//! `take_events` and writes them out.

use vstd::prelude::*;
use crate::config::ScanConfig;
use crate::error::{kind_name, ScanError};
use crate::models::ScanResult;
use crate::scanner::ScanProgress;

verus! {

/// Phase of a scan.
#[derive(Debug, Clone, Copy, PartialEq, Eq, Structural)]
pub enum ScanPhase {
    /// Walking directories and discovering files.
    Scan,
    /// Processing discovered files.
    Process,
    /// Finished.
    Done,
}

pub open spec fn phase_name(p: ScanPhase) -> Seq<char> {
    match p {
        ScanPhase::Scan => "scan"@,
        ScanPhase::Process => "process"@,
        ScanPhase::Done => "done"@,
    }
}

impl ScanPhase {
    /// Lowercase name of the phase.
    pub fn as_str(&self) -> (r: &'static str)
        ensures
            r@ == phase_name(*self),
    {
        match self {
            ScanPhase::Scan => "scan",
            ScanPhase::Process => "process",
            ScanPhase::Done => "done",
        }
    }
}

impl Default for ScanPhase {
    fn default() -> (r: ScanPhase)
        ensures
            r == ScanPhase::Scan,
    {
        ScanPhase::Scan
    }
}

/// Sent when a scan begins; echoes the resolved configuration.
#[derive(Debug, Clone)]
pub struct StartMessage {
    /// Kind tag: "start".
    pub msg_type: &'static str,
    /// Sequence number.
    pub seq: u64,
    /// Milliseconds since the reporter was created.
    pub ts: u64,
    /// Roots of the scan.
    pub roots: Vec<String>,
    /// Whether the scan descends below the roots.
    pub recursive: bool,
    /// Depth limit of a recursive scan.
    pub max_depth: usize,
    /// Whether fingerprints are computed.
    pub compute_hash: bool,
}

impl StartMessage {
    pub fn new(
        seq: u64,
        ts: u64,
        roots: Vec<String>,
        recursive: bool,
        max_depth: usize,
        compute_hash: bool,
    ) -> (r: StartMessage)
        ensures
            r.msg_type@ == "start"@,
            r.seq == seq,
            r.ts == ts,
            r.roots == roots,
            r.recursive == recursive,
            r.max_depth == max_depth,
            r.compute_hash == compute_hash,
    {
        StartMessage { msg_type: "start", seq, ts, roots, recursive, max_depth, compute_hash }
    }
}

/// Running counts of a scan.
#[derive(Debug, Clone)]
pub struct ProgressMessage {
    /// Kind tag: "p".
    pub msg_type: &'static str,
    /// Sequence number.
    pub seq: u64,
    /// Milliseconds since the reporter was created.
    pub ts: u64,
    /// Phase of the scan.
    pub phase: ScanPhase,
    /// Files so far.
    pub files: u64,
    /// Directories so far.
    pub dirs: u64,
    /// Video files so far.
    pub video_count: u64,
    /// Image files so far.
    pub image_count: u64,
    /// Audio files so far.
    pub audio_count: u64,
    /// Directory being scanned.
    pub dir: String,
    /// Elapsed milliseconds.
    pub ms: u64,
    /// Estimated milliseconds left, if known.
    pub eta_ms: Option<u64>,
}

impl ProgressMessage {
    pub fn new(
        seq: u64,
        ts: u64,
        phase: ScanPhase,
        files: u64,
        dirs: u64,
        video_count: u64,
        image_count: u64,
        audio_count: u64,
        dir: String,
        ms: u64,
        eta_ms: Option<u64>,
    ) -> (r: ProgressMessage)
        ensures
            r.msg_type@ == "p"@,
            r.seq == seq,
            r.ts == ts,
            r.phase == phase,
            r.files == files,
            r.dirs == dirs,
            r.video_count == video_count,
            r.image_count == image_count,
            r.audio_count == audio_count,
            r.dir == dir,
            r.ms == ms,
            r.eta_ms == eta_ms,
    {
        ProgressMessage {
            msg_type: "p",
            seq,
            ts,
            phase,
            files,
            dirs,
            video_count,
            image_count,
            audio_count,
            dir,
            ms,
            eta_ms,
        }
    }
}

/// A non-fatal error, sent as soon as it is met.
#[derive(Debug, Clone)]
pub struct ErrorProgressMessage {
    /// Kind tag: "err".
    pub msg_type: &'static str,
    /// Sequence number.
    pub seq: u64,
    /// Milliseconds since the reporter was created.
    pub ts: u64,
    /// Name of the error kind.
    pub error_type: String,
    /// Description.
    pub message: String,
    /// Path that caused the error, if known.
    pub path: Option<String>,
}

impl ErrorProgressMessage {
    pub fn new(
        seq: u64,
        ts: u64,
        error_type: String,
        message: String,
        path: Option<String>,
    ) -> (r: ErrorProgressMessage)
        ensures
            r.msg_type@ == "err"@,
            r.seq == seq,
            r.ts == ts,
            r.error_type == error_type,
            r.message == message,
            r.path == path,
    {
        ErrorProgressMessage { msg_type: "err", seq, ts, error_type, message, path }
    }
}

/// Final counts of a scan.
#[derive(Debug, Clone)]
pub struct DoneMessage {
    /// Kind tag: "done".
    pub msg_type: &'static str,
    /// Sequence number.
    pub seq: u64,
    /// Milliseconds since the reporter was created.
    pub ts: u64,
    /// Files counted.
    pub total_files: u64,
    /// Directories counted.
    pub total_dirs: u64,
    /// New files.
    pub new_files: u64,
    /// Modified files.
    pub modified_files: u64,
    /// Deleted files.
    pub deleted_files: u64,
    /// Errors met.
    pub error_count: usize,
    /// Duration in milliseconds.
    pub ms: u64,
}

impl DoneMessage {
    pub fn new(
        seq: u64,
        ts: u64,
        total_files: u64,
        total_dirs: u64,
        new_files: u64,
        modified_files: u64,
        deleted_files: u64,
        error_count: usize,
        ms: u64,
    ) -> (r: DoneMessage)
        ensures
            r.msg_type@ == "done"@,
            r.seq == seq,
            r.ts == ts,
            r.total_files == total_files,
            r.total_dirs == total_dirs,
            r.new_files == new_files,
            r.modified_files == modified_files,
            r.deleted_files == deleted_files,
            r.error_count == error_count,
            r.ms == ms,
    {
        DoneMessage {
            msg_type: "done",
            seq,
            ts,
            total_files,
            total_dirs,
            new_files,
            modified_files,
            deleted_files,
            error_count,
            ms,
        }
    }
}

/// One event of the protocol.
#[derive(Debug, Clone)]
pub enum ProgressEvent {
    Start(StartMessage),
    Progress(ProgressMessage),
    Error(ErrorProgressMessage),
    Done(DoneMessage),
}

#[verifier::external_type_specification]
#[verifier::external_body]
pub struct ExInstant(std::time::Instant);

/// Relies on `std::time::Instant::now`: the current instant.
#[verifier::external_body]
fn clock_now() -> (r: std::time::Instant) {
    std::time::Instant::now()
}

/// Relies on `std::time::Instant::elapsed`: whole milliseconds since `start`.
#[verifier::external_body]
fn clock_millis_since(start: &std::time::Instant) -> (r: u64) {
    start.elapsed().as_millis() as u64
}

/// The state of a reporter as data.
pub struct ReporterView {
    pub enabled: bool,
    pub interval_ms: u64,
    pub last_report_ms: u64,
    pub seq: u64,
    pub events: Seq<ProgressEvent>,
}

/// One more, unless the sequence number is already at its largest value.
pub open spec fn next_number(x: u64) -> u64 {
    if x < u64::MAX {
        (x + 1) as u64
    } else {
        x
    }
}

/// Whether a progress event is due at `now_ms`: reporting is on and at least
/// the interval has passed since the last progress event.
pub open spec fn report_due(v: ReporterView, now_ms: u64) -> bool {
    v.enabled && (if now_ms >= v.last_report_ms {
        now_ms - v.last_report_ms
    } else {
        0
    }) >= v.interval_ms
}

/// `ev` is the progress event for `p` sent at `now_ms` with sequence number `seq`.
pub open spec fn progress_event_matches(ev: ProgressEvent, p: ScanProgress, seq: u64, now_ms: u64) -> bool {
    match ev {
        ProgressEvent::Progress(m) => {
            &&& m.msg_type@ == "p"@
            &&& m.seq == seq
            &&& m.ts == now_ms
            &&& m.phase == ScanPhase::Scan
            &&& m.files == p.scanned_files
            &&& m.dirs == p.scanned_dirs
            &&& m.video_count == p.video_count
            &&& m.image_count == p.image_count
            &&& m.audio_count == p.audio_count
            &&& m.dir == p.current_dir
            &&& m.ms == p.elapsed_ms
            &&& m.eta_ms.is_none()
        },
        _ => false,
    }
}

/// `w` follows `v` by appending one event and taking the next sequence
/// number; the switch and the interval stay.
pub open spec fn appended(v: ReporterView, w: ReporterView) -> bool {
    &&& w.enabled == v.enabled
    &&& w.interval_ms == v.interval_ms
    &&& w.seq == next_number(v.seq)
    &&& w.events.len() == v.events.len() + 1
    &&& w.events.subrange(0, v.events.len() as int) == v.events
}

/// Offering progress `p` at `now_ms` takes `v` to `w`, and `sent` says whether
/// an event was sent: exactly when one is due.
pub open spec fn progress_step(v: ReporterView, w: ReporterView, p: ScanProgress, now_ms: u64, sent: bool) -> bool {
    if report_due(v, now_ms) {
        &&& sent
        &&& appended(v, w)
        &&& w.last_report_ms == now_ms
        &&& progress_event_matches(w.events.last(), p, v.seq, now_ms)
    } else {
        !sent && w == v
    }
}

/// The error event sent for `e` at `now_ms` with sequence number `seq`.
pub open spec fn error_event_matches(ev: ProgressEvent, e: ScanError, seq: u64, now_ms: u64) -> bool {
    match ev {
        ProgressEvent::Error(m) => {
            &&& m.msg_type@ == "err"@
            &&& m.seq == seq
            &&& m.ts == now_ms
            &&& m.error_type@ == kind_name(e.kind)
            &&& m.message == e.message
            &&& m.path == e.path
        },
        _ => false,
    }
}

/// Reporting `e` at `now_ms`: sent at once when reporting is on, whatever the
/// time since the last progress event.
pub open spec fn error_step(v: ReporterView, w: ReporterView, e: ScanError, now_ms: u64) -> bool {
    if v.enabled {
        &&& appended(v, w)
        &&& w.last_report_ms == v.last_report_ms
        &&& error_event_matches(w.events.last(), e, v.seq, now_ms)
    } else {
        w == v
    }
}

/// `ev` is the start event for `c` sent at `now_ms` with sequence number `seq`.
pub open spec fn start_event_matches(ev: ProgressEvent, c: ScanConfig, seq: u64, now_ms: u64) -> bool {
    match ev {
        ProgressEvent::Start(m) => {
            &&& m.msg_type@ == "start"@
            &&& m.seq == seq
            &&& m.ts == now_ms
            &&& m.roots@ == c.roots@
            &&& m.recursive == c.recursive
            &&& m.max_depth == c.max_depth
            &&& m.compute_hash == c.compute_hash
        },
        _ => false,
    }
}

/// `ev` is the done event for `r` sent at `now_ms` with sequence number `seq`.
pub open spec fn done_event_matches(ev: ProgressEvent, r: ScanResult, seq: u64, now_ms: u64) -> bool {
    match ev {
        ProgressEvent::Done(m) => {
            &&& m.msg_type@ == "done"@
            &&& m.seq == seq
            &&& m.ts == now_ms
            &&& m.total_files == r.total_files
            &&& m.total_dirs == r.total_dirs
            &&& m.new_files == r.new_files
            &&& m.modified_files == r.modified_files
            &&& m.deleted_files == r.deleted_files
            &&& m.error_count == r.errors@.len()
            &&& m.ms == r.duration_ms
        },
        _ => false,
    }
}

/// Emits sequence-numbered progress events, throttling progress updates.
pub struct ProgressReporter {
    enabled: bool,
    interval_ms: u64,
    last_report_ms: u64,
    seq: u64,
    start: std::time::Instant,
    events: Vec<ProgressEvent>,
}

impl View for ProgressReporter {
    type V = ReporterView;

    closed spec fn view(&self) -> ReporterView {
        ReporterView {
            enabled: self.enabled,
            interval_ms: self.interval_ms,
            last_report_ms: self.last_report_ms,
            seq: self.seq,
            events: self.events@,
        }
    }
}

/// A copy of each string of `v`.
fn copy_strings(v: &Vec<String>) -> (r: Vec<String>)
    ensures
        r@ == v@,
{
    let mut out: Vec<String> = Vec::new();
    let mut i: usize = 0;
    while i < v.len()
        invariant
            i <= v@.len(),
            out@ == v@.subrange(0, i as int),
        decreases v@.len() - i,
    {
        out.push(v[i].clone());
        i = i + 1;
        assert(out@ =~= v@.subrange(0, i as int));
    }
    assert(v@.subrange(0, v@.len() as int) =~= v@);
    out
}

impl ProgressReporter {
    /// A reporter, on or off, that sends progress at most once per `interval_ms`;
    /// its clock starts now.
    pub fn new(enabled: bool, interval_ms: u64) -> (r: ProgressReporter)
        ensures
            r@.enabled == enabled,
            r@.interval_ms == interval_ms,
            r@.last_report_ms == 0,
            r@.seq == 0,
            r@.events.len() == 0,
    {
        ProgressReporter {
            enabled,
            interval_ms,
            last_report_ms: 0,
            seq: 0,
            start: clock_now(),
            events: Vec::new(),
        }
    }

    /// Whether a progress event would be sent at `now_ms`.
    pub fn should_report_at(&self, now_ms: u64) -> (r: bool)
        ensures
            r == report_due(self@, now_ms),
    {
        if !self.enabled {
            return false;
        }
        let elapsed = if now_ms >= self.last_report_ms {
            now_ms - self.last_report_ms
        } else {
            0
        };
        elapsed >= self.interval_ms
    }

    /// Whether a progress event would be sent now.
    pub fn should_report(&self) -> (r: bool)
        ensures
            r ==> self@.enabled,
            self@.interval_ms == 0 ==> r == self@.enabled,
    {
        let now = self.current_timestamp();
        self.should_report_at(now)
    }

    /// Take the next sequence number.
    pub fn next_seq(&mut self) -> (r: u64)
        ensures
            r == old(self)@.seq,
            final(self)@ == (ReporterView { seq: next_number(old(self)@.seq), ..old(self)@ }),
    {
        let r = self.seq;
        self.seq = if self.seq < u64::MAX { self.seq + 1 } else { self.seq };
        r
    }

    /// Milliseconds since the reporter was created.
    pub fn current_timestamp(&self) -> (r: u64) {
        clock_millis_since(&self.start)
    }

    /// Send a start event echoing `config` at `now_ms`, when reporting is on.
    pub fn report_start_at(&mut self, config: &ScanConfig, now_ms: u64)
        ensures
            !old(self)@.enabled ==> final(self)@ == old(self)@,
            old(self)@.enabled ==> appended(old(self)@, final(self)@)
                && final(self)@.last_report_ms == old(self)@.last_report_ms
                && start_event_matches(final(self)@.events.last(), *config, old(self)@.seq, now_ms),
    {
        if !self.enabled {
            return;
        }
        let seq = self.next_seq();
        let msg = StartMessage::new(
            seq,
            now_ms,
            copy_strings(&config.roots),
            config.recursive,
            config.max_depth,
            config.compute_hash,
        );
        let ghost before = self.events@;
        self.events.push(ProgressEvent::Start(msg));
        assert(self.events@.subrange(0, before.len() as int) =~= before);
    }

    /// Send a start event echoing `config`, when reporting is on.
    pub fn report_start(&mut self, config: &ScanConfig)
        ensures
            !old(self)@.enabled ==> final(self)@ == old(self)@,
            old(self)@.enabled ==> appended(old(self)@, final(self)@)
                && final(self)@.last_report_ms == old(self)@.last_report_ms
                && exists|now_ms: u64|
                start_event_matches(final(self)@.events.last(), *config, old(self)@.seq, now_ms),
    {
        let now = self.current_timestamp();
        self.report_start_at(config, now);
    }

    /// Offer progress at `now_ms`: sent only when due; returns whether it was.
    pub fn report_progress_at(&mut self, progress: &ScanProgress, now_ms: u64) -> (r: bool)
        ensures
            progress_step(old(self)@, final(self)@, *progress, now_ms, r),
    {
        if !self.should_report_at(now_ms) {
            return false;
        }
        let seq = self.next_seq();
        let msg = ProgressMessage::new(
            seq,
            now_ms,
            ScanPhase::Scan,
            progress.scanned_files,
            progress.scanned_dirs,
            progress.video_count,
            progress.image_count,
            progress.audio_count,
            progress.current_dir.clone(),
            progress.elapsed_ms,
            None,
        );
        let ghost before = self.events@;
        self.events.push(ProgressEvent::Progress(msg));
        assert(self.events@.subrange(0, before.len() as int) =~= before);
        self.last_report_ms = now_ms;
        true
    }

    /// Offer progress now: sent only when due; returns whether it was.
    pub fn report_progress(&mut self, progress: &ScanProgress) -> (r: bool)
        ensures
            exists|now_ms: u64| progress_step(old(self)@, final(self)@, *progress, now_ms, r),
    {
        let now = self.current_timestamp();
        self.report_progress_at(progress, now)
    }

    /// Send an error event at `now_ms` when reporting is on, regardless of timing.
    pub fn report_error_at(&mut self, error: &ScanError, now_ms: u64)
        ensures
            error_step(old(self)@, final(self)@, *error, now_ms),
    {
        if !self.enabled {
            return;
        }
        let seq = self.next_seq();
        let path = match &error.path {
            Some(p) => Some(p.clone()),
            None => None,
        };
        let msg = ErrorProgressMessage::new(
            seq,
            now_ms,
            error.kind.name().to_owned(),
            error.message.clone(),
            path,
        );
        let ghost before = self.events@;
        self.events.push(ProgressEvent::Error(msg));
        assert(self.events@.subrange(0, before.len() as int) =~= before);
    }

    /// Send an error event now when reporting is on, regardless of timing.
    pub fn report_error(&mut self, error: &ScanError)
        ensures
            exists|now_ms: u64| error_step(old(self)@, final(self)@, *error, now_ms),
    {
        let now = self.current_timestamp();
        self.report_error_at(error, now);
    }

    /// Send a done event with the final counts of `result` at `now_ms`, when
    /// reporting is on.
    pub fn report_done_at(&mut self, result: &ScanResult, now_ms: u64)
        ensures
            !old(self)@.enabled ==> final(self)@ == old(self)@,
            old(self)@.enabled ==> appended(old(self)@, final(self)@)
                && final(self)@.last_report_ms == old(self)@.last_report_ms
                && done_event_matches(final(self)@.events.last(), *result, old(self)@.seq, now_ms),
    {
        if !self.enabled {
            return;
        }
        let seq = self.next_seq();
        let msg = DoneMessage::new(
            seq,
            now_ms,
            result.total_files,
            result.total_dirs,
            result.new_files,
            result.modified_files,
            result.deleted_files,
            result.error_count(),
            result.duration_ms,
        );
        let ghost before = self.events@;
        self.events.push(ProgressEvent::Done(msg));
        assert(self.events@.subrange(0, before.len() as int) =~= before);
    }

    /// Send a done event with the final counts of `result`, when reporting is on.
    pub fn report_done(&mut self, result: &ScanResult)
        ensures
            !old(self)@.enabled ==> final(self)@ == old(self)@,
            old(self)@.enabled ==> appended(old(self)@, final(self)@)
                && final(self)@.last_report_ms == old(self)@.last_report_ms
                && exists|now_ms: u64|
                done_event_matches(final(self)@.events.last(), *result, old(self)@.seq, now_ms),
    {
        let now = self.current_timestamp();
        self.report_done_at(result, now);
    }

    /// Whether reporting is on.
    pub fn is_enabled(&self) -> (r: bool)
        ensures
            r == self@.enabled,
    {
        self.enabled
    }

    /// Hand over the queued events, oldest first, leaving the queue empty.
    pub fn take_events(&mut self) -> (r: Vec<ProgressEvent>)
        ensures
            r@ == old(self)@.events,
            final(self)@ == (ReporterView { events: Seq::empty(), ..old(self)@ }),
    {
        let mut taken: Vec<ProgressEvent> = Vec::new();
        std::mem::swap(&mut taken, &mut self.events);
        taken
    }
}

/// With a 500 ms interval, two progress offers within 100 ms send at most one
/// event, and an error reported between them is sent either way.
pub proof fn lemma_progress_throttled(
    v0: ReporterView,
    v1: ReporterView,
    v2: ReporterView,
    v3: ReporterView,
    p1: ScanProgress,
    p2: ScanProgress,
    e: ScanError,
    t1: u64,
    t2: u64,
    t3: u64,
    sent1: bool,
    sent2: bool,
)
    requires
        v0.enabled,
        v0.interval_ms == 500,
        t1 <= t2 <= t3,
        t3 - t1 <= 100,
        progress_step(v0, v1, p1, t1, sent1),
        error_step(v1, v2, e, t2),
        progress_step(v2, v3, p2, t3, sent2),
    ensures
        !(sent1 && sent2),
        v2.events.len() == v1.events.len() + 1,
        error_event_matches(v2.events.last(), e, v1.seq, t2),
{
}

} // verus!
