use vstd::prelude::*;
use crate::command::{arg_list, build_args, DownloadOptions, Platform};
use crate::error::DownloadError;
use crate::parser::{destination_of, line_percent, line_percent_of, next_destination};
use crate::progress::{
    completed_report, downloading_report, failed_report, starting_report, DownloadProgress,
};

verus! {

/// Where one download stands.
#[derive(Clone, Copy, Debug, PartialEq, Eq, Structural)]
pub enum Stage {
    /// Waiting for the answer of the availability probe.
    Probing,
    /// Waiting to learn whether the tool started.
    Spawning,
    /// Reading the tool's output, one line at a time.
    Streaming,
    /// The output has ended; waiting for the tool's exit status.
    Waiting,
    /// The outcome is known.
    Finished,
}

/// What the caller observed while carrying out the last action.
#[derive(Debug)]
pub enum SessionEvent {
    /// The version query ran (`true`) or could not be run (`false`).
    ProbeFinished(bool),
    /// The tool could not be started; the system's reason.
    SpawnFailed(String),
    /// The tool started; whether its standard output was captured.
    Spawned(bool),
    /// One complete line of the tool's standard output.
    Line(String),
    /// The tool's standard output has ended.
    OutputEnded,
    /// Waiting for the tool failed; the system's reason.
    WaitFailed(String),
    /// The tool exited, with success (`true`) or failure.
    Exited(bool),
}

/// What the caller does next.
#[derive(Debug)]
pub enum SessionAction {
    /// Start the tool with the session's arguments, output piped.
    Spawn,
    /// Read the next line of the tool's output.
    ReadLine,
    /// Wait for the tool to exit.
    Wait,
    /// Release the process, if any, and return this outcome.
    Finish(Result<String, DownloadError>),
}

/// The report to publish now, if any, and the next action.
#[derive(Debug)]
pub struct SessionStep {
    pub emit: Option<DownloadProgress>,
    pub action: SessionAction,
}

/// The decisions of one download: which process to start, which reports to
/// publish, and what outcome to return, given what the caller observed.
#[derive(Debug)]
pub struct DownloadSession {
    pub url: String,
    pub args: Vec<String>,
    pub stage: Stage,
    pub last_file_path: String,
}

/// Whether `e` is an event that can happen at stage `s`.
pub open spec fn fits(s: Stage, e: SessionEvent) -> bool {
    match e {
        SessionEvent::ProbeFinished(_) => s == Stage::Probing,
        SessionEvent::SpawnFailed(_) | SessionEvent::Spawned(_) => s == Stage::Spawning,
        SessionEvent::Line(_) | SessionEvent::OutputEnded => s == Stage::Streaming,
        SessionEvent::WaitFailed(_) | SessionEvent::Exited(_) => s == Stage::Waiting,
    }
}

/// The success message for a download whose last destination was `path`.
pub open spec fn completed_message(path: Seq<char>) -> Seq<char> {
    "Download completed: "@ + path
}

/// Whether `p` ends the reports of a download.
pub open spec fn is_terminal(p: DownloadProgress) -> bool {
    p.status@ == "Completed"@ || p.status@ == "Failed"@
}

/// The start report and the reports made while the tool runs are not
/// terminal; the completed and failed reports are. So a download publishes
/// its one terminal report with the step that finishes it.
pub proof fn lemma_terminal_reports(p: DownloadProgress, url: Seq<char>, w: Seq<char>, f: Seq<char>, m: Seq<char>)
    ensures
        starting_report(p, url) ==> !is_terminal(p),
        downloading_report(p, url, w, f) ==> !is_terminal(p),
        completed_report(p, url) ==> is_terminal(p),
        failed_report(p, url, m) ==> is_terminal(p),
{
    reveal_strlit("Completed");
    reveal_strlit("Failed");
    reveal_strlit("Starting download...");
    reveal_strlit("Downloading... ");
    if downloading_report(p, url, w, f) {
        assert(p.status@[0] == 'D');
    }
    if starting_report(p, url) {
        assert(p.status@[0] == 'S');
    }
}

impl DownloadSession {
    /// A download of `url` into `dir`, before the availability probe.
    pub fn new(url: String, options: &DownloadOptions, dir: &str, platform: Platform) -> (r:
        DownloadSession)
        ensures
            r.url@ == url@,
            r.args@.map_values(|a: String| a@) == arg_list(*options, url@, dir@, platform),
            r.stage == Stage::Probing,
            r.last_file_path@ == Seq::<char>::empty(),
    {
        let args = build_args(options, url.as_str(), dir, platform);
        DownloadSession { url, args, stage: Stage::Probing, last_file_path: String::new() }
    }

    /// Whether `event` can happen now.
    pub fn accepts(&self, event: &SessionEvent) -> (r: bool)
        ensures
            r == fits(self.stage, *event),
    {
        match event {
            SessionEvent::ProbeFinished(_) => self.stage == Stage::Probing,
            SessionEvent::SpawnFailed(_) | SessionEvent::Spawned(_) => self.stage
                == Stage::Spawning,
            SessionEvent::Line(_) | SessionEvent::OutputEnded => self.stage == Stage::Streaming,
            SessionEvent::WaitFailed(_) | SessionEvent::Exited(_) => self.stage == Stage::Waiting,
        }
    }

    /// Takes in what the caller observed and says what to publish and do next.
    pub fn step(&mut self, event: SessionEvent) -> (r: SessionStep)
        requires
            fits(old(self).stage, event),
        ensures
            final(self).url == old(self).url,
            final(self).args == old(self).args,
            match event {
                SessionEvent::ProbeFinished(true) => {
                    &&& final(self).stage == Stage::Spawning
                    &&& r.emit matches Some(p) && starting_report(p, old(self).url@)
                    &&& r.action is Spawn
                    &&& final(self).last_file_path == old(self).last_file_path
                },
                SessionEvent::ProbeFinished(false) => {
                    &&& final(self).stage == Stage::Finished
                    &&& r.emit is None
                    &&& r.action matches SessionAction::Finish(Err(DownloadError::ToolNotInstalled))
                },
                SessionEvent::SpawnFailed(e) => {
                    &&& final(self).stage == Stage::Finished
                    &&& r.emit is None
                    &&& r.action matches SessionAction::Finish(Err(DownloadError::SpawnFailed(m)))
                    &&& m@ == e@
                },
                SessionEvent::Spawned(true) => {
                    &&& final(self).stage == Stage::Streaming
                    &&& r.emit is None
                    &&& r.action is ReadLine
                    &&& final(self).last_file_path == old(self).last_file_path
                },
                SessionEvent::Spawned(false) => {
                    &&& final(self).stage == Stage::Finished
                    &&& r.emit matches Some(p) && failed_report(
                        p,
                        old(self).url@,
                        DownloadError::StreamUnavailable.text(),
                    )
                    &&& r.action matches SessionAction::Finish(Err(DownloadError::StreamUnavailable))
                },
                SessionEvent::Line(l) => {
                    &&& final(self).stage == Stage::Streaming
                    &&& final(self).last_file_path@ == next_destination(
                        old(self).last_file_path@,
                        l@,
                    )
                    &&& r.action is ReadLine
                    &&& match line_percent(l@) {
                        Some((w, f)) => r.emit matches Some(p) && downloading_report(
                            p,
                            old(self).url@,
                            w,
                            f,
                        ) && p.progress.wf(),
                        None => r.emit is None,
                    }
                },
                SessionEvent::OutputEnded => {
                    &&& final(self).stage == Stage::Waiting
                    &&& r.emit is None
                    &&& r.action is Wait
                    &&& final(self).last_file_path == old(self).last_file_path
                },
                SessionEvent::WaitFailed(e) => {
                    &&& final(self).stage == Stage::Finished
                    &&& r.action matches SessionAction::Finish(Err(DownloadError::WaitFailed(m)))
                    &&& m@ == e@
                    &&& r.emit matches Some(p) && failed_report(
                        p,
                        old(self).url@,
                        DownloadError::WaitFailed(m).text(),
                    )
                },
                SessionEvent::Exited(true) => {
                    &&& final(self).stage == Stage::Finished
                    &&& r.emit matches Some(p) && completed_report(p, old(self).url@)
                    &&& r.action matches SessionAction::Finish(Ok(m))
                    &&& m@ == completed_message(old(self).last_file_path@)
                },
                SessionEvent::Exited(false) => {
                    &&& final(self).stage == Stage::Finished
                    &&& r.emit matches Some(p) && failed_report(
                        p,
                        old(self).url@,
                        DownloadError::DownloadFailed.text(),
                    )
                    &&& r.action matches SessionAction::Finish(Err(DownloadError::DownloadFailed))
                },
            },
    {
        match event {
            SessionEvent::ProbeFinished(ok) => {
                if ok {
                    self.stage = Stage::Spawning;
                    SessionStep {
                        emit: Some(DownloadProgress::starting(self.url.as_str())),
                        action: SessionAction::Spawn,
                    }
                } else {
                    self.stage = Stage::Finished;
                    SessionStep {
                        emit: None,
                        action: SessionAction::Finish(Err(DownloadError::ToolNotInstalled)),
                    }
                }
            },
            SessionEvent::SpawnFailed(e) => {
                self.stage = Stage::Finished;
                SessionStep {
                    emit: None,
                    action: SessionAction::Finish(Err(DownloadError::SpawnFailed(e))),
                }
            },
            SessionEvent::Spawned(captured) => {
                if captured {
                    self.stage = Stage::Streaming;
                    SessionStep { emit: None, action: SessionAction::ReadLine }
                } else {
                    self.stage = Stage::Finished;
                    let error = DownloadError::StreamUnavailable;
                    let report = DownloadProgress::failed(self.url.as_str(), error.message());
                    SessionStep { emit: Some(report), action: SessionAction::Finish(Err(error)) }
                }
            },
            SessionEvent::Line(l) => {
                let emit = match line_percent_of(l.as_str()) {
                    Some(p) => Some(DownloadProgress::downloading(self.url.as_str(), p)),
                    None => None,
                };
                match destination_of(l.as_str()) {
                    Some(d) => {
                        self.last_file_path = d;
                    },
                    None => {},
                }
                SessionStep { emit, action: SessionAction::ReadLine }
            },
            SessionEvent::OutputEnded => {
                self.stage = Stage::Waiting;
                SessionStep { emit: None, action: SessionAction::Wait }
            },
            SessionEvent::WaitFailed(e) => {
                self.stage = Stage::Finished;
                let error = DownloadError::WaitFailed(e);
                let report = DownloadProgress::failed(self.url.as_str(), error.message());
                SessionStep { emit: Some(report), action: SessionAction::Finish(Err(error)) }
            },
            SessionEvent::Exited(success) => {
                self.stage = Stage::Finished;
                if success {
                    let mut m = String::from_str("Download completed: ");
                    m.append(self.last_file_path.as_str());
                    SessionStep {
                        emit: Some(DownloadProgress::completed(self.url.as_str())),
                        action: SessionAction::Finish(Ok(m)),
                    }
                } else {
                    let error = DownloadError::DownloadFailed;
                    let report = DownloadProgress::failed(self.url.as_str(), error.message());
                    SessionStep { emit: Some(report), action: SessionAction::Finish(Err(error)) }
                }
            },
        }
    }
}

} // verus!
