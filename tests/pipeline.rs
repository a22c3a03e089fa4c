use audio_grabber::batch::{batch_entry, collect_results};
use audio_grabber::command::{build_args, DownloadOptions, Platform, TOOL, VERSION_FLAG};
use audio_grabber::error::DownloadError;
use audio_grabber::parser::{destination_of, line_percent_of};
use audio_grabber::progress::Percentage;
use audio_grabber::session::{DownloadSession, SessionAction, SessionEvent, Stage};

fn options(thumb: bool, meta: bool) -> DownloadOptions {
    DownloadOptions {
        audio_format: "mp3".to_string(),
        audio_quality: "0".to_string(),
        output_template: "%(title)s.%(ext)s".to_string(),
        embed_thumbnail: thumb,
        add_metadata: meta,
    }
}

#[test]
fn args_in_documented_order() {
    let args = build_args(&options(true, true), "https://example.com/v1", "/home/me/Downloads", Platform::Unix);
    assert_eq!(
        args,
        vec![
            "-x",
            "--audio-format",
            "mp3",
            "--audio-quality",
            "0",
            "-o",
            "/home/me/Downloads/%(title)s.%(ext)s",
            "--add-metadata",
            "--embed-thumbnail",
            "--newline",
            "https://example.com/v1",
        ]
    );
}

#[test]
fn args_without_optional_flags() {
    let args = build_args(&options(false, false), "https://example.com/v2", "/d", Platform::Unix);
    assert!(!args.iter().any(|a| a == "--add-metadata"));
    assert!(!args.iter().any(|a| a == "--embed-thumbnail"));
    assert_eq!(args.last().unwrap(), "https://example.com/v2");
    assert_eq!(args.len(), 9);
}

#[test]
fn args_with_one_flag_each() {
    let meta = build_args(&options(false, true), "u", "/d", Platform::Unix);
    assert_eq!(meta.iter().filter(|a| *a == "--add-metadata").count(), 1);
    assert!(!meta.iter().any(|a| a == "--embed-thumbnail"));
    let thumb = build_args(&options(true, false), "u", "/d", Platform::Unix);
    assert_eq!(thumb.iter().filter(|a| *a == "--embed-thumbnail").count(), 1);
    assert!(!thumb.iter().any(|a| a == "--add-metadata"));
    assert_eq!(thumb.last().unwrap(), "u");
}

#[test]
fn args_use_windows_separator() {
    let args = build_args(&options(false, false), "u", "C:\\Users\\me\\Downloads", Platform::Windows);
    assert_eq!(args[6], "C:\\Users\\me\\Downloads\\%(title)s.%(ext)s");
}

#[test]
fn tool_and_probe_argument() {
    assert_eq!(TOOL, "yt-dlp");
    assert_eq!(VERSION_FLAG, "--version");
}

#[test]
fn progress_line_is_read() {
    let p = line_percent_of("[download]  45.3% of   10.00MiB at    1.00MiB/s ETA 00:05").unwrap();
    assert_eq!(p.whole, "45");
    assert_eq!(p.fraction, "3");
    let p = line_percent_of("[download] 100% of 3.10MiB in 00:00:02").unwrap();
    assert_eq!(p.whole, "100");
    assert_eq!(p.fraction, "");
}

#[test]
fn progress_line_read_twice_gives_same_percentage() {
    let line = "[download]  12.5% of 4MiB";
    assert_eq!(line_percent_of(line), line_percent_of(line));
    assert_eq!(line_percent_of(line).unwrap().fraction, "5");
}

#[test]
fn unreadable_percentages_give_nothing() {
    assert!(line_percent_of("[download] abc% done").is_none());
    assert!(line_percent_of("[download] 1.2.3% done").is_none());
    assert!(line_percent_of("[download] Destination: /a/b.webm").is_none());
    assert!(line_percent_of("45.3% without the marker").is_none());
    assert!(line_percent_of("").is_none());
}

#[test]
fn first_token_ending_in_percent_is_taken() {
    // The first token that ends in `%` decides, even when it is no number.
    assert!(line_percent_of("[download] x% 50%").is_none());
    let p = line_percent_of("[download] 5%of 50%").unwrap();
    assert_eq!(p.whole, "50");
}

#[test]
fn destination_is_trimmed() {
    assert_eq!(destination_of("[ExtractAudio] Destination: /a/b/c.mp3").unwrap(), "/a/b/c.mp3");
    assert_eq!(destination_of("[download] Destination:   /a/b/c.webm  \t").unwrap(), "/a/b/c.webm");
    assert!(destination_of("[download]  45.3% of 10MiB").is_none());
}

#[test]
fn destination_takes_text_after_first_label() {
    assert_eq!(destination_of("Destination: a Destination: b").unwrap(), "a Destination: b");
}

fn run(session: &mut DownloadSession, events: Vec<SessionEvent>) -> (Vec<(String, String, String, Option<String>)>, Option<Result<String, DownloadError>>) {
    let mut reports = Vec::new();
    let mut outcome = None;
    for event in events {
        assert!(session.accepts(&event));
        let step = session.step(event);
        if let Some(p) = step.emit {
            reports.push((p.url, p.progress.whole, p.status, p.error));
        }
        if let SessionAction::Finish(r) = step.action {
            outcome = Some(r);
        }
    }
    (reports, outcome)
}

#[test]
fn successful_download_reports_start_progress_and_completion() {
    let mut s = DownloadSession::new("https://example.com/v1".to_string(), &options(true, true), "/home/me/Downloads", Platform::Unix);
    assert_eq!(s.stage, Stage::Probing);
    assert_eq!(s.args.last().unwrap(), "https://example.com/v1");
    let (reports, outcome) = run(
        &mut s,
        vec![
            SessionEvent::ProbeFinished(true),
            SessionEvent::Spawned(true),
            SessionEvent::Line("[youtube] v1: Downloading webpage".to_string()),
            SessionEvent::Line("[download] Destination: /home/me/Downloads/song.webm".to_string()),
            SessionEvent::Line("[download]  10.0% of 3MiB".to_string()),
            SessionEvent::Line("[download]  55.5% of 3MiB".to_string()),
            SessionEvent::Line("[download] 100% of 3MiB".to_string()),
            SessionEvent::Line("[ExtractAudio] Destination: /home/me/Downloads/song.mp3".to_string()),
            SessionEvent::OutputEnded,
            SessionEvent::Exited(true),
        ],
    );
    let statuses: Vec<&str> = reports.iter().map(|r| r.2.as_str()).collect();
    assert_eq!(
        statuses,
        vec!["Starting download...", "Downloading... 10%", "Downloading... 55%", "Downloading... 100%", "Completed"]
    );
    assert_eq!(reports[0].1, "0");
    assert_eq!(reports[4].1, "100");
    assert!(reports.iter().all(|r| r.0 == "https://example.com/v1" && r.3.is_none()));
    match outcome {
        Some(Ok(m)) => assert_eq!(m, "Download completed: /home/me/Downloads/song.mp3"),
        _ => panic!("expected success"),
    }
    assert_eq!(s.stage, Stage::Finished);
}

#[test]
fn success_without_destination_has_empty_path() {
    let mut s = DownloadSession::new("u".to_string(), &options(false, false), "/d", Platform::Unix);
    let (_, outcome) = run(
        &mut s,
        vec![SessionEvent::ProbeFinished(true), SessionEvent::Spawned(true), SessionEvent::OutputEnded, SessionEvent::Exited(true)],
    );
    assert_eq!(outcome.unwrap().unwrap(), "Download completed: ");
}

#[test]
fn missing_tool_gives_error_and_no_reports() {
    let mut s = DownloadSession::new("u".to_string(), &options(false, false), "/d", Platform::Unix);
    let (reports, outcome) = run(&mut s, vec![SessionEvent::ProbeFinished(false)]);
    assert!(reports.is_empty());
    let err = outcome.unwrap().unwrap_err();
    assert!(matches!(err, DownloadError::ToolNotInstalled));
    assert!(err.message().starts_with("yt-dlp is not installed"));
    assert_eq!(s.stage, Stage::Finished);
    assert!(!s.accepts(&SessionEvent::Spawned(true)));
}

#[test]
fn failing_exit_reports_failure() {
    let mut s = DownloadSession::new("u".to_string(), &options(false, false), "/d", Platform::Unix);
    let (reports, outcome) = run(
        &mut s,
        vec![
            SessionEvent::ProbeFinished(true),
            SessionEvent::Spawned(true),
            SessionEvent::Line("[download]  20.0% of 3MiB".to_string()),
            SessionEvent::OutputEnded,
            SessionEvent::Exited(false),
        ],
    );
    let last = reports.last().unwrap();
    assert_eq!(last.2, "Failed");
    assert_eq!(last.1, "0");
    assert_eq!(last.3, Some("Download failed".to_string()));
    assert!(matches!(outcome, Some(Err(DownloadError::DownloadFailed))));
}

#[test]
fn spawn_failure_carries_reason() {
    let mut s = DownloadSession::new("u".to_string(), &options(false, false), "/d", Platform::Unix);
    let (reports, outcome) = run(&mut s, vec![SessionEvent::ProbeFinished(true), SessionEvent::SpawnFailed("denied".to_string())]);
    assert_eq!(reports.len(), 1);
    assert_eq!(outcome.unwrap().unwrap_err().message(), "Failed to start yt-dlp: denied");
}

#[test]
fn stream_and_wait_failures_end_with_failed_report() {
    let mut s = DownloadSession::new("u".to_string(), &options(false, false), "/d", Platform::Unix);
    let (reports, outcome) = run(&mut s, vec![SessionEvent::ProbeFinished(true), SessionEvent::Spawned(false)]);
    assert_eq!(reports.last().unwrap().2, "Failed");
    assert_eq!(outcome.unwrap().unwrap_err().message(), "Failed to capture stdout");

    let mut s = DownloadSession::new("u".to_string(), &options(false, false), "/d", Platform::Unix);
    let (reports, outcome) = run(
        &mut s,
        vec![SessionEvent::ProbeFinished(true), SessionEvent::Spawned(true), SessionEvent::OutputEnded, SessionEvent::WaitFailed("gone".to_string())],
    );
    assert_eq!(reports.last().unwrap().3, Some("Failed to wait for yt-dlp: gone".to_string()));
    assert_eq!(outcome.unwrap().unwrap_err().message(), "Failed to wait for yt-dlp: gone");
}

#[test]
fn batch_keeps_one_entry_per_url_in_order() {
    let urls = vec!["a".to_string(), "b".to_string(), "c".to_string()];
    let outcomes = vec![
        Ok("Download completed: /x/a.mp3".to_string()),
        Err(DownloadError::DownloadFailed),
        Err(DownloadError::ToolNotInstalled),
    ];
    let r = collect_results(&urls, &outcomes);
    assert_eq!(r.len(), 3);
    assert_eq!(r[0], "Download completed: /x/a.mp3");
    assert_eq!(r[1], "Error for b: Download failed");
    assert!(r[2].starts_with("Error for c: yt-dlp is not installed"));
}

#[test]
fn batch_of_nothing_is_empty() {
    assert!(collect_results(&Vec::new(), &Vec::new()).is_empty());
    assert_eq!(batch_entry("u", &Err(DownloadError::SpawnFailed("x".to_string()))), "Error for u: Failed to start yt-dlp: x");
    assert_eq!(Percentage::parse("3").unwrap().whole, "3");
}

#[test]
fn same_line_twice_in_a_session() {
    let mut s = DownloadSession::new("u".to_string(), &options(false, false), "/d", Platform::Unix);
    s.step(SessionEvent::ProbeFinished(true));
    s.step(SessionEvent::Spawned(true));
    let line = "[download] Destination: /d/x.webm";
    s.step(SessionEvent::Line(line.to_string()));
    let first = s.last_file_path.clone();
    let a = s.step(SessionEvent::Line("[download]  33.3% of 1MiB".to_string())).emit.unwrap();
    s.step(SessionEvent::Line(line.to_string()));
    let b = s.step(SessionEvent::Line("[download]  33.3% of 1MiB".to_string())).emit.unwrap();
    assert_eq!(first, "/d/x.webm");
    assert_eq!(s.last_file_path, first);
    assert_eq!(a.progress, b.progress);
    assert_eq!(a.status, "Downloading... 33%");
    let none = s.step(SessionEvent::Line("[info] nothing here".to_string()));
    assert!(none.emit.is_none());
    assert_eq!(s.last_file_path, first);
}
