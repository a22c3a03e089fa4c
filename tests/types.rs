use audio_grabber::command::{downloads_dir, DownloadOptions, Platform};
use audio_grabber::error::DownloadError;
use audio_grabber::progress::{DownloadProgress, Percentage};

#[test]
fn test_get_downloads_dir_returns_valid_path() {
    let result = downloads_dir(Platform::Unix, Some("/home/user".to_string()));
    assert!(result.is_ok(), "Should return a valid downloads directory");

    let path = result.unwrap();
    assert!(!path.is_empty(), "Path should not be empty");
    assert!(path.contains("Downloads"), "Path should contain 'Downloads'");
}

#[test]
fn test_get_downloads_dir_format() {
    let unix = downloads_dir(Platform::Unix, Some("/Users/me".to_string()));
    if let Ok(path) = unix {
        assert!(path.starts_with("/") || path.starts_with("~"), "macOS path should start with / or ~");
        assert!(path.ends_with("Downloads"), "macOS path should end with Downloads");
    }

    let windows = downloads_dir(Platform::Windows, Some("C:\\Users\\me".to_string()));
    if let Ok(path) = windows {
        assert!(path.contains(":\\"), "Windows path should contain drive letter");
        assert!(path.ends_with("Downloads"), "Windows path should end with Downloads");
    }

    let linux = downloads_dir(Platform::Unix, Some("/home/me".to_string()));
    if let Ok(path) = linux {
        assert!(path.starts_with("/"), "Linux path should start with /");
        assert!(path.ends_with("Downloads"), "Linux path should end with Downloads");
    }
}

#[test]
fn downloads_dir_joins_home_with_separator() {
    assert_eq!(downloads_dir(Platform::Unix, Some("/home/me".to_string())).unwrap(), "/home/me/Downloads");
    assert_eq!(
        downloads_dir(Platform::Windows, Some("C:\\Users\\me".to_string())).unwrap(),
        "C:\\Users\\me\\Downloads"
    );
}

#[test]
fn downloads_dir_without_home_is_environment_error() {
    let r = downloads_dir(Platform::Unix, None);
    assert!(matches!(r, Err(DownloadError::EnvironmentUnavailable)));
    assert_eq!(r.unwrap_err().message(), "Could not determine downloads directory");
}

#[test]
fn home_variables() {
    assert_eq!(Platform::Unix.home_variable(), "HOME");
    assert_eq!(Platform::Windows.home_variable(), "USERPROFILE");
}

#[test]
fn test_download_options_clone() {
    let options = DownloadOptions {
        audio_format: "mp3".to_string(),
        audio_quality: "0".to_string(),
        output_template: "%(title)s.%(ext)s".to_string(),
        embed_thumbnail: true,
        add_metadata: true,
    };

    let cloned = options.clone();
    assert_eq!(cloned.audio_format, options.audio_format);
    assert_eq!(cloned.audio_quality, options.audio_quality);
    assert_eq!(cloned.output_template, options.output_template);
    assert_eq!(cloned.embed_thumbnail, options.embed_thumbnail);
    assert_eq!(cloned.add_metadata, options.add_metadata);
}

#[test]
fn test_download_progress_clone() {
    let progress = DownloadProgress {
        url: "https://test.com".to_string(),
        progress: Percentage::whole_number("25"),
        status: "In progress".to_string(),
        error: None,
    };

    let cloned = progress.clone();
    assert_eq!(cloned.url, progress.url);
    assert_eq!(cloned.progress, progress.progress);
    assert_eq!(cloned.status, progress.status);
    assert_eq!(cloned.error, progress.error);
}

#[test]
fn error_messages() {
    assert_eq!(
        DownloadError::ToolNotInstalled.message(),
        "yt-dlp is not installed. Please install it first: https://github.com/yt-dlp/yt-dlp#installation"
    );
    assert_eq!(DownloadError::SpawnFailed("no such file".to_string()).message(), "Failed to start yt-dlp: no such file");
    assert_eq!(DownloadError::StreamUnavailable.message(), "Failed to capture stdout");
    assert_eq!(DownloadError::WaitFailed("interrupted".to_string()).message(), "Failed to wait for yt-dlp: interrupted");
    assert_eq!(DownloadError::DownloadFailed.message(), "Download failed");
}

#[test]
fn percentage_forms() {
    let p = Percentage::parse("45.3").unwrap();
    assert_eq!(p.whole, "45");
    assert_eq!(p.fraction, "3");
    let p = Percentage::parse("100").unwrap();
    assert_eq!(p.whole, "100");
    assert_eq!(p.fraction, "");
    let p = Percentage::parse(".5").unwrap();
    assert_eq!(p.whole, "");
    assert_eq!(p.fraction, "5");
    let p = Percentage::parse("7.").unwrap();
    assert_eq!(p.whole, "7");
    assert_eq!(p.fraction, "");
    assert!(Percentage::parse(".").is_none());
    assert!(Percentage::parse("").is_none());
    assert!(Percentage::parse("abc").is_none());
    assert!(Percentage::parse("1.2.3").is_none());
    assert!(Percentage::parse("4x").is_none());
}

#[test]
fn percentage_whole_text_drops_leading_zeros() {
    assert_eq!(Percentage::parse("007.5").unwrap().whole_text(), "7");
    assert_eq!(Percentage::parse("000").unwrap().whole_text(), "0");
    assert_eq!(Percentage::parse(".25").unwrap().whole_text(), "0");
    assert_eq!(Percentage::zero().whole, "0");
    assert_eq!(Percentage::hundred().whole, "100");
}

#[test]
fn report_constructors() {
    let s = DownloadProgress::starting("u");
    assert_eq!(s.status, "Starting download...");
    assert_eq!(s.progress, Percentage::zero());
    let d = DownloadProgress::downloading("u", Percentage::parse("12.75").unwrap());
    assert_eq!(d.status, "Downloading... 12%");
    assert_eq!(d.url, "u");
    let c = DownloadProgress::completed("u");
    assert_eq!(c.status, "Completed");
    assert_eq!(c.progress, Percentage::hundred());
    let f = DownloadProgress::failed("u", "Download failed".to_string());
    assert_eq!(f.status, "Failed");
    assert_eq!(f.error, Some("Download failed".to_string()));
}
