use vstd::prelude::*;

verus! {

/// Why one download did not complete.
#[derive(Clone, Debug)]
pub enum DownloadError {
    /// The user's home directory is not known, so no output directory can be formed.
    EnvironmentUnavailable,
    /// The tool did not answer its version query.
    ToolNotInstalled,
    /// The tool could not be started; the system's reason.
    SpawnFailed(String),
    /// The tool's standard output could not be captured.
    StreamUnavailable,
    /// Waiting for the tool to exit failed; the system's reason.
    WaitFailed(String),
    /// The tool exited with a failure status.
    DownloadFailed,
}

impl DownloadError {
    /// The text shown to the user for this error.
    pub open spec fn text(&self) -> Seq<char> {
        match self {
            DownloadError::EnvironmentUnavailable => "Could not determine downloads directory"@,
            DownloadError::ToolNotInstalled =>
                "yt-dlp is not installed. Please install it first: https://github.com/yt-dlp/yt-dlp#installation"@,
            DownloadError::SpawnFailed(e) => "Failed to start yt-dlp: "@ + e@,
            DownloadError::StreamUnavailable => "Failed to capture stdout"@,
            DownloadError::WaitFailed(e) => "Failed to wait for yt-dlp: "@ + e@,
            DownloadError::DownloadFailed => "Download failed"@,
        }
    }

    pub fn message(&self) -> (r: String)
        ensures
            r@ == self.text(),
    {
        match self {
            DownloadError::EnvironmentUnavailable => String::from_str(
                "Could not determine downloads directory",
            ),
            DownloadError::ToolNotInstalled => String::from_str(
                "yt-dlp is not installed. Please install it first: https://github.com/yt-dlp/yt-dlp#installation",
            ),
            DownloadError::SpawnFailed(e) => {
                let mut m = String::from_str("Failed to start yt-dlp: ");
                m.append(e.as_str());
                m
            },
            DownloadError::StreamUnavailable => String::from_str("Failed to capture stdout"),
            DownloadError::WaitFailed(e) => {
                let mut m = String::from_str("Failed to wait for yt-dlp: ");
                m.append(e.as_str());
                m
            },
            DownloadError::DownloadFailed => String::from_str("Download failed"),
        }
    }
}

} // verus!
