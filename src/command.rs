use vstd::prelude::*;
use crate::error::DownloadError;

verus! {

/// The executable that does the downloading, looked up on the search path.
pub const TOOL: &'static str = "yt-dlp";

/// The single argument of the availability probe.
pub const VERSION_FLAG: &'static str = "--version";

/// How one download is to be encoded and named.
#[derive(Clone, Debug)]
pub struct DownloadOptions {
    pub audio_format: String,
    pub audio_quality: String,
    pub output_template: String,
    pub embed_thumbnail: bool,
    pub add_metadata: bool,
}

/// The platform conventions that paths follow.
#[derive(Clone, Copy, Debug, PartialEq, Eq, Structural)]
pub enum Platform {
    /// macOS, Linux and the other systems with `/` paths and `HOME`.
    Unix,
    /// Windows, with `\` paths and `USERPROFILE`.
    Windows,
}

impl Platform {
    pub open spec fn sep(self) -> Seq<char> {
        match self {
            Platform::Unix => seq!['/'],
            Platform::Windows => seq!['\\'],
        }
    }

    /// The path separator.
    pub fn separator(self) -> (r: &'static str)
        ensures
            r@ == self.sep(),
    {
        match self {
            Platform::Unix => {
                proof {
                    reveal_strlit("/");
                }
                "/"
            },
            Platform::Windows => {
                proof {
                    reveal_strlit("\\");
                }
                "\\"
            },
        }
    }

    /// The environment variable that holds the user's home directory.
    pub fn home_variable(self) -> (r: &'static str)
        ensures
            self == Platform::Unix ==> r@ == "HOME"@,
            self == Platform::Windows ==> r@ == "USERPROFILE"@,
    {
        match self {
            Platform::Unix => "HOME",
            Platform::Windows => "USERPROFILE",
        }
    }
}

/// The user's download directory under home directory `home`.
pub open spec fn downloads_path(platform: Platform, home: Seq<char>) -> Seq<char> {
    home + platform.sep() + "Downloads"@
}

/// The user's download directory, from the value of the home variable
/// (`None` where it is unset).
pub fn downloads_dir(platform: Platform, home: Option<String>) -> (r: Result<String, DownloadError>)
    ensures
        match home {
            Some(h) => r matches Ok(d) && d@ == downloads_path(platform, h@),
            None => r matches Err(DownloadError::EnvironmentUnavailable),
        },
{
    match home {
        Some(h) => {
            let mut d = h;
            d.append(platform.separator());
            d.append("Downloads");
            Ok(d)
        },
        None => Err(DownloadError::EnvironmentUnavailable),
    }
}

/// Where the tool writes: the output directory joined with the template.
pub open spec fn output_path(o: DownloadOptions, dir: Seq<char>, platform: Platform) -> Seq<char> {
    dir + platform.sep() + o.output_template@
}

/// The tool's arguments for downloading `url` into `dir` with options `o`.
pub open spec fn arg_list(o: DownloadOptions, url: Seq<char>, dir: Seq<char>, platform: Platform) -> Seq<Seq<char>> {
    seq![
        "-x"@,
        "--audio-format"@,
        o.audio_format@,
        "--audio-quality"@,
        o.audio_quality@,
        "-o"@,
        output_path(o, dir, platform),
    ] + (if o.add_metadata {
        seq!["--add-metadata"@]
    } else {
        Seq::empty()
    }) + (if o.embed_thumbnail {
        seq!["--embed-thumbnail"@]
    } else {
        Seq::empty()
    }) + seq!["--newline"@, url]
}

/// The argument vector of the tool for one download.
pub fn build_args(options: &DownloadOptions, url: &str, dir: &str, platform: Platform) -> (r: Vec<String>)
    ensures
        r@.map_values(|a: String| a@) == arg_list(*options, url@, dir@, platform),
{
    let mut args: Vec<String> = Vec::new();
    args.push(String::from_str("-x"));
    args.push(String::from_str("--audio-format"));
    args.push(options.audio_format.clone());
    args.push(String::from_str("--audio-quality"));
    args.push(options.audio_quality.clone());
    args.push(String::from_str("-o"));
    let mut out = String::from_str(dir);
    out.append(platform.separator());
    out.append(options.output_template.as_str());
    args.push(out);
    if options.add_metadata {
        args.push(String::from_str("--add-metadata"));
    }
    if options.embed_thumbnail {
        args.push(String::from_str("--embed-thumbnail"));
    }
    args.push(String::from_str("--newline"));
    args.push(String::from_str(url));
    assert(args@.map_values(|a: String| a@) =~= arg_list(*options, url@, dir@, platform));
    args
}

/// `a` holds `x` at one index at most.
pub open spec fn at_most_once(a: Seq<Seq<char>>, x: Seq<char>) -> bool {
    forall|i: int, j: int| 0 <= i < a.len() && 0 <= j < a.len() && a[i] == x && a[j] == x ==> i == j
}

/// The URL is the last argument, and each optional flag appears once when
/// its option is set and not at all when it is not. (An argument the caller
/// supplies could spell a flag itself; such inputs are left out.)
pub proof fn lemma_arg_list_shape(o: DownloadOptions, url: Seq<char>, dir: Seq<char>, platform: Platform)
    requires
        o.audio_format@ != "--add-metadata"@ && o.audio_format@ != "--embed-thumbnail"@,
        o.audio_quality@ != "--add-metadata"@ && o.audio_quality@ != "--embed-thumbnail"@,
        output_path(o, dir, platform) != "--add-metadata"@,
        output_path(o, dir, platform) != "--embed-thumbnail"@,
        url != "--add-metadata"@ && url != "--embed-thumbnail"@,
    ensures
        arg_list(o, url, dir, platform).last() == url,
        arg_list(o, url, dir, platform).contains("--add-metadata"@) <==> o.add_metadata,
        arg_list(o, url, dir, platform).contains("--embed-thumbnail"@) <==> o.embed_thumbnail,
        at_most_once(arg_list(o, url, dir, platform), "--add-metadata"@),
        at_most_once(arg_list(o, url, dir, platform), "--embed-thumbnail"@),
{
    reveal_strlit("-x");
    reveal_strlit("--audio-format");
    reveal_strlit("--audio-quality");
    reveal_strlit("-o");
    reveal_strlit("--add-metadata");
    reveal_strlit("--embed-thumbnail");
    reveal_strlit("--newline");
    let meta = "--add-metadata"@;
    let thumb = "--embed-thumbnail"@;
    assert("--audio-format"@[3] != meta[3]);
    assert("--audio-format"@ != meta);
    assert("--audio-quality"@.len() != meta.len() && "--audio-quality"@.len() != thumb.len());
    assert("-x"@.len() != meta.len() && "-x"@.len() != thumb.len());
    assert("-o"@.len() != meta.len() && "-o"@.len() != thumb.len());
    assert("--newline"@.len() != meta.len() && "--newline"@.len() != thumb.len());
    assert("--audio-format"@.len() != thumb.len());
    assert(meta.len() != thumb.len());
    let a = arg_list(o, url, dir, platform);
    let head = seq![
        "-x"@,
        "--audio-format"@,
        o.audio_format@,
        "--audio-quality"@,
        o.audio_quality@,
        "-o"@,
        output_path(o, dir, platform),
    ];
    assert(forall|i: int| 0 <= i < head.len() ==> head[i] != meta && head[i] != thumb);
    if o.add_metadata && o.embed_thumbnail {
        assert(a =~= head + seq![meta, thumb, "--newline"@, url]);
        assert(a[7] == meta && a[8] == thumb);
    } else if o.add_metadata {
        assert(a =~= head + seq![meta, "--newline"@, url]);
        assert(a[7] == meta);
    } else if o.embed_thumbnail {
        assert(a =~= head + seq![thumb, "--newline"@, url]);
        assert(a[7] == thumb);
    } else {
        assert(a =~= head + seq!["--newline"@, url]);
    }
}

} // verus!
