//! How the audio behind a resolved link is acquired.
use vstd::prelude::*;

use crate::config::texts;
use crate::source::SourceError;

verus! {

/// The strategy used to download the content behind an audio link.
#[derive(Clone, Copy, Debug, PartialEq, Eq, Structural)]
pub enum DownloadMethod {
    /// Use the `yt-dlp` utility, which handles many kinds of content.
    YtDlp,
}

/// The program that `DownloadMethod::YtDlp` runs.
pub const YT_DLP: &'static str = "yt-dlp";

impl DownloadMethod {
    /// The name by which users and configuration files select the method.
    pub fn name(&self) -> (r: &'static str)
        ensures
            r@ == YT_DLP@,
    {
        match self {
            DownloadMethod::YtDlp => YT_DLP,
        }
    }

    /// The method that `name` selects, if any.
    pub fn from_name(name: &str) -> (r: Option<DownloadMethod>)
        ensures
            r == if name@ == YT_DLP@ {
                Some(DownloadMethod::YtDlp)
            } else {
                None
            },
    {
        if name.to_owned() == YT_DLP.to_owned() {
            Some(DownloadMethod::YtDlp)
        } else {
            None
        }
    }
}

/// The arguments of `yt-dlp` when it fetches the best audio at `url`,
/// converted to MP3, into the file at `output`.
pub open spec fn yt_dlp_arguments(url: Seq<char>, output: Seq<char>) -> Seq<Seq<char>> {
    seq![
        "--format"@,
        "bestaudio/best"@,
        "-x"@,
        "--audio-format"@,
        "mp3"@,
        "--output"@,
        output,
        "--force-overwrites"@,
        url,
    ]
}

pub fn yt_dlp_args(url: &str, output: &str) -> (r: Vec<String>)
    ensures
        texts(r@) == yt_dlp_arguments(url@, output@),
{
    let mut r: Vec<String> = Vec::new();
    r.push("--format".to_owned());
    r.push("bestaudio/best".to_owned());
    r.push("-x".to_owned());
    r.push("--audio-format".to_owned());
    r.push("mp3".to_owned());
    r.push("--output".to_owned());
    r.push(output.to_owned());
    r.push("--force-overwrites".to_owned());
    r.push(url.to_owned());
    assert(texts(r@) =~= yt_dlp_arguments(url@, output@));
    r
}

/// What the exit of the download tool means: success, or a download error
/// that carries the tool's diagnostic output verbatim.
pub fn yt_dlp_exit(succeeded: bool, diagnostics: &str) -> (r: Result<(), SourceError>)
    ensures
        succeeded ==> r is Ok,
        !succeeded ==> (r matches Err(SourceError::AudioDownloadError(reason)) && reason@
            == "yt-dlp failed: "@ + diagnostics@),
{
    if succeeded {
        Ok(())
    } else {
        let mut reason = "yt-dlp failed: ".to_owned();
        reason.append(diagnostics);
        Err(SourceError::AudioDownloadError(reason))
    }
}

} // verus!
