use vstd::prelude::*;
use vstd::string::StringExecFns;

use crate::resource::Presence;

verus! {

/// What a look at the artifact path found: the file's length, nothing, or
/// a failure to look at all.
pub enum FileProbe {
    /// A file of this many bytes sits at the path.
    Found(u64),
    /// Nothing sits at the path.
    NotFound,
    /// The filesystem could not be asked; carries the reason.
    StatFailed(String),
}

/// What the artifact's presence check concludes: the file must exist, and
/// when an expected length is known, a file of any other length is a
/// truncated download and counts as absent — never as present.
pub open spec fn artifact_presence_spec(probe: FileProbe, expected_len: Option<u64>) -> Presence {
    match probe {
        FileProbe::Found(len) => match expected_len {
            Some(want) => if len == want {
                Presence::Present
            } else {
                Presence::Absent
            },
            None => Presence::Present,
        },
        FileProbe::NotFound => Presence::Absent,
        FileProbe::StatFailed(reason) => Presence::CheckFailed(reason),
    }
}

/// Classify the artifact's presence from a filesystem probe.
pub fn artifact_presence(probe: FileProbe, expected_len: Option<u64>) -> (r: Presence)
    ensures
        r == artifact_presence_spec(probe, expected_len),
{
    match probe {
        FileProbe::Found(len) => match expected_len {
            Some(want) => if len == want {
                Presence::Present
            } else {
                Presence::Absent
            },
            None => Presence::Present,
        },
        FileProbe::NotFound => Presence::Absent,
        FileProbe::StatFailed(reason) => Presence::CheckFailed(reason),
    }
}

/// Where a download starts: at the length of the partial temporary file
/// when one is left from an earlier attempt, else at zero.
pub open spec fn resume_offset_spec(temp_len: Option<u64>) -> u64 {
    match temp_len {
        Some(len) => len,
        None => 0,
    }
}

/// The offset named in the range request: the partial file's length when
/// one exists, else zero.
pub fn resume_offset(temp_len: Option<u64>) -> (r: u64)
    ensures
        r == resume_offset_spec(temp_len),
{
    match temp_len {
        Some(len) => len,
        None => 0,
    }
}

/// How the origin answered the ranged GET, and how far the body came.
pub enum TransferAnswer {
    /// The origin honoured the range: the body continued at the requested
    /// offset and this many bytes arrived before the transfer ended.
    Resumed(u64),
    /// The origin ignored the range: the whole body restarted from zero
    /// and this many bytes arrived before the transfer ended.
    Restarted(u64),
    /// The origin answered with a status that carries no body to keep.
    Rejected(u16),
    /// The connection itself failed; carries the report.
    NetworkFailed(String),
}

/// Why a download did not produce the artifact.
#[derive(Debug, PartialEq, Eq)]
pub enum DownloadIssue {
    /// The origin answered with this non-success status.
    Rejected(u16),
    /// The connection failed; carries the report.
    Network(String),
    /// The transfer ended with the wrong number of bytes on disk.
    WrongLength { got: u64, want: u64 },
}

/// The trace one download attempt leaves on disk.
pub struct DownloadRun {
    /// The offset the range request named.
    pub request_start: u64,
    /// How many bytes the temporary file holds afterwards.  On failure the
    /// partial file is left in place for the next resumed attempt, never
    /// deleted.
    pub temp_len_after: u64,
    /// Whether the temporary file was renamed onto the final path; this
    /// happens exactly once, and only when the full length arrived.
    pub renamed: bool,
    /// Success, or why the artifact is still missing.
    pub outcome: Result<(), DownloadIssue>,
}

/// What one download attempt does: ask the origin for the bytes from the
/// resume offset on, keep whatever arrives in the temporary file, and
/// promote it to the final path exactly when the full length is on disk.
pub open spec fn download_spec(
    temp_len: Option<u64>,
    full_len: u64,
    answer: TransferAnswer,
) -> DownloadRun {
    let start = resume_offset_spec(temp_len);
    match answer {
        TransferAnswer::Resumed(got) => {
            let total = (start + got) as u64;
            if total == full_len {
                DownloadRun {
                    request_start: start,
                    temp_len_after: full_len,
                    renamed: true,
                    outcome: Ok(()),
                }
            } else {
                DownloadRun {
                    request_start: start,
                    temp_len_after: total,
                    renamed: false,
                    outcome: Err(DownloadIssue::WrongLength { got: total, want: full_len }),
                }
            }
        },
        TransferAnswer::Restarted(got) => {
            if got == full_len {
                DownloadRun {
                    request_start: start,
                    temp_len_after: full_len,
                    renamed: true,
                    outcome: Ok(()),
                }
            } else {
                DownloadRun {
                    request_start: start,
                    temp_len_after: got,
                    renamed: false,
                    outcome: Err(DownloadIssue::WrongLength { got, want: full_len }),
                }
            }
        },
        TransferAnswer::Rejected(status) => DownloadRun {
            request_start: start,
            temp_len_after: start,
            renamed: false,
            outcome: Err(DownloadIssue::Rejected(status)),
        },
        TransferAnswer::NetworkFailed(report) => DownloadRun {
            request_start: start,
            temp_len_after: start,
            renamed: false,
            outcome: Err(DownloadIssue::Network(report)),
        },
    }
}

/// One download attempt over a scripted transfer: the executable
/// counterpart of `download_spec`.  The range request starts at the
/// partial file's length; the temporary file is promoted exactly when the
/// expected length is on disk, and is left in place on every failure.
pub fn download_model(temp_len: Option<u64>, full_len: u64, answer: TransferAnswer) -> (run:
    DownloadRun)
    requires
        answer matches TransferAnswer::Resumed(got) ==> resume_offset_spec(temp_len) + got
            <= u64::MAX,
    ensures
        run == download_spec(temp_len, full_len, answer),
        run.request_start == resume_offset_spec(temp_len),
        run.renamed <==> run.outcome is Ok,
        run.outcome is Err ==> !run.renamed,
        run.outcome is Ok ==> run.temp_len_after == full_len,
{
    let start = resume_offset(temp_len);
    match answer {
        TransferAnswer::Resumed(got) => {
            let total = start + got;
            if total == full_len {
                DownloadRun {
                    request_start: start,
                    temp_len_after: full_len,
                    renamed: true,
                    outcome: Ok(()),
                }
            } else {
                DownloadRun {
                    request_start: start,
                    temp_len_after: total,
                    renamed: false,
                    outcome: Err(DownloadIssue::WrongLength { got: total, want: full_len }),
                }
            }
        },
        TransferAnswer::Restarted(got) => {
            if got == full_len {
                DownloadRun {
                    request_start: start,
                    temp_len_after: full_len,
                    renamed: true,
                    outcome: Ok(()),
                }
            } else {
                DownloadRun {
                    request_start: start,
                    temp_len_after: got,
                    renamed: false,
                    outcome: Err(DownloadIssue::WrongLength { got, want: full_len }),
                }
            }
        },
        TransferAnswer::Rejected(status) => DownloadRun {
            request_start: start,
            temp_len_after: start,
            renamed: false,
            outcome: Err(DownloadIssue::Rejected(status)),
        },
        TransferAnswer::NetworkFailed(report) => DownloadRun {
            request_start: start,
            temp_len_after: start,
            renamed: false,
            outcome: Err(DownloadIssue::Network(report)),
        },
    }
}

/// Resumption: with a partial file of length `partial` short of the full
/// length, an install issues a range request starting at `partial`; when
/// the remainder arrives, the file on disk reaches exactly the full length
/// and the one rename onto the final name happens.
pub proof fn lemma_download_resumes(partial: u64, full_len: u64, got: u64)
    requires
        partial < full_len,
        partial + got == full_len,
    ensures
        download_spec(Some(partial), full_len, TransferAnswer::Resumed(got)).request_start
            == partial,
        download_spec(Some(partial), full_len, TransferAnswer::Resumed(got)).temp_len_after
            == full_len,
        download_spec(Some(partial), full_len, TransferAnswer::Resumed(got)).renamed,
        download_spec(Some(partial), full_len, TransferAnswer::Resumed(got)).outcome is Ok,
{
}

/// A failed transfer never disturbs what resumption rests on: the
/// temporary file is not renamed and not deleted — it keeps the bytes that
/// had arrived, ready for the next attempt.
pub proof fn lemma_failure_keeps_partial(temp_len: Option<u64>, full_len: u64, status: u16)
    ensures
        !download_spec(temp_len, full_len, TransferAnswer::Rejected(status)).renamed,
        download_spec(temp_len, full_len, TransferAnswer::Rejected(status)).temp_len_after
            == resume_offset_spec(temp_len),
        download_spec(temp_len, full_len, TransferAnswer::Rejected(status)).outcome is Err,
{
}

/// The temporary path an in-progress download writes to: the artifact path
/// with the in-progress suffix, so a crash mid-download never leaves a
/// file that passes the presence check.
pub fn temp_download_path(model_path: &str) -> (r: String)
    ensures
        r@ == model_path@ + ".partial"@,
{
    let mut path = String::from_str(model_path);
    path.append(".partial");
    path
}

} // verus!
