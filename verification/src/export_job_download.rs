//! `verdictan export-jobs download`: the request and the errors of the answer.
use vstd::prelude::*;

use crate::error::{self, CliError, ErrorView};
use crate::text;

verus! {

#[derive(Debug)]
pub struct ExportJobDownloadArgs {
    pub job_id: String,
    pub config: Option<String>,
    pub api_url: Option<String>,
    pub api_token: Option<String>,
    pub profile: String,
    pub region: Option<String>,
}

pub fn download_path(job_id: &str) -> (r: String)
    ensures
        r@ == "/v1/exports/jobs/"@ + job_id@ + "/download"@,
{
    let mut path = "/v1/exports/jobs/".to_string();
    path.append(job_id);
    path.append("/download");
    path
}

pub open spec fn download_error_of(code: u16) -> ErrorView {
    error::network_error("download failed with status "@ + text::decimal(code as nat))
}

/// The error for an answer that is no success.
pub fn download_error(code: u16) -> (r: CliError)
    ensures
        r@ == download_error_of(code),
{
    let mut message = "download failed with status ".to_string();
    let number = text::number_text(code as u64);
    message.append(number.as_str());
    CliError::network(message)
}

/// Whether an answer with that status holds the export; the error where it does not.
pub fn check_download_status(code: u16) -> (r: Result<(), CliError>)
    ensures
        error::done(r) == (if error::success_status(code) {
            Ok(())
        } else {
            Err(download_error_of(code))
        }),
{
    if 200 <= code && code < 300 {
        Ok(())
    } else {
        Err(download_error(code))
    }
}

/// Why the export could not be written to standard output.
pub fn stdout_write_error(cause: &str) -> (r: CliError)
    ensures
        r@ == error::internal_error("failed to write export to stdout: "@ + cause@),
{
    let mut message = "failed to write export to stdout: ".to_string();
    message.append(cause);
    CliError::internal(message)
}

} // verus!
