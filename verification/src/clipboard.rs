use vstd::prelude::*;

use crate::text::{chars_eq_str, chars_of, concat_str, string_of, trim_end, trim_end_spec};

verus! {

/// The line the clipboard helper prints once it owns the clipboard.
pub const READY_SIGNAL: &'static str = "ready";

/// How the clipboard helper failed to report readiness.
#[derive(Debug, Clone, PartialEq, Eq)]
pub enum HelperProblem {
    /// The helper closed its output without printing a line.
    ExitedEarly,
    /// The helper printed something else; the line without trailing whitespace.
    UnexpectedPayload(String),
}

/// The readiness line the helper printed: `bytes_read` bytes were read, `line` is what
/// they hold. Nothing read means the helper ended; a line other than the ready signal
/// (trailing whitespace ignored) is unexpected.
pub fn helper_readiness(bytes_read: usize, line: &str) -> (r: Result<(), HelperProblem>)
    ensures
        bytes_read == 0 ==> r == Err::<(), HelperProblem>(HelperProblem::ExitedEarly),
        bytes_read != 0 ==> match r {
            Ok(()) => trim_end_spec(line@) == READY_SIGNAL@,
            Err(HelperProblem::UnexpectedPayload(t)) => trim_end_spec(line@) != READY_SIGNAL@
                && t@ == trim_end_spec(line@),
            Err(HelperProblem::ExitedEarly) => false,
        },
{
    if bytes_read == 0 {
        return Err(HelperProblem::ExitedEarly);
    }
    let chars = chars_of(line);
    let trimmed = trim_end(chars.as_slice());
    if chars_eq_str(trimmed.as_slice(), READY_SIGNAL) {
        Ok(())
    } else {
        Err(HelperProblem::UnexpectedPayload(string_of(trimmed.as_slice())))
    }
}

impl HelperProblem {
    /// The text of the error, given the helper's exit status when it has already exited.
    pub fn message(&self, exit_status: Option<&str>) -> (s: String)
        ensures
            s@ == (match (self, exit_status) {
                (HelperProblem::ExitedEarly, Some(st)) =>
                    "clipboard helper exited before becoming ready with status "@ + st@,
                (HelperProblem::ExitedEarly, None) =>
                    "clipboard helper exited before reporting readiness"@,
                (HelperProblem::UnexpectedPayload(t), Some(st)) => "clipboard helper reported `"@
                    + t@ + "` before exiting with status "@ + st@,
                (HelperProblem::UnexpectedPayload(t), None) =>
                    "clipboard helper reported unexpected readiness payload `"@ + t@ + "`"@,
            }),
    {
        match (self, exit_status) {
            (HelperProblem::ExitedEarly, Some(st)) => concat_str(
                "clipboard helper exited before becoming ready with status ",
                st,
            ),
            (HelperProblem::ExitedEarly, None) => String::from_str(
                "clipboard helper exited before reporting readiness",
            ),
            (HelperProblem::UnexpectedPayload(t), Some(st)) => {
                let mut s = concat_str("clipboard helper reported `", t.as_str());
                s.append("` before exiting with status ");
                s.append(st);
                s
            },
            (HelperProblem::UnexpectedPayload(t), None) => {
                let mut s = concat_str(
                    "clipboard helper reported unexpected readiness payload `",
                    t.as_str(),
                );
                s.append("`");
                s
            },
        }
    }
}

/// The helper refuses an empty screenshot payload.
pub fn payload_accepted(bytes: &[u8]) -> (r: bool)
    ensures
        r == (bytes@.len() > 0),
{
    bytes.len() > 0
}

} // verus!
