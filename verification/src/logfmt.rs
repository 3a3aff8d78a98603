//! The failure log's entries.
//!
//! The failure log is append-only UTF-8 text, one entry per failed job. An
//! entry names the job's relative path and carries the error's description;
//! appending it to the log file happens outside the library.

use vstd::prelude::*;
use vstd::string::StringExecFns;

verus! {

/// The text of one failure-log entry for the job converting `rel`, whose
/// error describes itself as `detail`.
pub open spec fn spec_log_entry(rel: Seq<char>, detail: Seq<char>) -> Seq<char> {
    "Transcoding failed for "@ + rel + ": "@ + detail + "\n"@
}

/// Builds the failure-log entry for one failed job.
pub fn log_entry(rel_path: &str, detail: &str) -> (r: String)
    ensures
        r@ == spec_log_entry(rel_path@, detail@),
{
    let mut s = String::from_str("Transcoding failed for ");
    s.append(rel_path);
    s.append(": ");
    s.append(detail);
    s.append("\n");
    proof {
        assert(s@ =~= spec_log_entry(rel_path@, detail@));
    }
    s
}

/// A failure-log entry names its job: the job's relative path stands in the
/// entry verbatim, right after the fixed lead-in.
pub proof fn lemma_entry_names_path(rel: Seq<char>, detail: Seq<char>)
    ensures
        spec_log_entry(rel, detail).subrange(
            "Transcoding failed for "@.len() as int,
            "Transcoding failed for "@.len() + rel.len() as int,
        ) == rel,
{
    assert(spec_log_entry(rel, detail).subrange(
        "Transcoding failed for "@.len() as int,
        "Transcoding failed for "@.len() + rel.len() as int,
    ) =~= rel);
}

} // verus!
