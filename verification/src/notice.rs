//! The human-readable lines that every copy, skip and error decision
//! produces.
//!
//! The output sink itself lives outside the library; these functions build
//! the exact text of each line, so that what is printed for a decision is
//! pinned down here rather than in the I/O layer.

use vstd::prelude::*;
use crate::reconcile::{FilePair, WhichFile};

verus! {

/// The line announcing one successful copy.
pub fn copy_notice(from: &str, to: &str) -> (r: String)
    ensures
        r@ == from@ + " => "@ + to@,
{
    let r = String::from_str(from).concat(" => ").concat(to);
    proof {
        assert(r@ =~= from@ + " => "@ + to@);
    }
    r
}

/// The line announcing one failed copy.  A copy failure is reported and
/// never aborts the surrounding run.
pub fn copy_error_notice(from: &str, to: &str) -> (r: String)
    ensures
        r@ == "Error: could not perform copy operation \""@ + from@ + " => "@ + to@ + "\""@,
{
    let r = String::from_str("Error: could not perform copy operation \"").concat(from).concat(
        " => ",
    ).concat(to).concat("\"");
    proof {
        assert(r@ =~= "Error: could not perform copy operation \""@ + from@ + " => "@ + to@
            + "\""@);
    }
    r
}

/// The diagnostic for a tracked path that exists in neither location.
pub fn missing_both_notice(rel: &str) -> (r: String)
    ensures
        r@ == "file "@ + rel@
            + " does not exist in dotfiles repo or its intended place in the system, not syncing"@,
{
    let r = String::from_str("file ").concat(rel).concat(
        " does not exist in dotfiles repo or its intended place in the system, not syncing",
    );
    proof {
        assert(r@ =~= "file "@ + rel@
            + " does not exist in dotfiles repo or its intended place in the system, not syncing"@);
    }
    r
}

/// The diagnostic for a tracked path whose two copies carry the same
/// modification age.
pub fn same_age_notice(rel: &str) -> (r: String)
    ensures
        r@ == "file \""@ + rel@
            + "\" appears to have been modified at the same time at both locations. Not syncing."@,
{
    let r = String::from_str("file \"").concat(rel).concat(
        "\" appears to have been modified at the same time at both locations. Not syncing.",
    );
    proof {
        assert(r@ =~= "file \""@ + rel@
            + "\" appears to have been modified at the same time at both locations. Not syncing."@);
    }
    r
}

/// The diagnostic naming the file whose modification metadata could not be
/// read: the repository copy or the system copy of the pair.
pub fn metadata_error_notice(pair: &FilePair, which: WhichFile) -> (r: String)
    ensures
        which is Repo ==> r@ == "error syncing file \""@ + pair.repo_file@
            + "\": could not access file metadata."@,
        which is System ==> r@ == "error syncing file \""@ + pair.system_file@
            + "\": could not access file metadata."@,
{
    let path = match which {
        WhichFile::Repo => pair.repo_file.as_str(),
        WhichFile::System => pair.system_file.as_str(),
    };
    let r = String::from_str("error syncing file \"").concat(path).concat(
        "\": could not access file metadata.",
    );
    proof {
        assert(r@ =~= "error syncing file \""@ + path@ + "\": could not access file metadata."@);
    }
    r
}

} // verus!
