//! Verified core of a benchmarking harness: for every (command, repository)
//! pair the harness clones the repository into an isolated workspace, runs
//! preparation steps, times a benchmark command, and tears the workspace
//! down again. This crate holds the decision logic of that pipeline — the
//! per-job state machine, the fetch progress protocol, the fail-fast
//! preparer, the bounded cleanup retry, the cross-product orchestration and
//! the ordered reporting — each with a verified contract. The surrounding
//! binary performs the filesystem, process and network work and feeds the
//! outcomes back into these state machines as plain events.

pub mod cleanup;
pub mod command;
pub mod job;
pub mod orchestrate;
pub mod preparer;
pub mod progress;
pub mod report;

use vstd::prelude::*;

verus! {

/// Joins a working directory and a workspace folder name into the absolute
/// path of the workspace, separated by a single `/`.
pub fn workspace_path(cwd: &str, folder: &str) -> (r: String)
    ensures
        r@ == cwd@ + seq!['/'] + folder@,
{
    let mut s = cwd.to_owned();
    s.append("/");
    s.append(folder);
    proof {
        reveal_strlit("/");
        assert(s@ =~= cwd@ + seq!['/'] + folder@);
    }
    s
}

} // verus!
