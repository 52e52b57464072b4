//! Per-file reconciliation: the newest copy wins.
//!
//! For one tracked path there are two candidate locations, the repository
//! copy and the system copy.  [`decide`] picks, from the observed state of
//! the two files, which side overwrites the other — or that nothing is to be
//! done.  Every decision is per file: an unreadable or missing file never
//! stops the surrounding run.
//!
//! The caller probes the filesystem and reports what it saw as a
//! [`FileState`] per side; age is the time elapsed since the last
//! modification, so the side with the *smaller* age is the more recently
//! modified one and overwrites the other.

use vstd::prelude::*;

verus! {

/// What a filesystem probe found at one candidate location.
#[derive(Clone, Copy, PartialEq, Eq, Structural, Debug)]
pub enum FileState {
    /// No file exists at the location.
    Absent,
    /// A file exists, but its modification metadata could not be read.
    Unreadable,
    /// A file exists; it was last modified `age_nanos` nanoseconds ago.
    Modified { age_nanos: u128 },
}

/// Which of the two candidate locations a diagnostic is about.
#[derive(Clone, Copy, PartialEq, Eq, Structural, Debug)]
pub enum WhichFile {
    Repo,
    System,
}

/// The outcome of reconciling one tracked path.
#[derive(Clone, Copy, PartialEq, Eq, Structural, Debug)]
pub enum SyncDecision {
    /// The repository copy is newer and overwrites the system copy,
    /// or only the repository copy exists.
    CopyRepoToSystem,
    /// The system copy is newer and overwrites the repository copy,
    /// or only the system copy exists.
    CopySystemToRepo,
    /// Neither file exists: nothing to do, only a diagnostic.
    NoOpBothMissing,
    /// Both files carry the same modification age: nothing to do.
    NoOpSameAge,
    /// Both files exist but the named one has unreadable metadata;
    /// the path is left untouched.
    ErrorUnreadableMetadata { which: WhichFile },
}

/// The reconciliation rule, as a function of the two observed states.
pub open spec fn spec_decide(repo: FileState, system: FileState) -> SyncDecision {
    match (repo, system) {
        (FileState::Absent, FileState::Absent) => SyncDecision::NoOpBothMissing,
        (FileState::Absent, _) => SyncDecision::CopySystemToRepo,
        (_, FileState::Absent) => SyncDecision::CopyRepoToSystem,
        (FileState::Unreadable, _) => SyncDecision::ErrorUnreadableMetadata {
            which: WhichFile::Repo,
        },
        (_, FileState::Unreadable) => SyncDecision::ErrorUnreadableMetadata {
            which: WhichFile::System,
        },
        (
            FileState::Modified { age_nanos: repo_age },
            FileState::Modified { age_nanos: system_age },
        ) => if repo_age < system_age {
            SyncDecision::CopyRepoToSystem
        } else if repo_age > system_age {
            SyncDecision::CopySystemToRepo
        } else {
            SyncDecision::NoOpSameAge
        },
    }
}

/// A decision that makes one side overwrite the other.
pub open spec fn spec_is_copy(d: SyncDecision) -> bool {
    d is CopyRepoToSystem || d is CopySystemToRepo
}

/// Pick which side of a tracked path overwrites the other, if any.
pub fn decide(repo: FileState, system: FileState) -> (d: SyncDecision)
    ensures
        d == spec_decide(repo, system),
{
    match (repo, system) {
        (FileState::Absent, FileState::Absent) => SyncDecision::NoOpBothMissing,
        (FileState::Absent, _) => SyncDecision::CopySystemToRepo,
        (_, FileState::Absent) => SyncDecision::CopyRepoToSystem,
        (FileState::Unreadable, _) => SyncDecision::ErrorUnreadableMetadata {
            which: WhichFile::Repo,
        },
        (_, FileState::Unreadable) => SyncDecision::ErrorUnreadableMetadata {
            which: WhichFile::System,
        },
        (
            FileState::Modified { age_nanos: repo_age },
            FileState::Modified { age_nanos: system_age },
        ) => {
            if repo_age < system_age {
                SyncDecision::CopyRepoToSystem
            } else if repo_age > system_age {
                SyncDecision::CopySystemToRepo
            } else {
                SyncDecision::NoOpSameAge
            }
        },
    }
}

/// One tracked path with its two canonical candidate locations.
#[derive(Clone, Debug)]
pub struct FilePair {
    /// The tracked relative path, kept for diagnostics.
    pub rel: String,
    /// Canonical path of the repository copy.
    pub repo_file: String,
    /// Canonical path of the system copy.
    pub system_file: String,
}

/// One whole-file copy for the I/O layer to carry out.
#[derive(Clone, Debug)]
pub struct CopyOp {
    pub from: String,
    pub to: String,
}

impl SyncDecision {
    /// The copy, if any, that carries this decision out for `pair`.
    pub fn action(&self, pair: &FilePair) -> (r: Option<CopyOp>)
        ensures
            *self is CopyRepoToSystem ==> r is Some && r.unwrap().from@ == pair.repo_file@
                && r.unwrap().to@ == pair.system_file@,
            *self is CopySystemToRepo ==> r is Some && r.unwrap().from@ == pair.system_file@
                && r.unwrap().to@ == pair.repo_file@,
            !spec_is_copy(*self) ==> r is None,
    {
        match self {
            SyncDecision::CopyRepoToSystem => Some(
                CopyOp { from: pair.repo_file.clone(), to: pair.system_file.clone() },
            ),
            SyncDecision::CopySystemToRepo => Some(
                CopyOp { from: pair.system_file.clone(), to: pair.repo_file.clone() },
            ),
            _ => None,
        }
    }
}

/// The reconciliation of one tracked path: its decision and, where the
/// decision is a copy, the copy itself.
#[derive(Clone, Debug)]
pub struct Outcome {
    pub decision: SyncDecision,
    pub copy: Option<CopyOp>,
}

/// `o` is exactly what reconciling `pair` under the observed states must
/// produce: the decision follows the reconciliation rule, and the copy is
/// present if and only if the decision asks for one.
pub open spec fn outcome_ok(o: Outcome, pair: FilePair, repo: FileState, system: FileState) -> bool {
    &&& o.decision == spec_decide(repo, system)
    &&& o.decision is CopyRepoToSystem ==> o.copy is Some && o.copy.unwrap().from@
        == pair.repo_file@ && o.copy.unwrap().to@ == pair.system_file@
    &&& o.decision is CopySystemToRepo ==> o.copy is Some && o.copy.unwrap().from@
        == pair.system_file@ && o.copy.unwrap().to@ == pair.repo_file@
    &&& !spec_is_copy(o.decision) ==> o.copy is None
}

/// Reconcile every tracked path of one batch, independently.
///
/// Each path gets an outcome that depends only on its own pair of observed
/// states; in particular an unreadable or missing file at one index never
/// changes, drops, or reorders the outcomes of the others.
pub fn reconcile(
    pairs: &Vec<FilePair>,
    repo_states: &Vec<FileState>,
    system_states: &Vec<FileState>,
) -> (r: Vec<Outcome>)
    requires
        repo_states@.len() == pairs@.len(),
        system_states@.len() == pairs@.len(),
    ensures
        r@.len() == pairs@.len(),
        forall|i: int|
            0 <= i < pairs@.len() ==> outcome_ok(
                #[trigger] r@[i],
                pairs@[i],
                repo_states@[i],
                system_states@[i],
            ),
{
    let mut r: Vec<Outcome> = Vec::new();
    let mut i: usize = 0;
    while i < pairs.len()
        invariant
            i <= pairs@.len(),
            repo_states@.len() == pairs@.len(),
            system_states@.len() == pairs@.len(),
            r@.len() == i,
            forall|j: int|
                0 <= j < i ==> outcome_ok(
                    #[trigger] r@[j],
                    pairs@[j],
                    repo_states@[j],
                    system_states@[j],
                ),
        decreases pairs@.len() - i,
    {
        let decision = decide(repo_states[i], system_states[i]);
        let copy = decision.action(&pairs[i]);
        r.push(Outcome { decision, copy });
        i = i + 1;
    }
    r
}

/// Reconciliation symmetry: between two files that both exist with readable
/// metadata and distinct ages, the more recently modified side (the one with
/// the smaller age) always overwrites the other, whichever side it is.
pub proof fn lemma_reconciliation_symmetry(newer_age: u128, older_age: u128)
    requires
        newer_age < older_age,
    ensures
        spec_decide(
            FileState::Modified { age_nanos: newer_age },
            FileState::Modified { age_nanos: older_age },
        ) == SyncDecision::CopyRepoToSystem,
        spec_decide(
            FileState::Modified { age_nanos: older_age },
            FileState::Modified { age_nanos: newer_age },
        ) == SyncDecision::CopySystemToRepo,
{
}

/// Missing-file handling: when neither file exists, nothing is copied and no
/// error is recorded — the decision is the no-op diagnostic.
pub proof fn lemma_both_missing_no_copy()
    ensures
        spec_decide(FileState::Absent, FileState::Absent) == SyncDecision::NoOpBothMissing,
        !spec_is_copy(spec_decide(FileState::Absent, FileState::Absent)),
        !(spec_decide(FileState::Absent, FileState::Absent) is ErrorUnreadableMetadata),
{
}

/// Existence asymmetry: when exactly one of the two files exists, the
/// existing one is copied to the missing location, whatever its metadata.
pub proof fn lemma_existence_asymmetry(present: FileState)
    requires
        !(present is Absent),
    ensures
        spec_decide(present, FileState::Absent) == SyncDecision::CopyRepoToSystem,
        spec_decide(FileState::Absent, present) == SyncDecision::CopySystemToRepo,
{
}

/// Equal timestamps: two files with identical modification age are left
/// alone — no copy in either direction.
pub proof fn lemma_equal_age_no_copy(age_nanos: u128)
    ensures
        spec_decide(
            FileState::Modified { age_nanos },
            FileState::Modified { age_nanos },
        ) == SyncDecision::NoOpSameAge,
        !spec_is_copy(
            spec_decide(FileState::Modified { age_nanos }, FileState::Modified { age_nanos }),
        ),
{
}

} // verus!
