//! One tracked program and the plans computed for it.
//!
//! A [`Program`] names an application whose configuration files are managed:
//! a logical root on the system side (which may use the `~` placeholder) and
//! a list of relative paths tracked under that root.  The repository keeps
//! its copy of those files under the repository directory, in a subdirectory
//! named after the root with the `~/` prefix removed.
//!
//! The methods here only compute: they turn a program definition into plans
//! made of canonical paths — which directory must exist, which file is
//! copied where — for an I/O layer to carry out.  Per-file reconciliation
//! decisions are taken separately, in [`crate::reconcile`].

use vstd::prelude::*;
use crate::paths::{
    resolve, join, strip_tilde_slash, spec_resolve, spec_join, spec_strip_tilde_slash,
};
use crate::reconcile::{CopyOp, FilePair};

verus! {

/// One application whose dotfiles are managed.
#[derive(Clone, Debug)]
pub struct Program {
    /// Human-readable identifier.
    pub name: String,
    /// Logical root of the program's files on the system side; may use the
    /// home-directory placeholder.
    pub root: String,
    /// Relative file paths tracked under `root`, in display order.
    pub paths: Vec<String>,
    /// Shell command run after a deploy; empty means none.
    pub post_deploy_cmd: String,
}

/// Canonical system-side root of a program: its logical root resolved.
pub open spec fn spec_system_root(root: Seq<char>, home: Seq<char>) -> Seq<char> {
    spec_resolve(root, home)
}

/// Canonical repository-side root of a program: the repository directory
/// with the root's placeholder-free name appended, resolved.
pub open spec fn spec_repo_root(
    dotfiles_dir: Seq<char>,
    root: Seq<char>,
    home: Seq<char>,
) -> Seq<char> {
    spec_resolve(spec_join(dotfiles_dir, spec_strip_tilde_slash(root)), home)
}

/// Canonical location of the repository copy of one tracked path.
pub open spec fn spec_repo_file(
    dotfiles_dir: Seq<char>,
    root: Seq<char>,
    rel: Seq<char>,
    home: Seq<char>,
) -> Seq<char> {
    spec_resolve(spec_join(spec_repo_root(dotfiles_dir, root, home), rel), home)
}

/// Canonical location of the system copy of one tracked path.
pub open spec fn spec_system_file(root: Seq<char>, rel: Seq<char>, home: Seq<char>) -> Seq<char> {
    spec_resolve(spec_join(spec_system_root(root, home), rel), home)
}

/// A one-directional batch of copies for one program.
#[derive(Clone, Debug)]
pub struct TransferPlan {
    /// Directory tree that must exist before the copies run (created
    /// best-effort, once per batch).
    pub ensure_dir: String,
    /// The copies, one per tracked path, in tracking order.
    pub copies: Vec<CopyOp>,
    /// Shell command to run after the copies; present exactly when the
    /// program has a non-empty post-deploy command and this is a deploy.
    pub post_deploy: Option<String>,
}

/// `plan` is exactly the deploy of `prog`: every tracked path is copied from
/// its repository location to its system location, the system root is the
/// directory to create, and the post-deploy command is carried along when
/// the program has one.
pub open spec fn deploy_plan_ok(
    plan: TransferPlan,
    prog: Program,
    home: Seq<char>,
    dotfiles_dir: Seq<char>,
) -> bool {
    &&& plan.ensure_dir@ == spec_system_root(prog.root@, home)
    &&& plan.copies@.len() == prog.paths@.len()
    &&& forall|i: int|
        0 <= i < prog.paths@.len() ==> {
            &&& (#[trigger] plan.copies@[i]).from@ == spec_repo_file(
                dotfiles_dir,
                prog.root@,
                prog.paths@[i]@,
                home,
            )
            &&& plan.copies@[i].to@ == spec_system_file(prog.root@, prog.paths@[i]@, home)
        }
    &&& if prog.post_deploy_cmd@.len() == 0 {
        plan.post_deploy is None
    } else {
        plan.post_deploy is Some && plan.post_deploy.unwrap()@ == prog.post_deploy_cmd@
    }
}

/// `plan` is exactly the collect of `prog`: the inverse of a deploy — every
/// tracked path is copied from its system location into the repository, the
/// repository root is the directory to create, and no post-deploy command
/// runs.
pub open spec fn collect_plan_ok(
    plan: TransferPlan,
    prog: Program,
    home: Seq<char>,
    dotfiles_dir: Seq<char>,
) -> bool {
    &&& plan.ensure_dir@ == spec_repo_root(dotfiles_dir, prog.root@, home)
    &&& plan.copies@.len() == prog.paths@.len()
    &&& forall|i: int|
        0 <= i < prog.paths@.len() ==> {
            &&& (#[trigger] plan.copies@[i]).from@ == spec_system_file(
                prog.root@,
                prog.paths@[i]@,
                home,
            )
            &&& plan.copies@[i].to@ == spec_repo_file(dotfiles_dir, prog.root@, prog.paths@[i]@, home)
        }
    &&& plan.post_deploy is None
}

/// The inputs a reconciliation run needs for one program: both canonical
/// roots (whose trees must exist first) and the candidate pair of locations
/// for every tracked path.
#[derive(Clone, Debug)]
pub struct SyncPlan {
    /// Canonical system-side root; its tree must exist before copying.
    pub system_dir: String,
    /// Canonical repository-side root; its tree must exist before copying.
    pub repo_dir: String,
    /// One pair of candidate locations per tracked path, in tracking order.
    pub files: Vec<FilePair>,
}

/// `plan` is exactly the reconciliation setup of `prog`: both roots are the
/// canonical ones and every tracked path keeps its name beside its two
/// candidate locations.
pub open spec fn sync_plan_ok(
    plan: SyncPlan,
    prog: Program,
    home: Seq<char>,
    dotfiles_dir: Seq<char>,
) -> bool {
    &&& plan.system_dir@ == spec_system_root(prog.root@, home)
    &&& plan.repo_dir@ == spec_repo_root(dotfiles_dir, prog.root@, home)
    &&& plan.files@.len() == prog.paths@.len()
    &&& forall|i: int|
        0 <= i < prog.paths@.len() ==> {
            &&& (#[trigger] plan.files@[i]).rel@ == prog.paths@[i]@
            &&& plan.files@[i].repo_file@ == spec_repo_file(
                dotfiles_dir,
                prog.root@,
                prog.paths@[i]@,
                home,
            )
            &&& plan.files@[i].system_file@ == spec_system_file(prog.root@, prog.paths@[i]@, home)
        }
}

impl Program {
    /// Canonicalize a logical path against a home directory.
    pub fn standardize_path(path: &str, home_dir: &str) -> (r: String)
        ensures
            r@ == spec_resolve(path@, home_dir@),
    {
        resolve(path, home_dir)
    }

    /// Canonical system-side root of this program.
    pub fn system_root(&self, home_dir: &str) -> (r: String)
        ensures
            r@ == spec_system_root(self.root@, home_dir@),
    {
        resolve(self.root.as_str(), home_dir)
    }

    /// Canonical repository-side root of this program.
    pub fn repo_root(&self, home_dir: &str, dotfiles_dir: &str) -> (r: String)
        ensures
            r@ == spec_repo_root(dotfiles_dir@, self.root@, home_dir@),
    {
        let sub = strip_tilde_slash(self.root.as_str());
        let joined = join(dotfiles_dir, sub.as_str());
        resolve(joined.as_str(), home_dir)
    }

    /// The deploy of this program: repository contents overwrite the system.
    pub fn deploy(&self, home_dir: &str, dotfiles_dir: &str) -> (plan: TransferPlan)
        ensures
            deploy_plan_ok(plan, *self, home_dir@, dotfiles_dir@),
    {
        let system_dir = self.system_root(home_dir);
        let repo_dir = self.repo_root(home_dir, dotfiles_dir);
        let mut copies: Vec<CopyOp> = Vec::new();
        let mut i: usize = 0;
        while i < self.paths.len()
            invariant
                i <= self.paths@.len(),
                system_dir@ == spec_system_root(self.root@, home_dir@),
                repo_dir@ == spec_repo_root(dotfiles_dir@, self.root@, home_dir@),
                copies@.len() == i,
                forall|j: int|
                    0 <= j < i ==> {
                        &&& (#[trigger] copies@[j]).from@ == spec_repo_file(
                            dotfiles_dir@,
                            self.root@,
                            self.paths@[j]@,
                            home_dir@,
                        )
                        &&& copies@[j].to@ == spec_system_file(
                            self.root@,
                            self.paths@[j]@,
                            home_dir@,
                        )
                    },
            decreases self.paths@.len() - i,
        {
            let rel = &self.paths[i];
            let from_joined = join(repo_dir.as_str(), rel.as_str());
            let from = resolve(from_joined.as_str(), home_dir);
            let to_joined = join(system_dir.as_str(), rel.as_str());
            let to = resolve(to_joined.as_str(), home_dir);
            copies.push(CopyOp { from, to });
            i = i + 1;
        }
        let post_deploy = if self.post_deploy_cmd.as_str().is_empty() {
            None
        } else {
            Some(self.post_deploy_cmd.clone())
        };
        TransferPlan { ensure_dir: system_dir, copies, post_deploy }
    }

    /// The collect of this program: system contents overwrite the repository.
    pub fn collect(&self, home_dir: &str, dotfiles_dir: &str) -> (plan: TransferPlan)
        ensures
            collect_plan_ok(plan, *self, home_dir@, dotfiles_dir@),
    {
        let system_dir = self.system_root(home_dir);
        let repo_dir = self.repo_root(home_dir, dotfiles_dir);
        let mut copies: Vec<CopyOp> = Vec::new();
        let mut i: usize = 0;
        while i < self.paths.len()
            invariant
                i <= self.paths@.len(),
                system_dir@ == spec_system_root(self.root@, home_dir@),
                repo_dir@ == spec_repo_root(dotfiles_dir@, self.root@, home_dir@),
                copies@.len() == i,
                forall|j: int|
                    0 <= j < i ==> {
                        &&& (#[trigger] copies@[j]).from@ == spec_system_file(
                            self.root@,
                            self.paths@[j]@,
                            home_dir@,
                        )
                        &&& copies@[j].to@ == spec_repo_file(
                            dotfiles_dir@,
                            self.root@,
                            self.paths@[j]@,
                            home_dir@,
                        )
                    },
            decreases self.paths@.len() - i,
        {
            let rel = &self.paths[i];
            let from_joined = join(system_dir.as_str(), rel.as_str());
            let from = resolve(from_joined.as_str(), home_dir);
            let to_joined = join(repo_dir.as_str(), rel.as_str());
            let to = resolve(to_joined.as_str(), home_dir);
            copies.push(CopyOp { from, to });
            i = i + 1;
        }
        TransferPlan { ensure_dir: repo_dir, copies, post_deploy: None }
    }

    /// The reconciliation setup of this program: both canonical roots and
    /// the candidate locations of every tracked path.
    pub fn sync_local(&self, home_dir: &str, dotfiles_dir: &str) -> (plan: SyncPlan)
        ensures
            sync_plan_ok(plan, *self, home_dir@, dotfiles_dir@),
    {
        let system_dir = self.system_root(home_dir);
        let repo_dir = self.repo_root(home_dir, dotfiles_dir);
        let mut files: Vec<FilePair> = Vec::new();
        let mut i: usize = 0;
        while i < self.paths.len()
            invariant
                i <= self.paths@.len(),
                system_dir@ == spec_system_root(self.root@, home_dir@),
                repo_dir@ == spec_repo_root(dotfiles_dir@, self.root@, home_dir@),
                files@.len() == i,
                forall|j: int|
                    0 <= j < i ==> {
                        &&& (#[trigger] files@[j]).rel@ == self.paths@[j]@
                        &&& files@[j].repo_file@ == spec_repo_file(
                            dotfiles_dir@,
                            self.root@,
                            self.paths@[j]@,
                            home_dir@,
                        )
                        &&& files@[j].system_file@ == spec_system_file(
                            self.root@,
                            self.paths@[j]@,
                            home_dir@,
                        )
                    },
            decreases self.paths@.len() - i,
        {
            let rel = &self.paths[i];
            let repo_joined = join(repo_dir.as_str(), rel.as_str());
            let repo_file = resolve(repo_joined.as_str(), home_dir);
            let system_joined = join(system_dir.as_str(), rel.as_str());
            let system_file = resolve(system_joined.as_str(), home_dir);
            files.push(FilePair { rel: rel.clone(), repo_file, system_file });
            i = i + 1;
        }
        SyncPlan { system_dir, repo_dir, files }
    }
}

} // verus!
