//! The full configuration and the plans it dispatches.
//!
//! [`Settings`] aggregates every tracked program together with the home and
//! repository directories.  Its methods compute, per program and in program
//! order, the plans that the I/O layer carries out; a failure inside one
//! program's processing never changes the plan computed for another.  The
//! remote variants additionally fix the order between local reconciliation
//! and the external version-control pull and push steps.

use vstd::prelude::*;
use crate::paths::{replace_tilde, spec_replace_tilde};
use crate::program::{
    Program, TransferPlan, SyncPlan, deploy_plan_ok, collect_plan_ok, sync_plan_ok,
};

verus! {

/// The managed configuration: one per run.
#[derive(Clone, Debug)]
pub struct Settings {
    /// Absolute path of the user's home directory.
    pub home: String,
    /// Path of the configuration file this was loaded from.
    pub config_path: String,
    /// Root of the dotfiles repository, with the home placeholder already
    /// substituted.
    pub dotfiles_directory: String,
    /// The tracked programs, in configuration order.
    pub programs: Vec<Program>,
}

/// Every plan in `plans` is the reconciliation setup of the matching
/// program of `s`, in program order.
pub open spec fn sync_plans_ok(plans: Seq<SyncPlan>, s: Settings) -> bool {
    &&& plans.len() == s.programs@.len()
    &&& forall|i: int|
        0 <= i < s.programs@.len() ==> sync_plan_ok(
            #[trigger] plans[i],
            s.programs@[i],
            s.home@,
            s.dotfiles_directory@,
        )
}

/// One step of a remote synchronization, in the order the steps must run.
#[derive(Clone, Debug)]
pub enum SyncPhase {
    /// Reconcile every program locally, with these per-program plans.
    LocalSync { plans: Vec<SyncPlan> },
    /// Bring the repository directory up to date with its remote.
    GitPull,
    /// Stage, commit and push the repository directory's changes.
    GitPush,
}

impl Settings {
    /// Assemble a configuration from its loaded parts.  The repository
    /// directory is the configured logical path with every home placeholder
    /// substituted.
    pub fn new(
        home: String,
        config_path: String,
        dotfiles_directory: String,
        programs: Vec<Program>,
    ) -> (s: Settings)
        ensures
            s.home@ == home@,
            s.config_path@ == config_path@,
            s.dotfiles_directory@ == spec_replace_tilde(dotfiles_directory@, home@),
            s.programs == programs,
    {
        let resolved = replace_tilde(dotfiles_directory.as_str(), home.as_str());
        Settings { home, config_path, dotfiles_directory: resolved, programs }
    }

    /// The deploy of every program, in program order.
    pub fn deploy(&self) -> (plans: Vec<TransferPlan>)
        ensures
            plans@.len() == self.programs@.len(),
            forall|i: int|
                0 <= i < self.programs@.len() ==> deploy_plan_ok(
                    #[trigger] plans@[i],
                    self.programs@[i],
                    self.home@,
                    self.dotfiles_directory@,
                ),
    {
        let mut plans: Vec<TransferPlan> = Vec::new();
        let mut i: usize = 0;
        while i < self.programs.len()
            invariant
                i <= self.programs@.len(),
                plans@.len() == i,
                forall|j: int|
                    0 <= j < i ==> deploy_plan_ok(
                        #[trigger] plans@[j],
                        self.programs@[j],
                        self.home@,
                        self.dotfiles_directory@,
                    ),
            decreases self.programs@.len() - i,
        {
            let plan = self.programs[i].deploy(
                self.home.as_str(),
                self.dotfiles_directory.as_str(),
            );
            plans.push(plan);
            i = i + 1;
        }
        plans
    }

    /// The collect of every program, in program order.
    pub fn collect(&self) -> (plans: Vec<TransferPlan>)
        ensures
            plans@.len() == self.programs@.len(),
            forall|i: int|
                0 <= i < self.programs@.len() ==> collect_plan_ok(
                    #[trigger] plans@[i],
                    self.programs@[i],
                    self.home@,
                    self.dotfiles_directory@,
                ),
    {
        let mut plans: Vec<TransferPlan> = Vec::new();
        let mut i: usize = 0;
        while i < self.programs.len()
            invariant
                i <= self.programs@.len(),
                plans@.len() == i,
                forall|j: int|
                    0 <= j < i ==> collect_plan_ok(
                        #[trigger] plans@[j],
                        self.programs@[j],
                        self.home@,
                        self.dotfiles_directory@,
                    ),
            decreases self.programs@.len() - i,
        {
            let plan = self.programs[i].collect(
                self.home.as_str(),
                self.dotfiles_directory.as_str(),
            );
            plans.push(plan);
            i = i + 1;
        }
        plans
    }

    /// The reconciliation setup of every program, in program order.
    pub fn sync_local(&self) -> (plans: Vec<SyncPlan>)
        ensures
            sync_plans_ok(plans@, *self),
    {
        let mut plans: Vec<SyncPlan> = Vec::new();
        let mut i: usize = 0;
        while i < self.programs.len()
            invariant
                i <= self.programs@.len(),
                plans@.len() == i,
                forall|j: int|
                    0 <= j < i ==> sync_plan_ok(
                        #[trigger] plans@[j],
                        self.programs@[j],
                        self.home@,
                        self.dotfiles_directory@,
                    ),
            decreases self.programs@.len() - i,
        {
            let plan = self.programs[i].sync_local(
                self.home.as_str(),
                self.dotfiles_directory.as_str(),
            );
            plans.push(plan);
            i = i + 1;
        }
        plans
    }

    /// A remote synchronization: reconcile locally first, then publish —
    /// pull, then push.  The local state is taken as authoritative.
    pub fn sync_remote(&self) -> (phases: Vec<SyncPhase>)
        ensures
            phases@.len() == 3,
            phases@[0] matches SyncPhase::LocalSync { plans } && sync_plans_ok(plans@, *self),
            phases@[1] is GitPull,
            phases@[2] is GitPush,
    {
        let plans = self.sync_local();
        let mut phases: Vec<SyncPhase> = Vec::new();
        phases.push(SyncPhase::LocalSync { plans });
        phases.push(SyncPhase::GitPull);
        phases.push(SyncPhase::GitPush);
        phases
    }

    /// A full synchronization: pull before anything else, so that the local
    /// reconciliation sees the latest remote state, then reconcile, then
    /// push.
    pub fn sync_full(&self) -> (phases: Vec<SyncPhase>)
        ensures
            phases@.len() == 3,
            phases@[0] is GitPull,
            phases@[1] matches SyncPhase::LocalSync { plans } && sync_plans_ok(plans@, *self),
            phases@[2] is GitPush,
    {
        let plans = self.sync_local();
        let mut phases: Vec<SyncPhase> = Vec::new();
        phases.push(SyncPhase::GitPull);
        phases.push(SyncPhase::LocalSync { plans });
        phases.push(SyncPhase::GitPush);
        phases
    }

    /// The names of the tracked programs, in program order.
    pub fn list_programs(&self) -> (names: Vec<String>)
        ensures
            names@.len() == self.programs@.len(),
            forall|i: int|
                0 <= i < self.programs@.len() ==> (#[trigger] names@[i])@
                    == self.programs@[i].name@,
    {
        let mut names: Vec<String> = Vec::new();
        let mut i: usize = 0;
        while i < self.programs.len()
            invariant
                i <= self.programs@.len(),
                names@.len() == i,
                forall|j: int|
                    0 <= j < i ==> (#[trigger] names@[j])@ == self.programs@[j].name@,
            decreases self.programs@.len() - i,
        {
            names.push(self.programs[i].name.clone());
            i = i + 1;
        }
        names
    }
}

} // verus!
