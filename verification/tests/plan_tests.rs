use rodeo::program::Program;
use rodeo::settings::{Settings, SyncPhase};

fn vim_program() -> Program {
    Program {
        name: "vim".to_string(),
        root: "~/.vim".to_string(),
        paths: vec!["vimrc".to_string()],
        post_deploy_cmd: String::new(),
    }
}

fn settings_with(programs: Vec<Program>) -> Settings {
    Settings::new(
        "/home/u".to_string(),
        "/home/u/.config/rodeo/rodeo.toml".to_string(),
        "~/dotfiles".to_string(),
        programs,
    )
}

#[test]
fn program_roots_are_canonical() {
    let p = vim_program();
    assert_eq!(p.system_root("/home/u"), "/home/u/.vim");
    assert_eq!(p.repo_root("/home/u", "/home/u/dotfiles"), "/home/u/dotfiles/.vim");
}

#[test]
fn sync_plan_pairs_both_locations() {
    let p = vim_program();
    let plan = p.sync_local("/home/u", "/home/u/dotfiles");
    assert_eq!(plan.system_dir, "/home/u/.vim");
    assert_eq!(plan.repo_dir, "/home/u/dotfiles/.vim");
    assert_eq!(plan.files.len(), 1);
    assert_eq!(plan.files[0].rel, "vimrc");
    assert_eq!(plan.files[0].repo_file, "/home/u/dotfiles/.vim/vimrc");
    assert_eq!(plan.files[0].system_file, "/home/u/.vim/vimrc");
}

#[test]
fn deploy_plan_copies_repo_to_system() {
    let p = vim_program();
    let plan = p.deploy("/home/u", "/home/u/dotfiles");
    assert_eq!(plan.ensure_dir, "/home/u/.vim");
    assert_eq!(plan.copies.len(), 1);
    assert_eq!(plan.copies[0].from, "/home/u/dotfiles/.vim/vimrc");
    assert_eq!(plan.copies[0].to, "/home/u/.vim/vimrc");
    assert!(plan.post_deploy.is_none());
}

#[test]
fn deploy_plan_has_one_copy_per_tracked_path() {
    let mut p = vim_program();
    p.paths = vec!["vimrc".to_string(), "plugins/foo.vim".to_string()];
    let plan = p.deploy("/home/u", "/home/u/dotfiles");
    assert_eq!(plan.copies.len(), 2);
    assert_eq!(plan.copies[0].from, "/home/u/dotfiles/.vim/vimrc");
    assert_eq!(plan.copies[1].from, "/home/u/dotfiles/.vim/plugins/foo.vim");
    assert_eq!(plan.copies[1].to, "/home/u/.vim/plugins/foo.vim");
}

#[test]
fn deploy_plan_carries_post_deploy_command() {
    let mut p = vim_program();
    p.post_deploy_cmd = "echo done".to_string();
    let plan = p.deploy("/home/u", "/home/u/dotfiles");
    assert_eq!(plan.post_deploy.as_deref(), Some("echo done"));
}

#[test]
fn collect_plan_copies_system_to_repo() {
    let p = vim_program();
    let plan = p.collect("/home/u", "/home/u/dotfiles");
    assert_eq!(plan.ensure_dir, "/home/u/dotfiles/.vim");
    assert_eq!(plan.copies.len(), 1);
    assert_eq!(plan.copies[0].from, "/home/u/.vim/vimrc");
    assert_eq!(plan.copies[0].to, "/home/u/dotfiles/.vim/vimrc");
    assert!(plan.post_deploy.is_none());
}

#[test]
fn settings_substitute_placeholder_in_repository_directory() {
    let s = settings_with(vec![vim_program()]);
    assert_eq!(s.dotfiles_directory, "/home/u/dotfiles");
}

#[test]
fn settings_deploy_covers_every_program() {
    let mut other = vim_program();
    other.name = "bash".to_string();
    other.root = "~/".to_string();
    other.paths = vec![".bashrc".to_string()];
    let s = settings_with(vec![vim_program(), other]);
    let plans = s.deploy();
    assert_eq!(plans.len(), 2);
    assert_eq!(plans[0].copies[0].to, "/home/u/.vim/vimrc");
    assert_eq!(plans[1].copies[0].from, "/home/u/dotfiles/.bashrc");
    assert_eq!(plans[1].copies[0].to, "/home/u/.bashrc");
}

#[test]
fn settings_collect_mirrors_deploy() {
    let s = settings_with(vec![vim_program()]);
    let plans = s.collect();
    assert_eq!(plans.len(), 1);
    assert_eq!(plans[0].copies[0].from, "/home/u/.vim/vimrc");
    assert_eq!(plans[0].copies[0].to, "/home/u/dotfiles/.vim/vimrc");
}

#[test]
fn settings_sync_local_plans_every_program() {
    let s = settings_with(vec![vim_program()]);
    let plans = s.sync_local();
    assert_eq!(plans.len(), 1);
    assert_eq!(plans[0].files[0].repo_file, "/home/u/dotfiles/.vim/vimrc");
    assert_eq!(plans[0].files[0].system_file, "/home/u/.vim/vimrc");
}

#[test]
fn sync_remote_reconciles_before_publishing() {
    let s = settings_with(vec![vim_program()]);
    let phases = s.sync_remote();
    assert_eq!(phases.len(), 3);
    assert!(matches!(phases[0], SyncPhase::LocalSync { .. }));
    assert!(matches!(phases[1], SyncPhase::GitPull));
    assert!(matches!(phases[2], SyncPhase::GitPush));
}

#[test]
fn sync_full_pulls_before_reconciling() {
    let s = settings_with(vec![vim_program()]);
    let phases = s.sync_full();
    assert_eq!(phases.len(), 3);
    assert!(matches!(phases[0], SyncPhase::GitPull));
    match &phases[1] {
        SyncPhase::LocalSync { plans } => {
            assert_eq!(plans.len(), 1);
            assert_eq!(plans[0].files[0].repo_file, "/home/u/dotfiles/.vim/vimrc");
        }
        other => panic!("expected a local sync phase, got {:?}", other),
    }
    assert!(matches!(phases[2], SyncPhase::GitPush));
}

#[test]
fn list_programs_keeps_order() {
    let mut other = vim_program();
    other.name = "tmux".to_string();
    let s = settings_with(vec![vim_program(), other]);
    assert_eq!(s.list_programs(), vec!["vim".to_string(), "tmux".to_string()]);
}
