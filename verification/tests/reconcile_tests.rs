use rodeo::notice::{
    copy_error_notice, copy_notice, metadata_error_notice, missing_both_notice, same_age_notice,
};
use rodeo::reconcile::{decide, reconcile, FilePair, FileState, SyncDecision, WhichFile};

fn pair(rel: &str, repo: &str, system: &str) -> FilePair {
    FilePair {
        rel: rel.to_string(),
        repo_file: repo.to_string(),
        system_file: system.to_string(),
    }
}

#[test]
fn both_missing_is_a_no_op() {
    let d = decide(FileState::Absent, FileState::Absent);
    assert_eq!(d, SyncDecision::NoOpBothMissing);
    let p = pair("vimrc", "/r/vimrc", "/s/vimrc");
    assert!(d.action(&p).is_none());
}

#[test]
fn only_system_copy_exists() {
    let d = decide(FileState::Absent, FileState::Modified { age_nanos: 10 });
    assert_eq!(d, SyncDecision::CopySystemToRepo);
    let p = pair("vimrc", "/r/vimrc", "/s/vimrc");
    let op = d.action(&p).unwrap();
    assert_eq!(op.from, "/s/vimrc");
    assert_eq!(op.to, "/r/vimrc");
}

#[test]
fn only_repo_copy_exists() {
    let d = decide(FileState::Modified { age_nanos: 10 }, FileState::Absent);
    assert_eq!(d, SyncDecision::CopyRepoToSystem);
    let p = pair("vimrc", "/r/vimrc", "/s/vimrc");
    let op = d.action(&p).unwrap();
    assert_eq!(op.from, "/r/vimrc");
    assert_eq!(op.to, "/s/vimrc");
}

#[test]
fn lone_file_copies_even_with_unreadable_metadata() {
    assert_eq!(
        decide(FileState::Unreadable, FileState::Absent),
        SyncDecision::CopyRepoToSystem
    );
    assert_eq!(
        decide(FileState::Absent, FileState::Unreadable),
        SyncDecision::CopySystemToRepo
    );
}

#[test]
fn newer_repo_copy_wins() {
    let d = decide(
        FileState::Modified { age_nanos: 5 },
        FileState::Modified { age_nanos: 500 },
    );
    assert_eq!(d, SyncDecision::CopyRepoToSystem);
}

#[test]
fn newer_system_copy_wins() {
    let d = decide(
        FileState::Modified { age_nanos: 500 },
        FileState::Modified { age_nanos: 5 },
    );
    assert_eq!(d, SyncDecision::CopySystemToRepo);
}

#[test]
fn equal_ages_do_not_sync() {
    let d = decide(
        FileState::Modified { age_nanos: 77 },
        FileState::Modified { age_nanos: 77 },
    );
    assert_eq!(d, SyncDecision::NoOpSameAge);
    let p = pair("vimrc", "/r/vimrc", "/s/vimrc");
    assert!(d.action(&p).is_none());
}

#[test]
fn unreadable_repo_metadata_is_reported_first() {
    let d = decide(FileState::Unreadable, FileState::Modified { age_nanos: 1 });
    assert_eq!(
        d,
        SyncDecision::ErrorUnreadableMetadata { which: WhichFile::Repo }
    );
    let d = decide(FileState::Unreadable, FileState::Unreadable);
    assert_eq!(
        d,
        SyncDecision::ErrorUnreadableMetadata { which: WhichFile::Repo }
    );
}

#[test]
fn unreadable_system_metadata_is_reported() {
    let d = decide(FileState::Modified { age_nanos: 1 }, FileState::Unreadable);
    assert_eq!(
        d,
        SyncDecision::ErrorUnreadableMetadata { which: WhichFile::System }
    );
}

#[test]
fn one_unreadable_file_does_not_stop_the_others() {
    let pairs = vec![
        pair("a", "/r/a", "/s/a"),
        pair("b", "/r/b", "/s/b"),
        pair("c", "/r/c", "/s/c"),
    ];
    let repo_states = vec![
        FileState::Modified { age_nanos: 1 },
        FileState::Unreadable,
        FileState::Modified { age_nanos: 9 },
    ];
    let system_states = vec![
        FileState::Modified { age_nanos: 2 },
        FileState::Modified { age_nanos: 2 },
        FileState::Modified { age_nanos: 2 },
    ];
    let outcomes = reconcile(&pairs, &repo_states, &system_states);
    assert_eq!(outcomes.len(), 3);
    assert_eq!(outcomes[0].decision, SyncDecision::CopyRepoToSystem);
    let op = outcomes[0].copy.as_ref().unwrap();
    assert_eq!(op.from, "/r/a");
    assert_eq!(op.to, "/s/a");
    assert_eq!(
        outcomes[1].decision,
        SyncDecision::ErrorUnreadableMetadata { which: WhichFile::Repo }
    );
    assert!(outcomes[1].copy.is_none());
    assert_eq!(outcomes[2].decision, SyncDecision::CopySystemToRepo);
    let op = outcomes[2].copy.as_ref().unwrap();
    assert_eq!(op.from, "/s/c");
    assert_eq!(op.to, "/r/c");
}

#[test]
fn copy_notice_line() {
    assert_eq!(
        copy_notice("/home/u/dotfiles/.vim/vimrc", "/home/u/.vim/vimrc"),
        "/home/u/dotfiles/.vim/vimrc => /home/u/.vim/vimrc"
    );
}

#[test]
fn copy_error_notice_line() {
    assert_eq!(
        copy_error_notice("/r/a", "/s/a"),
        "Error: could not perform copy operation \"/r/a => /s/a\""
    );
}

#[test]
fn missing_both_notice_names_the_path() {
    let line = missing_both_notice("plugins/foo.vim");
    assert!(line.contains("plugins/foo.vim"));
    assert_eq!(
        line,
        "file plugins/foo.vim does not exist in dotfiles repo or its intended place in the system, not syncing"
    );
}

#[test]
fn same_age_notice_line() {
    assert_eq!(
        same_age_notice("vimrc"),
        "file \"vimrc\" appears to have been modified at the same time at both locations. Not syncing."
    );
}

#[test]
fn metadata_error_notice_names_the_right_file() {
    let p = pair("a", "/r/a", "/s/a");
    assert_eq!(
        metadata_error_notice(&p, WhichFile::Repo),
        "error syncing file \"/r/a\": could not access file metadata."
    );
    assert_eq!(
        metadata_error_notice(&p, WhichFile::System),
        "error syncing file \"/s/a\": could not access file metadata."
    );
}
