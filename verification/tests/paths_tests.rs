use rodeo::paths::{join, replace_tilde, resolve, strip_tilde_slash, strip_trailing_slash};
use rodeo::program::Program;

#[test]
fn resolve_substitutes_placeholder() {
    assert_eq!(resolve("~/.vim/vimrc", "/home/u"), "/home/u/.vim/vimrc");
}

#[test]
fn resolve_substitutes_every_placeholder() {
    assert_eq!(resolve("~/a/~/b", "/h"), "/h/a/h/b");
}

#[test]
fn resolve_collapses_double_separators() {
    assert_eq!(resolve("/home//u//.vim", "/home/u"), "/home/u/.vim");
}

#[test]
fn resolve_collapses_longer_runs() {
    assert_eq!(resolve("a////b", "/h"), "a/b");
}

#[test]
fn resolve_strips_one_trailing_separator() {
    assert_eq!(resolve("~/.config/", "/home/u"), "/home/u/.config");
}

#[test]
fn resolve_of_plain_path_is_unchanged() {
    assert_eq!(resolve("/etc/hosts", "/home/u"), "/etc/hosts");
}

#[test]
fn resolve_twice_equals_resolve_once() {
    let home = "/home/u";
    for p in ["~/.vim//vimrc", "~///x/", "a//b/~/", "", "/", "~~", "///"] {
        let once = resolve(p, home);
        let twice = resolve(&once, home);
        assert_eq!(twice, once, "path {:?}", p);
    }
}

#[test]
fn resolve_of_empty_path_is_empty() {
    assert_eq!(resolve("", "/home/u"), "");
}

#[test]
fn resolve_of_lone_separator_is_empty() {
    assert_eq!(resolve("/", "/home/u"), "");
}

#[test]
fn replace_tilde_leaves_other_text() {
    assert_eq!(replace_tilde("~/dotfiles", "/home/u"), "/home/u/dotfiles");
    assert_eq!(replace_tilde("no placeholder", "/home/u"), "no placeholder");
}

#[test]
fn strip_tilde_slash_removes_prefix() {
    assert_eq!(strip_tilde_slash("~/.vim"), ".vim");
    assert_eq!(strip_tilde_slash(".bashrc"), ".bashrc");
    assert_eq!(strip_tilde_slash("~/a/~/b"), "a/b");
}

#[test]
fn strip_trailing_slash_removes_exactly_one() {
    assert_eq!(strip_trailing_slash("/home/u/"), "/home/u");
    assert_eq!(strip_trailing_slash("/home/u//"), "/home/u/");
    assert_eq!(strip_trailing_slash("/home/u"), "/home/u");
    assert_eq!(strip_trailing_slash(""), "");
}

#[test]
fn join_inserts_single_separator() {
    assert_eq!(join("/a", "b"), "/a/b");
    assert_eq!(join("", ""), "/");
}

#[test]
fn standardize_path_is_the_resolver() {
    assert_eq!(
        Program::standardize_path("~/.vim//", "/home/u"),
        "/home/u/.vim"
    );
}
