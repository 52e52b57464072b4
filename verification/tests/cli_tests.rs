use rodeo::config::Config;
use rodeo::options::Options;

fn strings(args: &[&str]) -> Vec<String> {
    args.iter().map(|a| a.to_string()).collect()
}

#[test]
fn options_take_first_argument_as_command() {
    let opts = Options::new(strings(&["deploy", "a", "b"]));
    assert_eq!(opts.command, "deploy");
    assert_eq!(opts.command_args, vec!["a".to_string(), "b".to_string()]);
}

#[test]
fn options_skip_leading_empty_arguments() {
    let opts = Options::new(strings(&["", "collect", "x"]));
    assert_eq!(opts.command, "collect");
    assert_eq!(opts.command_args, vec!["x".to_string()]);
}

#[test]
fn options_of_nothing_are_empty() {
    let opts = Options::new(Vec::new());
    assert_eq!(opts.command, "");
    assert!(opts.command_args.is_empty());
}

#[test]
fn options_default_is_empty() {
    let opts = Options::default();
    assert_eq!(opts.command, "");
    assert!(opts.command_args.is_empty());
}

#[test]
fn config_default_places_the_file_under_home() {
    let c = Config::default("/home/u");
    assert_eq!(c.config_path, "/home/u/.config/rodeo/rodeo.toml");
    assert!(c.verbose);
    assert!(!c.prefer_disk);
    assert!(!c.prefer_repo);
    assert_eq!(c.primary_command, "");
    assert!(c.primary_command_args.is_empty());
}

#[test]
fn config_default_drops_one_trailing_separator_of_home() {
    let c = Config::default("/home/u/");
    assert_eq!(c.config_path, "/home/u/.config/rodeo/rodeo.toml");
}

#[test]
fn config_takes_command_and_arguments() {
    let c = Config::new(strings(&["deploy", "now"]), "/home/u");
    assert_eq!(c.primary_command, "deploy");
    assert_eq!(c.primary_command_args, vec!["now".to_string()]);
}

#[test]
fn config_dash_c_names_the_configuration_file() {
    let c = Config::new(strings(&["-c", "/tmp/other.toml", "deploy"]), "/home/u");
    assert_eq!(c.config_path, "/tmp/other.toml");
    assert_eq!(c.primary_command, "deploy");
}

#[test]
fn config_double_dash_sets_flags() {
    let c = Config::new(strings(&["--prefer-repo"]), "/home/u");
    assert!(c.prefer_repo);
    assert!(!c.prefer_disk);
    let c = Config::new(strings(&["--prefer-disk"]), "/home/u");
    assert!(c.prefer_disk);
    assert!(!c.prefer_repo);
}

#[test]
fn config_ignores_arguments_shorter_than_two_characters() {
    let c = Config::new(strings(&["d"]), "/home/u");
    assert_eq!(c.primary_command, "");
}

#[test]
fn config_flag_match_is_on_the_untrimmed_argument() {
    let c = Config::new(strings(&["  --prefer-disk"]), "/home/u");
    assert!(!c.prefer_disk);
}

#[test]
fn config_unknown_single_dash_swallows_the_next_argument() {
    let c = Config::new(strings(&["-x", "deploy", "collect"]), "/home/u");
    assert_eq!(c.primary_command, "deploy");
    assert_eq!(c.primary_command_args, vec!["collect".to_string()]);
}

#[test]
fn conflicting_preferences_are_detected() {
    let c = Config::new(strings(&["--prefer-repo", "--prefer-disk"]), "/home/u");
    assert!(c.conflicting_preferences());
    let c = Config::new(strings(&["--prefer-repo"]), "/home/u");
    assert!(!c.conflicting_preferences());
}
