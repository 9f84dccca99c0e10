use hpmq_cli::args::{Args, ContainInitArgs, default_reference, package_pair};
use hpmq_cli::dest::Dest;

#[test]
fn dest_with_file_name() {
    let d = Dest::from_path("/app/x.wasm");
    assert_eq!(d.directory, "/app/");
    assert_eq!(d.file_name.as_deref(), Some("x.wasm"));
}

#[test]
fn dest_with_trailing_separator_has_no_file_name() {
    let d = Dest::from_path("/app/");
    assert_eq!(d.directory, "/app/");
    assert!(d.file_name.is_none());
}

#[test]
fn dest_single_segment() {
    let d = Dest::from_path("a.txt");
    assert_eq!(d.directory, "");
    assert_eq!(d.file_name.as_deref(), Some("a.txt"));
}

#[test]
fn dest_empty_string() {
    let d = Dest::from_path("");
    assert_eq!(d.directory, "");
    assert!(d.file_name.is_none());
}

#[test]
fn dest_parsing_is_deterministic() {
    let a = Dest::from_path("one/two/three");
    let b = Dest::from_path("one/two/three");
    assert_eq!(a.directory, b.directory);
    assert_eq!(a.file_name, b.file_name);
    assert_eq!(a.directory, "one/two/");
    assert_eq!(a.file_name.as_deref(), Some("three"));
}

#[test]
fn template_path_wins_over_git() {
    let args = Args {
        git: "https://example.invalid/template.git".to_string(),
        path: Some("./local".to_string()),
    };
    let t = args.to_generate_args();
    assert!(t.git.is_none());
    assert_eq!(t.path.as_deref(), Some("./local"));
}

#[test]
fn template_git_used_without_path() {
    let args = Args { git: "https://example.invalid/template.git".to_string(), path: None };
    let t = args.to_generate_args();
    assert_eq!(t.git.as_deref(), Some("https://example.invalid/template.git"));
    assert!(t.path.is_none());
}

#[test]
fn force_flag_is_case_insensitive() {
    let mut args = ContainInitArgs {
        user_name: None,
        password: None,
        image: "demo:1".to_string(),
        force: "TRUE".to_string(),
    };
    assert!(args.is_force());
    args.force = "true".to_string();
    assert!(args.is_force());
    args.force = "false".to_string();
    assert!(!args.is_force());
    args.force = "".to_string();
    assert!(!args.is_force());
}

#[test]
fn default_reference_names_the_project() {
    let r = default_reference("my-demos".to_string(), "0.3".to_string());
    assert_eq!(r.registry, "repo.netfuse.cn");
    assert_eq!(r.repository, "hpmq_dev/my-demos");
    assert_eq!(r.tag, "0.3");
}

#[test]
fn package_pair_needs_both_parts() {
    let p = package_pair(Some("demo".to_string()), Some("0.1".to_string()));
    assert_eq!(p, Some(("demo".to_string(), "0.1".to_string())));
    assert!(package_pair(None, Some("0.1".to_string())).is_none());
    assert!(package_pair(Some("demo".to_string()), None).is_none());
    assert!(package_pair(None, None).is_none());
}
