use cargo_dispatch::discovery::{
    candidate_paths, command_of, first_executable, is_executable, list_commands,
    plugin_file_name, search_directories, ScannedFile,
};
use cargo_dispatch::registry::{builtin_commands, is_builtin};

fn file(name: &str, executable: bool) -> ScannedFile {
    ScannedFile { file_name: name.to_string(), executable }
}

fn sorted_builtins() -> Vec<String> {
    let mut b: Vec<String> = builtin_commands().iter().map(|s| s.to_string()).collect();
    b.sort();
    b
}

#[test]
fn empty_search_lists_exactly_builtins() {
    let listed = list_commands(&vec![], "");
    assert_eq!(listed, sorted_builtins());
    assert_eq!(listed.len(), 23);
    for w in listed.windows(2) {
        assert!(w[0] < w[1]);
    }
}

#[test]
fn listing_keeps_builtins_and_adds_plugins() {
    let files = vec![
        file("cargo-zeta", true),
        file("cargo-alpha", true),
        file("cargo-hidden", false),
        file("other-tool", true),
        file("cargo-build", true),
        file("cargo-alpha", true),
    ];
    let listed = list_commands(&files, "");
    let mut expected = sorted_builtins();
    expected.push("alpha".to_string());
    expected.push("zeta".to_string());
    expected.sort();
    assert_eq!(listed, expected);
    for b in builtin_commands() {
        assert!(listed.iter().any(|c| c == b));
    }
    assert!(!listed.iter().any(|c| c == "hidden"));
}

#[test]
fn listing_strips_the_executable_suffix() {
    let files = vec![file("cargo-fmt.exe", true), file("cargo-clippy", true)];
    let listed = list_commands(&files, ".exe");
    assert!(listed.iter().any(|c| c == "fmt"));
    assert!(!listed.iter().any(|c| c == "clippy"));
}

#[test]
fn command_names_from_file_names() {
    assert_eq!(command_of("cargo-fmt", ""), Some("fmt".to_string()));
    assert_eq!(command_of("cargo-fmt.exe", ".exe"), Some("fmt".to_string()));
    assert_eq!(command_of("cargo-", ""), Some(String::new()));
    assert_eq!(command_of("cargo", ""), None);
    assert_eq!(command_of("rustc-fmt", ""), None);
    assert_eq!(command_of("cargo-fmt", ".exe"), None);
    assert_eq!(command_of("cargo-.exe", ".exe"), Some(String::new()));
    assert_eq!(command_of("cargo.exe", ".exe"), None);
}

#[test]
fn plugin_file_name_follows_convention() {
    assert_eq!(plugin_file_name("fmt", ""), "cargo-fmt");
    assert_eq!(plugin_file_name("fmt", ".exe"), "cargo-fmt.exe");
}

#[test]
fn executable_needs_regular_file_and_exec_bit() {
    assert!(is_executable(true, 0o755));
    assert!(is_executable(true, 0o001));
    assert!(is_executable(true, 0o010));
    assert!(is_executable(true, 0o100));
    assert!(!is_executable(true, 0o644));
    assert!(!is_executable(false, 0o755));
}

#[test]
fn search_directories_in_order() {
    let path = vec!["/usr/bin".to_string(), "/bin".to_string()];
    let dirs = search_directories(Some("/opt/tool/bin"), &path);
    assert_eq!(
        dirs,
        vec![
            "/opt/tool/bin/../lib/cargo".to_string(),
            "/opt/tool/bin".to_string(),
            "/usr/bin".to_string(),
            "/bin".to_string(),
        ]
    );
    assert_eq!(search_directories(None, &vec![]), Vec::<String>::new());
    assert_eq!(search_directories(None, &path), path);
}

#[test]
fn candidate_paths_per_directory() {
    let dirs = vec!["/a".to_string(), "/b".to_string()];
    assert_eq!(
        candidate_paths(&dirs, "fmt", ""),
        vec!["/a/cargo-fmt".to_string(), "/b/cargo-fmt".to_string()]
    );
}

#[test]
fn first_executable_directory_wins() {
    assert_eq!(first_executable(&vec![(false, 0), (true, 0o755), (true, 0o755)]), Some(1));
    assert_eq!(first_executable(&vec![(true, 0o644), (false, 0o755), (true, 0o100)]), Some(2));
    assert_eq!(first_executable(&vec![(true, 0o700), (true, 0o755)]), Some(0));
    assert_eq!(first_executable(&vec![(true, 0o644), (false, 0)]), None);
    assert_eq!(first_executable(&vec![]), None);
}

#[test]
fn builtin_membership() {
    assert!(is_builtin("build"));
    assert!(is_builtin("generate-lockfile"));
    assert!(!is_builtin("generate_lockfile"));
    assert!(!is_builtin("fmt"));
    assert!(!is_builtin(""));
}
