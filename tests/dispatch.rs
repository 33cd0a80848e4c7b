use cargo_dispatch::dispatch::{route, Invocation};
use cargo_dispatch::outcome::{push_decimal, push_signed_decimal, ExitOutcome, LaunchError};
use cargo_dispatch::pkgid::{pkgid, PackageId, PkgidError};
use cargo_dispatch::transport::TransportBootstrap;

fn strings(v: &[&str]) -> Vec<String> {
    v.iter().map(|s| s.to_string()).collect()
}

#[test]
fn list_flag_wins() {
    assert!(matches!(route(true, "build", &vec![]), Invocation::ListCommands));
}

#[test]
fn bare_invocation_shows_usage() {
    assert!(matches!(route(false, "", &vec![]), Invocation::ShowUsage));
    assert!(matches!(route(false, "help", &vec![]), Invocation::ShowUsage));
}

#[test]
fn builtin_takes_priority() {
    match route(false, "build", &strings(&["--release"])) {
        Invocation::Builtin { command, argv } => {
            assert_eq!(command, "build");
            assert_eq!(argv, strings(&["foo", "build", "--release"]));
        }
        _ => panic!("expected a builtin"),
    }
}

#[test]
fn unknown_name_goes_to_plugin() {
    match route(false, "fmt", &strings(&["--check"])) {
        Invocation::Plugin { command, argv } => {
            assert_eq!(command, "fmt");
            assert_eq!(argv, strings(&["foo", "fmt", "--check"]));
        }
        _ => panic!("expected a plugin"),
    }
}

#[test]
fn help_for_a_command_asks_it_for_usage() {
    match route(false, "help", &strings(&["fmt"])) {
        Invocation::Plugin { command, argv } => {
            assert_eq!(command, "fmt");
            assert_eq!(argv, strings(&["foo", "fmt", "-h"]));
        }
        _ => panic!("expected a plugin"),
    }
    match route(false, "help", &strings(&["--help"])) {
        Invocation::Builtin { command, argv } => {
            assert_eq!(command, "help");
            assert_eq!(argv, strings(&["foo", "help", "--help"]));
        }
        _ => panic!("expected a builtin"),
    }
}

#[test]
fn exit_code_passes_through() {
    for n in [1, 2, 42, 101, 255] {
        let o = ExitOutcome::from_exit_code(n);
        assert_eq!(o.exit_status(), n);
        let e = o.to_error().unwrap();
        assert_eq!(e.exit_code, n);
        assert_eq!(e.message, "");
    }
    let ok = ExitOutcome::from_exit_code(0);
    assert!(matches!(ok, ExitOutcome::Success));
    assert_eq!(ok.exit_status(), 0);
    assert!(ok.to_error().is_none());
}

#[test]
fn signal_passes_through() {
    let o = ExitOutcome::Signaled(9);
    assert_eq!(o.exit_status(), 9);
    let e = o.to_error().unwrap();
    assert_eq!(e.exit_code, 9);
    assert_eq!(e.message, "subcommand failed with signal: 9");
    let e = ExitOutcome::Signaled(15).to_error().unwrap();
    assert_eq!(e.message, "subcommand failed with signal: 15");
    assert_eq!(e.exit_code, 15);
}

#[test]
fn termination_maps_to_outcome() {
    assert!(matches!(ExitOutcome::from_termination(Some(0), None), ExitOutcome::Success));
    assert!(matches!(ExitOutcome::from_termination(Some(3), None), ExitOutcome::ExitCode(3)));
    assert!(matches!(ExitOutcome::from_termination(None, Some(11)), ExitOutcome::Signaled(11)));
    match ExitOutcome::from_termination(None, None) {
        ExitOutcome::LaunchFailed(LaunchError::Other(m)) => {
            assert_eq!(m, "terminated without an exit code")
        }
        _ => panic!("expected a launch failure"),
    }
}

#[test]
fn launch_failures_report_127() {
    let e = ExitOutcome::LaunchFailed(LaunchError::NotFound).to_error().unwrap();
    assert_eq!(e.exit_code, 127);
    assert_eq!(e.message, "No such subcommand");
    let o = ExitOutcome::LaunchFailed(LaunchError::Other("permission denied".to_string()));
    assert_eq!(o.exit_status(), 127);
    let e = o.to_error().unwrap();
    assert_eq!(e.exit_code, 127);
    assert_eq!(e.message, "Subcommand failed to run: permission denied");
}

#[test]
fn decimal_rendering() {
    let mut s = String::from("n=");
    push_decimal(&mut s, 0);
    assert_eq!(s, "n=0");
    let mut s = String::new();
    push_decimal(&mut s, 4294967295);
    assert_eq!(s, "4294967295");
    let mut s = String::new();
    push_signed_decimal(&mut s, -2147483648);
    assert_eq!(s, "-2147483648");
    let mut s = String::new();
    push_signed_decimal(&mut s, 1203);
    assert_eq!(s, "1203");
}

fn own_id() -> PackageId {
    PackageId {
        name: "foo".to_string(),
        version: "0.1.0".to_string(),
        source: "file:///work/foo".to_string(),
    }
}

#[test]
fn pkgid_without_specifier_is_stable() {
    let a = pkgid(&own_id(), true, None).ok().unwrap();
    let b = pkgid(&own_id(), true, None).ok().unwrap();
    assert_eq!(a.name, "foo");
    assert_eq!(a.version, Some("0.1.0".to_string()));
    assert_eq!(a.url, Some("file:///work/foo".to_string()));
    assert_eq!(a.name, b.name);
    assert_eq!(a.version, b.version);
    assert_eq!(a.url, b.url);
}

#[test]
fn pkgid_without_lockfile_fails() {
    assert!(matches!(pkgid(&own_id(), false, None), Err(PkgidError::MissingLockfile)));
    let dep = PackageId {
        name: "bar".to_string(),
        version: "1.0.0".to_string(),
        source: "registry+https://example.org/index".to_string(),
    };
    assert!(matches!(pkgid(&own_id(), false, Some(Ok(dep))), Err(PkgidError::MissingLockfile)));
}

#[test]
fn pkgid_uses_the_queried_package() {
    let dep = PackageId {
        name: "bar".to_string(),
        version: "1.0.0".to_string(),
        source: "registry+https://example.org/index".to_string(),
    };
    let r = pkgid(&own_id(), true, Some(Ok(dep))).ok().unwrap();
    assert_eq!(r.name, "bar");
    assert_eq!(r.version, Some("1.0.0".to_string()));
    match pkgid(&own_id(), true, Some(Err("no match".to_string()))) {
        Err(PkgidError::InvalidSpecifier(m)) => assert_eq!(m, "no match"),
        _ => panic!("expected an invalid specifier"),
    }
}

#[test]
fn transport_registers_once_with_proxy() {
    let mut t = TransportBootstrap::new();
    assert!(!t.wants_handle(false));
    assert!(t.wants_handle(true));
    assert!(t.handle_ready(true));
    assert!(t.registered);
    assert!(!t.wants_handle(true));
    let mut u = TransportBootstrap::new();
    assert!(!u.handle_ready(false));
    assert!(!u.registered);
}
