use cargo_dispatch::discovery::list_commands;
use cargo_dispatch::outcome::unknown_command_error;
use cargo_dispatch::suggest::{find_closest, lev_distance};

fn names(v: &[&str]) -> Vec<String> {
    v.iter().map(|s| s.to_string()).collect()
}

#[test]
fn lev_distance_known_values() {
    assert_eq!(lev_distance("kitten", "sitting"), 3);
    assert_eq!(lev_distance("", "abc"), 3);
    assert_eq!(lev_distance("abc", ""), 3);
    assert_eq!(lev_distance("", ""), 0);
    assert_eq!(lev_distance("build", "build"), 0);
    assert_eq!(lev_distance("biuld", "build"), 2);
    assert_eq!(lev_distance("buidl", "build"), 2);
    assert_eq!(lev_distance("bulid", "build"), 2);
    assert_eq!(lev_distance("tset", "test"), 2);
    assert_eq!(lev_distance("héllo", "hello"), 1);
}

#[test]
fn typo_suggests_build() {
    let known = list_commands(&vec![], "");
    let closest = find_closest("biuld", &known);
    assert_eq!(closest, Some("build".to_string()));
    let err = unknown_command_error(closest);
    assert_eq!(err.exit_code, 127);
    assert!(err.message.contains("Did you mean `build`?"));
    assert_eq!(err.message, "No such subcommand\n\n\tDid you mean `build`?\n");
}

#[test]
fn far_name_gets_no_suggestion() {
    let known = list_commands(&vec![], "");
    let closest = find_closest("xyzzyplugh", &known);
    assert_eq!(closest, None);
    let err = unknown_command_error(closest);
    assert_eq!(err.exit_code, 127);
    assert_eq!(err.message, "No such subcommand");
}

#[test]
fn suggestion_needs_distance_below_four() {
    let cands = names(&["abcd"]);
    assert_eq!(find_closest("abcdxyz", &cands), Some("abcd".to_string()));
    assert_eq!(find_closest("abcdwxyz", &cands), None);
    assert_eq!(find_closest("anything", &vec![]), None);
}

#[test]
fn suggestion_prefers_least_distance() {
    let cands = names(&["tast", "test", "txxt"]);
    assert_eq!(find_closest("test", &cands), Some("test".to_string()));
    let cands = names(&["bbxx", "abxx", "abcx"]);
    assert_eq!(find_closest("abcd", &cands), Some("abcx".to_string()));
}

#[test]
fn suggestion_ties_go_to_first_candidate() {
    let cands = names(&["bat", "cat", "hat"]);
    assert_eq!(find_closest("rat", &cands), Some("bat".to_string()));
    let cands = names(&["hat", "cat", "bat"]);
    assert_eq!(find_closest("rat", &cands), Some("hat".to_string()));
}
