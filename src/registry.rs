//! The builtin commands, handled in-process.
use vstd::prelude::*;
use crate::text::{lemma_text_lt_transitive, same_text, text_lt};

verus! {

/// The names of the builtin commands, in registry order.
pub open spec fn builtin_names() -> Seq<Seq<char>> {
    seq![
        "bench"@,
        "build"@,
        "clean"@,
        "doc"@,
        "fetch"@,
        "generate-lockfile"@,
        "git-checkout"@,
        "help"@,
        "locate-project"@,
        "login"@,
        "new"@,
        "owner"@,
        "package"@,
        "pkgid"@,
        "publish"@,
        "read-manifest"@,
        "run"@,
        "search"@,
        "test"@,
        "update"@,
        "verify-project"@,
        "version"@,
        "yank"@,
    ]
}

pub open spec fn str_views(v: Seq<&str>) -> Seq<Seq<char>> {
    v.map_values(|s: &str| s@)
}

/// Each builtin name comes strictly before the next, so no name is listed
/// twice.
pub proof fn lemma_builtin_names_sorted()
    ensures
        forall|i: int, j: int|
            0 <= i < j < builtin_names().len() ==> text_lt(builtin_names()[i], builtin_names()[j]),
{
    reveal_strlit("bench");
    reveal_strlit("build");
    reveal_strlit("clean");
    reveal_strlit("doc");
    reveal_strlit("fetch");
    reveal_strlit("generate-lockfile");
    reveal_strlit("git-checkout");
    reveal_strlit("help");
    reveal_strlit("locate-project");
    reveal_strlit("login");
    reveal_strlit("new");
    reveal_strlit("owner");
    reveal_strlit("package");
    reveal_strlit("pkgid");
    reveal_strlit("publish");
    reveal_strlit("read-manifest");
    reveal_strlit("run");
    reveal_strlit("search");
    reveal_strlit("test");
    reveal_strlit("update");
    reveal_strlit("verify-project");
    reveal_strlit("version");
    reveal_strlit("yank");
    reveal_with_fuel(text_lt, 5);
    let b = builtin_names();
    assert(text_lt(b[0], b[1]));
    assert(text_lt(b[1], b[2]));
    assert(text_lt(b[2], b[3]));
    assert(text_lt(b[3], b[4]));
    assert(text_lt(b[4], b[5]));
    assert(text_lt(b[5], b[6]));
    assert(text_lt(b[6], b[7]));
    assert(text_lt(b[7], b[8]));
    assert(text_lt(b[8], b[9]));
    assert(text_lt(b[9], b[10]));
    assert(text_lt(b[10], b[11]));
    assert(text_lt(b[11], b[12]));
    assert(text_lt(b[12], b[13]));
    assert(text_lt(b[13], b[14]));
    assert(text_lt(b[14], b[15]));
    assert(text_lt(b[15], b[16]));
    assert(text_lt(b[16], b[17]));
    assert(text_lt(b[17], b[18]));
    assert(text_lt(b[18], b[19]));
    assert(text_lt(b[19], b[20]));
    assert(text_lt(b[20], b[21]));
    assert(text_lt(b[21], b[22]));
    assert forall|i: int, j: int| 0 <= i < j < b.len() implies text_lt(b[i], b[j]) by {
        lemma_sorted_by_neighbours(b, i, j);
    }
}

proof fn lemma_sorted_by_neighbours(s: Seq<Seq<char>>, i: int, j: int)
    requires
        0 <= i < j < s.len(),
        forall|k: int| 0 <= k < s.len() - 1 ==> text_lt(#[trigger] s[k], s[k + 1]),
    ensures
        text_lt(s[i], s[j]),
    decreases j - i,
{
    if j > i + 1 {
        lemma_sorted_by_neighbours(s, i + 1, j);
        lemma_text_lt_transitive(s[i], s[i + 1], s[j]);
    }
}

/// The builtin command names.
pub fn builtin_commands() -> (r: Vec<&'static str>)
    ensures
        str_views(r@) == builtin_names(),
{
    let r = vec![
        "bench",
        "build",
        "clean",
        "doc",
        "fetch",
        "generate-lockfile",
        "git-checkout",
        "help",
        "locate-project",
        "login",
        "new",
        "owner",
        "package",
        "pkgid",
        "publish",
        "read-manifest",
        "run",
        "search",
        "test",
        "update",
        "verify-project",
        "version",
        "yank",
    ];
    assert(str_views(r@) =~= builtin_names());
    r
}

/// Whether `name` is a builtin command.
pub fn is_builtin(name: &str) -> (r: bool)
    ensures
        r == builtin_names().contains(name@),
{
    let names = builtin_commands();
    let mut k: usize = 0;
    while k < names.len()
        invariant
            k <= names@.len(),
            str_views(names@) == builtin_names(),
            forall|t: int| 0 <= t < k ==> builtin_names()[t] != name@,
        decreases names@.len() - k,
    {
        if same_text(names[k], name) {
            assert(builtin_names()[k as int] == name@);
            return true;
        }
        k = k + 1;
    }
    proof {
        if builtin_names().contains(name@) {
            let t = choose|t: int| 0 <= t < builtin_names().len() && builtin_names()[t] == name@;
            assert(builtin_names()[t] == name@);
        }
    }
    false
}

} // verus!
