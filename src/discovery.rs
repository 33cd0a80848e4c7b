//! Plugin discovery: the ordered search directories, the plugin naming
//! convention, and the listing of every installed command.
use vstd::prelude::*;
use crate::registry::{builtin_commands, builtin_names, str_views};
use crate::text::{lemma_text_lt_total, lemma_text_lt_transitive, same_text, text_less, text_lt, views};

verus! {

/// Every plugin file name starts with this prefix.
pub const COMMAND_PREFIX: &'static str = "cargo-";

/// A file seen while scanning a search directory.
pub struct ScannedFile {
    pub file_name: String,
    /// Whether the file is a regular file with an execute permission bit set.
    pub executable: bool,
}

/// The plugin file name for `command`.
pub open spec fn spec_plugin_file_name(command: Seq<char>, exe_suffix: Seq<char>) -> Seq<char> {
    COMMAND_PREFIX@ + command + exe_suffix
}

/// The command a file name stands for, if it follows the naming convention.
pub open spec fn spec_command_of(file_name: Seq<char>, exe_suffix: Seq<char>) -> Option<Seq<char>> {
    let p = COMMAND_PREFIX@.len();
    let e = file_name.len() - exe_suffix.len();
    if file_name.len() >= p + exe_suffix.len() && file_name.take(p as int) == COMMAND_PREFIX@
        && file_name.skip(e) == exe_suffix {
        Some(file_name.subrange(p as int, e))
    } else {
        None
    }
}

/// Whether `file` contributes `command` to the listing.
pub open spec fn provides(file: ScannedFile, exe_suffix: Seq<char>, command: Seq<char>) -> bool {
    file.executable && spec_command_of(file.file_name@, exe_suffix) == Some(command)
}

/// Whether `command` is installed, as a builtin or as a plugin among `files`.
pub open spec fn installed(files: Seq<ScannedFile>, exe_suffix: Seq<char>, command: Seq<char>) -> bool {
    builtin_names().contains(command) || exists|k: int|
        0 <= k < files.len() && provides(files[k], exe_suffix, command)
}

/// Strictly increasing in lexicographic order, hence free of duplicates.
pub open spec fn strictly_sorted(s: Seq<Seq<char>>) -> bool {
    forall|i: int, j: int| 0 <= i < j < s.len() ==> text_lt(s[i], s[j])
}

/// Whether a directory entry may be run as a plugin: a regular file with at
/// least one execute permission bit set in `mode`.
pub fn is_executable(is_regular_file: bool, mode: u32) -> (r: bool)
    ensures
        r == spec_is_executable((is_regular_file, mode)),
{
    is_regular_file && mode & 0o111u32 != 0
}

/// The plugin file name for `command`.
pub fn plugin_file_name(command: &str, exe_suffix: &str) -> (r: String)
    ensures
        r@ == spec_plugin_file_name(command@, exe_suffix@),
{
    let mut r = String::from_str(COMMAND_PREFIX);
    r.append(command);
    r.append(exe_suffix);
    r
}

/// The command that `file_name` provides, if it follows the naming convention.
pub fn command_of(file_name: &str, exe_suffix: &str) -> (r: Option<String>)
    ensures
        match spec_command_of(file_name@, exe_suffix@) {
            None => r is None,
            Some(c) => r matches Some(s) && s@ == c,
        },
{
    proof {
        reveal_strlit("cargo-");
    }
    let n = file_name.unicode_len();
    let p = COMMAND_PREFIX.unicode_len();
    let s = exe_suffix.unicode_len();
    if n < p || n - p < s {
        return None;
    }
    let e = n - s;
    if !same_text(file_name.substring_char(0, p), COMMAND_PREFIX) {
        return None;
    }
    if !same_text(file_name.substring_char(e, n), exe_suffix) {
        return None;
    }
    proof {
        assert(file_name@.take(p as int) =~= file_name@.subrange(0, p as int));
        assert(file_name@.skip(e as int) =~= file_name@.subrange(e as int, n as int));
    }
    Some(String::from_str(file_name.substring_char(p, e)))
}

/// Adds `name` to `out`, keeping it strictly sorted.
fn insert_sorted(out: &mut Vec<String>, name: String)
    requires
        strictly_sorted(views(old(out)@)),
    ensures
        strictly_sorted(views(final(out)@)),
        forall|x: Seq<char>|
            views(final(out)@).contains(x) <==> (views(old(out)@).contains(x) || x == name@),
{
    let ghost before = views(out@);
    let mut p: usize = 0;
    while p < out.len() && text_less(out[p].as_str(), name.as_str())
        invariant
            p <= out@.len(),
            views(out@) == before,
            forall|t: int| 0 <= t < p ==> text_lt(before[t], name@),
        decreases out@.len() - p,
    {
        p = p + 1;
    }
    if p < out.len() && same_text(out[p].as_str(), name.as_str()) {
        assert(before[p as int] == name@);
        return;
    }
    proof {
        if p < out@.len() {
            assert(before[p as int] == out@[p as int]@);
            lemma_text_lt_total(before[p as int], name@);
            assert forall|t: int| p <= t < before.len() implies text_lt(name@, before[t]) by {
                if t > p {
                    lemma_text_lt_transitive(name@, before[p as int], before[t]);
                }
            }
        }
    }
    let ghost item = name@;
    out.insert(p, name);
    proof {
        let after = views(out@);
        assert(after =~= before.insert(p as int, item));
        assert forall|x: Seq<char>| after.contains(x) <==> (before.contains(x) || x == item) by {
            if after.contains(x) {
                let t = choose|t: int| 0 <= t < after.len() && after[t] == x;
                if t < p {
                    assert(before[t] == x);
                } else if t > p {
                    assert(before[t - 1] == x);
                }
            }
            if before.contains(x) {
                let t = choose|t: int| 0 <= t < before.len() && before[t] == x;
                if t < p {
                    assert(after[t] == x);
                } else {
                    assert(after[t + 1] == x);
                }
            }
            if x == item {
                assert(after[p as int] == x);
            }
        }
    }
}

/// Every installed command: the builtin ones and those provided by executable
/// files that follow the naming convention, each once, in lexicographic order.
pub fn list_commands(files: &Vec<ScannedFile>, exe_suffix: &str) -> (r: Vec<String>)
    ensures
        strictly_sorted(views(r@)),
        forall|x: Seq<char>| views(r@).contains(x) <==> installed(files@, exe_suffix@, x),
{
    let mut out: Vec<String> = Vec::new();
    let mut k: usize = 0;
    while k < files.len()
        invariant
            k <= files@.len(),
            strictly_sorted(views(out@)),
            forall|x: Seq<char>|
                views(out@).contains(x) <==> exists|t: int|
                    0 <= t < k && provides(files@[t], exe_suffix@, x),
        decreases files@.len() - k,
    {
        let file = &files[k];
        if file.executable {
            match command_of(file.file_name.as_str(), exe_suffix) {
                Some(name) => {
                    insert_sorted(&mut out, name);
                },
                None => {},
            }
        }
        proof {
            assert forall|x: Seq<char>| (exists|t: int| 0 <= t < k + 1 && provides(files@[t], exe_suffix@, x))
                <==> ((exists|t: int| 0 <= t < k && provides(files@[t], exe_suffix@, x))
                    || provides(files@[k as int], exe_suffix@, x)) by {
                if exists|t: int| 0 <= t < k + 1 && provides(files@[t], exe_suffix@, x) {
                    let t = choose|t: int| 0 <= t < k + 1 && provides(files@[t], exe_suffix@, x);
                    if t < k {
                        assert(exists|t: int| 0 <= t < k && provides(files@[t], exe_suffix@, x));
                    }
                }
            }
        }
        k = k + 1;
    }
    let builtins = builtin_commands();
    let mut b: usize = 0;
    while b < builtins.len()
        invariant
            b <= builtins@.len(),
            str_views(builtins@) == builtin_names(),
            strictly_sorted(views(out@)),
            forall|x: Seq<char>|
                views(out@).contains(x) <==> ((exists|t: int|
                    0 <= t < files@.len() && provides(files@[t], exe_suffix@, x))
                    || builtin_names().take(b as int).contains(x)),
        decreases builtins@.len() - b,
    {
        let name = String::from_str(builtins[b]);
        assert(name@ == builtin_names()[b as int]);
        insert_sorted(&mut out, name);
        proof {
            let prev = builtin_names().take(b as int);
            let next = builtin_names().take(b + 1);
            assert(next =~= prev.push(builtin_names()[b as int]));
            assert forall|x: Seq<char>| next.contains(x) <==> (prev.contains(x) || x
                == builtin_names()[b as int]) by {
                if next.contains(x) {
                    let t = choose|t: int| 0 <= t < next.len() && next[t] == x;
                    if t < b {
                        assert(prev[t] == x);
                    }
                }
                if prev.contains(x) {
                    let t = choose|t: int| 0 <= t < prev.len() && prev[t] == x;
                    assert(next[t] == x);
                }
                if x == builtin_names()[b as int] {
                    assert(next[b as int] == x);
                }
            }
        }
        b = b + 1;
    }
    assert(builtin_names().take(builtins@.len() as int) =~= builtin_names());
    out
}

/// The ordered search directories: a `lib/cargo` directory beside the
/// executable's directory and that directory itself, when it is known, then
/// every entry of the search path, in order.
pub fn search_directories(exe_dir: Option<&str>, path_entries: &Vec<String>) -> (r: Vec<String>)
    ensures
        views(r@) == match exe_dir {
            Some(d) => seq![d@ + "/../lib/cargo"@, d@],
            None => Seq::empty(),
        } + views(path_entries@),
{
    let mut r: Vec<String> = Vec::new();
    match exe_dir {
        Some(d) => {
            let mut lib = String::from_str(d);
            lib.append("/../lib/cargo");
            r.push(lib);
            r.push(String::from_str(d));
        },
        None => {},
    }
    let ghost start = views(r@);
    let mut k: usize = 0;
    while k < path_entries.len()
        invariant
            k <= path_entries@.len(),
            views(r@) == start + views(path_entries@).take(k as int),
        decreases path_entries@.len() - k,
    {
        let ghost before = r@;
        let item = path_entries[k].clone();
        r.push(item);
        assert(views(r@) =~= views(before).push(item@));
        k = k + 1;
        assert(views(r@) =~= start + views(path_entries@).take(k as int));
    }
    assert(views(path_entries@).take(path_entries@.len() as int) =~= views(path_entries@));
    assert(views(r@) =~= match exe_dir {
        Some(d) => seq![d@ + "/../lib/cargo"@, d@],
        None => Seq::empty(),
    } + views(path_entries@));
    r
}

/// Where the plugin for `command` would stand in each search directory, in
/// the same order.
pub fn candidate_paths(dirs: &Vec<String>, command: &str, exe_suffix: &str) -> (r: Vec<String>)
    ensures
        r@.len() == dirs@.len(),
        forall|k: int|
            0 <= k < dirs@.len() ==> r@[k]@ == dirs@[k]@ + "/"@ + spec_plugin_file_name(
                command@,
                exe_suffix@,
            ),
{
    let file_name = plugin_file_name(command, exe_suffix);
    let mut r: Vec<String> = Vec::new();
    let mut k: usize = 0;
    while k < dirs.len()
        invariant
            k <= dirs@.len(),
            r@.len() == k,
            file_name@ == spec_plugin_file_name(command@, exe_suffix@),
            forall|t: int| 0 <= t < k ==> r@[t]@ == dirs@[t]@ + "/"@ + file_name@,
        decreases dirs@.len() - k,
    {
        let mut path = dirs[k].clone();
        path.append("/");
        path.append(file_name.as_str());
        r.push(path);
        k = k + 1;
    }
    r
}

pub open spec fn spec_is_executable(file: (bool, u32)) -> bool {
    file.0 && file.1 & 0o111u32 != 0
}

/// The plugin to run: the position of the first candidate path that is a
/// regular file with an execute bit set. Each entry of `files` holds whether
/// the path is a regular file and its permission bits; a path that does not
/// exist is `(false, 0)`.
pub fn first_executable(files: &Vec<(bool, u32)>) -> (r: Option<usize>)
    ensures
        match r {
            None => forall|k: int| 0 <= k < files@.len() ==> !spec_is_executable(files@[k]),
            Some(i) => i < files@.len() && spec_is_executable(files@[i as int]) && forall|k: int|
                0 <= k < i ==> !spec_is_executable(files@[k]),
        },
{
    let mut k: usize = 0;
    while k < files.len()
        invariant
            k <= files@.len(),
            forall|t: int| 0 <= t < k ==> !spec_is_executable(files@[t]),
        decreases files@.len() - k,
    {
        let (regular, mode) = files[k];
        if is_executable(regular, mode) {
            return Some(k);
        }
        k = k + 1;
    }
    None
}

} // verus!
