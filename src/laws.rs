//! Properties that relate the library's functions, proved over the spec
//! functions their contracts use.
use vstd::prelude::*;
use crate::discovery::{installed, provides, strictly_sorted, ScannedFile};
use crate::dispatch::{routes_to, shows_usage, target_command, Invocation};
use crate::outcome::{
    signal_message, signed_decimal, spec_exit_status, spec_from_exit_code, spec_outcome_error,
    ExitOutcome,
};
use crate::pkgid::{result_view, spec_of_id, spec_pkgid, PackageId, PkgidError, PackageIdSpec};
use crate::registry::{builtin_names, lemma_builtin_names_sorted};
use crate::text::{lemma_text_lt_irreflexive, text_lt};

verus! {

/// Every builtin command is installed, whatever the search directories held,
/// and with nothing found in them the installed commands are exactly the
/// builtin ones.
pub proof fn lemma_builtins_always_listed(files: Seq<ScannedFile>, exe_suffix: Seq<char>)
    ensures
        forall|x: Seq<char>| builtin_names().contains(x) ==> installed(files, exe_suffix, x),
        files.len() == 0 ==> forall|x: Seq<char>|
            installed(files, exe_suffix, x) <==> builtin_names().contains(x),
{
}

/// With no plugin found, the installed commands are exactly the builtin ones,
/// each listed once: 23 names.
pub proof fn lemma_empty_search_lists_builtins(listed: Seq<Seq<char>>, exe_suffix: Seq<char>)
    requires
        strictly_sorted(listed),
        forall|x: Seq<char>| listed.contains(x) <==> installed(Seq::empty(), exe_suffix, x),
    ensures
        listed.to_set() == builtin_names().to_set(),
        listed.no_duplicates(),
        listed.len() == builtin_names().len(),
        listed.len() == 23,
{
    lemma_sorted_listing_has_no_duplicates(listed);
    lemma_builtin_names_sorted();
    lemma_sorted_listing_has_no_duplicates(builtin_names());
    assert(listed.to_set() =~= builtin_names().to_set());
    listed.unique_seq_to_set();
    builtin_names().unique_seq_to_set();
}

/// A listing in strictly increasing order names each command once.
pub proof fn lemma_sorted_listing_has_no_duplicates(s: Seq<Seq<char>>)
    requires
        strictly_sorted(s),
    ensures
        forall|i: int, j: int| 0 <= i < j < s.len() ==> s[i] != s[j],
        s.no_duplicates(),
{
    assert forall|i: int, j: int| 0 <= i < j < s.len() implies s[i] != s[j] by {
        lemma_text_lt_irreflexive(s[i]);
    }
}

/// A name that is both a builtin command and an installed plugin is never
/// routed to the plugin: it goes to the builtin command, or, for a bare `help`,
/// to the top-level usage that the builtin help shows.
pub proof fn lemma_builtin_takes_priority(
    files: Seq<ScannedFile>,
    exe_suffix: Seq<char>,
    command: Seq<char>,
    args: Seq<Seq<char>>,
    r: Invocation,
)
    requires
        routes_to(false, command, args, r),
        builtin_names().contains(target_command(command, args)),
        exists|k: int|
            0 <= k < files.len() && provides(files[k], exe_suffix, target_command(command, args)),
    ensures
        !(r is Plugin),
        !shows_usage(command, args) ==> r is Builtin,
        shows_usage(command, args) ==> command == "help"@ && r is ShowUsage,
{
    if shows_usage(command, args) && command == ""@ {
        assert(false) by {
            let k = choose|k: int| 0 <= k < builtin_names().len() && builtin_names()[k] == ""@;
            reveal_strlit("");
            lemma_empty_not_builtin(k);
        }
    }
}

proof fn lemma_empty_not_builtin(k: int)
    requires
        0 <= k < builtin_names().len(),
    ensures
        builtin_names()[k] != ""@,
{
    lemma_builtin_names_sorted();
    reveal_strlit("");
    reveal_strlit("bench");
    assert(builtin_names()[0] == "bench"@);
    assert(builtin_names()[0].len() > 0);
    if k > 0 {
        assert(text_lt(builtin_names()[0], builtin_names()[k]));
    }
}

/// A plugin that exits normally with code `n` makes the dispatcher exit with
/// `n`, and a non-zero code is reported under that same code.
pub proof fn lemma_exit_code_passthrough(n: i32)
    requires
        0 <= n < 256,
    ensures
        spec_exit_status(spec_from_exit_code(n)) == n,
        n == 0 ==> spec_outcome_error(spec_from_exit_code(n)) is None,
        n != 0 ==> (spec_outcome_error(spec_from_exit_code(n)) matches Some((_, c)) && c == n),
{
}

/// A plugin killed by signal `s` makes the dispatcher exit with `s`, under a
/// message that ends with the decimal rendering of `s`.
pub proof fn lemma_signal_passthrough(s: i32)
    ensures
        spec_exit_status(ExitOutcome::Signaled(s)) == s,
        spec_outcome_error(ExitOutcome::Signaled(s)) == Some((signal_message(s), s)),
        signal_message(s).skip(signal_message(s).len() - signed_decimal(s as int).len())
            == signed_decimal(s as int),
{
    let m = signal_message(s);
    let d = signed_decimal(s as int);
    assert(m.skip(m.len() - d.len()) =~= d);
}

/// Without a specifier, resolving against a present lock file always yields
/// the project's own identifier, so repeated calls agree.
pub proof fn lemma_pkgid_stable(
    package: PackageId,
    first: Result<PackageIdSpec, PkgidError>,
    second: Result<PackageIdSpec, PkgidError>,
)
    requires
        result_view(first) == spec_pkgid(package, true, None),
        result_view(second) == spec_pkgid(package, true, None),
    ensures
        result_view(first) == result_view(second),
        result_view(first) == Ok::<_, Option<Seq<char>>>(spec_of_id(package)),
{
}

} // verus!
