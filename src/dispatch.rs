//! Deciding what an invocation asks for: the command list, the top-level
//! usage, a builtin command or a plugin, with the argument list it receives.
use vstd::prelude::*;
use crate::registry::{builtin_names, is_builtin};
use crate::text::{same_text, views};

verus! {

/// The first entry of every argument list handed to a command, standing where
/// a program name would.
pub const PROGRAM_NAME: &'static str = "foo";

/// What an invocation is routed to.
pub enum Invocation {
    /// Print the installed commands.
    ListCommands,
    /// Print the top-level usage.
    ShowUsage,
    /// Run a builtin command in-process with the given argument list.
    Builtin { command: String, argv: Vec<String> },
    /// Run the plugin for `command` with the given argument list.
    Plugin { command: String, argv: Vec<String> },
}

pub open spec fn is_help_flag(s: Seq<char>) -> bool {
    s == "-h"@ || s == "--help"@
}

/// Whether the invocation only asks for the top-level usage.
pub open spec fn shows_usage(command: Seq<char>, args: Seq<Seq<char>>) -> bool {
    (command == ""@ || command == "help"@) && args.len() == 0
}

/// The command that an invocation names: `help <cmd>` names `<cmd>`.
pub open spec fn target_command(command: Seq<char>, args: Seq<Seq<char>>) -> Seq<char> {
    if command == "help"@ && args.len() > 0 && !is_help_flag(args[0]) {
        args[0]
    } else {
        command
    }
}

/// The arguments that follow the command: `help <cmd>` asks `<cmd>` for its
/// usage with `-h`.
pub open spec fn target_args(command: Seq<char>, args: Seq<Seq<char>>) -> Seq<Seq<char>> {
    if command == "help"@ && args.len() > 0 && !is_help_flag(args[0]) {
        seq!["-h"@]
    } else {
        args
    }
}

/// The full argument list handed to the command.
pub open spec fn target_argv(command: Seq<char>, args: Seq<Seq<char>>) -> Seq<Seq<char>> {
    seq![PROGRAM_NAME@, target_command(command, args)] + target_args(command, args)
}

/// Where an invocation goes, given the `--list` flag, the command word and the
/// arguments after it.
pub open spec fn routes_to(
    list: bool,
    command: Seq<char>,
    args: Seq<Seq<char>>,
    r: Invocation,
) -> bool {
    if list {
        r is ListCommands
    } else if shows_usage(command, args) {
        r is ShowUsage
    } else {
        match r {
            Invocation::Builtin { command: c, argv } => {
                &&& builtin_names().contains(target_command(command, args))
                &&& c@ == target_command(command, args)
                &&& views(argv@) == target_argv(command, args)
            },
            Invocation::Plugin { command: c, argv } => {
                &&& !builtin_names().contains(target_command(command, args))
                &&& c@ == target_command(command, args)
                &&& views(argv@) == target_argv(command, args)
            },
            _ => false,
        }
    }
}

fn push_all(out: &mut Vec<String>, v: &Vec<String>)
    ensures
        views(final(out)@) == views(old(out)@) + views(v@),
{
    let ghost start = views(out@);
    let mut k: usize = 0;
    while k < v.len()
        invariant
            k <= v@.len(),
            views(out@) == start + views(v@).take(k as int),
        decreases v@.len() - k,
    {
        let ghost before = out@;
        let item = v[k].clone();
        assert(item@ == views(v@)[k as int]);
        out.push(item);
        assert(views(out@) =~= views(before).push(item@));
        k = k + 1;
        assert(views(out@) =~= start + views(v@).take(k as int));
    }
    assert(views(v@).take(v@.len() as int) =~= views(v@));
}

/// Routes an invocation. Builtin commands take priority over plugins of the
/// same name.
pub fn route(list: bool, command: &str, args: &Vec<String>) -> (r: Invocation)
    ensures
        routes_to(list, command@, views(args@), r),
{
    let ghost va = views(args@);
    if list {
        return Invocation::ListCommands;
    }
    let is_help = same_text(command, "help");
    if args.len() == 0 && (is_help || same_text(command, "")) {
        return Invocation::ShowUsage;
    }
    let mut asks_usage = false;
    if is_help && args.len() > 0 {
        let first = args[0].as_str();
        asks_usage = !(same_text(first, "-h") || same_text(first, "--help"));
        assert(va[0] == args@[0]@);
    }
    let mut argv: Vec<String> = Vec::new();
    argv.push(String::from_str(PROGRAM_NAME));
    let name: String;
    if asks_usage {
        name = args[0].clone();
        argv.push(args[0].clone());
        argv.push(String::from_str("-h"));
    } else {
        name = String::from_str(command);
        argv.push(String::from_str(command));
        push_all(&mut argv, args);
    }
    proof {
        assert(views(argv@) =~= target_argv(command@, va));
    }
    if is_builtin(name.as_str()) {
        Invocation::Builtin { command: name, argv }
    } else {
        Invocation::Plugin { command: name, argv }
    }
}

} // verus!
