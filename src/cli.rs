use vstd::prelude::*;
use vstd::string::*;
use crate::hooks::DEFAULT_DIR;

verus! {

/// A subcommand and its arguments.
#[derive(Debug)]
pub enum Command {
    /// Install into the given directory.
    Install { dir: String },
    /// Unset the hook path.
    Uninstall,
    /// Replace the content of a hook file.
    SetHook { file: String, command: String },
    /// Append to the content of a hook file.
    AddHook { file: String, command: String },
    /// Print the usage text.
    Help,
}

/// Usage text printed for a missing or unknown subcommand.
pub const USAGE: &'static str = "Usage: rusky <command> [args]

    Commands:
        install [dir]        Install rusky to git hooks directory (default: .rusky)
        uninstall            Uninstall rusky from git hooks directory
        set <file> <command> Replace the content of a hook file with a command
        add <file> <command> Append a command to a hook file

    Environment variables:
        RUSKY=0       Skip install

    Examples:
        rusky install
        rusky install .rusky
        rusky uninstall
        echo \"cargo fmt\" > .rusky/commit-msg
        echo \"cargo clippy\" >> .rusky/pre-commit";

/// Name of the opt-out environment variable.
pub const SKIP_VARIABLE: &'static str = "RUSKY";

/// Whether install is skipped, given the opt-out variable's value: only the
/// exact value `0` skips.
pub fn skip_install(value: Option<&str>) -> (r: bool)
    ensures
        r == (value is Some && value.unwrap()@ == "0"@),
{
    match value {
        Some(v) => {
            let zero = String::from_str("0");
            let given = String::from_str(v);
            given == zero
        },
        None => false,
    }
}

/// Reads the arguments that follow the program name. `install` takes an
/// optional directory (default `.rusky`); `set` and `add` take a file and a
/// command; anything else, or too few arguments, asks for the usage text.
pub fn parse_command(args: &Vec<String>) -> (r: Command)
    ensures
        args@.len() >= 1 && args@[0]@ == "install"@ ==> r is Install && r->Install_dir@ == (if args@.len()
            >= 2 {
            args@[1]@
        } else {
            DEFAULT_DIR@
        }),
        args@.len() >= 1 && args@[0]@ == "uninstall"@ ==> r is Uninstall,
        args@.len() >= 3 && args@[0]@ == "set"@ ==> r is SetHook && r->SetHook_file@ == args@[1]@
            && r->SetHook_command@ == args@[2]@,
        args@.len() >= 3 && args@[0]@ == "add"@ ==> r is AddHook && r->AddHook_file@ == args@[1]@
            && r->AddHook_command@ == args@[2]@,
        !(args@.len() >= 1 && args@[0]@ == "install"@) && !(args@.len() >= 1 && args@[0]@
            == "uninstall"@) && !(args@.len() >= 3 && args@[0]@ == "set"@) && !(args@.len() >= 3
            && args@[0]@ == "add"@) ==> r is Help,
{
    proof {
        reveal_strlit("install");
        reveal_strlit("uninstall");
        reveal_strlit("set");
        reveal_strlit("add");
        assert("set"@[0] != "add"@[0]);
        assert("install"@.len() != "uninstall"@.len());
    }
    if args.len() == 0 {
        return Command::Help;
    }
    let cmd = &args[0];
    if *cmd == String::from_str("install") {
        if args.len() >= 2 {
            Command::Install { dir: args[1].clone() }
        } else {
            Command::Install { dir: String::from_str(DEFAULT_DIR) }
        }
    } else if *cmd == String::from_str("uninstall") {
        Command::Uninstall
    } else if args.len() >= 3 && *cmd == String::from_str("set") {
        Command::SetHook { file: args[1].clone(), command: args[2].clone() }
    } else if args.len() >= 3 && *cmd == String::from_str("add") {
        Command::AddHook { file: args[1].clone(), command: args[2].clone() }
    } else {
        Command::Help
    }
}

} // verus!
