//! The command line: the interpreter to run, the directory to watch, and a
//! mode that reports the settings and exits without watching.
//!
//! Grammar, after the program name: `--redis-cli <path>`,
//! `--watch-dir <dir>` and `--dry-run`, each at most once and in any order;
//! `--help` (`-h`) and `--version` (`-V`) ask for the help or version text.
use vstd::prelude::*;

verus! {

/// The settings of one run.
#[derive(Debug)]
pub struct Cli {
    /// Path or name of the interpreter (default `redis-cli`).
    pub redis_cli: String,
    /// Directory to watch (default `.`).
    pub watch_dir: String,
    /// Report the settings and exit without watching.
    pub dry_run: bool,
}

/// Why a command line was not taken; positions count the program name as 0.
#[derive(Clone, Copy, Debug, PartialEq, Eq, Structural)]
pub enum ArgError {
    /// The argument at this position is not part of the grammar.
    UnknownArgument(usize),
    /// The option at this position is the last argument; its value is missing.
    MissingValue(usize),
    /// The option at this position was given before.
    RepeatedArgument(usize),
    /// The help text was asked for.
    HelpRequested,
    /// The version was asked for.
    VersionRequested,
}

/// The settings as plain values: interpreter, directory, dry run.
pub type CliModel = (Seq<char>, Seq<char>, bool);

impl Cli {
    pub open spec fn model(&self) -> CliModel {
        (self.redis_cli@, self.watch_dir@, self.dry_run)
    }
}

pub open spec fn opt_view(o: Option<String>) -> Option<Seq<char>> {
    match o {
        Some(s) => Some(s@),
        None => None,
    }
}

/// The meaning of the arguments from position `i` on, given the values met
/// before it.
pub open spec fn parse_at(
    args: Seq<Seq<char>>,
    i: nat,
    redis_cli: Option<Seq<char>>,
    watch_dir: Option<Seq<char>>,
    dry_run: bool,
) -> Result<CliModel, ArgError>
    decreases args.len() - i,
{
    if i >= args.len() {
        Ok(
            (
                match redis_cli {
                    Some(v) => v,
                    None => "redis-cli"@,
                },
                match watch_dir {
                    Some(v) => v,
                    None => "."@,
                },
                dry_run,
            ),
        )
    } else {
        let a = args[i as int];
        if a == "--help"@ || a == "-h"@ {
            Err(ArgError::HelpRequested)
        } else if a == "--version"@ || a == "-V"@ {
            Err(ArgError::VersionRequested)
        } else if a == "--dry-run"@ {
            if dry_run {
                Err(ArgError::RepeatedArgument(i as usize))
            } else {
                parse_at(args, i + 1, redis_cli, watch_dir, true)
            }
        } else if a == "--redis-cli"@ {
            if redis_cli is Some {
                Err(ArgError::RepeatedArgument(i as usize))
            } else if i + 1 >= args.len() {
                Err(ArgError::MissingValue(i as usize))
            } else {
                parse_at(args, i + 2, Some(args[i + 1 as int]), watch_dir, dry_run)
            }
        } else if a == "--watch-dir"@ {
            if watch_dir is Some {
                Err(ArgError::RepeatedArgument(i as usize))
            } else if i + 1 >= args.len() {
                Err(ArgError::MissingValue(i as usize))
            } else {
                parse_at(args, i + 2, redis_cli, Some(args[i + 1 as int]), dry_run)
            }
        } else {
            Err(ArgError::UnknownArgument(i as usize))
        }
    }
}

/// The meaning of a whole command line, program name first.
pub open spec fn parse_spec(args: Seq<Seq<char>>) -> Result<CliModel, ArgError> {
    parse_at(args, 1, None, None, false)
}

pub open spec fn args_view(args: Seq<&str>) -> Seq<Seq<char>> {
    args.map_values(|s: &str| s@)
}

fn same_text(a: &str, b: &str) -> (r: bool)
    ensures
        r == (a@ == b@),
{
    a.to_owned() == b.to_owned()
}

impl Cli {
    /// Reads a command line, program name first.
    pub fn try_parse_from(args: &[&str]) -> (r: Result<Cli, ArgError>)
        ensures
            r matches Ok(c) ==> parse_spec(args_view(args@)) == Ok::<CliModel, ArgError>(c.model()),
            r matches Err(e) ==> parse_spec(args_view(args@)) == Err::<CliModel, ArgError>(e),
    {
        let ghost v = args_view(args@);
        let n = args.len();
        let mut i: usize = 1;
        let mut redis_cli: Option<String> = None;
        let mut watch_dir: Option<String> = None;
        let mut dry_run = false;
        while i < n
            invariant
                n == args@.len(),
                v == args_view(args@),
                1 <= i <= n + 1,
                parse_spec(v) == parse_at(v, i as nat, opt_view(redis_cli), opt_view(watch_dir), dry_run),
            decreases n - i,
        {
            let a = args[i];
            assert(v[i as int] == a@);
            if same_text(a, "--help") || same_text(a, "-h") {
                return Err(ArgError::HelpRequested);
            } else if same_text(a, "--version") || same_text(a, "-V") {
                return Err(ArgError::VersionRequested);
            } else if same_text(a, "--dry-run") {
                if dry_run {
                    return Err(ArgError::RepeatedArgument(i));
                }
                dry_run = true;
                i = i + 1;
            } else if same_text(a, "--redis-cli") {
                if redis_cli.is_some() {
                    return Err(ArgError::RepeatedArgument(i));
                }
                if i + 1 >= n {
                    return Err(ArgError::MissingValue(i));
                }
                assert(v[i + 1] == args@[i + 1]@);
                redis_cli = Some(args[i + 1].to_owned());
                i = i + 2;
            } else if same_text(a, "--watch-dir") {
                if watch_dir.is_some() {
                    return Err(ArgError::RepeatedArgument(i));
                }
                if i + 1 >= n {
                    return Err(ArgError::MissingValue(i));
                }
                assert(v[i + 1] == args@[i + 1]@);
                watch_dir = Some(args[i + 1].to_owned());
                i = i + 2;
            } else {
                return Err(ArgError::UnknownArgument(i));
            }
        }
        let redis_cli = match redis_cli {
            Some(s) => s,
            None => "redis-cli".to_owned(),
        };
        let watch_dir = match watch_dir {
            Some(s) => s,
            None => ".".to_owned(),
        };
        Ok(Cli { redis_cli, watch_dir, dry_run })
    }

    /// Reads a command line that the grammar accepts.
    pub fn parse_from(args: &[&str]) -> (r: Cli)
        requires
            parse_spec(args_view(args@)) is Ok,
        ensures
            parse_spec(args_view(args@)) == Ok::<CliModel, ArgError>(r.model()),
    {
        match Cli::try_parse_from(args) {
            Ok(c) => c,
            Err(_) => {
                assert(false);
                Cli { redis_cli: String::new(), watch_dir: String::new(), dry_run: false }
            },
        }
    }
}

} // verus!
