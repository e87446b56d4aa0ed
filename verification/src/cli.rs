//! The typed command descriptor and its accessors.
//!
//! Argument parsing itself lives outside the library; what arrives here is
//! a plain `Commands` value.  The accessors and the test-mode parser are
//! verified.

use vstd::prelude::*;

verus! {

use crate::exclude::{regex_compiles, regex_matches, ExcludePattern};
use crate::strutil::{
    digits_value,
    parse_u64,
    parses_as_u64,
    single_colon_at,
    split_single_colon,
    str_eq,
    u64_str_body,
};
use crate::transfer::SparseMode;

/// A shell the init command can emit integration for.
#[derive(Clone, Copy, Debug, PartialEq, Eq, Structural)]
pub enum Shell {
    Bash,
    Zsh,
    Fish,
}

/// The name of a shell.
pub open spec fn shell_name_spec(s: Shell) -> Seq<char> {
    match s {
        Shell::Bash => "bash"@,
        Shell::Zsh => "zsh"@,
        Shell::Fish => "fish"@,
    }
}

impl Shell {
    /// The shell's name, as used in scripts and messages.
    pub fn name(&self) -> (r: &'static str)
        ensures
            r@ == shell_name_spec(*self),
    {
        match self {
            Shell::Bash => "bash",
            Shell::Zsh => "zsh",
            Shell::Fish => "fish",
        }
    }
}

/// A hidden throttle used by tests of the real binary.
#[derive(Clone, Copy, Debug, PartialEq, Eq, Structural)]
pub enum TestMode {
    /// Sleep this many milliseconds after each buffer.
    Delay(u64),
    /// Limit throughput to this many bytes per second.
    SpeedLimit(u64),
    /// No throttling.
    Off,
}

/// The parsed test mode of an option text: `delay:<ms>` or
/// `speed_limit:<bps>`, with exactly one colon; anything else is off.
pub open spec fn test_mode_spec(s: Seq<char>) -> TestMode {
    if exists|p: int| single_colon_at(s, p) {
        let p = choose|p: int| single_colon_at(s, p);
        let left = s.take(p);
        let right = s.skip(p + 1);
        if left == "delay"@ && parses_as_u64(right) {
            TestMode::Delay(digits_value(u64_str_body(right)) as u64)
        } else if left == "speed_limit"@ && parses_as_u64(right) {
            TestMode::SpeedLimit(digits_value(u64_str_body(right)) as u64)
        } else {
            TestMode::Off
        }
    } else {
        TestMode::Off
    }
}

/// A parsed command line.
pub struct Cli {
    /// The subcommand with its arguments.
    pub command: Commands,
}

/// The typed command descriptor.
pub enum Commands {
    /// Emit shell integration functions.
    Init {
        shell: Shell,
        cmd: String,
        path: Option<String>,
        no_cmd: bool,
    },
    /// Copy a source to a destination.
    Copy {
        source: String,
        destination: String,
        recursive: bool,
        preserve: bool,
        force: bool,
        yes: bool,
        verify: bool,
        resume: bool,
        strict: bool,
        append: bool,
        dry_run: bool,
        tui: bool,
        exclude: Option<Vec<String>>,
        plain_progress: bool,
        reflink: Option<String>,
        sparse: Option<SparseMode>,
        test_mode: Option<String>,
    },
    /// Move a source to a destination.
    Move {
        source: String,
        destination: String,
        recursive: bool,
        preserve: bool,
        force: bool,
        yes: bool,
        verify: bool,
        resume: bool,
        strict: bool,
        append: bool,
        dry_run: bool,
        tui: bool,
        exclude: Option<Vec<String>>,
        plain_progress: bool,
        test_mode: Option<String>,
    },
    /// Remove the given paths.
    Remove {
        paths: Vec<String>,
        recursive: bool,
        force: bool,
        interactive: bool,
        verbose: bool,
        dir: bool,
        dry_run: bool,
        tui: bool,
        exclude: Option<Vec<String>>,
        plain_progress: bool,
        test_mode: Option<String>,
    },
}

/// The test-mode option text of a command, when it has one.
pub open spec fn test_mode_field(c: Commands) -> Option<Seq<char>> {
    match c {
        Commands::Copy { test_mode, .. } => match test_mode {
            Some(s) => Some(s@),
            None => None,
        },
        Commands::Move { test_mode, .. } => match test_mode {
            Some(s) => Some(s@),
            None => None,
        },
        Commands::Remove { test_mode, .. } => match test_mode {
            Some(s) => Some(s@),
            None => None,
        },
        _ => None,
    }
}

/// The exclude pattern texts of a command.
pub open spec fn exclude_field(c: Commands) -> Seq<Seq<char>> {
    match c {
        Commands::Copy { exclude: Some(v), .. } => v@.map_values(|p: String| p@),
        Commands::Move { exclude: Some(v), .. } => v@.map_values(|p: String| p@),
        Commands::Remove { exclude: Some(v), .. } => v@.map_values(|p: String| p@),
        _ => Seq::empty(),
    }
}

impl Commands {
    /// Parses the hidden test-mode option: `delay:<ms>` sleeps per buffer,
    /// `speed_limit:<bps>` throttles; anything else is off.
    pub fn get_test_mode(&self) -> (r: TestMode)
        ensures
            r == (match test_mode_field(*self) {
                Some(s) => test_mode_spec(s),
                None => TestMode::Off,
            }),
    {
        let tm: &Option<String> = match self {
            Commands::Copy { test_mode, .. } => test_mode,
            Commands::Move { test_mode, .. } => test_mode,
            Commands::Remove { test_mode, .. } => test_mode,
            Commands::Init { .. } => {
                return TestMode::Off;
            }
        };
        let s: &String = match tm {
            Some(s) => s,
            None => {
                return TestMode::Off;
            }
        };
        match split_single_colon(s.as_str()) {
            Some((left, right)) => {
                proof {
                    let pw = choose|p: int|
                        single_colon_at(s@, p) && left@ == s@.take(p) && right@ == s@.skip(p + 1);
                    let pc = choose|p: int| single_colon_at(s@, p);
                    assert(single_colon_at(s@, pw));
                    assert(single_colon_at(s@, pc));
                    assert(pc == pw) by {
                        if pc != pw {
                            assert(s@[pc] != ':');
                        }
                    }
                }
                if str_eq(left.as_str(), "delay") {
                    match parse_u64(right.as_str()) {
                        Some(ms) => TestMode::Delay(ms),
                        None => TestMode::Off,
                    }
                } else if str_eq(left.as_str(), "speed_limit") {
                    match parse_u64(right.as_str()) {
                        Some(bps) => TestMode::SpeedLimit(bps),
                        None => TestMode::Off,
                    }
                } else {
                    TestMode::Off
                }
            }
            None => TestMode::Off,
        }
    }

    /// Whether the path's string form matches any of the command's
    /// exclude patterns, read as regular expressions; a pattern that does
    /// not compile matches nothing.
    pub fn should_exclude(&self, path: &str) -> (r: bool)
        ensures
            r == exists|i: int|
                0 <= i < exclude_field(*self).len() && regex_compiles(
                    #[trigger] exclude_field(*self)[i],
                ) && regex_matches(exclude_field(*self)[i], path@),
    {
        let patterns: &Vec<String> = match self {
            Commands::Copy { exclude: Some(v), .. } => v,
            Commands::Move { exclude: Some(v), .. } => v,
            Commands::Remove { exclude: Some(v), .. } => v,
            _ => {
                return false;
            }
        };
        let ghost pats = exclude_field(*self);
        let mut i: usize = 0;
        while i < patterns.len()
            invariant
                i <= patterns@.len(),
                pats == patterns@.map_values(|p: String| p@),
                pats == exclude_field(*self),
                forall|k: int|
                    0 <= k < i ==> !(regex_compiles(#[trigger] pats[k]) && regex_matches(
                        pats[k],
                        path@,
                    )),
            decreases patterns.len() - i,
        {
            match ExcludePattern::new(patterns[i].as_str()) {
                Ok(compiled) => {
                    if compiled.is_match(path) {
                        assert(regex_compiles(pats[i as int]) && regex_matches(
                            pats[i as int],
                            path@,
                        ));
                        return true;
                    }
                }
                Err(_) => {
                    assert(!regex_compiles(pats[i as int]));
                }
            }
            i = i + 1;
        }
        false
    }

    /// Whether a confirmation prompt precedes overwrites: force without
    /// yes for copy and move, interactive without force for remove.
    pub fn should_prompt_for_overwrite(&self) -> (r: bool)
        ensures
            r == (match *self {
                Commands::Copy { force, yes, .. } => force && !yes,
                Commands::Move { force, yes, .. } => force && !yes,
                Commands::Remove { force, interactive, .. } => !force && interactive,
                Commands::Init { .. } => false,
            }),
    {
        match self {
            Commands::Copy { force, yes, .. } => *force && !*yes,
            Commands::Move { force, yes, .. } => *force && !*yes,
            Commands::Remove { force, interactive, .. } => !*force && *interactive,
            Commands::Init { .. } => false,
        }
    }

    /// Whether plain-text progress was requested.
    pub fn is_plain_progress(&self) -> (r: bool)
        ensures
            r == (match *self {
                Commands::Copy { plain_progress, .. } => plain_progress,
                Commands::Move { plain_progress, .. } => plain_progress,
                Commands::Remove { plain_progress, .. } => plain_progress,
                Commands::Init { .. } => false,
            }),
    {
        match self {
            Commands::Copy { plain_progress, .. } => *plain_progress,
            Commands::Move { plain_progress, .. } => *plain_progress,
            Commands::Remove { plain_progress, .. } => *plain_progress,
            Commands::Init { .. } => false,
        }
    }

    /// The source path of a copy or move, or the first path of a remove.
    pub fn get_source(&self) -> (r: &String)
        requires
            !(*self is Init),
            *self is Remove ==> self->Remove_paths@.len() > 0,
        ensures
            r@ == (match *self {
                Commands::Copy { source, .. } => source@,
                Commands::Move { source, .. } => source@,
                Commands::Remove { paths, .. } => paths@[0]@,
                Commands::Init { .. } => Seq::<char>::empty(),
            }),
    {
        match self {
            Commands::Copy { source, .. } => source,
            Commands::Move { source, .. } => source,
            Commands::Remove { paths, .. } => &paths[0],
            Commands::Init { .. } => unreached(),
        }
    }

    /// The destination path of a copy or move.
    pub fn get_destination(&self) -> (r: &String)
        requires
            *self is Copy || *self is Move,
        ensures
            r@ == (match *self {
                Commands::Copy { destination, .. } => destination@,
                Commands::Move { destination, .. } => destination@,
                _ => Seq::<char>::empty(),
            }),
    {
        match self {
            Commands::Copy { destination, .. } => destination,
            Commands::Move { destination, .. } => destination,
            _ => unreached(),
        }
    }

    /// Whether directories are handled recursively.
    pub fn is_recursive(&self) -> (r: bool)
        ensures
            r == (match *self {
                Commands::Copy { recursive, .. } => recursive,
                Commands::Move { recursive, .. } => recursive,
                Commands::Remove { recursive, .. } => recursive,
                Commands::Init { .. } => false,
            }),
    {
        match self {
            Commands::Copy { recursive, .. } => *recursive,
            Commands::Move { recursive, .. } => *recursive,
            Commands::Remove { recursive, .. } => *recursive,
            Commands::Init { .. } => false,
        }
    }

    /// Whether file attributes are preserved.
    pub fn is_preserve(&self) -> (r: bool)
        ensures
            r == (match *self {
                Commands::Copy { preserve, .. } => preserve,
                Commands::Move { preserve, .. } => preserve,
                _ => false,
            }),
    {
        match self {
            Commands::Copy { preserve, .. } => *preserve,
            Commands::Move { preserve, .. } => *preserve,
            _ => false,
        }
    }

    /// Whether existing destinations are overwritten without asking.
    pub fn is_force(&self) -> (r: bool)
        ensures
            r == (match *self {
                Commands::Copy { force, .. } => force,
                Commands::Move { force, .. } => force,
                Commands::Remove { force, .. } => force,
                Commands::Init { .. } => false,
            }),
    {
        match self {
            Commands::Copy { force, .. } => *force,
            Commands::Move { force, .. } => *force,
            Commands::Remove { force, .. } => *force,
            Commands::Init { .. } => false,
        }
    }

    /// Whether removal asks per entry.
    pub fn is_interactive(&self) -> (r: bool)
        ensures
            r == (match *self {
                Commands::Remove { interactive, .. } => interactive,
                _ => false,
            }),
    {
        match self {
            Commands::Remove { interactive, .. } => *interactive,
            _ => false,
        }
    }

    /// Whether removal reports each removed entry.
    pub fn is_verbose(&self) -> (r: bool)
        ensures
            r == (match *self {
                Commands::Remove { verbose, .. } => verbose,
                _ => false,
            }),
    {
        match self {
            Commands::Remove { verbose, .. } => *verbose,
            _ => false,
        }
    }

    /// Whether only empty directories are removed.
    pub fn is_dir_only(&self) -> (r: bool)
        ensures
            r == (match *self {
                Commands::Remove { dir, .. } => dir,
                _ => false,
            }),
    {
        match self {
            Commands::Remove { dir, .. } => *dir,
            _ => false,
        }
    }

    /// The paths of a remove command.
    pub fn get_remove_paths(&self) -> (r: Option<&Vec<String>>)
        ensures
            r is Some <==> *self is Remove,
            r is Some ==> r->0 == &self->Remove_paths,
    {
        match self {
            Commands::Remove { paths, .. } => Some(paths),
            _ => None,
        }
    }

    /// The progress label of the operation.
    pub fn get_operation_type(&self) -> (r: &'static str)
        ensures
            r@ == (match *self {
                Commands::Copy { .. } => "Copying"@,
                Commands::Move { .. } => "Moving"@,
                Commands::Remove { .. } => "Removing"@,
                Commands::Init { .. } => "Initializing"@,
            }),
    {
        match self {
            Commands::Copy { .. } => "Copying",
            Commands::Move { .. } => "Moving",
            Commands::Remove { .. } => "Removing",
            Commands::Init { .. } => "Initializing",
        }
    }

    /// Whether destinations are verified by hash after writing.
    pub fn is_verify(&self) -> (r: bool)
        ensures
            r == (match *self {
                Commands::Copy { verify, .. } => verify,
                Commands::Move { verify, .. } => verify,
                _ => false,
            }),
    {
        match self {
            Commands::Copy { verify, .. } => *verify,
            Commands::Move { verify, .. } => *verify,
            _ => false,
        }
    }

    /// Whether default-mode resume is active.
    pub fn is_resume(&self) -> (r: bool)
        ensures
            r == (match *self {
                Commands::Copy { resume, .. } => resume,
                Commands::Move { resume, .. } => resume,
                _ => false,
            }),
    {
        match self {
            Commands::Copy { resume, .. } => *resume,
            Commands::Move { resume, .. } => *resume,
            _ => false,
        }
    }

    /// Whether strict (hash-checked) resume is active.
    pub fn is_strict(&self) -> (r: bool)
        ensures
            r == (match *self {
                Commands::Copy { strict, .. } => strict,
                Commands::Move { strict, .. } => strict,
                _ => false,
            }),
    {
        match self {
            Commands::Copy { strict, .. } => *strict,
            Commands::Move { strict, .. } => *strict,
            _ => false,
        }
    }

    /// Whether size-only append resume is active.
    pub fn is_append(&self) -> (r: bool)
        ensures
            r == (match *self {
                Commands::Copy { append, .. } => append,
                Commands::Move { append, .. } => append,
                _ => false,
            }),
    {
        match self {
            Commands::Copy { append, .. } => *append,
            Commands::Move { append, .. } => *append,
            _ => false,
        }
    }

    /// Whether this run only reports what it would do.
    pub fn is_dry_run(&self) -> (r: bool)
        ensures
            r == (match *self {
                Commands::Copy { dry_run, .. } => dry_run,
                Commands::Move { dry_run, .. } => dry_run,
                Commands::Remove { dry_run, .. } => dry_run,
                Commands::Init { .. } => false,
            }),
    {
        match self {
            Commands::Copy { dry_run, .. } => *dry_run,
            Commands::Move { dry_run, .. } => *dry_run,
            Commands::Remove { dry_run, .. } => *dry_run,
            Commands::Init { .. } => false,
        }
    }

    /// Whether the full-screen progress display was asked for.
    pub fn is_tui(&self) -> (r: bool)
        ensures
            r == (match *self {
                Commands::Copy { tui, .. } => tui,
                Commands::Move { tui, .. } => tui,
                Commands::Remove { tui, .. } => tui,
                Commands::Init { .. } => false,
            }),
    {
        match self {
            Commands::Copy { tui, .. } => *tui,
            Commands::Move { tui, .. } => *tui,
            Commands::Remove { tui, .. } => *tui,
            Commands::Init { .. } => false,
        }
    }

    /// The reflink option text of a copy, when given.
    pub fn get_reflink_mode(&self) -> (r: &Option<String>)
        ensures
            r == (match self {
                Commands::Copy { reflink, .. } => reflink,
                _ => &None::<String>,
            }),
    {
        match self {
            Commands::Copy { reflink, .. } => reflink,
            _ => &None,
        }
    }

    /// The sparse mode of a copy, defaulting to automatic detection.
    pub fn get_sparse_mode(&self) -> (r: SparseMode)
        ensures
            r == (match *self {
                Commands::Copy { sparse: Some(m), .. } => m,
                _ => SparseMode::Auto,
            }),
    {
        match self {
            Commands::Copy { sparse: Some(m), .. } => *m,
            _ => SparseMode::Auto,
        }
    }
}

} // verus!
