//! Shell integration scripts emitted by the init command.
//!
//! The scripts wrap the binary as `cp`/`mv`/`rm` style functions, with an
//! optional prefix and suffix and an optional PATH addition.  The caller
//! supplies the binary's own path.

use vstd::prelude::*;

verus! {

use vstd::string::StringExecFns;
use crate::cli::{shell_name_spec, Shell};

/// The PATH section of a bash or zsh script.
pub open spec fn posix_path_section(path: Seq<char>) -> Seq<char> {
    "\n# =============================================================================\n#\n# Add bcmr directory to PATH\n#\n# =============================================================================\n\nexport PATH=\""@
        + path + ":$PATH\"\n"@
}

/// The function section of a bash or zsh script.
pub open spec fn posix_function_section(
    shell_name: Seq<char>,
    prefix: Seq<char>,
    suffix: Seq<char>,
    exe_path: Seq<char>,
) -> Seq<char> {
    "\n# =============================================================================\n#\n# BCMR shell integration for "@
        + shell_name
        + "\n#\n# This provides convenient shell functions that wrap bcmr commands with\n# progress tracking and safety features.\n#\n# =============================================================================\n\nfunction "@
        + prefix + "cp"@ + suffix + "() {\n    \""@ + exe_path
        + "\" copy \"$@\"\n}\n\nfunction "@ + prefix + "mv"@ + suffix + "() {\n    \""@ + exe_path
        + "\" move \"$@\"\n}\n\nfunction "@ + prefix + "rm"@ + suffix + "() {\n    \""@ + exe_path
        + "\" remove \"$@\"\n}\n\n# =============================================================================\n#\n# To initialize bcmr, add this to your shell configuration file:\n#\n#   eval \"$(bcmr init "@
        + shell_name
        + ")\"\n#\n# For custom prefix (e.g., 'b' creates bcp, bmv, brm):\n#\n#   eval \"$(bcmr init "@
        + shell_name + " --cmd b)\"\n#\n# =============================================================================\n"@
}

/// The PATH section of a fish script.
pub open spec fn fish_path_section(path: Seq<char>) -> Seq<char> {
    "\n# Add bcmr directory to PATH\nfish_add_path \""@ + path + "\"\n"@
}

/// The function section of a fish script.
pub open spec fn fish_function_section(
    prefix: Seq<char>,
    suffix: Seq<char>,
    exe_path: Seq<char>,
) -> Seq<char> {
    "\n# bcmr shell integration\nfunction "@ + prefix + "cp"@ + suffix + "\n    \""@ + exe_path
        + "\" copy $argv\nend\n\nfunction "@ + prefix + "mv"@ + suffix + "\n    \""@ + exe_path
        + "\" move $argv\nend\n\nfunction "@ + prefix + "rm"@ + suffix + "\n    \""@ + exe_path
        + "\" remove $argv\nend\n"@
}

/// The effective function prefix: the explicit prefix when given, else
/// the compatibility command text.
pub open spec fn effective_prefix(cmd_compat: Seq<char>, prefix_arg: Option<Seq<char>>) -> Seq<
    char,
> {
    match prefix_arg {
        Some(p) => p,
        None => cmd_compat,
    }
}

/// The effective function suffix.
pub open spec fn effective_suffix(suffix_arg: Option<Seq<char>>) -> Seq<char> {
    match suffix_arg {
        Some(s) => s,
        None => Seq::empty(),
    }
}

/// The whole init script for a shell: the PATH section when a path is
/// given, then the function section unless functions were declined.
pub open spec fn init_script_spec(
    shell: Shell,
    cmd_compat: Seq<char>,
    prefix_arg: Option<Seq<char>>,
    suffix_arg: Option<Seq<char>>,
    path: Option<Seq<char>>,
    no_cmd: bool,
    exe_path: Seq<char>,
) -> Seq<char> {
    let prefix = effective_prefix(cmd_compat, prefix_arg);
    let suffix = effective_suffix(suffix_arg);
    if shell is Fish {
        (match path {
            Some(p) => fish_path_section(p),
            None => Seq::empty(),
        }) + (if no_cmd {
            Seq::empty()
        } else {
            fish_function_section(prefix, suffix, exe_path)
        })
    } else {
        (match path {
            Some(p) => posix_path_section(p),
            None => Seq::empty(),
        }) + (if no_cmd {
            Seq::empty()
        } else {
            posix_function_section(shell_name_spec(shell), prefix, suffix, exe_path)
        })
    }
}

fn append_posix_functions(script: &mut String, shell: &Shell, prefix: &str, suffix: &str, exe_path: &str)
    ensures
        final(script)@ == old(script)@ + posix_function_section(
            shell_name_spec(*shell),
            prefix@,
            suffix@,
            exe_path@,
        ),
{
    let name = shell.name();
    script.append(
        "\n# =============================================================================\n#\n# BCMR shell integration for ",
    );
    script.append(name);
    script.append(
        "\n#\n# This provides convenient shell functions that wrap bcmr commands with\n# progress tracking and safety features.\n#\n# =============================================================================\n\nfunction ",
    );
    script.append(prefix);
    script.append("cp");
    script.append(suffix);
    script.append("() {\n    \"");
    script.append(exe_path);
    script.append("\" copy \"$@\"\n}\n\nfunction ");
    script.append(prefix);
    script.append("mv");
    script.append(suffix);
    script.append("() {\n    \"");
    script.append(exe_path);
    script.append("\" move \"$@\"\n}\n\nfunction ");
    script.append(prefix);
    script.append("rm");
    script.append(suffix);
    script.append("() {\n    \"");
    script.append(exe_path);
    script.append(
        "\" remove \"$@\"\n}\n\n# =============================================================================\n#\n# To initialize bcmr, add this to your shell configuration file:\n#\n#   eval \"$(bcmr init ",
    );
    script.append(name);
    script.append(")\"\n#\n# For custom prefix (e.g., 'b' creates bcp, bmv, brm):\n#\n#   eval \"$(bcmr init ");
    script.append(name);
    script.append(" --cmd b)\"\n#\n# =============================================================================\n");
    proof {
        assert(script@ =~= old(script)@ + posix_function_section(
            shell_name_spec(*shell),
            prefix@,
            suffix@,
            exe_path@,
        ));
    }
}

fn append_fish_functions(script: &mut String, prefix: &str, suffix: &str, exe_path: &str)
    ensures
        final(script)@ == old(script)@ + fish_function_section(prefix@, suffix@, exe_path@),
{
    script.append("\n# bcmr shell integration\nfunction ");
    script.append(prefix);
    script.append("cp");
    script.append(suffix);
    script.append("\n    \"");
    script.append(exe_path);
    script.append("\" copy $argv\nend\n\nfunction ");
    script.append(prefix);
    script.append("mv");
    script.append(suffix);
    script.append("\n    \"");
    script.append(exe_path);
    script.append("\" move $argv\nend\n\nfunction ");
    script.append(prefix);
    script.append("rm");
    script.append(suffix);
    script.append("\n    \"");
    script.append(exe_path);
    script.append("\" remove $argv\nend\n");
    proof {
        assert(script@ =~= old(script)@ + fish_function_section(prefix@, suffix@, exe_path@));
    }
}

/// Builds the shell integration script for `shell`.  `exe_path` is the
/// path of this binary, as the wrappers will invoke it.
pub fn generate_init_script(
    shell: &Shell,
    cmd_compat: &str,
    prefix_arg: Option<&str>,
    suffix_arg: Option<&str>,
    path: Option<&String>,
    no_cmd: bool,
    exe_path: &str,
) -> (r: String)
    ensures
        r@ == init_script_spec(
            *shell,
            cmd_compat@,
            match prefix_arg {
                Some(p) => Some(p@),
                None => None,
            },
            match suffix_arg {
                Some(s) => Some(s@),
                None => None,
            },
            match path {
                Some(p) => Some(p@),
                None => None,
            },
            no_cmd,
            exe_path@,
        ),
{
    let prefix: &str = match prefix_arg {
        Some(p) => p,
        None => cmd_compat,
    };
    let suffix: &str = match suffix_arg {
        Some(s) => s,
        None => "",
    };
    proof {
        reveal_strlit("");
    }
    let mut script = String::new();
    let is_fish = match shell {
        Shell::Fish => true,
        _ => false,
    };
    if is_fish {
        match path {
            Some(p) => {
                script.append("\n# Add bcmr directory to PATH\nfish_add_path \"");
                script.append(p.as_str());
                script.append("\"\n");
            }
            None => {}
        }
        if !no_cmd {
            append_fish_functions(&mut script, prefix, suffix, exe_path);
        }
    } else {
        match path {
            Some(p) => {
                script.append(
                    "\n# =============================================================================\n#\n# Add bcmr directory to PATH\n#\n# =============================================================================\n\nexport PATH=\"",
                );
                script.append(p.as_str());
                script.append(":$PATH\"\n");
            }
            None => {}
        }
        if !no_cmd {
            append_posix_functions(&mut script, shell, prefix, suffix, exe_path);
        }
    }
    proof {
        assert(script@ =~= init_script_spec(
            *shell,
            cmd_compat@,
            match prefix_arg {
                Some(p) => Some(p@),
                None => None,
            },
            match suffix_arg {
                Some(s) => Some(s@),
                None => None,
            },
            match path {
                Some(p) => Some(p@),
                None => None,
            },
            no_cmd,
            exe_path@,
        ));
    }
    script
}

/// The uninstall script of a shell: it undefines the wrapper functions.
pub open spec fn uninstall_script_spec(shell: Shell) -> Seq<char> {
    if shell is Fish {
        "\nfunctions -e cp mv rm bcp bmv brm 2>/dev/null || true\n"@
    } else {
        "\nunset -f cp mv rm bcp bmv brm 2>/dev/null || true\n"@
    }
}

/// Builds the script that removes the shell integration again.
pub fn generate_uninstall_script(shell: &Shell) -> (r: String)
    ensures
        r@ == uninstall_script_spec(*shell),
{
    match shell {
        Shell::Fish => "\nfunctions -e cp mv rm bcp bmv brm 2>/dev/null || true\n".to_owned(),
        _ => "\nunset -f cp mv rm bcp bmv brm 2>/dev/null || true\n".to_owned(),
    }
}

} // verus!
