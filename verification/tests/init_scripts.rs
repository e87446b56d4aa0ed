use bcmr::cli::Shell;
use bcmr::init::{generate_init_script, generate_uninstall_script};

fn script(shell: &Shell, cmd: &str, prefix: Option<&str>, suffix: Option<&str>, path: Option<&String>, no_cmd: bool) -> String {
    generate_init_script(shell, cmd, prefix, suffix, path, no_cmd, "bcmr")
}

#[test]
fn test_bash_init_script() {
    let script = script(&Shell::Bash, "b", None, None, None, false);
    assert!(script.contains("function bcp()"));
    assert!(script.contains("function bmv()"));
    assert!(script.contains("function brm()"));
}

#[test]
fn test_zsh_init_script() {
    let script = script(&Shell::Zsh, "", None, None, None, false);
    assert!(script.contains("function cp()"));
    assert!(script.contains("function mv()"));
    assert!(script.contains("function rm()"));
}

#[test]
fn test_fish_init_script() {
    let script = script(&Shell::Fish, "b", None, None, None, false);
    assert!(script.contains("function bcp"));
    assert!(script.contains("function bmv"));
    assert!(script.contains("function brm"));
}

#[test]
fn test_with_path() {
    let path = String::from("/some/path");
    let script = script(&Shell::Bash, "", None, None, Some(&path), false);
    assert!(script.contains("export PATH=\"/some/path:$PATH\""));
}

#[test]
fn test_no_cmd() {
    let script = script(&Shell::Bash, "b", None, None, None, true);
    assert!(!script.contains("function bcp()"));
    assert!(!script.contains("function bmv()"));
    assert!(!script.contains("function brm()"));
}

#[test]
fn test_suffix_only() {
    let script = script(&Shell::Bash, "", None, Some("+"), None, false);
    assert!(script.contains("function cp+()"));
}

#[test]
fn test_prefix_and_suffix() {
    let script = script(&Shell::Bash, "", Some("b"), Some("+"), None, false);
    assert!(script.contains("function bcp+()"));
}

#[test]
fn test_compat_cmd_with_suffix() {
    let script = script(&Shell::Bash, "b", None, Some("+"), None, false);
    assert!(script.contains("function bcp+()"));
}

#[test]
fn uninstall_scripts_undefine_wrappers() {
    let bash = generate_uninstall_script(&Shell::Bash);
    assert!(bash.contains("unset -f cp mv rm bcp bmv brm"));
    let fish = generate_uninstall_script(&Shell::Fish);
    assert!(fish.contains("functions -e cp mv rm bcp bmv brm"));
}

#[test]
fn init_script_invokes_this_binary() {
    let s = generate_init_script(&Shell::Zsh, "", None, None, None, false, "/opt/tools/bcmr");
    assert!(s.contains("\"/opt/tools/bcmr\" copy \"$@\""));
    assert!(s.contains("\"/opt/tools/bcmr\" move \"$@\""));
    assert!(s.contains("\"/opt/tools/bcmr\" remove \"$@\""));
}
