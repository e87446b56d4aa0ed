//! The frozen configuration: progress styling and the default reflink
//! behaviour.  Loading from disk happens outside the library; the
//! defaults and the reflink policy resolution are verified here.

use vstd::prelude::*;

verus! {

use vstd::string::StringExecFns;
use crate::errors::BcmrError;
use crate::strutil::{lower_spec, str_eq, to_ascii_lower};

/// Copy behaviour settings.
pub struct CopyConfig {
    /// The default reflink mode: `auto`, `never` or `disable`.
    pub reflink: String,
}

/// The theme of the progress display.
pub struct ThemeConfig {
    /// The character of the filled part of a bar.
    pub bar_complete_char: String,
    /// The character of the empty part of a bar.
    pub bar_incomplete_char: String,
    /// The gradient colour stops of the bar.
    pub bar_gradient: Vec<String>,
    /// The text colour.
    pub text_color: String,
    /// The border colour.
    pub border_color: String,
    /// The title colour.
    pub title_color: String,
}

/// The layout of the progress display.
pub struct LayoutConfig {
    /// The box drawing style: rounded, single, heavy or double.
    pub box_style: String,
}

/// Progress display settings.
pub struct ProgressConfig {
    /// The display style: `fancy` or `plain`.
    pub style: String,
    /// The theme.
    pub theme: ThemeConfig,
    /// The layout.
    pub layout: LayoutConfig,
}

/// The process-wide configuration, frozen at start.
pub struct Config {
    /// Progress display settings.
    pub progress: ProgressConfig,
    /// Copy behaviour settings.
    pub copy: CopyConfig,
}

/// The built-in default reflink mode.
pub fn default_reflink() -> (r: String)
    ensures
        r@ == "auto"@,
{
    "auto".to_owned()
}

impl Default for Config {
    /// The built-in configuration: a fancy progress box with the stock
    /// theme, and automatic reflink use.
    fn default() -> (r: Config)
        ensures
            r.progress.style@ == "fancy"@,
            r.progress.theme.bar_complete_char@ == "█"@,
            r.progress.theme.bar_incomplete_char@ == "░"@,
            r.progress.theme.bar_gradient@.len() == 2,
            r.progress.theme.bar_gradient@[0]@ == "#CABBE9"@,
            r.progress.theme.bar_gradient@[1]@ == "#7E6EAC"@,
            r.progress.theme.text_color@ == "reset"@,
            r.progress.theme.border_color@ == "#9E8BCA"@,
            r.progress.theme.title_color@ == "#9E8BCA"@,
            r.progress.layout.box_style@ == "rounded"@,
            r.copy.reflink@ == "auto"@,
    {
        let mut gradient: Vec<String> = Vec::new();
        gradient.push("#CABBE9".to_owned());
        gradient.push("#7E6EAC".to_owned());
        Config {
            progress: ProgressConfig {
                style: "fancy".to_owned(),
                theme: ThemeConfig {
                    bar_complete_char: "█".to_owned(),
                    bar_incomplete_char: "░".to_owned(),
                    bar_gradient: gradient,
                    text_color: "reset".to_owned(),
                    border_color: "#9E8BCA".to_owned(),
                    title_color: "#9E8BCA".to_owned(),
                },
                layout: LayoutConfig { box_style: "rounded".to_owned() },
            },
            copy: CopyConfig { reflink: "auto".to_owned() },
        }
    }
}

/// Whether a reflink is attempted, and whether its failure is fatal, for
/// a command-line mode text (case folded): `force` attempts and fails
/// hard, `disable` skips, `auto` attempts and falls through; anything
/// else is invalid input.
pub open spec fn cli_reflink_policy(mode: Seq<char>) -> Option<(bool, bool)> {
    let m = lower_spec(mode);
    if m == "force"@ {
        Some((true, true))
    } else if m == "disable"@ {
        Some((false, false))
    } else if m == "auto"@ {
        Some((true, false))
    } else {
        None
    }
}

/// The policy of the configured default (case folded): `never` and
/// `disable` skip the attempt, anything else attempts without failing
/// hard.
pub open spec fn config_reflink_policy(mode: Seq<char>) -> (bool, bool) {
    let m = lower_spec(mode);
    if m == "never"@ || m == "disable"@ {
        (false, false)
    } else {
        (true, false)
    }
}

/// Resolves the effective reflink policy: the command-line option wins
/// over the configured default.  Returns (attempt, fail hard on error).
pub fn reflink_policy(cli_arg: &Option<String>, config_reflink: &str) -> (r: Result<
    (bool, bool),
    BcmrError,
>)
    ensures
        ({
            match cli_arg {
                Some(mode) => {
                    &&& (r is Ok <==> cli_reflink_policy(mode@) is Some)
                    &&& r is Ok ==> Some(r->Ok_0) == cli_reflink_policy(mode@)
                    &&& r is Err ==> r->Err_0 is InvalidInput && r->Err_0->InvalidInput_0@
                        == "Invalid reflink mode '"@ + mode@
                        + "'. Supported modes: force, disable, auto."@
                }
                None => r is Ok && r->Ok_0 == config_reflink_policy(config_reflink@),
            }
        }),
{
    match cli_arg {
        Some(mode) => {
            let lower = to_ascii_lower(mode.as_str());
            if str_eq(lower.as_str(), "force") {
                Ok((true, true))
            } else if str_eq(lower.as_str(), "disable") {
                Ok((false, false))
            } else if str_eq(lower.as_str(), "auto") {
                Ok((true, false))
            } else {
                let mut m = "Invalid reflink mode '".to_owned();
                m.append(mode.as_str());
                m.append("'. Supported modes: force, disable, auto.");
                Err(BcmrError::InvalidInput(m))
            }
        }
        None => {
            let lower = to_ascii_lower(config_reflink);
            if str_eq(lower.as_str(), "never") || str_eq(lower.as_str(), "disable") {
                Ok((false, false))
            } else {
                Ok((true, false))
            }
        }
    }
}

} // verus!
