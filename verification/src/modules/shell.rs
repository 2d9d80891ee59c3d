//! The shell: its name and, where it can be found out, its version.

use vstd::prelude::*;
use vstd::string::StringExecFns;
use crate::context::{
    args_view, command_answer, stdout_of, CommandOutput, CommandOutputView, IoFailure,
    SystemContext,
};
use crate::decimal::{digit_char, is_digit};
use crate::error::{DetectionResult, Error, ErrorView, OutcomeView};
use crate::platform::{BuildTarget, Platform};
use crate::text::{from_chars, to_chars, CharClass};
use crate::tokens::{
    chars_eq, file_name, file_name_of, file_stem, first_line, first_line_of, last_token,
    last_token_of, opt_str_view, stem_of,
};

verus! {

/// The probe of the shell.
#[derive(Debug, Clone, Copy)]
pub struct ShellModule {
    pub target: BuildTarget,
}

/// What is known of the shell.
#[derive(Debug, Clone, PartialEq, Eq)]
pub struct ShellInfo {
    pub name: String,
    pub version: Option<String>,
}

/// The mathematical value of a [`ShellInfo`].
pub struct ShellInfoView {
    pub name: Seq<char>,
    pub version: Option<Seq<char>>,
}

impl View for ShellInfo {
    type V = ShellInfoView;

    open spec fn view(&self) -> ShellInfoView {
        ShellInfoView { name: self.name@, version: opt_str_view(self.version) }
    }
}

impl ShellInfo {
    /// The text that shows `info`: the name and, where the version is
    /// known, a space and the version.
    pub open spec fn rendered(info: ShellInfoView) -> Seq<char> {
        match info.version {
            Some(v) => info.name + " "@ + v,
            None => info.name,
        }
    }

    /// The text that shows this information.
    pub fn to_string(&self) -> (s: String)
        ensures
            s@ == ShellInfo::rendered(self@),
    {
        let mut s = self.name.clone();
        match &self.version {
            Some(v) => {
                s.append(" ");
                s.append(v.as_str());
            },
            None => {},
        }
        s
    }
}

/// The name of the shell at `path` on a Unix system: the final component
/// of the path, and `sh` where it has none.
pub open spec fn shell_name_of(path: Seq<char>) -> Seq<char> {
    match file_name_of(path, CharClass::Only('/')) {
        Some(name) => name,
        None => "sh"@,
    }
}

/// The name of the shell at `path`, as [`shell_name_of`] has it.
pub fn shell_name(path: &str) -> (name: String)
    ensures
        name@ == shell_name_of(path@),
{
    match file_name(&to_chars(path), CharClass::Only('/')) {
        Some(name) => from_chars(&name),
        None => "sh".to_owned(),
    }
}

/// Whether `name` is one of the shells that are asked for their version.
pub open spec fn tells_version(name: Seq<char>) -> bool {
    name == "bash"@ || name == "zsh"@ || name == "fish"@ || name == "ksh"@ || name == "tcsh"@
}

/// Whether `name` is one of the shells that are asked for their version.
pub fn asks_version(name: &str) -> (b: bool)
    ensures
        b == tells_version(name@),
{
    let n = to_chars(name);
    chars_eq(&n, "bash") || chars_eq(&n, "zsh") || chars_eq(&n, "fish") || chars_eq(&n, "ksh")
        || chars_eq(&n, "tcsh")
}

/// The version that `text` tells: the last token of its first line, if
/// that token begins with a digit.
pub open spec fn version_in(text: Seq<char>) -> Option<Seq<char>> {
    match first_line_of(text) {
        Some(line) => match last_token_of(line) {
            Some(token) => if token.len() > 0 && is_digit(token[0]) {
                Some(token)
            } else {
                None
            },
            None => None,
        },
        None => None,
    }
}

/// The version that `text` tells, as [`version_in`] has it.
pub fn find_version(text: &str) -> (out: Option<String>)
    ensures
        opt_str_view(out) == version_in(text@),
{
    match first_line(&to_chars(text)) {
        Some(line) => match last_token(&line) {
            Some(token) => if token.len() > 0 && digit_char(token[0]) {
                Some(from_chars(&token))
            } else {
                None
            },
            None => None,
        },
        None => None,
    }
}

/// The version that running a shell with `--version` told: none where the
/// command did not run or did not succeed.
pub open spec fn version_told(run: Result<CommandOutputView, Seq<char>>) -> Option<Seq<char>> {
    match run {
        Ok(output) => match stdout_of(output) {
            Some(text) => version_in(text),
            None => None,
        },
        Err(_) => None,
    }
}

/// The version that running a shell told, as [`version_told`] has it.
pub fn version_from_run(run: Result<CommandOutput, IoFailure>) -> (out: Option<String>)
    ensures
        opt_str_view(out) == version_told(command_answer(run)),
{
    match run {
        Ok(output) => match output.stdout_text() {
            Some(text) => find_version(text.as_str()),
            None => None,
        },
        Err(_) => None,
    }
}

/// Asks the command `cmd` for its version with the arguments `args`. No
/// failure on the way is a fault: the version is then absent.
pub fn get_command_version<C: SystemContext>(ctx: &C, cmd: &str, args: &[&str]) -> (out: Option<
    String,
>)
    ensures
        exists|run: Result<CommandOutputView, Seq<char>>|
            ctx.may_execute(cmd@, args_view(args), run) && opt_str_view(out) == #[trigger] version_told(
                run,
            ),
{
    let run = ctx.execute_command(cmd, args);
    version_from_run(run)
}

/// The outcome on a Unix system, given the variable that holds the
/// shell's path and what asking the shell for its version gave. Without
/// the variable the shell is unavailable. A shell that is not asked has
/// no version.
pub open spec fn unix_shell_outcome(
    path: Option<Seq<char>>,
    run: Result<CommandOutputView, Seq<char>>,
) -> OutcomeView<ShellInfoView> {
    match path {
        None => OutcomeView::Unavailable,
        Some(p) => {
            let name = shell_name_of(p);
            OutcomeView::Detected(
                ShellInfoView {
                    name,
                    version: if tells_version(name) {
                        version_told(run)
                    } else {
                        None
                    },
                },
            )
        },
    }
}

/// The name of the shell on Windows, given the variable that holds the
/// command interpreter's path, `cmd.exe` where it is not set: the stem of
/// the path's final component, and `cmd` where it has none. Both kinds of
/// slash divide the path.
pub open spec fn windows_shell_name(comspec: Option<Seq<char>>) -> Seq<char> {
    let path = match comspec {
        Some(p) => p,
        None => "cmd.exe"@,
    };
    match file_name_of(path, CharClass::OneOf('\\', '/')) {
        Some(name) => stem_of(name),
        None => "cmd"@,
    }
}

/// The shell on Windows, as [`windows_shell_name`] has it; its version is
/// not asked for.
pub fn shell_from_comspec(comspec: Option<String>) -> (info: ShellInfo)
    ensures
        info@ == (ShellInfoView {
            name: windows_shell_name(opt_str_view(comspec)),
            version: None,
        }),
{
    let path = match comspec {
        Some(p) => p,
        None => "cmd.exe".to_owned(),
    };
    let name = match file_name(&to_chars(path.as_str()), CharClass::OneOf('\\', '/')) {
        Some(name) => from_chars(&file_stem(&name)),
        None => "cmd".to_owned(),
    };
    ShellInfo { name, version: None }
}

/// Whether `out` can be what the probe reports through `ctx` when built
/// for `target`.
///
/// On a Unix system the variable `SHELL` is looked up and, if the shell it
/// names is one of those that are asked, that shell runs with `--version`.
/// On Windows the variable `COMSPEC` is looked up. Any other platform is
/// unsupported.
pub open spec fn shell_may_yield<C: SystemContext>(
    ctx: &C,
    target: BuildTarget,
    out: OutcomeView<ShellInfoView>,
) -> bool {
    if target.unix {
        exists|path: Option<Seq<char>>, run: Result<CommandOutputView, Seq<char>>|
            {
                &&& ctx.may_get_env("SHELL"@, path)
                &&& (path is Some && tells_version(shell_name_of(path->0)))
                    ==> ctx.may_execute(shell_name_of(path->0), seq!["--version"@], run)
                &&& out == #[trigger] unix_shell_outcome(path, run)
            }
    } else if target.os == Platform::Windows {
        exists|comspec: Option<Seq<char>>|
            {
                &&& ctx.may_get_env("COMSPEC"@, comspec)
                &&& out == OutcomeView::Detected(
                    ShellInfoView { name: #[trigger] windows_shell_name(comspec), version: None },
                )
            }
    } else {
        out == OutcomeView::<ShellInfoView>::Error(ErrorView::UnsupportedPlatform)
    }
}

/// Detects the shell through `ctx`, with the strategy of the platform that
/// `target` names.
pub fn detect_shell<C: SystemContext>(ctx: &C, target: BuildTarget) -> (out: DetectionResult<
    ShellInfo,
>)
    ensures
        shell_may_yield(ctx, target, out@),
{
    if target.unix {
        let path = ctx.get_env("SHELL");
        let ghost p = opt_str_view(path);
        match path {
            None => {
                let out = DetectionResult::Unavailable;
                proof {
                    assert(out@ == unix_shell_outcome(p, Err(Seq::empty())));
                }
                out
            },
            Some(shell_path) => {
                let name = shell_name(shell_path.as_str());
                if asks_version(name.as_str()) {
                    let args = ["--version"];
                    let version = get_command_version(ctx, name.as_str(), &args);
                    proof {
                        assert(args_view(&args) =~= seq!["--version"@]);
                    }
                    let ghost run = choose|run: Result<CommandOutputView, Seq<char>>|
                        ctx.may_execute(name@, args_view(&args), run) && opt_str_view(version)
                            == #[trigger] version_told(run);
                    let out = DetectionResult::Detected(ShellInfo { name, version });
                    proof {
                        assert(out@ == unix_shell_outcome(p, run));
                    }
                    out
                } else {
                    let out = DetectionResult::Detected(ShellInfo { name, version: None });
                    proof {
                        assert(out@ == unix_shell_outcome(p, Err(Seq::empty())));
                    }
                    out
                }
            },
        }
    } else if target.os == Platform::Windows {
        let comspec = ctx.get_env("COMSPEC");
        DetectionResult::Detected(shell_from_comspec(comspec))
    } else {
        DetectionResult::Error(Error::UnsupportedPlatform)
    }
}

} // verus!
