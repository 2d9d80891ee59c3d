//! The operating system: its name, its version and the architecture.

use vstd::prelude::*;
use vstd::string::StringExecFns;
use crate::context::{
    args_view, command_answer, text_answer, trimmed_stdout, CommandOutput, CommandOutputView,
    IoFailure, SystemContext,
};
use crate::error::{DetectionResult, Error, ErrorView, OutcomeView};
use crate::platform::{BuildTarget, Platform};
use crate::text::{from_chars, to_chars, trim_class, trim_of, CharClass};
use crate::tokens::{
    first_value, last_value, lemma_first_value_push, lines_of, opt_str_view, opt_view,
    split_lines, strip_prefix, views,
};

verus! {

/// The probe of the operating system.
#[derive(Debug, Clone, Copy)]
pub struct OsModule {
    pub target: BuildTarget,
}

/// What is known of the operating system.
#[derive(Debug, Clone, PartialEq, Eq)]
pub struct OsInfo {
    pub name: String,
    pub version: Option<String>,
    pub arch: String,
}

/// The mathematical value of an [`OsInfo`].
pub struct OsInfoView {
    pub name: Seq<char>,
    pub version: Option<Seq<char>>,
    pub arch: Seq<char>,
}

impl View for OsInfo {
    type V = OsInfoView;

    open spec fn view(&self) -> OsInfoView {
        OsInfoView { name: self.name@, version: opt_str_view(self.version), arch: self.arch@ }
    }
}

impl OsInfo {
    /// The text that shows `info`: the name, the version if there is one,
    /// and the architecture, with one space between them.
    pub open spec fn rendered(info: OsInfoView) -> Seq<char> {
        match info.version {
            Some(v) => info.name + " "@ + v + " "@ + info.arch,
            None => info.name + " "@ + info.arch,
        }
    }

    /// The text that shows this information.
    pub fn to_string(&self) -> (s: String)
        ensures
            s@ == OsInfo::rendered(self@),
    {
        let mut s = self.name.clone();
        match &self.version {
            Some(v) => {
                s.append(" ");
                s.append(v.as_str());
            },
            None => {},
        }
        s.append(" ");
        s.append(self.arch.as_str());
        s
    }
}

/// The path of the release descriptor that is read first.
pub open spec fn primary_release_path() -> Seq<char> {
    "/etc/os-release"@
}

/// The path of the release descriptor that is read if the first fails.
pub open spec fn fallback_release_path() -> Seq<char> {
    "/usr/lib/os-release"@
}

/// `s` without the double quotes at its two ends.
pub open spec fn unquoted(s: Seq<char>) -> Seq<char> {
    trim_of(s, CharClass::Only('"'))
}

/// What a release descriptor says. The name is what the last line that
/// begins with `PRETTY_NAME=` holds, `Linux` without such a line; the
/// version is what the first line that begins with `VERSION=` holds. Both
/// lose the double quotes around them. Other lines are passed over.
pub open spec fn release_info(content: Seq<char>, arch: Seq<char>) -> OsInfoView {
    let lines = lines_of(content);
    OsInfoView {
        name: match last_value(lines, "PRETTY_NAME="@) {
            Some(v) => unquoted(v),
            None => "Linux"@,
        },
        version: match first_value(lines, "VERSION="@) {
            Some(v) => Some(unquoted(v)),
            None => None,
        },
        arch,
    }
}

/// Reads a release descriptor, as [`release_info`] has it.
pub fn parse_release(content: &str, arch: &str) -> (info: OsInfo)
    ensures
        info@ == release_info(content@, arch@),
{
    let chars = to_chars(content);
    let lines = split_lines(&chars);
    let mut name: Option<Vec<char>> = None;
    let mut version: Option<Vec<char>> = None;
    let mut i: usize = 0;
    while i < lines.len()
        invariant
            i <= lines.len(),
            opt_view(name) == last_value(views(lines@).take(i as int), "PRETTY_NAME="@),
            opt_view(version) == first_value(views(lines@).take(i as int), "VERSION="@),
        decreases lines.len() - i,
    {
        proof {
            let before = views(lines@).take(i as int);
            let now = views(lines@).take(i + 1);
            assert(now.drop_last() == before);
            assert(now == before.push(lines@[i as int]@));
            lemma_first_value_push(before, lines@[i as int]@, "VERSION="@);
        }
        match strip_prefix(&lines[i], "PRETTY_NAME=") {
            Some(value) => {
                name = Some(value);
            },
            None => {},
        }
        if version.is_none() {
            version = strip_prefix(&lines[i], "VERSION=");
        }
        i += 1;
    }
    proof {
        assert(views(lines@).take(i as int) == views(lines@));
    }
    let name_text = match name {
        Some(value) => from_chars(&trim_class(&value, CharClass::Only('"'))),
        None => "Linux".to_owned(),
    };
    let version_text = match version {
        Some(value) => Some(from_chars(&trim_class(&value, CharClass::Only('"')))),
        None => None,
    };
    OsInfo { name: name_text, version: version_text, arch: arch.to_owned() }
}

/// The first answer if it is a success, the second one otherwise.
pub open spec fn first_ok(
    first: Result<Seq<char>, Seq<char>>,
    second: Result<Seq<char>, Seq<char>>,
) -> Result<Seq<char>, Seq<char>> {
    if first is Ok {
        first
    } else {
        second
    }
}

/// The outcome on Linux, given what reading the release descriptor gave.
pub open spec fn release_outcome(
    read: Result<Seq<char>, Seq<char>>,
    arch: Seq<char>,
) -> OutcomeView<OsInfoView> {
    match read {
        Ok(content) => OutcomeView::Detected(release_info(content, arch)),
        Err(message) => OutcomeView::Error(ErrorView::Io(message)),
    }
}

/// The outcome on Linux, given what reading the release descriptor gave: a
/// descriptor that was read is always detected, a failure is an I/O fault.
pub fn os_from_release(read: Result<String, IoFailure>, arch: &str) -> (out: DetectionResult<
    OsInfo,
>)
    ensures
        out@ == release_outcome(text_answer(read), arch@),
{
    match read {
        Ok(content) => DetectionResult::Detected(parse_release(content.as_str(), arch)),
        Err(failure) => DetectionResult::Error(Error::from_io(failure)),
    }
}

/// The outcome where a command prints the version, given what running it
/// gave: the version is what a successful command printed, trimmed, and is
/// absent after an unsuccessful one; a command that did not run is an I/O
/// fault.
pub open spec fn version_command_outcome(
    name: Seq<char>,
    run: Result<CommandOutputView, Seq<char>>,
    arch: Seq<char>,
) -> OutcomeView<OsInfoView> {
    match run {
        Ok(output) => OutcomeView::Detected(
            OsInfoView { name, version: trimmed_stdout(output), arch },
        ),
        Err(message) => OutcomeView::Error(ErrorView::Io(message)),
    }
}

/// The outcome where a command prints the version, as
/// [`version_command_outcome`] has it.
pub fn os_from_version_command(
    name: &str,
    run: Result<CommandOutput, IoFailure>,
    arch: &str,
) -> (out: DetectionResult<OsInfo>)
    ensures
        out@ == version_command_outcome(name@, command_answer(run), arch@),
{
    match run {
        Ok(output) => DetectionResult::Detected(
            OsInfo { name: name.to_owned(), version: output.trimmed_text(), arch: arch.to_owned() },
        ),
        Err(failure) => DetectionResult::Error(Error::from_io(failure)),
    }
}

/// Whether `out` can be what the probe reports through `ctx` when built
/// for `target`.
///
/// On Linux the release descriptor is read at the primary path and, only
/// if that fails, at the fallback path. On macOS `sw_vers -productVersion`
/// and on FreeBSD `uname -r` print the version. On Windows nothing is
/// asked. Any other platform is unsupported.
pub open spec fn os_may_yield<C: SystemContext>(
    ctx: &C,
    target: BuildTarget,
    out: OutcomeView<OsInfoView>,
) -> bool {
    match target.os {
        Platform::Linux => exists|first: Result<Seq<char>, Seq<char>>, second: Result<Seq<char>, Seq<char>>|
            {
                &&& ctx.may_read_file(primary_release_path(), first)
                &&& first is Err ==> ctx.may_read_file(fallback_release_path(), second)
                &&& out == #[trigger] release_outcome(first_ok(first, second), target.arch@)
            },
        Platform::MacOs => exists|run: Result<CommandOutputView, Seq<char>>|
            {
                &&& ctx.may_execute("sw_vers"@, seq!["-productVersion"@], run)
                &&& out == #[trigger] version_command_outcome("macOS"@, run, target.arch@)
            },
        Platform::FreeBsd => exists|run: Result<CommandOutputView, Seq<char>>|
            {
                &&& ctx.may_execute("uname"@, seq!["-r"@], run)
                &&& out == #[trigger] version_command_outcome("FreeBSD"@, run, target.arch@)
            },
        Platform::Windows => out == OutcomeView::Detected(
            OsInfoView { name: "Windows"@, version: None, arch: target.arch@ },
        ),
        Platform::Unknown => out == OutcomeView::<OsInfoView>::Error(
            ErrorView::UnsupportedPlatform,
        ),
    }
}

/// Detects the operating system through `ctx`, with the strategy of the
/// platform that `target` names.
pub fn detect_os<C: SystemContext>(ctx: &C, target: BuildTarget) -> (out: DetectionResult<OsInfo>)
    ensures
        os_may_yield(ctx, target, out@),
{
    match target.os {
        Platform::Linux => {
            let first = ctx.read_file("/etc/os-release");
            if first.is_ok() {
                let ghost a = text_answer(first);
                let out = os_from_release(first, target.arch);
                proof {
                    assert(out@ == release_outcome(first_ok(a, a), target.arch@));
                }
                out
            } else {
                let ghost a = text_answer(first);
                let second = ctx.read_file("/usr/lib/os-release");
                let ghost b = text_answer(second);
                let out = os_from_release(second, target.arch);
                proof {
                    assert(out@ == release_outcome(first_ok(a, b), target.arch@));
                }
                out
            }
        },
        Platform::MacOs => {
            let args = ["-productVersion"];
            let run = ctx.execute_command("sw_vers", &args);
            proof {
                assert(args_view(&args) =~= seq!["-productVersion"@]);
            }
            os_from_version_command("macOS", run, target.arch)
        },
        Platform::FreeBsd => {
            let args = ["-r"];
            let run = ctx.execute_command("uname", &args);
            proof {
                assert(args_view(&args) =~= seq!["-r"@]);
            }
            os_from_version_command("FreeBSD", run, target.arch)
        },
        Platform::Windows => DetectionResult::Detected(
            OsInfo { name: "Windows".to_owned(), version: None, arch: target.arch.to_owned() },
        ),
        Platform::Unknown => DetectionResult::Error(Error::UnsupportedPlatform),
    }
}

} // verus!
