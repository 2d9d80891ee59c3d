//! The processor: its model and, where known, the number of its cores.

use vstd::prelude::*;
use vstd::string::StringExecFns;
use crate::context::{
    args_view, command_answer, text_answer, trimmed_stdout, CommandOutput, CommandOutputView,
    IoFailure, SystemContext,
};
use crate::decimal::{decimal_of, parse_usize, parse_usize_of, push_decimal};
use crate::error::{DetectionResult, Error, ErrorView, OutcomeView};
use crate::platform::{BuildTarget, Platform};
use crate::text::{from_chars, to_chars, trim_class, trim_of, CharClass};
use crate::tokens::{
    lines_of, opt_str_view, opt_view, second_field, second_field_of, split_lines, strip_prefix,
    strip_prefix_of, views,
};

verus! {

/// The probe of the processor.
#[derive(Debug, Clone, Copy)]
pub struct CpuModule {
    pub target: BuildTarget,
}

/// What is known of the processor.
#[derive(Debug, Clone, PartialEq, Eq)]
pub struct CpuInfo {
    pub model: String,
    pub cores: Option<usize>,
}

/// The mathematical value of a [`CpuInfo`].
pub struct CpuInfoView {
    pub model: Seq<char>,
    pub cores: Option<usize>,
}

impl View for CpuInfo {
    type V = CpuInfoView;

    open spec fn view(&self) -> CpuInfoView {
        CpuInfoView { model: self.model@, cores: self.cores }
    }
}

impl CpuInfo {
    /// The text that shows `info`: the model and, where the number of
    /// cores is known, a space and that number in round brackets.
    pub open spec fn rendered(info: CpuInfoView) -> Seq<char> {
        match info.cores {
            Some(n) => info.model + " ("@ + decimal_of(n as nat) + ")"@,
            None => info.model,
        }
    }

    /// The text that shows this information.
    pub fn to_string(&self) -> (s: String)
        ensures
            s@ == CpuInfo::rendered(self@),
    {
        let mut s = self.model.clone();
        match self.cores {
            Some(n) => {
                let mut digits: Vec<char> = Vec::new();
                push_decimal(n as u64, &mut digits);
                proof {
                    assert(digits@ =~= decimal_of(n as nat));
                }
                s.append(" (");
                s.append(from_chars(&digits).as_str());
                s.append(")");
            },
            None => {},
        }
        s
    }
}

/// The model that a line of the processor table names: the line begins
/// with `model name`, and the model is the second of the fields that
/// colons divide the rest into, trimmed.
pub open spec fn model_on(line: Seq<char>) -> Option<Seq<char>> {
    match strip_prefix_of(line, "model name"@) {
        Some(value) => match second_field_of(value) {
            Some(field) => Some(trim_of(field, CharClass::Space)),
            None => None,
        },
        None => None,
    }
}

/// The number of cores that a line of the processor table gives: the line
/// begins with `cpu cores`, and the second of the fields that colons
/// divide the rest into, trimmed, is a number.
pub open spec fn cores_on(line: Seq<char>) -> Option<usize> {
    match strip_prefix_of(line, "cpu cores"@) {
        Some(value) => match second_field_of(value) {
            Some(field) => parse_usize_of(trim_of(field, CharClass::Space)),
            None => None,
        },
        None => None,
    }
}

/// The model and the number of cores that the lines of the table give,
/// starting from `model`. Reading stops at the first line that gives a
/// number of cores; the model is the one named last before that.
pub open spec fn cpuinfo_scan(lines: Seq<Seq<char>>, model: Seq<char>) -> CpuInfoView
    decreases lines.len(),
{
    if lines.len() == 0 {
        CpuInfoView { model, cores: None }
    } else {
        match cores_on(lines[0]) {
            Some(n) => CpuInfoView { model, cores: Some(n) },
            None => cpuinfo_scan(
                lines.drop_first(),
                match model_on(lines[0]) {
                    Some(m) => m,
                    None => model,
                },
            ),
        }
    }
}

/// What the processor table says; the model is `Unknown CPU` where the
/// table names none.
pub open spec fn cpuinfo_info(content: Seq<char>) -> CpuInfoView {
    cpuinfo_scan(lines_of(content), "Unknown CPU"@)
}

/// The model that `line` names, as [`model_on`] has it.
pub fn model_of_line(line: &Vec<char>) -> (out: Option<Vec<char>>)
    ensures
        opt_view(out) == model_on(line@),
{
    match strip_prefix(line, "model name") {
        Some(value) => match second_field(&value) {
            Some(field) => Some(trim_class(&field, CharClass::Space)),
            None => None,
        },
        None => None,
    }
}

/// The number of cores that `line` gives, as [`cores_on`] has it.
pub fn cores_of_line(line: &Vec<char>) -> (out: Option<usize>)
    ensures
        out == cores_on(line@),
{
    match strip_prefix(line, "cpu cores") {
        Some(value) => match second_field(&value) {
            Some(field) => parse_usize(&trim_class(&field, CharClass::Space)),
            None => None,
        },
        None => None,
    }
}

/// Reads the processor table, as [`cpuinfo_info`] has it.
pub fn parse_cpuinfo(content: &str) -> (info: CpuInfo)
    ensures
        info@ == cpuinfo_info(content@),
{
    let chars = to_chars(content);
    let lines = split_lines(&chars);
    let mut model: Vec<char> = to_chars("Unknown CPU");
    let mut i: usize = 0;
    proof {
        assert(views(lines@).skip(0) == views(lines@));
    }
    while i < lines.len()
        invariant
            i <= lines.len(),
            views(lines@) == lines_of(content@),
            cpuinfo_info(content@) == cpuinfo_scan(views(lines@).skip(i as int), model@),
        decreases lines.len() - i,
    {
        proof {
            let rest = views(lines@).skip(i as int);
            assert(rest[0] == lines@[i as int]@);
            assert(rest.drop_first() == views(lines@).skip(i + 1));
        }
        match cores_of_line(&lines[i]) {
            Some(n) => {
                return CpuInfo { model: from_chars(&model), cores: Some(n) };
            },
            None => {},
        }
        match model_of_line(&lines[i]) {
            Some(m) => {
                model = m;
            },
            None => {},
        }
        i += 1;
    }
    proof {
        assert(views(lines@).skip(i as int).len() == 0);
    }
    CpuInfo { model: from_chars(&model), cores: None }
}

/// The outcome on Linux, given what reading the processor table gave: a
/// table that was read is always detected, a failure is an I/O fault.
pub open spec fn cpuinfo_outcome(read: Result<Seq<char>, Seq<char>>) -> OutcomeView<CpuInfoView> {
    match read {
        Ok(content) => OutcomeView::Detected(cpuinfo_info(content)),
        Err(message) => OutcomeView::Error(ErrorView::Io(message)),
    }
}

/// The outcome on Linux, as [`cpuinfo_outcome`] has it.
pub fn cpu_from_cpuinfo(read: Result<String, IoFailure>) -> (out: DetectionResult<CpuInfo>)
    ensures
        out@ == cpuinfo_outcome(text_answer(read)),
{
    match read {
        Ok(content) => DetectionResult::Detected(parse_cpuinfo(content.as_str())),
        Err(failure) => DetectionResult::Error(Error::from_io(failure)),
    }
}

/// The model that a command printed, or `Unknown CPU` where the command
/// did not succeed.
pub open spec fn printed_model(output: CommandOutputView) -> Seq<char> {
    match trimmed_stdout(output) {
        Some(text) => text,
        None => "Unknown CPU"@,
    }
}

/// The number of cores that a command printed, if it succeeded and printed
/// a number.
pub open spec fn printed_cores(output: CommandOutputView) -> Option<usize> {
    match trimmed_stdout(output) {
        Some(text) => parse_usize_of(text),
        None => None,
    }
}

/// The outcome where two commands print the model and the number of
/// cores, given what running them gave: a command that did not run is an
/// I/O fault; otherwise the processor is detected.
pub open spec fn cpu_commands_outcome(
    model: Result<CommandOutputView, Seq<char>>,
    cores: Result<CommandOutputView, Seq<char>>,
) -> OutcomeView<CpuInfoView> {
    match model {
        Err(message) => OutcomeView::Error(ErrorView::Io(message)),
        Ok(model_output) => match cores {
            Err(message) => OutcomeView::Error(ErrorView::Io(message)),
            Ok(cores_output) => OutcomeView::Detected(
                CpuInfoView {
                    model: printed_model(model_output),
                    cores: printed_cores(cores_output),
                },
            ),
        },
    }
}

/// The processor once both commands have run, as [`cpu_commands_outcome`]
/// has it.
pub fn cpu_from_commands(model: &CommandOutput, cores: &CommandOutput) -> (info: CpuInfo)
    ensures
        OutcomeView::Detected(info@) == cpu_commands_outcome(Ok(model@), Ok(cores@)),
{
    let model_text = match model.trimmed_text() {
        Some(text) => text,
        None => "Unknown CPU".to_owned(),
    };
    let count = match cores.trimmed_text() {
        Some(text) => parse_usize(&to_chars(text.as_str())),
        None => None,
    };
    CpuInfo { model: model_text, cores: count }
}

/// The processor on Windows, given the two variables that describe it: the
/// model is the first, `Unknown CPU` where it is not set; the number of
/// cores is the second where it is a number.
pub open spec fn cpu_env_info(
    identifier: Option<Seq<char>>,
    count: Option<Seq<char>>,
) -> CpuInfoView {
    CpuInfoView {
        model: match identifier {
            Some(text) => text,
            None => "Unknown CPU"@,
        },
        cores: match count {
            Some(text) => parse_usize_of(text),
            None => None,
        },
    }
}

/// The processor on Windows, as [`cpu_env_info`] has it.
pub fn cpu_from_env(identifier: Option<String>, count: Option<String>) -> (info: CpuInfo)
    ensures
        info@ == cpu_env_info(opt_str_view(identifier), opt_str_view(count)),
{
    let model = match identifier {
        Some(text) => text,
        None => "Unknown CPU".to_owned(),
    };
    let cores = match count {
        Some(text) => parse_usize(&to_chars(text.as_str())),
        None => None,
    };
    CpuInfo { model, cores }
}

/// Runs the two commands that print the model and the number of cores,
/// the second only if the first ran.
pub fn cpu_by_sysctl<C: SystemContext>(ctx: &C, model_key: &str, cores_key: &str) -> (out:
    DetectionResult<CpuInfo>)
    ensures
        sysctl_may_yield(ctx, model_key@, cores_key@, out@),
{
    let model_args = ["-n", model_key];
    let model = ctx.execute_command("sysctl", &model_args);
    proof {
        assert(args_view(&model_args) =~= seq!["-n"@, model_key@]);
    }
    let ghost model_answer = command_answer(model);
    match model {
        Err(failure) => {
            let out = DetectionResult::Error(Error::from_io(failure));
            proof {
                assert(out@ == cpu_commands_outcome(model_answer, model_answer));
            }
            out
        },
        Ok(model_output) => {
            let cores_args = ["-n", cores_key];
            let cores = ctx.execute_command("sysctl", &cores_args);
            proof {
                assert(args_view(&cores_args) =~= seq!["-n"@, cores_key@]);
            }
            let ghost cores_answer = command_answer(cores);
            match cores {
                Err(failure) => {
                    let out = DetectionResult::Error(Error::from_io(failure));
                    proof {
                        assert(out@ == cpu_commands_outcome(model_answer, cores_answer));
                    }
                    out
                },
                Ok(cores_output) => {
                    let out = DetectionResult::Detected(
                        cpu_from_commands(&model_output, &cores_output),
                    );
                    proof {
                        assert(out@ == cpu_commands_outcome(model_answer, cores_answer));
                    }
                    out
                },
            }
        },
    }
}

/// Whether `out` can be what running `sysctl -n` on the two keys gives
/// through `ctx`, the second only if the first ran.
pub open spec fn sysctl_may_yield<C: SystemContext>(
    ctx: &C,
    model_key: Seq<char>,
    cores_key: Seq<char>,
    out: OutcomeView<CpuInfoView>,
) -> bool {
    exists|model: Result<CommandOutputView, Seq<char>>, cores: Result<CommandOutputView, Seq<char>>|
        {
            &&& ctx.may_execute("sysctl"@, seq!["-n"@, model_key], model)
            &&& model is Ok ==> ctx.may_execute("sysctl"@, seq!["-n"@, cores_key], cores)
            &&& out == #[trigger] cpu_commands_outcome(model, cores)
        }
}

/// Whether `out` can be what the probe reports through `ctx` when built
/// for `target`.
///
/// On Linux the file `/proc/cpuinfo` is read. On macOS `sysctl -n` prints
/// `machdep.cpu.brand_string` and `hw.physicalcpu`, on FreeBSD `hw.model`
/// and `hw.ncpu`. On Windows the variables `PROCESSOR_IDENTIFIER` and
/// `NUMBER_OF_PROCESSORS` are looked up. Any other platform is
/// unsupported.
pub open spec fn cpu_may_yield<C: SystemContext>(
    ctx: &C,
    target: BuildTarget,
    out: OutcomeView<CpuInfoView>,
) -> bool {
    match target.os {
        Platform::Linux => exists|read: Result<Seq<char>, Seq<char>>|
            {
                &&& ctx.may_read_file("/proc/cpuinfo"@, read)
                &&& out == #[trigger] cpuinfo_outcome(read)
            },
        Platform::MacOs => sysctl_may_yield(
            ctx,
            "machdep.cpu.brand_string"@,
            "hw.physicalcpu"@,
            out,
        ),
        Platform::FreeBsd => sysctl_may_yield(ctx, "hw.model"@, "hw.ncpu"@, out),
        Platform::Windows => exists|identifier: Option<Seq<char>>, count: Option<Seq<char>>|
            {
                &&& ctx.may_get_env("PROCESSOR_IDENTIFIER"@, identifier)
                &&& ctx.may_get_env("NUMBER_OF_PROCESSORS"@, count)
                &&& out == OutcomeView::Detected(#[trigger] cpu_env_info(identifier, count))
            },
        Platform::Unknown => out == OutcomeView::<CpuInfoView>::Error(
            ErrorView::UnsupportedPlatform,
        ),
    }
}

/// Detects the processor through `ctx`, with the strategy of the platform
/// that `target` names.
pub fn detect_cpu<C: SystemContext>(ctx: &C, target: BuildTarget) -> (out: DetectionResult<
    CpuInfo,
>)
    ensures
        cpu_may_yield(ctx, target, out@),
{
    match target.os {
        Platform::Linux => cpu_from_cpuinfo(ctx.read_file("/proc/cpuinfo")),
        Platform::MacOs => cpu_by_sysctl(ctx, "machdep.cpu.brand_string", "hw.physicalcpu"),
        Platform::FreeBsd => cpu_by_sysctl(ctx, "hw.model", "hw.ncpu"),
        Platform::Windows => {
            let identifier = ctx.get_env("PROCESSOR_IDENTIFIER");
            let count = ctx.get_env("NUMBER_OF_PROCESSORS");
            DetectionResult::Detected(cpu_from_env(identifier, count))
        },
        Platform::Unknown => DetectionResult::Error(Error::UnsupportedPlatform),
    }
}

} // verus!
