//! Running the probes of a request and keeping their results in the order
//! of the request, whether they ran one after another or side by side.

use vstd::prelude::*;
use vstd::string::StringExecFns;
use rayon::iter::{IntoParallelRefIterator, ParallelIterator};
use crate::config::{Config, ConfigView};
use crate::context::SystemContext;
use crate::error::{DetectionResult, Error, OutcomeView};
use crate::logo::{Logo, LogoView};
use crate::modules::{
    create_module, may_yield, Module, ModuleInfo, ModuleInfoView, ModuleKind,
};
use crate::output::{
    modules_view, rendered_text, OutputFormatter, OutputFormatterView, RenderedModule,
    RenderedModuleView,
};
use crate::platform::BuildTarget;

verus! {

/// The views of the pairs of `results`.
pub open spec fn results_view(results: Seq<(ModuleKind, DetectionResult<ModuleInfo>)>) -> Seq<
    (ModuleKind, OutcomeView<ModuleInfoView>),
> {
    Seq::new(results.len(), |i: int| (results[i].0, results[i].1@))
}

/// The categories of `results`, in their order.
pub open spec fn kinds_of(results: Seq<(ModuleKind, OutcomeView<ModuleInfoView>)>) -> Seq<
    ModuleKind,
> {
    Seq::new(results.len(), |i: int| results[i].0)
}

/// Whether `results` can be what running the probes of `kinds` through
/// `ctx` gives: one pair for each category, in the order of `kinds`, each
/// with its category and with an outcome that the category's probe can
/// report.
pub open spec fn run_may_yield<C: SystemContext>(
    ctx: &C,
    target: BuildTarget,
    kinds: Seq<ModuleKind>,
    results: Seq<(ModuleKind, OutcomeView<ModuleInfoView>)>,
) -> bool {
    &&& results.len() == kinds.len()
    &&& forall|i: int|
        0 <= i < kinds.len() ==> (#[trigger] results[i]).0 == kinds[i] && may_yield(
            ctx,
            target,
            kinds[i],
            results[i].1,
        )
}

/// Makes the probe of `kind` and runs it through `ctx`.
pub fn detect_pair<C: SystemContext>(kind: ModuleKind, ctx: &C, target: BuildTarget) -> (out: (
    ModuleKind,
    DetectionResult<ModuleInfo>,
))
    ensures
        out.0 == kind,
        may_yield(ctx, target, kind, out.1@),
{
    let module = create_module(kind, target);
    (kind, module.detect(ctx))
}

/// rayon's `par_iter`, `map` and `collect` on a slice: the probes run on
/// rayon's worker pool, and the vector that is collected holds one result
/// for each element of the slice, in the order of the slice. Each result is
/// what [`detect_pair`] gave for its element, so it has what that function
/// ensures.
#[verifier::external_body]
fn detect_in_parallel<C: SystemContext + Sync>(
    kinds: &[ModuleKind],
    ctx: &C,
    target: BuildTarget,
) -> (out: Vec<(ModuleKind, DetectionResult<ModuleInfo>)>)
    ensures
        run_may_yield(ctx, target, kinds@, results_view(out@)),
{
    kinds.par_iter().map(|kind| detect_pair(*kind, ctx, target)).collect()
}

/// Runs the probes of `kinds` one after another, in the order of `kinds`.
pub fn detect_in_sequence<C: SystemContext>(kinds: &[ModuleKind], ctx: &C, target: BuildTarget) -> (out:
    Vec<(ModuleKind, DetectionResult<ModuleInfo>)>)
    ensures
        run_may_yield(ctx, target, kinds@, results_view(out@)),
{
    let mut out: Vec<(ModuleKind, DetectionResult<ModuleInfo>)> = Vec::new();
    let mut i: usize = 0;
    while i < kinds.len()
        invariant
            i <= kinds.len(),
            out@.len() == i,
            forall|k: int|
                0 <= k < i ==> (#[trigger] out@[k]).0 == kinds@[k] && may_yield(
                    ctx,
                    target,
                    kinds@[k],
                    out@[k].1@,
                ),
        decreases kinds.len() - i,
    {
        let pair = detect_pair(kinds[i], ctx, target);
        out.push(pair);
        i += 1;
    }
    proof {
        let results = results_view(out@);
        assert forall|k: int| 0 <= k < kinds@.len() implies (#[trigger] results[k]).0 == kinds@[k]
            && may_yield(ctx, target, kinds@[k], results[k].1) by {
            assert(out@[k].0 == kinds@[k]);
        }
    }
    out
}

/// Runs the probe of each of `kinds` through `ctx`, one after another if
/// `sequential` is set and side by side if not. Either way there is one
/// result for each category, in the order of `kinds`; no probe's fault
/// keeps another from running.
pub fn execute_modules<C: SystemContext + Sync>(
    kinds: &[ModuleKind],
    sequential: bool,
    ctx: &C,
    target: BuildTarget,
) -> (out: Vec<(ModuleKind, DetectionResult<ModuleInfo>)>)
    ensures
        run_may_yield(ctx, target, kinds@, results_view(out@)),
        kinds_of(results_view(out@)) == kinds@,
{
    let out = if sequential {
        detect_in_sequence(kinds, ctx, target)
    } else {
        detect_in_parallel(kinds, ctx, target)
    };
    proof {
        assert(kinds_of(results_view(out@)) =~= kinds@);
    }
    out
}

/// What is shown for the outcome `outcome` of `kind`: the text of what was
/// detected, nothing for unavailable, the text of the fault for an error.
pub open spec fn rendered_of(
    kind: ModuleKind,
    outcome: OutcomeView<ModuleInfoView>,
) -> RenderedModuleView {
    match outcome {
        OutcomeView::Detected(info) => RenderedModuleView {
            kind,
            value: Some(ModuleInfo::rendered(info)),
            error: None,
        },
        OutcomeView::Unavailable => RenderedModuleView { kind, value: None, error: None },
        OutcomeView::Error(e) => RenderedModuleView {
            kind,
            value: None,
            error: Some(Error::message_of(e)),
        },
    }
}

/// What is shown for an outcome, as [`rendered_of`] has it.
pub fn render_outcome(kind: ModuleKind, outcome: &DetectionResult<ModuleInfo>) -> (m:
    RenderedModule)
    ensures
        m@ == rendered_of(kind, outcome@),
{
    match outcome {
        DetectionResult::Detected(info) => RenderedModule::value(kind, info.to_string()),
        DetectionResult::Unavailable => RenderedModule::unavailable(kind),
        DetectionResult::Error(e) => RenderedModule::error(kind, e.to_string()),
    }
}

/// Where a line is written: to the standard output or to the standard
/// error.
#[derive(Debug, Clone, Copy, PartialEq, Eq, Structural)]
pub enum Stream {
    Output,
    Error,
}

/// The line that reports one result, and where it is written, if the
/// result is reported. What was detected is written to the output, after
/// the category's name and a colon unless only values are asked for. With
/// names, unavailable is written to the output as `Not available`, and a
/// fault to the error stream after `Error - `; without, neither is
/// reported.
pub open spec fn display_line(
    kind: ModuleKind,
    outcome: OutcomeView<ModuleInfoView>,
    values_only: bool,
) -> Option<(Stream, Seq<char>)> {
    match outcome {
        OutcomeView::Detected(info) => Some(
            (
                Stream::Output,
                if values_only {
                    ModuleInfo::rendered(info)
                } else {
                    kind.name_of() + ": "@ + ModuleInfo::rendered(info)
                },
            ),
        ),
        OutcomeView::Unavailable => if values_only {
            None
        } else {
            Some((Stream::Output, kind.name_of() + ": Not available"@))
        },
        OutcomeView::Error(e) => if values_only {
            None
        } else {
            Some((Stream::Error, kind.name_of() + ": Error - "@ + Error::message_of(e)))
        },
    }
}

/// The lines that report `results`, in their order.
pub open spec fn display_lines(
    results: Seq<(ModuleKind, OutcomeView<ModuleInfoView>)>,
    values_only: bool,
) -> Seq<(Stream, Seq<char>)>
    decreases results.len(),
{
    if results.len() == 0 {
        Seq::empty()
    } else {
        let before = display_lines(results.drop_last(), values_only);
        match display_line(results.last().0, results.last().1, values_only) {
            Some(line) => before.push(line),
            None => before,
        }
    }
}

/// The views of the lines of `lines`.
pub open spec fn lines_view(lines: Seq<(Stream, String)>) -> Seq<(Stream, Seq<char>)> {
    Seq::new(lines.len(), |i: int| (lines[i].0, lines[i].1@))
}

/// The lines that report `results`, each with the stream that it is
/// written to, as [`display_lines`] has them.
pub fn display_results(
    results: &[(ModuleKind, DetectionResult<ModuleInfo>)],
    values_only: bool,
) -> (lines: Vec<(Stream, String)>)
    ensures
        lines_view(lines@) == display_lines(results_view(results@), values_only),
{
    let mut lines: Vec<(Stream, String)> = Vec::new();
    let ghost all = results_view(results@);
    let mut i: usize = 0;
    proof {
        assert(all.take(0) =~= Seq::<(ModuleKind, OutcomeView<ModuleInfoView>)>::empty());
        assert(lines_view(lines@) =~= display_lines(all.take(0), values_only));
    }
    while i < results.len()
        invariant
            i <= results.len(),
            all == results_view(results@),
            lines_view(lines@) == display_lines(all.take(i as int), values_only),
        decreases results.len() - i,
    {
        proof {
            assert(all.take(i + 1).drop_last() =~= all.take(i as int));
            assert(all.take(i + 1).last() == all[i as int]);
        }
        let ghost before = lines_view(lines@);
        let kind = results[i].0;
        let line: Option<(Stream, String)> = match &results[i].1 {
            DetectionResult::Detected(info) => if values_only {
                Some((Stream::Output, info.to_string()))
            } else {
                let mut text = kind.name().to_owned();
                text.append(": ");
                text.append(info.to_string().as_str());
                Some((Stream::Output, text))
            },
            DetectionResult::Unavailable => if values_only {
                None
            } else {
                let mut text = kind.name().to_owned();
                text.append(": Not available");
                Some((Stream::Output, text))
            },
            DetectionResult::Error(e) => if values_only {
                None
            } else {
                let mut text = kind.name().to_owned();
                text.append(": Error - ");
                text.append(e.to_string().as_str());
                Some((Stream::Error, text))
            },
        };
        match line {
            Some(entry) => {
                lines.push(entry);
                proof {
                    assert(lines_view(lines@) =~= before.push((entry.0, entry.1@)));
                }
            },
            None => {},
        }
        i += 1;
    }
    proof {
        assert(all.take(i as int) =~= all);
    }
    lines
}

/// Whether `modules` can be what a run over `kinds` through `ctx` shows:
/// what is shown for results that the run can give.
pub open spec fn run_may_render<C: SystemContext>(
    ctx: &C,
    target: BuildTarget,
    kinds: Seq<ModuleKind>,
    modules: Seq<RenderedModuleView>,
) -> bool {
    exists|results: Seq<(ModuleKind, OutcomeView<ModuleInfoView>)>| #[trigger]
        run_may_yield(ctx, target, kinds, results) && modules == Seq::new(
            results.len(),
            |i: int| rendered_of(results[i].0, results[i].1),
        )
}

/// Runs what a configuration asks for.
#[derive(Debug, Clone)]
pub struct Application {
    config: Config,
}

impl View for Application {
    type V = ConfigView;

    closed spec fn view(&self) -> ConfigView {
        self.config@
    }
}

impl Application {
    /// The application that runs what `config` asks for.
    pub fn new(config: Config) -> (app: Application)
        ensures
            app@ == config@,
    {
        Application { config }
    }

    /// Runs the probes that the configuration asks for, side by side if
    /// it asks for that, and gives what is shown for each, in the order of
    /// the configuration.
    pub fn run<C: SystemContext + Sync>(&self, ctx: &C, target: BuildTarget) -> (out: Vec<
        RenderedModule,
    >)
        ensures
            run_may_render(ctx, target, self@.modules, modules_view(out@)),
            out@.len() == self@.modules.len(),
            forall|i: int| 0 <= i < out@.len() ==> (#[trigger] out@[i]).kind == self@.modules[i],
    {
        let results = execute_modules(self.config.modules(), !self.config.parallel(), ctx, target);
        let mut out: Vec<RenderedModule> = Vec::new();
        let ghost all = results_view(results@);
        let mut i: usize = 0;
        while i < results.len()
            invariant
                i <= results.len(),
                all == results_view(results@),
                out@.len() == i,
                forall|k: int|
                    0 <= k < i ==> (#[trigger] out@[k])@ == rendered_of(all[k].0, all[k].1),
            decreases results.len() - i,
        {
            let shown = render_outcome(results[i].0, &results[i].1);
            out.push(shown);
            i += 1;
        }
        proof {
            assert(modules_view(out@) =~= Seq::new(
                all.len(),
                |i: int| rendered_of(all[i].0, all[i].1),
            ));
            assert forall|i: int| 0 <= i < out@.len() implies (#[trigger] out@[i]).kind
                == self@.modules[i] by {
                assert(out@[i]@ == rendered_of(all[i].0, all[i].1));
                assert(all[i].0 == self@.modules[i]);
            }
        }
        out
    }

    /// Makes the probe of `kind`, runs it through `ctx`, and gives what is
    /// shown for its outcome.
    pub fn detect_module<C: SystemContext>(kind: ModuleKind, ctx: &C, target: BuildTarget) -> (m:
        RenderedModule)
        ensures
            exists|outcome: OutcomeView<ModuleInfoView>| #[trigger]
                may_yield(ctx, target, kind, outcome) && m@ == rendered_of(kind, outcome),
    {
        let pair = detect_pair(kind, ctx, target);
        render_outcome(kind, &pair.1)
    }

    /// Whether `out` can be the text that shows `modules` under the
    /// configuration `config`: with the labels and the logo that it asks
    /// for, the logo found through `ctx` where the configuration names
    /// none.
    pub open spec fn may_show<C: SystemContext>(
        config: ConfigView,
        ctx: &C,
        target: BuildTarget,
        modules: Seq<RenderedModuleView>,
        out: Seq<char>,
    ) -> bool {
        match config.logo {
            None => out == rendered_text(
                OutputFormatterView { values_only: config.values_only, logo: None },
                modules,
            ),
            Some(logo_config) => exists|logo: Option<LogoView>| #[trigger]
                Logo::may_come_from(logo_config, ctx, target, logo) && out == rendered_text(
                    OutputFormatterView { values_only: config.values_only, logo },
                    modules,
                ),
        }
    }

    /// The text that shows `modules`, as [`Application::may_show`] has it.
    pub fn render<C: SystemContext>(
        &self,
        modules: &[RenderedModule],
        ctx: &C,
        target: BuildTarget,
    ) -> (out: String)
        ensures
            Application::may_show(self@, ctx, target, modules_view(modules@), out@),
    {
        let logo = match self.config.logo() {
            Some(logo_config) => Logo::from_config(logo_config, ctx, target),
            None => None,
        };
        let formatter = OutputFormatter::new(self.config.values_only(), logo);
        formatter.render(modules)
    }
}

} // verus!
