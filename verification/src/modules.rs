//! The categories of host information, the probe of each, and what a probe
//! reports.

pub mod cpu;
pub mod host;
pub mod kernel;
pub mod memory;
pub mod os;
pub mod shell;
pub mod uptime;

use vstd::prelude::*;
use vstd::string::StringExecFns;
use crate::context::SystemContext;
use crate::error::{DetectionResult, OutcomeView};
use crate::modules::cpu::{cpu_may_yield, detect_cpu, CpuInfo, CpuInfoView, CpuModule};
use crate::modules::host::{detect_host, host_may_yield, HostInfo, HostInfoView, HostModule};
use crate::modules::kernel::{
    detect_kernel, kernel_may_yield, KernelInfo, KernelInfoView, KernelModule,
};
use crate::modules::memory::{detect_memory, memory_may_yield, MemoryInfo, MemoryModule};
use crate::modules::os::{detect_os, os_may_yield, OsInfo, OsInfoView, OsModule};
use crate::modules::shell::{
    detect_shell, shell_may_yield, ShellInfo, ShellInfoView, ShellModule,
};
use crate::modules::uptime::{detect_uptime, uptime_may_yield, UptimeInfo, UptimeModule};
use crate::platform::BuildTarget;
use crate::text::to_chars;
use crate::tokens::chars_eq;

verus! {

/// A category of host information.
#[derive(Debug, Clone, Copy, PartialEq, Eq, Hash, Structural)]
pub enum ModuleKind {
    Os,
    Host,
    Kernel,
    Uptime,
    Shell,
    Cpu,
    Memory,
}

/// Every category, in the order in which they are listed and run.
pub const ALL_KINDS: [ModuleKind; 7] = [
    ModuleKind::Os,
    ModuleKind::Host,
    ModuleKind::Kernel,
    ModuleKind::Uptime,
    ModuleKind::Shell,
    ModuleKind::Cpu,
    ModuleKind::Memory,
];

/// `c` with the distinction of case removed: a capital Latin letter becomes
/// the small one, the Kelvin sign becomes `k`, any other character stays.
pub open spec fn fold_char(c: char) -> char {
    if 'A' <= c <= 'Z' {
        ((c as u8 + 32) as u8) as char
    } else if c == '\u{212a}' {
        'k'
    } else {
        c
    }
}

/// `s` with each character folded by [`fold_char`].
pub open spec fn folded(s: Seq<char>) -> Seq<char> {
    Seq::new(s.len(), |i: int| fold_char(s[i]))
}

/// `c` with the distinction of case removed.
pub fn fold_case(c: char) -> (out: char)
    ensures
        out == fold_char(c),
{
    if c >= 'A' && c <= 'Z' {
        ((c as u8) + 32) as char
    } else if c == '\u{212a}' {
        'k'
    } else {
        c
    }
}

impl ModuleKind {
    /// The display name of the category.
    pub open spec fn name_of(self) -> Seq<char> {
        match self {
            ModuleKind::Os => "OS"@,
            ModuleKind::Host => "Host"@,
            ModuleKind::Kernel => "Kernel"@,
            ModuleKind::Uptime => "Uptime"@,
            ModuleKind::Shell => "Shell"@,
            ModuleKind::Cpu => "CPU"@,
            ModuleKind::Memory => "Memory"@,
        }
    }

    /// The canonical lowercase name of the category.
    pub open spec fn key_of(self) -> Seq<char> {
        match self {
            ModuleKind::Os => "os"@,
            ModuleKind::Host => "host"@,
            ModuleKind::Kernel => "kernel"@,
            ModuleKind::Uptime => "uptime"@,
            ModuleKind::Shell => "shell"@,
            ModuleKind::Cpu => "cpu"@,
            ModuleKind::Memory => "memory"@,
        }
    }

    /// Every category, in the order in which they are listed and run.
    pub open spec fn all_kinds() -> Seq<ModuleKind> {
        seq![
            ModuleKind::Os,
            ModuleKind::Host,
            ModuleKind::Kernel,
            ModuleKind::Uptime,
            ModuleKind::Shell,
            ModuleKind::Cpu,
            ModuleKind::Memory,
        ]
    }

    /// The category whose canonical lowercase name is `key`.
    pub open spec fn of_key(key: Seq<char>) -> Option<ModuleKind> {
        if key == "os"@ {
            Some(ModuleKind::Os)
        } else if key == "host"@ {
            Some(ModuleKind::Host)
        } else if key == "kernel"@ {
            Some(ModuleKind::Kernel)
        } else if key == "uptime"@ {
            Some(ModuleKind::Uptime)
        } else if key == "shell"@ {
            Some(ModuleKind::Shell)
        } else if key == "cpu"@ {
            Some(ModuleKind::Cpu)
        } else if key == "memory"@ {
            Some(ModuleKind::Memory)
        } else {
            None
        }
    }

    /// The category that `text` names, whatever its case.
    pub open spec fn parsed(text: Seq<char>) -> Option<ModuleKind> {
        ModuleKind::of_key(folded(text))
    }

    /// The display name of the category.
    pub fn name(self) -> (n: &'static str)
        ensures
            n@ == self.name_of(),
    {
        match self {
            ModuleKind::Os => "OS",
            ModuleKind::Host => "Host",
            ModuleKind::Kernel => "Kernel",
            ModuleKind::Uptime => "Uptime",
            ModuleKind::Shell => "Shell",
            ModuleKind::Cpu => "CPU",
            ModuleKind::Memory => "Memory",
        }
    }

    /// The canonical lowercase name of the category.
    pub fn key(self) -> (n: &'static str)
        ensures
            n@ == self.key_of(),
    {
        match self {
            ModuleKind::Os => "os",
            ModuleKind::Host => "host",
            ModuleKind::Kernel => "kernel",
            ModuleKind::Uptime => "uptime",
            ModuleKind::Shell => "shell",
            ModuleKind::Cpu => "cpu",
            ModuleKind::Memory => "memory",
        }
    }

    /// Every category, in a fixed order.
    pub fn all() -> (kinds: &'static [ModuleKind])
        ensures
            kinds@ == ModuleKind::all_kinds(),
    {
        proof {
            assert(ALL_KINDS@ =~= ModuleKind::all_kinds());
        }
        &ALL_KINDS
    }

    /// Reads a category's name without regard to case. Text that names no
    /// category comes back in the error, after the words `Unknown module: `.
    pub fn parse(text: &str) -> (out: Result<ModuleKind, String>)
        ensures
            match out {
                Ok(kind) => ModuleKind::parsed(text@) == Some(kind),
                Err(message) => ModuleKind::parsed(text@) is None && message@
                    == "Unknown module: "@ + text@,
            },
    {
        let chars = to_chars(text);
        let mut lower: Vec<char> = Vec::new();
        let mut i: usize = 0;
        while i < chars.len()
            invariant
                i <= chars.len(),
                lower@.len() == i,
                forall|k: int| 0 <= k < i ==> lower@[k] == fold_char(#[trigger] chars@[k]),
            decreases chars.len() - i,
        {
            lower.push(fold_case(chars[i]));
            i += 1;
        }
        proof {
            assert(lower@ =~= folded(text@));
        }
        if chars_eq(&lower, "os") {
            Ok(ModuleKind::Os)
        } else if chars_eq(&lower, "host") {
            Ok(ModuleKind::Host)
        } else if chars_eq(&lower, "kernel") {
            Ok(ModuleKind::Kernel)
        } else if chars_eq(&lower, "uptime") {
            Ok(ModuleKind::Uptime)
        } else if chars_eq(&lower, "shell") {
            Ok(ModuleKind::Shell)
        } else if chars_eq(&lower, "cpu") {
            Ok(ModuleKind::Cpu)
        } else if chars_eq(&lower, "memory") {
            Ok(ModuleKind::Memory)
        } else {
            Err("Unknown module: ".to_owned().concat(text))
        }
    }
}

impl std::str::FromStr for ModuleKind {
    type Err = String;

    /// Reads a category's name without regard to case, as
    /// [`ModuleKind::parse`] does. Text that names no category comes back
    /// in the error, after the words `Unknown module: `.
    fn from_str(s: &str) -> (out: Result<Self, Self::Err>)
        ensures
            match out {
                Ok(kind) => ModuleKind::parsed(s@) == Some(kind),
                Err(message) => ModuleKind::parsed(s@) is None && message@
                    == "Unknown module: "@ + s@,
            },
    {
        ModuleKind::parse(s)
    }
}

/// What a probe detected, by category.
#[derive(Debug, Clone, PartialEq, Eq)]
pub enum ModuleInfo {
    Os(OsInfo),
    Host(HostInfo),
    Kernel(KernelInfo),
    Uptime(UptimeInfo),
    Shell(ShellInfo),
    Cpu(CpuInfo),
    Memory(MemoryInfo),
}

/// The mathematical value of a [`ModuleInfo`].
pub enum ModuleInfoView {
    Os(OsInfoView),
    Host(HostInfoView),
    Kernel(KernelInfoView),
    Uptime(UptimeInfo),
    Shell(ShellInfoView),
    Cpu(CpuInfoView),
    Memory(MemoryInfo),
}

impl View for ModuleInfo {
    type V = ModuleInfoView;

    open spec fn view(&self) -> ModuleInfoView {
        match self {
            ModuleInfo::Os(i) => ModuleInfoView::Os(i@),
            ModuleInfo::Host(i) => ModuleInfoView::Host(i@),
            ModuleInfo::Kernel(i) => ModuleInfoView::Kernel(i@),
            ModuleInfo::Uptime(i) => ModuleInfoView::Uptime(i@),
            ModuleInfo::Shell(i) => ModuleInfoView::Shell(i@),
            ModuleInfo::Cpu(i) => ModuleInfoView::Cpu(i@),
            ModuleInfo::Memory(i) => ModuleInfoView::Memory(i@),
        }
    }
}

impl ModuleInfo {
    /// The category that `info` belongs to.
    pub open spec fn kind_of(info: ModuleInfoView) -> ModuleKind {
        match info {
            ModuleInfoView::Os(_) => ModuleKind::Os,
            ModuleInfoView::Host(_) => ModuleKind::Host,
            ModuleInfoView::Kernel(_) => ModuleKind::Kernel,
            ModuleInfoView::Uptime(_) => ModuleKind::Uptime,
            ModuleInfoView::Shell(_) => ModuleKind::Shell,
            ModuleInfoView::Cpu(_) => ModuleKind::Cpu,
            ModuleInfoView::Memory(_) => ModuleKind::Memory,
        }
    }

    /// The text that shows `info`: that of the category's own information.
    pub open spec fn rendered(info: ModuleInfoView) -> Seq<char> {
        match info {
            ModuleInfoView::Os(i) => OsInfo::rendered(i),
            ModuleInfoView::Host(i) => HostInfo::rendered(i),
            ModuleInfoView::Kernel(i) => KernelInfo::rendered(i),
            ModuleInfoView::Uptime(i) => UptimeInfo::rendered(i),
            ModuleInfoView::Shell(i) => ShellInfo::rendered(i),
            ModuleInfoView::Cpu(i) => CpuInfo::rendered(i),
            ModuleInfoView::Memory(i) => MemoryInfo::rendered(i),
        }
    }

    /// The text that shows this information.
    pub fn to_string(&self) -> (s: String)
        ensures
            s@ == ModuleInfo::rendered(self@),
    {
        match self {
            ModuleInfo::Os(i) => i.to_string(),
            ModuleInfo::Host(i) => i.to_string(),
            ModuleInfo::Kernel(i) => i.to_string(),
            ModuleInfo::Uptime(i) => i.to_string(),
            ModuleInfo::Shell(i) => i.to_string(),
            ModuleInfo::Cpu(i) => i.to_string(),
            ModuleInfo::Memory(i) => i.to_string(),
        }
    }
}

/// Whether `out` can be what the probe of `kind` reports through `ctx`
/// when built for `target`: what the category's own probe can report,
/// with what it detected, if anything, under the category's name.
pub open spec fn may_yield<C: SystemContext>(
    ctx: &C,
    target: BuildTarget,
    kind: ModuleKind,
    out: OutcomeView<ModuleInfoView>,
) -> bool {
    match kind {
        ModuleKind::Os => exists|o: OutcomeView<OsInfoView>| #[trigger]
            os_may_yield(ctx, target, o) && out == o.lift(|i: OsInfoView| ModuleInfoView::Os(i)),
        ModuleKind::Host => exists|o: OutcomeView<HostInfoView>| #[trigger]
            host_may_yield(ctx, target, o) && out == o.lift(
                |i: HostInfoView| ModuleInfoView::Host(i),
            ),
        ModuleKind::Kernel => exists|o: OutcomeView<KernelInfoView>| #[trigger]
            kernel_may_yield(ctx, target, o) && out == o.lift(
                |i: KernelInfoView| ModuleInfoView::Kernel(i),
            ),
        ModuleKind::Uptime => exists|o: OutcomeView<UptimeInfo>| #[trigger]
            uptime_may_yield(ctx, target, o) && out == o.lift(
                |i: UptimeInfo| ModuleInfoView::Uptime(i),
            ),
        ModuleKind::Shell => exists|o: OutcomeView<ShellInfoView>| #[trigger]
            shell_may_yield(ctx, target, o) && out == o.lift(
                |i: ShellInfoView| ModuleInfoView::Shell(i),
            ),
        ModuleKind::Cpu => exists|o: OutcomeView<CpuInfoView>| #[trigger]
            cpu_may_yield(ctx, target, o) && out == o.lift(
                |i: CpuInfoView| ModuleInfoView::Cpu(i),
            ),
        ModuleKind::Memory => exists|o: OutcomeView<MemoryInfo>| #[trigger]
            memory_may_yield(ctx, target, o) && out == o.lift(
                |i: MemoryInfo| ModuleInfoView::Memory(i),
            ),
    }
}

/// A probe: the detection strategy of one category, built for one target.
/// Making a probe asks the host nothing; only `detect` does.
pub trait Module {
    /// The target that the probe is built for.
    spec fn target_of(&self) -> BuildTarget;

    /// The category that the probe detects.
    spec fn kind_of(&self) -> ModuleKind;

    /// Detects the probe's category through `ctx`. The outcome is exactly
    /// one of detected, unavailable and error.
    fn detect<C: SystemContext>(&self, ctx: &C) -> (out: DetectionResult<ModuleInfo>)
        ensures
            may_yield(ctx, self.target_of(), self.kind_of(), out@),
    ;

    /// The category that the probe detects.
    fn kind(&self) -> (k: ModuleKind)
        ensures
            k == self.kind_of(),
    ;

    /// The display name of the probe's category.
    fn name(&self) -> (n: &'static str)
        ensures
            n@ == self.kind_of().name_of(),
    ;
}

impl Module for OsModule {
    open spec fn target_of(&self) -> BuildTarget {
        self.target
    }

    open spec fn kind_of(&self) -> ModuleKind {
        ModuleKind::Os
    }

    fn detect<C: SystemContext>(&self, ctx: &C) -> (out: DetectionResult<ModuleInfo>) {
        match detect_os(ctx, self.target) {
            DetectionResult::Detected(info) => DetectionResult::Detected(ModuleInfo::Os(info)),
            DetectionResult::Unavailable => DetectionResult::Unavailable,
            DetectionResult::Error(e) => DetectionResult::Error(e),
        }
    }

    fn kind(&self) -> (k: ModuleKind) {
        ModuleKind::Os
    }

    fn name(&self) -> (n: &'static str) {
        ModuleKind::Os.name()
    }
}

impl Module for HostModule {
    open spec fn target_of(&self) -> BuildTarget {
        self.target
    }

    open spec fn kind_of(&self) -> ModuleKind {
        ModuleKind::Host
    }

    fn detect<C: SystemContext>(&self, ctx: &C) -> (out: DetectionResult<ModuleInfo>) {
        match detect_host(ctx, self.target) {
            DetectionResult::Detected(info) => DetectionResult::Detected(ModuleInfo::Host(info)),
            DetectionResult::Unavailable => DetectionResult::Unavailable,
            DetectionResult::Error(e) => DetectionResult::Error(e),
        }
    }

    fn kind(&self) -> (k: ModuleKind) {
        ModuleKind::Host
    }

    fn name(&self) -> (n: &'static str) {
        ModuleKind::Host.name()
    }
}

impl Module for KernelModule {
    open spec fn target_of(&self) -> BuildTarget {
        self.target
    }

    open spec fn kind_of(&self) -> ModuleKind {
        ModuleKind::Kernel
    }

    fn detect<C: SystemContext>(&self, ctx: &C) -> (out: DetectionResult<ModuleInfo>) {
        match detect_kernel(ctx, self.target) {
            DetectionResult::Detected(info) => DetectionResult::Detected(
                ModuleInfo::Kernel(info),
            ),
            DetectionResult::Unavailable => DetectionResult::Unavailable,
            DetectionResult::Error(e) => DetectionResult::Error(e),
        }
    }

    fn kind(&self) -> (k: ModuleKind) {
        ModuleKind::Kernel
    }

    fn name(&self) -> (n: &'static str) {
        ModuleKind::Kernel.name()
    }
}

impl Module for UptimeModule {
    open spec fn target_of(&self) -> BuildTarget {
        self.target
    }

    open spec fn kind_of(&self) -> ModuleKind {
        ModuleKind::Uptime
    }

    fn detect<C: SystemContext>(&self, ctx: &C) -> (out: DetectionResult<ModuleInfo>) {
        match detect_uptime(ctx, self.target) {
            DetectionResult::Detected(info) => DetectionResult::Detected(
                ModuleInfo::Uptime(info),
            ),
            DetectionResult::Unavailable => DetectionResult::Unavailable,
            DetectionResult::Error(e) => DetectionResult::Error(e),
        }
    }

    fn kind(&self) -> (k: ModuleKind) {
        ModuleKind::Uptime
    }

    fn name(&self) -> (n: &'static str) {
        ModuleKind::Uptime.name()
    }
}

impl Module for ShellModule {
    open spec fn target_of(&self) -> BuildTarget {
        self.target
    }

    open spec fn kind_of(&self) -> ModuleKind {
        ModuleKind::Shell
    }

    fn detect<C: SystemContext>(&self, ctx: &C) -> (out: DetectionResult<ModuleInfo>) {
        match detect_shell(ctx, self.target) {
            DetectionResult::Detected(info) => DetectionResult::Detected(ModuleInfo::Shell(info)),
            DetectionResult::Unavailable => DetectionResult::Unavailable,
            DetectionResult::Error(e) => DetectionResult::Error(e),
        }
    }

    fn kind(&self) -> (k: ModuleKind) {
        ModuleKind::Shell
    }

    fn name(&self) -> (n: &'static str) {
        ModuleKind::Shell.name()
    }
}

impl Module for CpuModule {
    open spec fn target_of(&self) -> BuildTarget {
        self.target
    }

    open spec fn kind_of(&self) -> ModuleKind {
        ModuleKind::Cpu
    }

    fn detect<C: SystemContext>(&self, ctx: &C) -> (out: DetectionResult<ModuleInfo>) {
        match detect_cpu(ctx, self.target) {
            DetectionResult::Detected(info) => DetectionResult::Detected(ModuleInfo::Cpu(info)),
            DetectionResult::Unavailable => DetectionResult::Unavailable,
            DetectionResult::Error(e) => DetectionResult::Error(e),
        }
    }

    fn kind(&self) -> (k: ModuleKind) {
        ModuleKind::Cpu
    }

    fn name(&self) -> (n: &'static str) {
        ModuleKind::Cpu.name()
    }
}

impl Module for MemoryModule {
    open spec fn target_of(&self) -> BuildTarget {
        self.target
    }

    open spec fn kind_of(&self) -> ModuleKind {
        ModuleKind::Memory
    }

    fn detect<C: SystemContext>(&self, ctx: &C) -> (out: DetectionResult<ModuleInfo>) {
        match detect_memory(ctx, self.target) {
            DetectionResult::Detected(info) => DetectionResult::Detected(
                ModuleInfo::Memory(info),
            ),
            DetectionResult::Unavailable => DetectionResult::Unavailable,
            DetectionResult::Error(e) => DetectionResult::Error(e),
        }
    }

    fn kind(&self) -> (k: ModuleKind) {
        ModuleKind::Memory
    }

    fn name(&self) -> (n: &'static str) {
        ModuleKind::Memory.name()
    }
}

/// The probe of any one category.
#[derive(Debug, Clone, Copy)]
pub enum Probe {
    Os(OsModule),
    Host(HostModule),
    Kernel(KernelModule),
    Uptime(UptimeModule),
    Shell(ShellModule),
    Cpu(CpuModule),
    Memory(MemoryModule),
}

impl Module for Probe {
    open spec fn target_of(&self) -> BuildTarget {
        match self {
            Probe::Os(m) => m.target,
            Probe::Host(m) => m.target,
            Probe::Kernel(m) => m.target,
            Probe::Uptime(m) => m.target,
            Probe::Shell(m) => m.target,
            Probe::Cpu(m) => m.target,
            Probe::Memory(m) => m.target,
        }
    }

    open spec fn kind_of(&self) -> ModuleKind {
        match self {
            Probe::Os(_) => ModuleKind::Os,
            Probe::Host(_) => ModuleKind::Host,
            Probe::Kernel(_) => ModuleKind::Kernel,
            Probe::Uptime(_) => ModuleKind::Uptime,
            Probe::Shell(_) => ModuleKind::Shell,
            Probe::Cpu(_) => ModuleKind::Cpu,
            Probe::Memory(_) => ModuleKind::Memory,
        }
    }

    fn detect<C: SystemContext>(&self, ctx: &C) -> (out: DetectionResult<ModuleInfo>) {
        match self {
            Probe::Os(m) => m.detect(ctx),
            Probe::Host(m) => m.detect(ctx),
            Probe::Kernel(m) => m.detect(ctx),
            Probe::Uptime(m) => m.detect(ctx),
            Probe::Shell(m) => m.detect(ctx),
            Probe::Cpu(m) => m.detect(ctx),
            Probe::Memory(m) => m.detect(ctx),
        }
    }

    fn kind(&self) -> (k: ModuleKind) {
        match self {
            Probe::Os(_) => ModuleKind::Os,
            Probe::Host(_) => ModuleKind::Host,
            Probe::Kernel(_) => ModuleKind::Kernel,
            Probe::Uptime(_) => ModuleKind::Uptime,
            Probe::Shell(_) => ModuleKind::Shell,
            Probe::Cpu(_) => ModuleKind::Cpu,
            Probe::Memory(_) => ModuleKind::Memory,
        }
    }

    fn name(&self) -> (n: &'static str) {
        self.kind().name()
    }
}

/// The probe of `kind`, built for `target`. The host is not touched.
pub fn create_module(kind: ModuleKind, target: BuildTarget) -> (probe: Probe)
    ensures
        probe.kind_of() == kind,
        probe.target_of() == target,
        probe == (match kind {
            ModuleKind::Os => Probe::Os(OsModule { target }),
            ModuleKind::Host => Probe::Host(HostModule { target }),
            ModuleKind::Kernel => Probe::Kernel(KernelModule { target }),
            ModuleKind::Uptime => Probe::Uptime(UptimeModule { target }),
            ModuleKind::Shell => Probe::Shell(ShellModule { target }),
            ModuleKind::Cpu => Probe::Cpu(CpuModule { target }),
            ModuleKind::Memory => Probe::Memory(MemoryModule { target }),
        }),
{
    match kind {
        ModuleKind::Os => Probe::Os(OsModule { target }),
        ModuleKind::Host => Probe::Host(HostModule { target }),
        ModuleKind::Kernel => Probe::Kernel(KernelModule { target }),
        ModuleKind::Uptime => Probe::Uptime(UptimeModule { target }),
        ModuleKind::Shell => Probe::Shell(ShellModule { target }),
        ModuleKind::Cpu => Probe::Cpu(CpuModule { target }),
        ModuleKind::Memory => Probe::Memory(MemoryModule { target }),
    }
}

} // verus!
