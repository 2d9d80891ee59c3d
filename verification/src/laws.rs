//! Laws that hold of the library as a whole.

use vstd::prelude::*;
use crate::application::run_may_yield;
use crate::context::MockSystemContext;
use crate::decimal::{
    all_digits, char_of_digit, decimal_of, digit_of, digits_value, is_digit, parse_u64_of,
    unsigned_digits,
};
use crate::error::{DetectionResult, OutcomeView};
use crate::modules::cpu::{cpu_may_yield, CpuInfoView};
use crate::modules::host::{host_may_yield, HostInfoView};
use crate::modules::kernel::{kernel_may_yield, KernelInfoView};
use crate::modules::memory::{memory_may_yield, used_of, MemoryInfo};
use crate::modules::os::{os_may_yield, OsInfoView};
use crate::modules::shell::{shell_may_yield, ShellInfoView};
use crate::modules::uptime::{uptime_may_yield, UptimeInfo};
use crate::modules::{folded, may_yield, ModuleInfoView, ModuleKind};
use crate::platform::{BuildTarget, Platform};

verus! {

/// An outcome is exactly one of detected, unavailable and error.
pub proof fn law_tri_state<T>(outcome: DetectionResult<T>)
    ensures
        outcome is Detected || outcome is Unavailable || outcome is Error,
        !(outcome is Detected && outcome is Unavailable),
        !(outcome is Detected && outcome is Error),
        !(outcome is Unavailable && outcome is Error),
{
}

/// The canonical lowercase name of a category reads back as the category.
pub proof fn law_key_round_trip(kind: ModuleKind)
    ensures
        ModuleKind::parsed(kind.key_of()) == Some(kind),
{
    reveal_strlit("os");
    reveal_strlit("host");
    reveal_strlit("kernel");
    reveal_strlit("uptime");
    reveal_strlit("shell");
    reveal_strlit("cpu");
    reveal_strlit("memory");
    assert(folded(kind.key_of()) =~= kind.key_of());
    assert("uptime"@[0] != "kernel"@[0]);
    assert("memory"@[0] != "kernel"@[0]);
    assert("memory"@[0] != "uptime"@[0]);
}

/// The display name of a category reads back as the category too, since
/// case does not count.
pub proof fn law_name_round_trip(kind: ModuleKind)
    ensures
        ModuleKind::parsed(kind.name_of()) == Some(kind),
{
    reveal_strlit("os");
    reveal_strlit("host");
    reveal_strlit("kernel");
    reveal_strlit("uptime");
    reveal_strlit("shell");
    reveal_strlit("cpu");
    reveal_strlit("memory");
    reveal_strlit("OS");
    reveal_strlit("Host");
    reveal_strlit("Kernel");
    reveal_strlit("Uptime");
    reveal_strlit("Shell");
    reveal_strlit("CPU");
    reveal_strlit("Memory");
    assert(folded(kind.name_of()) =~= kind.key_of());
    assert("uptime"@[0] != "kernel"@[0]);
    assert("memory"@[0] != "kernel"@[0]);
    assert("memory"@[0] != "uptime"@[0]);
}

/// The memory in use and the memory free add up to the total, and what is
/// free is found again from the total and what is in use. Where more is
/// said to be free than there is, nothing is in use.
pub proof fn law_memory_arithmetic(total: u64, available: u64)
    ensures
        available <= total ==> used_of(total, available) + available == total,
        available <= total ==> used_of(total, used_of(total, available)) == available,
        available > total ==> used_of(total, available) == 0,
{
}

/// Through a context without fixtures no probe detects anything, on any
/// platform but Windows, where some probes ask the host nothing.
pub proof fn law_empty_context(
    ctx: MockSystemContext,
    target: BuildTarget,
    kind: ModuleKind,
    outcome: OutcomeView<ModuleInfoView>,
)
    requires
        ctx.is_empty(),
        target.os != Platform::Windows,
        may_yield(&ctx, target, kind, outcome),
    ensures
        !(outcome is Detected),
{
    match kind {
        ModuleKind::Os => {
            let o = choose|o: OutcomeView<OsInfoView>| #[trigger]
                os_may_yield(&ctx, target, o) && outcome == o.lift(
                    |i: OsInfoView| ModuleInfoView::Os(i),
                );
            assert(!(o is Detected));
        },
        ModuleKind::Host => {
            let o = choose|o: OutcomeView<HostInfoView>| #[trigger]
                host_may_yield(&ctx, target, o) && outcome == o.lift(
                    |i: HostInfoView| ModuleInfoView::Host(i),
                );
            assert(!(o is Detected));
        },
        ModuleKind::Kernel => {
            let o = choose|o: OutcomeView<KernelInfoView>| #[trigger]
                kernel_may_yield(&ctx, target, o) && outcome == o.lift(
                    |i: KernelInfoView| ModuleInfoView::Kernel(i),
                );
            assert(!(o is Detected));
        },
        ModuleKind::Uptime => {
            let o = choose|o: OutcomeView<UptimeInfo>| #[trigger]
                uptime_may_yield(&ctx, target, o) && outcome == o.lift(
                    |i: UptimeInfo| ModuleInfoView::Uptime(i),
                );
            assert(!(o is Detected));
        },
        ModuleKind::Shell => {
            let o = choose|o: OutcomeView<ShellInfoView>| #[trigger]
                shell_may_yield(&ctx, target, o) && outcome == o.lift(
                    |i: ShellInfoView| ModuleInfoView::Shell(i),
                );
            assert(!(o is Detected));
        },
        ModuleKind::Cpu => {
            let o = choose|o: OutcomeView<CpuInfoView>| #[trigger]
                cpu_may_yield(&ctx, target, o) && outcome == o.lift(
                    |i: CpuInfoView| ModuleInfoView::Cpu(i),
                );
            assert(!(o is Detected));
        },
        ModuleKind::Memory => {
            let o = choose|o: OutcomeView<MemoryInfo>| #[trigger]
                memory_may_yield(&ctx, target, o) && outcome == o.lift(
                    |i: MemoryInfo| ModuleInfoView::Memory(i),
                );
            assert(!(o is Detected));
        },
    }
}

/// Whether the probe of `kind` reads the clock when built for `target`:
/// the probe of uptime does on macOS and on FreeBSD.
pub open spec fn reads_clock(target: BuildTarget, kind: ModuleKind) -> bool {
    kind == ModuleKind::Uptime && (target.os == Platform::MacOs || target.os == Platform::FreeBsd)
}

/// Through a context that answers from fixtures a probe that does not
/// read the clock has one outcome only.
pub proof fn law_fixtures_decide(
    ctx: MockSystemContext,
    target: BuildTarget,
    kind: ModuleKind,
    first: OutcomeView<ModuleInfoView>,
    second: OutcomeView<ModuleInfoView>,
)
    requires
        !reads_clock(target, kind),
        may_yield(&ctx, target, kind, first),
        may_yield(&ctx, target, kind, second),
    ensures
        first == second,
{
}

/// Two runs over the same categories through the same fixtures give the
/// same results in the same order, however each of them was scheduled, as
/// long as no probe reads the clock.
pub proof fn law_runs_agree(
    ctx: MockSystemContext,
    target: BuildTarget,
    kinds: Seq<ModuleKind>,
    first: Seq<(ModuleKind, OutcomeView<ModuleInfoView>)>,
    second: Seq<(ModuleKind, OutcomeView<ModuleInfoView>)>,
)
    requires
        forall|i: int| 0 <= i < kinds.len() ==> !reads_clock(target, #[trigger] kinds[i]),
        run_may_yield(&ctx, target, kinds, first),
        run_may_yield(&ctx, target, kinds, second),
    ensures
        first == second,
{
    assert forall|i: int| 0 <= i < kinds.len() implies first[i] == second[i] by {
        assert(!reads_clock(target, kinds[i]));
        assert(first[i].0 == kinds[i]);
        assert(second[i].0 == kinds[i]);
        law_fixtures_decide(ctx, target, kinds[i], first[i].1, second[i].1);
    }
    assert(first =~= second);
}

/// The results of a run name the categories that were asked for, in the
/// order in which they were asked for.
pub proof fn law_order_preserved<C: crate::context::SystemContext>(
    ctx: &C,
    target: BuildTarget,
    kinds: Seq<ModuleKind>,
    results: Seq<(ModuleKind, OutcomeView<ModuleInfoView>)>,
)
    requires
        run_may_yield(ctx, target, kinds, results),
    ensures
        crate::application::kinds_of(results) == kinds,
{
    assert(crate::application::kinds_of(results) =~= kinds);
}

/// A number written in base ten is made of digits, and they write the
/// number.
pub proof fn law_decimal_digits(n: nat)
    ensures
        decimal_of(n).len() > 0,
        all_digits(decimal_of(n)),
        digits_value(decimal_of(n)) == n,
    decreases n,
{
    let text = decimal_of(n);
    if n < 10 {
        assert(text.drop_last() =~= Seq::<char>::empty());
        assert(digits_value(text.drop_last()) == 0);
        assert(text.last() == char_of_digit(n));
        assert(digit_of(char_of_digit(n)) == n);
        assert(digits_value(text) == digits_value(text.drop_last()) * 10 + digit_of(text.last()));
    } else {
        law_decimal_digits(n / 10);
        let before = decimal_of(n / 10);
        assert(text.drop_last() =~= before);
        assert(text.last() == char_of_digit(n % 10));
        assert(digit_of(char_of_digit(n % 10)) == n % 10);
        assert(digits_value(text) == digits_value(text.drop_last()) * 10 + digit_of(text.last()));
        assert forall|i: int| 0 <= i < text.len() implies is_digit(#[trigger] text[i]) by {
            if i < before.len() {
                assert(text[i] == before[i]);
            }
        }
    }
}

/// A number that fits into 64 bits reads back from its text in base ten.
pub proof fn law_decimal_round_trip(n: u64)
    ensures
        parse_u64_of(decimal_of(n as nat)) == Some(n),
{
    let text = decimal_of(n as nat);
    law_decimal_digits(n as nat);
    assert(is_digit(text[0]));
    assert(unsigned_digits(text) == text);
}

} // verus!
