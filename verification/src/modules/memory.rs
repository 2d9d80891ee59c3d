//! Memory: how much there is and how much is in use, in bytes.

use vstd::prelude::*;
use vstd::string::StringExecFns;
use crate::context::{
    args_view, command_answer, stdout_of, text_answer, trimmed_stdout, CommandOutput,
    CommandOutputView, IoFailure, SystemContext,
};
use crate::decimal::{char_of_digit, decimal_of, parse_u64, parse_u64_of, push_decimal};
use crate::error::{DetectionResult, Error, ErrorView, OutcomeView};
use crate::platform::{BuildTarget, Platform};
use crate::text::{from_chars, to_chars, trim_end_class, trim_end_of, CharClass};
use crate::tokens::{
    first_token, first_token_of, lines_of, split_lines, strip_prefix, strip_prefix_of, views,
};

verus! {

/// The probe of memory.
#[derive(Debug, Clone, Copy)]
pub struct MemoryModule {
    pub target: BuildTarget,
}

/// What is known of memory, in bytes.
#[derive(Debug, Clone, Copy, PartialEq, Eq, Structural)]
pub struct MemoryInfo {
    pub total: u64,
    pub used: u64,
}

impl View for MemoryInfo {
    type V = MemoryInfo;

    open spec fn view(&self) -> MemoryInfo {
        *self
    }
}

/// The memory in use where `available` of `total` bytes are free: the
/// difference, and nothing where more is free than there is.
pub open spec fn used_of(total: u64, available: u64) -> u64 {
    if available <= total {
        (total - available) as u64
    } else {
        0
    }
}

/// The size in bytes of the unit with index `k`: 1024 to the power `k`.
pub open spec fn unit_size(k: nat) -> nat {
    if k == 0 {
        1
    } else if k == 1 {
        1024
    } else if k == 2 {
        1048576
    } else if k == 3 {
        1073741824
    } else {
        1099511627776
    }
}

/// The index of the unit in which `bytes` is shown: the largest of B, KiB,
/// MiB, GiB and TiB that `bytes` holds at least once, B for less than that.
pub open spec fn unit_index(bytes: nat) -> nat {
    if bytes < 1024 {
        0
    } else if bytes < 1048576 {
        1
    } else if bytes < 1073741824 {
        2
    } else if bytes < 1099511627776 {
        3
    } else {
        4
    }
}

/// The name of the unit with index `k`.
pub open spec fn unit_name(k: nat) -> Seq<char> {
    if k == 0 {
        "B"@
    } else if k == 1 {
        "KiB"@
    } else if k == 2 {
        "MiB"@
    } else if k == 3 {
        "GiB"@
    } else {
        "TiB"@
    }
}

/// `n / d` rounded to the nearest whole number, a half to the even one.
pub open spec fn rounded_quotient(n: nat, d: nat) -> nat
    recommends
        d > 0,
{
    let q = n / d;
    let r = n % d;
    if 2 * r > d || (2 * r == d && q % 2 == 1) {
        q + 1
    } else {
        q
    }
}

/// `bytes` in its unit, in hundredths, rounded.
pub open spec fn hundredths_of(bytes: nat) -> nat {
    rounded_quotient(bytes * 100, unit_size(unit_index(bytes)))
}

/// `bytes` as text: the amount in its unit with two decimals, a space and
/// the unit's name.
pub open spec fn formatted_bytes(bytes: nat) -> Seq<char> {
    let h = hundredths_of(bytes);
    decimal_of(h / 100) + seq!['.', char_of_digit((h % 100) / 10), char_of_digit(h % 10)] + " "@
        + unit_name(unit_index(bytes))
}

impl MemoryInfo {
    /// The information for `total` bytes of which `available` are free.
    /// The memory in use and the memory free add up to the total; where
    /// more is said to be free than there is, none is in use.
    pub fn from_available(total: u64, available: u64) -> (info: MemoryInfo)
        ensures
            info.total == total,
            info.used == used_of(total, available),
            available <= total ==> info.used + available == total,
            available > total ==> info.used == 0,
    {
        MemoryInfo { total, used: total.saturating_sub(available) }
    }

    /// The memory that is free: the total less what is in use, and nothing
    /// where more is in use than there is.
    pub fn available(&self) -> (free: u64)
        ensures
            free == used_of(self.total, self.used),
    {
        self.total.saturating_sub(self.used)
    }

    /// `bytes` as text, as [`formatted_bytes`] has it.
    pub fn format_bytes(bytes: u64) -> (s: String)
        ensures
            s@ == formatted_bytes(bytes as nat),
    {
        let (size, unit): (u128, &'static str) = if bytes < 1024 {
            (1, "B")
        } else if bytes < 1048576 {
            (1024, "KiB")
        } else if bytes < 1073741824 {
            (1048576, "MiB")
        } else if bytes < 1099511627776 {
            (1073741824, "GiB")
        } else {
            (1099511627776, "TiB")
        };
        let scaled: u128 = (bytes as u128) * 100;
        let q: u128 = scaled / size;
        let r: u128 = scaled % size;
        let h: u128 = if 2 * r > size || (2 * r == size && q % 2 == 1) {
            q + 1
        } else {
            q
        };
        assert(h == hundredths_of(bytes as nat));
        assert(h / 100 <= u64::MAX) by {
            assert(q <= scaled);
        }
        let mut out: Vec<char> = Vec::new();
        push_decimal((h / 100) as u64, &mut out);
        out.push('.');
        out.push((48u8 + ((h % 100) / 10) as u8) as char);
        out.push((48u8 + (h % 10) as u8) as char);
        let mut s = from_chars(&out);
        s.append(" ");
        s.append(unit);
        proof {
            let hn = h as nat;
            assert(out@ =~= decimal_of(hn / 100) + seq![
                '.',
                char_of_digit((hn % 100) / 10),
                char_of_digit(hn % 10),
            ]);
        }
        s
    }

    /// The text that shows `info`: what is in use, a slash, and the total.
    pub open spec fn rendered(info: MemoryInfo) -> Seq<char> {
        formatted_bytes(info.used as nat) + " / "@ + formatted_bytes(info.total as nat)
    }

    /// The text that shows this information.
    pub fn to_string(&self) -> (s: String)
        ensures
            s@ == MemoryInfo::rendered(self@),
    {
        let mut s = MemoryInfo::format_bytes(self.used);
        s.append(" / ");
        s.append(MemoryInfo::format_bytes(self.total).as_str());
        s
    }
}

/// `n` units of `unit` bytes, in bytes: the product, or the largest number
/// that 64 bits hold where the product is larger.
pub open spec fn scaled_of(n: u64, unit: u64) -> u64 {
    if n * unit <= u64::MAX {
        (n * unit) as u64
    } else {
        u64::MAX
    }
}

/// `n` units of `unit` bytes, in bytes, as [`scaled_of`] has it.
pub fn scale(n: u64, unit: u64) -> (bytes: u64)
    ensures
        bytes == scaled_of(n, unit),
{
    match n.checked_mul(unit) {
        Some(product) => product,
        None => u64::MAX,
    }
}

/// The number that stands first after `prefix` on `line`, if the line
/// begins with `prefix` and a number follows it.
pub open spec fn counted(line: Seq<char>, prefix: Seq<char>) -> Option<u64> {
    match strip_prefix_of(line, prefix) {
        Some(value) => match first_token_of(value) {
            Some(token) => parse_u64_of(token),
            None => None,
        },
        None => None,
    }
}

/// The number that stands first after `prefix` on `line`, as [`counted`]
/// has it.
pub fn count_after(line: &Vec<char>, prefix: &str) -> (out: Option<u64>)
    ensures
        out == counted(line@, prefix@),
{
    match strip_prefix(line, prefix) {
        Some(value) => match first_token(&value) {
            Some(token) => parse_u64(&token),
            None => None,
        },
        None => None,
    }
}

/// The total and the available memory after one line of the kernel's
/// memory table: a line `MemTotal:` with a number of KiB sets the total, a
/// line `MemAvailable:` with one sets the available memory, any other line
/// changes nothing.
pub open spec fn meminfo_step(line: Seq<char>, total: u64, available: u64) -> (u64, u64) {
    match counted(line, "MemTotal:"@) {
        Some(kib) => (scaled_of(kib, 1024), available),
        None => match counted(line, "MemAvailable:"@) {
            Some(kib) => (total, scaled_of(kib, 1024)),
            None => (total, available),
        },
    }
}

/// The total and the available memory that the lines of the table give,
/// starting from `total` and `available`. Reading stops after the line at
/// which both are known, that is, above zero.
pub open spec fn meminfo_scan(lines: Seq<Seq<char>>, total: u64, available: u64) -> (u64, u64)
    decreases lines.len(),
{
    if lines.len() == 0 {
        (total, available)
    } else {
        let (t, a) = meminfo_step(lines[0], total, available);
        if t > 0 && a > 0 {
            (t, a)
        } else {
            meminfo_scan(lines.drop_first(), t, a)
        }
    }
}

/// What the table says: the memory information if the total is known, and
/// unavailable if it is not.
pub open spec fn meminfo_outcome(content: Seq<char>) -> OutcomeView<MemoryInfo> {
    let (total, available) = meminfo_scan(lines_of(content), 0, 0);
    if total > 0 {
        OutcomeView::Detected(MemoryInfo { total, used: used_of(total, available) })
    } else {
        OutcomeView::Unavailable
    }
}

/// Reads the kernel's memory table, as [`meminfo_outcome`] has it.
pub fn parse_meminfo(content: &str) -> (out: DetectionResult<MemoryInfo>)
    ensures
        out@ == meminfo_outcome(content@),
{
    let chars = to_chars(content);
    let lines = split_lines(&chars);
    let mut total: u64 = 0;
    let mut available: u64 = 0;
    let mut i: usize = 0;
    proof {
        assert(views(lines@).skip(0) == views(lines@));
    }
    while i < lines.len() && !(total > 0 && available > 0)
        invariant
            i <= lines.len(),
            views(lines@) == lines_of(content@),
            meminfo_scan(lines_of(content@), 0, 0) == (if total > 0 && available > 0 {
                (total, available)
            } else {
                meminfo_scan(views(lines@).skip(i as int), total, available)
            }),
        decreases lines.len() - i,
    {
        proof {
            let rest = views(lines@).skip(i as int);
            assert(rest[0] == lines@[i as int]@);
            assert(rest.drop_first() == views(lines@).skip(i + 1));
        }
        match count_after(&lines[i], "MemTotal:") {
            Some(kib) => {
                total = scale(kib, 1024);
            },
            None => match count_after(&lines[i], "MemAvailable:") {
                Some(kib) => {
                    available = scale(kib, 1024);
                },
                None => {},
            },
        }
        i += 1;
    }
    proof {
        if !(total > 0 && available > 0) {
            assert(views(lines@).skip(i as int).len() == 0);
        }
    }
    if total > 0 {
        DetectionResult::Detected(MemoryInfo::from_available(total, available))
    } else {
        DetectionResult::Unavailable
    }
}

/// The outcome on Linux, given what reading the memory table gave: a
/// failure to read is an I/O fault.
pub open spec fn meminfo_read_outcome(read: Result<Seq<char>, Seq<char>>) -> OutcomeView<
    MemoryInfo,
> {
    match read {
        Ok(content) => meminfo_outcome(content),
        Err(message) => OutcomeView::Error(ErrorView::Io(message)),
    }
}

/// The outcome on Linux, as [`meminfo_read_outcome`] has it.
pub fn memory_from_meminfo(read: Result<String, IoFailure>) -> (out: DetectionResult<MemoryInfo>)
    ensures
        out@ == meminfo_read_outcome(text_answer(read)),
{
    match read {
        Ok(content) => parse_meminfo(content.as_str()),
        Err(failure) => DetectionResult::Error(Error::from_io(failure)),
    }
}

/// The number that a command printed, or zero where the command did not
/// succeed or printed no number.
pub open spec fn printed_number(output: CommandOutputView) -> u64 {
    match trimmed_stdout(output) {
        Some(text) => match parse_u64_of(text) {
            Some(n) => n,
            None => 0,
        },
        None => 0,
    }
}

/// The number that a command printed, as [`printed_number`] has it.
pub fn number_printed(output: &CommandOutput) -> (n: u64)
    ensures
        n == printed_number(output@),
{
    match output.trimmed_text() {
        Some(text) => match parse_u64(&to_chars(text.as_str())) {
            Some(n) => n,
            None => 0,
        },
        None => 0,
    }
}

/// The number of free pages that a line of the virtual-memory statistics
/// gives: the line begins with `Pages free:`, and its next token, without
/// the full stops at its end, is a number.
pub open spec fn free_pages_on(line: Seq<char>) -> Option<u64> {
    match strip_prefix_of(line, "Pages free:"@) {
        Some(value) => match first_token_of(value) {
            Some(token) => parse_u64_of(trim_end_of(token, CharClass::Only('.'))),
            None => None,
        },
        None => None,
    }
}

/// The number of free pages that the first of `lines` to give one gives,
/// and zero where none does.
pub open spec fn free_pages_in(lines: Seq<Seq<char>>) -> u64
    decreases lines.len(),
{
    if lines.len() == 0 {
        0
    } else {
        match free_pages_on(lines[0]) {
            Some(pages) => pages,
            None => free_pages_in(lines.drop_first()),
        }
    }
}

/// The number of free pages in the statistics `text`, as
/// [`free_pages_in`] has it for the lines of the text.
pub fn free_pages(text: &str) -> (pages: u64)
    ensures
        pages == free_pages_in(lines_of(text@)),
{
    let chars = to_chars(text);
    let lines = split_lines(&chars);
    let mut i: usize = 0;
    proof {
        assert(views(lines@).skip(0) == views(lines@));
    }
    while i < lines.len()
        invariant
            i <= lines.len(),
            views(lines@) == lines_of(text@),
            free_pages_in(lines_of(text@)) == free_pages_in(views(lines@).skip(i as int)),
        decreases lines.len() - i,
    {
        proof {
            let rest = views(lines@).skip(i as int);
            assert(rest[0] == lines@[i as int]@);
            assert(rest.drop_first() == views(lines@).skip(i + 1));
        }
        match strip_prefix(&lines[i], "Pages free:") {
            Some(value) => match first_token(&value) {
                Some(token) => match parse_u64(&trim_end_class(&token, CharClass::Only('.'))) {
                    Some(pages) => {
                        return pages;
                    },
                    None => {},
                },
                None => {},
            },
            None => {},
        }
        i += 1;
    }
    proof {
        assert(views(lines@).skip(i as int).len() == 0);
    }
    0
}

/// The size of a page of memory on macOS, in bytes.
pub const PAGE_SIZE: u64 = 4096;

/// The outcome on macOS, given what the two commands gave. The first
/// prints the total, the second the statistics with the free pages; a
/// command that did not run is an I/O fault. With a total above zero the
/// free pages, at 4096 bytes each, count as available; without one the
/// information is unavailable.
pub open spec fn macos_memory_outcome(
    size: Result<CommandOutputView, Seq<char>>,
    stats: Result<CommandOutputView, Seq<char>>,
) -> OutcomeView<MemoryInfo> {
    match size {
        Err(message) => OutcomeView::Error(ErrorView::Io(message)),
        Ok(size_output) => match stats {
            Err(message) => OutcomeView::Error(ErrorView::Io(message)),
            Ok(stats_output) => {
                let total = printed_number(size_output);
                let pages = match stdout_of(stats_output) {
                    Some(text) => free_pages_in(lines_of(text)),
                    None => 0,
                };
                if total > 0 {
                    OutcomeView::Detected(
                        MemoryInfo { total, used: used_of(total, scaled_of(pages, 4096)) },
                    )
                } else {
                    OutcomeView::Unavailable
                }
            },
        },
    }
}

/// The outcome on macOS once both commands have run, as
/// [`macos_memory_outcome`] has it.
pub fn memory_from_vm_stat(size: &CommandOutput, stats: &CommandOutput) -> (out: DetectionResult<
    MemoryInfo,
>)
    ensures
        out@ == macos_memory_outcome(Ok(size@), Ok(stats@)),
{
    let total = number_printed(size);
    let pages = match stats.stdout_text() {
        Some(text) => free_pages(text.as_str()),
        None => 0,
    };
    if total > 0 {
        DetectionResult::Detected(MemoryInfo::from_available(total, scale(pages, PAGE_SIZE)))
    } else {
        DetectionResult::Unavailable
    }
}

/// The outcome on FreeBSD, given what the command that prints the total
/// gave: with a total above zero nothing counts as in use; without one the
/// information is unavailable; a command that did not run is an I/O fault.
pub open spec fn physmem_outcome(size: Result<CommandOutputView, Seq<char>>) -> OutcomeView<
    MemoryInfo,
> {
    match size {
        Err(message) => OutcomeView::Error(ErrorView::Io(message)),
        Ok(output) => {
            let total = printed_number(output);
            if total > 0 {
                OutcomeView::Detected(MemoryInfo { total, used: 0 })
            } else {
                OutcomeView::Unavailable
            }
        },
    }
}

/// The outcome on FreeBSD, as [`physmem_outcome`] has it.
pub fn memory_from_physmem(size: Result<CommandOutput, IoFailure>) -> (out: DetectionResult<
    MemoryInfo,
>)
    ensures
        out@ == physmem_outcome(command_answer(size)),
{
    match size {
        Err(failure) => DetectionResult::Error(Error::from_io(failure)),
        Ok(output) => {
            let total = number_printed(&output);
            if total > 0 {
                DetectionResult::Detected(MemoryInfo { total, used: 0 })
            } else {
                DetectionResult::Unavailable
            }
        },
    }
}

/// Whether `out` can be what the probe reports through `ctx` when built
/// for `target`.
///
/// On Linux the file `/proc/meminfo` is read. On macOS `sysctl -n
/// hw.memsize` runs and, only if it ran, `vm_stat`. On FreeBSD `sysctl -n
/// hw.physmem` runs. Windows and any other platform have no strategy and
/// are unsupported.
pub open spec fn memory_may_yield<C: SystemContext>(
    ctx: &C,
    target: BuildTarget,
    out: OutcomeView<MemoryInfo>,
) -> bool {
    match target.os {
        Platform::Linux => exists|read: Result<Seq<char>, Seq<char>>|
            {
                &&& ctx.may_read_file("/proc/meminfo"@, read)
                &&& out == #[trigger] meminfo_read_outcome(read)
            },
        Platform::MacOs => exists|
            size: Result<CommandOutputView, Seq<char>>,
            stats: Result<CommandOutputView, Seq<char>>,
        |
            {
                &&& ctx.may_execute("sysctl"@, seq!["-n"@, "hw.memsize"@], size)
                &&& size is Ok ==> ctx.may_execute("vm_stat"@, Seq::empty(), stats)
                &&& out == #[trigger] macos_memory_outcome(size, stats)
            },
        Platform::FreeBsd => exists|size: Result<CommandOutputView, Seq<char>>|
            {
                &&& ctx.may_execute("sysctl"@, seq!["-n"@, "hw.physmem"@], size)
                &&& out == #[trigger] physmem_outcome(size)
            },
        Platform::Windows | Platform::Unknown => out == OutcomeView::<MemoryInfo>::Error(
            ErrorView::UnsupportedPlatform,
        ),
    }
}

/// Detects memory through `ctx`, with the strategy of the platform that
/// `target` names.
pub fn detect_memory<C: SystemContext>(ctx: &C, target: BuildTarget) -> (out: DetectionResult<
    MemoryInfo,
>)
    ensures
        memory_may_yield(ctx, target, out@),
{
    match target.os {
        Platform::Linux => memory_from_meminfo(ctx.read_file("/proc/meminfo")),
        Platform::MacOs => {
            let size_args = ["-n", "hw.memsize"];
            let size = ctx.execute_command("sysctl", &size_args);
            proof {
                assert(args_view(&size_args) =~= seq!["-n"@, "hw.memsize"@]);
            }
            let ghost size_answer = command_answer(size);
            match size {
                Err(failure) => {
                    let out = DetectionResult::Error(Error::from_io(failure));
                    proof {
                        assert(out@ == macos_memory_outcome(size_answer, size_answer));
                    }
                    out
                },
                Ok(size_output) => {
                    let stats_args: [&str; 0] = [];
                    let stats = ctx.execute_command("vm_stat", &stats_args);
                    proof {
                        assert(args_view(&stats_args) =~= Seq::<Seq<char>>::empty());
                    }
                    let ghost stats_answer = command_answer(stats);
                    match stats {
                        Err(failure) => {
                            let out = DetectionResult::Error(Error::from_io(failure));
                            proof {
                                assert(out@ == macos_memory_outcome(size_answer, stats_answer));
                            }
                            out
                        },
                        Ok(stats_output) => {
                            let out = memory_from_vm_stat(&size_output, &stats_output);
                            proof {
                                assert(out@ == macos_memory_outcome(size_answer, stats_answer));
                            }
                            out
                        },
                    }
                },
            }
        },
        Platform::FreeBsd => {
            let args = ["-n", "hw.physmem"];
            let size = ctx.execute_command("sysctl", &args);
            proof {
                assert(args_view(&args) =~= seq!["-n"@, "hw.physmem"@]);
            }
            memory_from_physmem(size)
        },
        Platform::Windows | Platform::Unknown => DetectionResult::Error(
            Error::UnsupportedPlatform,
        ),
    }
}

} // verus!
