//! Uptime: the seconds since the host started.

use vstd::prelude::*;
use vstd::string::StringExecFns;
use std::time::{Duration, SystemTime};
use crate::context::{
    args_view, command_answer, stdout_of, text_answer, CommandOutput, CommandOutputView,
    IoFailure, SystemContext,
};
use crate::decimal::{
    all_digits, decimal_of, digits_saturating, digits_value, parse_u64, parse_u64_of,
    push_decimal, saturated, unsigned_digits,
};
use crate::error::{DetectionResult, Error, ErrorView, OutcomeView};
use crate::platform::{BuildTarget, Platform};
use crate::text::{
    from_chars, leading, skip_class, slice_chars, to_chars, trim_class, trim_of, CharClass,
};
use crate::tokens::{find, find_from, first_token, first_token_of};

verus! {

/// The probe of uptime.
#[derive(Debug, Clone, Copy)]
pub struct UptimeModule {
    pub target: BuildTarget,
}

/// What is known of uptime: whole seconds.
#[derive(Debug, Clone, Copy, PartialEq, Eq, Structural)]
pub struct UptimeInfo {
    pub seconds: u64,
}

impl View for UptimeInfo {
    type V = UptimeInfo;

    open spec fn view(&self) -> UptimeInfo {
        *self
    }
}

/// `n` of a unit as text: the number, a space and the unit's name, with an
/// `s` after it unless `n` is one.
pub open spec fn counted_unit(n: nat, unit: Seq<char>) -> Seq<char> {
    if n == 1 {
        decimal_of(n) + " "@ + unit
    } else {
        decimal_of(n) + " "@ + unit + "s"@
    }
}

/// `text` with `part` after it, and a comma and a space between the two
/// unless `text` is empty.
pub open spec fn with_part(text: Seq<char>, part: Seq<char>) -> Seq<char> {
    if text.len() == 0 {
        part
    } else {
        text + ", "@ + part
    }
}

/// `seconds` as text: the whole days, hours and minutes that are not
/// zero, largest first, with a comma and a space between them; the
/// minutes alone where all three are zero.
pub open spec fn uptime_text(seconds: nat) -> Seq<char> {
    let days = seconds / 86400;
    let hours = (seconds % 86400) / 3600;
    let minutes = (seconds % 3600) / 60;
    let with_days = if days > 0 {
        counted_unit(days, "day"@)
    } else {
        Seq::empty()
    };
    let with_hours = if hours > 0 {
        with_part(with_days, counted_unit(hours, "hour"@))
    } else {
        with_days
    };
    if minutes > 0 || with_hours.len() == 0 {
        with_part(with_hours, counted_unit(minutes, "minute"@))
    } else {
        with_hours
    }
}

/// Puts `n` of `unit` after `text`, as [`with_part`] and [`counted_unit`]
/// have it.
pub fn push_part(text: &mut String, n: u64, unit: &str)
    ensures
        final(text)@ == with_part(old(text)@, counted_unit(n as nat, unit@)),
{
    let empty = text.as_str().unicode_len() == 0;
    if !empty {
        text.append(", ");
    }
    let mut digits: Vec<char> = Vec::new();
    push_decimal(n, &mut digits);
    proof {
        assert(digits@ =~= decimal_of(n as nat));
    }
    text.append(from_chars(&digits).as_str());
    text.append(" ");
    text.append(unit);
    if n != 1 {
        text.append("s");
    }
    proof {
        let part = counted_unit(n as nat, unit@);
        if empty {
            assert(old(text)@ =~= Seq::<char>::empty());
            assert(final(text)@ =~= part);
        } else {
            assert(final(text)@ =~= old(text)@ + ", "@ + part);
        }
    }
}

impl UptimeInfo {
    /// The text that shows `info`, as [`uptime_text`] has it.
    pub open spec fn rendered(info: UptimeInfo) -> Seq<char> {
        uptime_text(info.seconds as nat)
    }

    /// The uptime in days, hours and minutes, as [`uptime_text`] has it.
    pub fn format_uptime(&self) -> (s: String)
        ensures
            s@ == uptime_text(self.seconds as nat),
    {
        let days = self.seconds / 86400;
        let hours = (self.seconds % 86400) / 3600;
        let minutes = (self.seconds % 3600) / 60;
        let mut s = String::new();
        if days > 0 {
            push_part(&mut s, days, "day");
        }
        if hours > 0 {
            push_part(&mut s, hours, "hour");
        }
        if minutes > 0 || s.as_str().unicode_len() == 0 {
            push_part(&mut s, minutes, "minute");
        }
        s
    }

    /// The text that shows this information.
    pub fn to_string(&self) -> (s: String)
        ensures
            s@ == UptimeInfo::rendered(self@),
    {
        self.format_uptime()
    }
}

/// The whole seconds that `token` writes: an optional plus sign, digits,
/// and optionally a full stop and more digits, with a digit somewhere. The
/// digits after the full stop are dropped, and a number too large for 64
/// bits counts as the largest that they hold.
pub open spec fn whole_seconds_of(token: Seq<char>) -> Option<u64> {
    let body = unsigned_digits(token);
    let n = leading(body, CharClass::Except('.')) as int;
    let whole = body.take(n);
    let fraction = if n < body.len() {
        body.skip(n + 1)
    } else {
        Seq::empty()
    };
    if all_digits(whole) && all_digits(fraction) && whole.len() + fraction.len() > 0 {
        Some(saturated(digits_value(whole)))
    } else {
        None
    }
}

/// The whole seconds that `token` writes, as [`whole_seconds_of`] has it.
pub fn whole_seconds(token: &Vec<char>) -> (out: Option<u64>)
    ensures
        out == whole_seconds_of(token@),
{
    let start: usize = if token.len() > 0 && token[0] == '+' {
        1
    } else {
        0
    };
    let body = slice_chars(token, start, token.len());
    proof {
        assert(body@ =~= unsigned_digits(token@));
        assert(body@.skip(0) == body@);
    }
    let n = skip_class(&body, 0, CharClass::Except('.'));
    let whole = slice_chars(&body, 0, n);
    let fraction = if n < body.len() {
        slice_chars(&body, n + 1, body.len())
    } else {
        Vec::new()
    };
    proof {
        assert(whole@ =~= body@.take(n as int));
        if n < body.len() {
            assert(fraction@ =~= body@.skip(n + 1));
        } else {
            assert(fraction@ =~= Seq::<char>::empty());
        }
    }
    if whole.len() + fraction.len() == 0 {
        return None;
    }
    match digits_saturating(&fraction) {
        Some(_) => digits_saturating(&whole),
        None => None,
    }
}

/// What the kernel's uptime file says: the whole seconds of its first
/// token, and unavailable where that token is no number or is missing.
pub open spec fn proc_uptime_outcome(read: Result<Seq<char>, Seq<char>>) -> OutcomeView<
    UptimeInfo,
> {
    match read {
        Err(message) => OutcomeView::Error(ErrorView::Io(message)),
        Ok(content) => match first_token_of(content) {
            Some(token) => match whole_seconds_of(token) {
                Some(seconds) => OutcomeView::Detected(UptimeInfo { seconds }),
                None => OutcomeView::Unavailable,
            },
            None => OutcomeView::Unavailable,
        },
    }
}

/// The outcome on Linux, as [`proc_uptime_outcome`] has it: a failure to
/// read is an I/O fault.
pub fn uptime_from_proc(read: Result<String, IoFailure>) -> (out: DetectionResult<UptimeInfo>)
    ensures
        out@ == proc_uptime_outcome(text_answer(read)),
{
    match read {
        Err(failure) => DetectionResult::Error(Error::from_io(failure)),
        Ok(content) => match first_token(&to_chars(content.as_str())) {
            Some(token) => match whole_seconds(&token) {
                Some(seconds) => DetectionResult::Detected(UptimeInfo { seconds }),
                None => DetectionResult::Unavailable,
            },
            None => DetectionResult::Unavailable,
        },
    }
}

/// The words that stand before the seconds in the kernel's boot time.
pub open spec fn seconds_marker() -> Seq<char> {
    "sec = "@
}

/// The boot time, in seconds since the epoch, that `text` records: the
/// number that stands after the first `sec = ` and before the next comma,
/// or the next `sec = ` if that comes first, trimmed.
pub open spec fn boot_time_in(text: Seq<char>) -> Option<u64> {
    let at = find_from(text, seconds_marker(), 0);
    if at >= text.len() {
        None
    } else {
        let rest = text.skip(at + seconds_marker().len());
        let part = rest.take(find_from(rest, seconds_marker(), 0));
        let field = part.take(leading(part, CharClass::Except(',')) as int);
        parse_u64_of(trim_of(field, CharClass::Space))
    }
}

/// The boot time that `text` records, as [`boot_time_in`] has it.
pub fn boot_time(text: &str) -> (out: Option<u64>)
    ensures
        out == boot_time_in(text@),
{
    let chars = to_chars(text);
    let marker = to_chars("sec = ");
    let at = find(&chars, "sec = ");
    if at >= chars.len() {
        return None;
    }
    proof {
        lemma_found_fits(chars@, seconds_marker(), 0);
    }
    let rest = slice_chars(&chars, at + marker.len(), chars.len());
    let next = find(&rest, "sec = ");
    let part = slice_chars(&rest, 0, next);
    proof {
        assert(rest@ =~= chars@.skip(at + seconds_marker().len()));
        assert(part@ =~= rest@.take(next as int));
        assert(part@.skip(0) == part@);
    }
    let comma = skip_class(&part, 0, CharClass::Except(','));
    let field = slice_chars(&part, 0, comma);
    proof {
        assert(field@ =~= part@.take(comma as int));
    }
    parse_u64(&trim_class(&field, CharClass::Space))
}

/// Where a pattern is found before the end of a text, it fits into the
/// text from there.
pub proof fn lemma_found_fits(s: Seq<char>, pattern: Seq<char>, from: int)
    requires
        0 <= from,
    ensures
        from <= find_from(s, pattern, from) || find_from(s, pattern, from) == s.len(),
        find_from(s, pattern, from) < s.len() ==> find_from(s, pattern, from) + pattern.len()
            <= s.len(),
    decreases s.len() - from,
{
    if from >= s.len() || from + pattern.len() > s.len() {
    } else if s.subrange(from, from + pattern.len()) == pattern {
    } else {
        lemma_found_fits(s, pattern, from + 1);
    }
}

/// The boot time that a command printed, if it succeeded and its output
/// records one.
pub open spec fn printed_boot_time(output: CommandOutputView) -> Option<u64> {
    match stdout_of(output) {
        Some(text) => boot_time_in(text),
        None => None,
    }
}

/// The boot time that a command printed, as [`printed_boot_time`] has it.
pub fn boot_time_printed(output: &CommandOutput) -> (out: Option<u64>)
    ensures
        out == printed_boot_time(output@),
{
    match output.stdout_text() {
        Some(text) => boot_time(text.as_str()),
        None => None,
    }
}

/// The uptime at the time `now` of a host that started at `boot`, both in
/// seconds since the epoch: the difference, and nothing where the start
/// lies after `now`. Unavailable where the time is not known.
pub open spec fn uptime_since(boot: u64, now: Option<u64>) -> OutcomeView<UptimeInfo> {
    match now {
        Some(n) => OutcomeView::Detected(
            UptimeInfo {
                seconds: if boot <= n {
                    (n - boot) as u64
                } else {
                    0
                },
            },
        ),
        None => OutcomeView::Unavailable,
    }
}

/// The uptime at the time `now` of a host that started at `boot`, as
/// [`uptime_since`] has it.
pub fn uptime_from_boot(boot: u64, now: Option<u64>) -> (out: DetectionResult<UptimeInfo>)
    ensures
        out@ == uptime_since(boot, now),
{
    match now {
        Some(n) => DetectionResult::Detected(UptimeInfo { seconds: n.saturating_sub(boot) }),
        None => DetectionResult::Unavailable,
    }
}

/// The outcome where a command prints the boot time, given what running
/// it gave and the time now: a command that did not run is an I/O fault;
/// one that records no boot time leaves the uptime unavailable.
pub open spec fn boot_time_outcome(
    run: Result<CommandOutputView, Seq<char>>,
    now: Option<u64>,
) -> OutcomeView<UptimeInfo> {
    match run {
        Err(message) => OutcomeView::Error(ErrorView::Io(message)),
        Ok(output) => match printed_boot_time(output) {
            Some(boot) => uptime_since(boot, now),
            None => OutcomeView::Unavailable,
        },
    }
}

/// `std::time::SystemTime`: a point in time on the system clock. Nothing
/// inside it is looked at here.
#[verifier::external_type_specification]
#[verifier::external_body]
pub struct ExSystemTime(std::time::SystemTime);

/// `SystemTime::now`: the time on the system clock. Nothing is claimed of
/// it.
#[verifier::external_body]
fn clock_now() -> SystemTime {
    SystemTime::now()
}

/// `SystemTime::duration_since` the epoch: how long after the epoch `time`
/// lies, if it does not lie before it. Nothing is claimed of the result.
#[verifier::external_body]
fn since_epoch(time: &SystemTime) -> Option<Duration> {
    time.duration_since(std::time::UNIX_EPOCH).ok()
}

/// `Duration::as_secs`: the whole seconds of `span`. Nothing is claimed of
/// the result.
#[verifier::external_body]
fn seconds_in(span: &Duration) -> u64 {
    span.as_secs()
}

/// The time now in whole seconds since the epoch, if the clock stands
/// after the epoch.
fn now_seconds() -> Option<u64> {
    let time = clock_now();
    match since_epoch(&time) {
        Some(span) => Some(seconds_in(&span)),
        None => None,
    }
}

/// Whether `out` can be what the probe reports through `ctx` when built
/// for `target`.
///
/// On Linux the file `/proc/uptime` is read. On macOS and FreeBSD `sysctl
/// -n kern.boottime` prints the boot time, which is taken from the time
/// on the clock, whatever that is. Windows and any other platform have no
/// strategy and are unsupported.
pub open spec fn uptime_may_yield<C: SystemContext>(
    ctx: &C,
    target: BuildTarget,
    out: OutcomeView<UptimeInfo>,
) -> bool {
    match target.os {
        Platform::Linux => exists|read: Result<Seq<char>, Seq<char>>|
            {
                &&& ctx.may_read_file("/proc/uptime"@, read)
                &&& out == #[trigger] proc_uptime_outcome(read)
            },
        Platform::MacOs | Platform::FreeBsd => exists|
            run: Result<CommandOutputView, Seq<char>>,
            now: Option<u64>,
        |
            {
                &&& ctx.may_execute("sysctl"@, seq!["-n"@, "kern.boottime"@], run)
                &&& out == #[trigger] boot_time_outcome(run, now)
            },
        Platform::Windows | Platform::Unknown => out == OutcomeView::<UptimeInfo>::Error(
            ErrorView::UnsupportedPlatform,
        ),
    }
}

/// Detects uptime through `ctx`, with the strategy of the platform that
/// `target` names.
pub fn detect_uptime<C: SystemContext>(ctx: &C, target: BuildTarget) -> (out: DetectionResult<
    UptimeInfo,
>)
    ensures
        uptime_may_yield(ctx, target, out@),
{
    match target.os {
        Platform::Linux => uptime_from_proc(ctx.read_file("/proc/uptime")),
        Platform::MacOs | Platform::FreeBsd => {
            let args = ["-n", "kern.boottime"];
            let run = ctx.execute_command("sysctl", &args);
            proof {
                assert(args_view(&args) =~= seq!["-n"@, "kern.boottime"@]);
            }
            let ghost answer = command_answer(run);
            match run {
                Err(failure) => {
                    let out = DetectionResult::Error(Error::from_io(failure));
                    proof {
                        assert(out@ == boot_time_outcome(answer, None));
                    }
                    out
                },
                Ok(output) => match boot_time_printed(&output) {
                    Some(boot) => {
                        let now = now_seconds();
                        let out = uptime_from_boot(boot, now);
                        proof {
                            assert(out@ == boot_time_outcome(answer, now));
                        }
                        out
                    },
                    None => {
                        let out = DetectionResult::Unavailable;
                        proof {
                            assert(out@ == boot_time_outcome(answer, None));
                        }
                        out
                    },
                },
            }
        },
        Platform::Windows | Platform::Unknown => DetectionResult::Error(
            Error::UnsupportedPlatform,
        ),
    }
}

} // verus!
