//! The host: its name.

use vstd::prelude::*;
use crate::context::{text_answer, IoFailure, SystemContext};
use crate::error::{DetectionResult, Error, ErrorView, OutcomeView};
use crate::platform::{BuildTarget, Platform};
use crate::tokens::opt_str_view;

verus! {

/// The probe of the host name.
#[derive(Debug, Clone, Copy)]
pub struct HostModule {
    pub target: BuildTarget,
}

/// What is known of the host.
#[derive(Debug, Clone, PartialEq, Eq)]
pub struct HostInfo {
    pub hostname: String,
}

/// The mathematical value of a [`HostInfo`].
pub struct HostInfoView {
    pub hostname: Seq<char>,
}

impl View for HostInfo {
    type V = HostInfoView;

    open spec fn view(&self) -> HostInfoView {
        HostInfoView { hostname: self.hostname@ }
    }
}

impl HostInfo {
    /// The text that shows `info`: the host name.
    pub open spec fn rendered(info: HostInfoView) -> Seq<char> {
        info.hostname
    }

    /// The text that shows this information.
    pub fn to_string(&self) -> (s: String)
        ensures
            s@ == HostInfo::rendered(self@),
    {
        self.hostname.clone()
    }
}

/// The outcome on a Unix system, given what asking for the host name gave:
/// a failure means that the name is unavailable, and is no fault.
pub open spec fn hostname_outcome(answer: Result<Seq<char>, Seq<char>>) -> OutcomeView<
    HostInfoView,
> {
    match answer {
        Ok(hostname) => OutcomeView::Detected(HostInfoView { hostname }),
        Err(_) => OutcomeView::Unavailable,
    }
}

/// The outcome on a Unix system, as [`hostname_outcome`] has it.
pub fn host_from_hostname(answer: Result<String, IoFailure>) -> (out: DetectionResult<HostInfo>)
    ensures
        out@ == hostname_outcome(text_answer(answer)),
{
    match answer {
        Ok(hostname) => DetectionResult::Detected(HostInfo { hostname }),
        Err(_) => DetectionResult::Unavailable,
    }
}

/// The host name on Windows, given the two variables that may hold it: the
/// first that is set, `Unknown` if neither is.
pub open spec fn env_hostname(computer: Option<Seq<char>>, host: Option<Seq<char>>) -> Seq<char> {
    match computer {
        Some(name) => name,
        None => match host {
            Some(name) => name,
            None => "Unknown"@,
        },
    }
}

/// The host name on Windows, as [`env_hostname`] has it.
pub fn host_from_env(computer: Option<String>, host: Option<String>) -> (out: HostInfo)
    ensures
        out@.hostname == env_hostname(opt_str_view(computer), opt_str_view(host)),
{
    match computer {
        Some(name) => HostInfo { hostname: name },
        None => match host {
            Some(name) => HostInfo { hostname: name },
            None => HostInfo { hostname: "Unknown".to_owned() },
        },
    }
}

/// Whether `out` can be what the probe reports through `ctx` when built
/// for `target`.
///
/// A Unix system is asked for its host name. On Windows the variable
/// `COMPUTERNAME` is looked up and, only if it is not set, `HOSTNAME`. Any
/// other platform is unsupported.
pub open spec fn host_may_yield<C: SystemContext>(
    ctx: &C,
    target: BuildTarget,
    out: OutcomeView<HostInfoView>,
) -> bool {
    if target.unix {
        exists|answer: Result<Seq<char>, Seq<char>>|
            {
                &&& ctx.may_get_hostname(answer)
                &&& out == #[trigger] hostname_outcome(answer)
            }
    } else if target.os == Platform::Windows {
        exists|computer: Option<Seq<char>>, host: Option<Seq<char>>|
            {
                &&& ctx.may_get_env("COMPUTERNAME"@, computer)
                &&& computer is None ==> ctx.may_get_env("HOSTNAME"@, host)
                &&& out == OutcomeView::Detected(
                    HostInfoView { hostname: #[trigger] env_hostname(computer, host) },
                )
            }
    } else {
        out == OutcomeView::<HostInfoView>::Error(ErrorView::UnsupportedPlatform)
    }
}

/// Detects the host name through `ctx`, with the strategy of the platform
/// that `target` names.
pub fn detect_host<C: SystemContext>(ctx: &C, target: BuildTarget) -> (out: DetectionResult<
    HostInfo,
>)
    ensures
        host_may_yield(ctx, target, out@),
{
    if target.unix {
        host_from_hostname(ctx.get_hostname())
    } else if target.os == Platform::Windows {
        let computer = ctx.get_env("COMPUTERNAME");
        let ghost c = opt_str_view(computer);
        if computer.is_some() {
            let info = host_from_env(computer, None);
            proof {
                assert(info@.hostname == env_hostname(c, None));
            }
            DetectionResult::Detected(info)
        } else {
            let host = ctx.get_env("HOSTNAME");
            let ghost h = opt_str_view(host);
            let info = host_from_env(computer, host);
            proof {
                assert(info@.hostname == env_hostname(c, h));
            }
            DetectionResult::Detected(info)
        }
    } else {
        DetectionResult::Error(Error::UnsupportedPlatform)
    }
}

} // verus!
