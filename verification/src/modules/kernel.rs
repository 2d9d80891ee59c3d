//! The kernel: its name and its release.

use vstd::prelude::*;
use vstd::string::StringExecFns;
use crate::context::{uname_answer, IoFailure, SystemContext, UtsName, UtsNameView};
use crate::error::{DetectionResult, Error, ErrorView, OutcomeView};
use crate::platform::{BuildTarget, Platform};

verus! {

/// The probe of the kernel.
#[derive(Debug, Clone, Copy)]
pub struct KernelModule {
    pub target: BuildTarget,
}

/// What is known of the kernel.
#[derive(Debug, Clone, PartialEq, Eq)]
pub struct KernelInfo {
    pub name: String,
    pub version: String,
}

/// The mathematical value of a [`KernelInfo`].
pub struct KernelInfoView {
    pub name: Seq<char>,
    pub version: Seq<char>,
}

impl View for KernelInfo {
    type V = KernelInfoView;

    open spec fn view(&self) -> KernelInfoView {
        KernelInfoView { name: self.name@, version: self.version@ }
    }
}

impl KernelInfo {
    /// The text that shows `info`: the name, a space and the version.
    pub open spec fn rendered(info: KernelInfoView) -> Seq<char> {
        info.name + " "@ + info.version
    }

    /// The text that shows this information.
    pub fn to_string(&self) -> (s: String)
        ensures
            s@ == KernelInfo::rendered(self@),
    {
        let mut s = self.name.clone();
        s.append(" ");
        s.append(self.version.as_str());
        s
    }
}

/// The outcome on a Unix system, given what asking for the kernel identity
/// gave: the system name and the release of an identity, and unavailable,
/// which is no fault, after a failure.
pub open spec fn uname_outcome(answer: Result<UtsNameView, Seq<char>>) -> OutcomeView<
    KernelInfoView,
> {
    match answer {
        Ok(identity) => OutcomeView::Detected(
            KernelInfoView { name: identity.sysname, version: identity.release },
        ),
        Err(_) => OutcomeView::Unavailable,
    }
}

/// The outcome on a Unix system, as [`uname_outcome`] has it.
pub fn kernel_from_uname(answer: Result<UtsName, IoFailure>) -> (out: DetectionResult<KernelInfo>)
    ensures
        out@ == uname_outcome(uname_answer(answer)),
{
    match answer {
        Ok(identity) => DetectionResult::Detected(
            KernelInfo { name: identity.sysname, version: identity.release },
        ),
        Err(_) => DetectionResult::Unavailable,
    }
}

/// Whether `out` can be what the probe reports through `ctx` when built
/// for `target`.
///
/// A Unix system is asked for its kernel identity. On Windows nothing is
/// asked: the name is `Windows NT` and the version `Unknown`. Any other
/// platform is unsupported.
pub open spec fn kernel_may_yield<C: SystemContext>(
    ctx: &C,
    target: BuildTarget,
    out: OutcomeView<KernelInfoView>,
) -> bool {
    if target.unix {
        exists|answer: Result<UtsNameView, Seq<char>>|
            {
                &&& ctx.may_uname(answer)
                &&& out == #[trigger] uname_outcome(answer)
            }
    } else if target.os == Platform::Windows {
        out == OutcomeView::Detected(KernelInfoView { name: "Windows NT"@, version: "Unknown"@ })
    } else {
        out == OutcomeView::<KernelInfoView>::Error(ErrorView::UnsupportedPlatform)
    }
}

/// Detects the kernel through `ctx`, with the strategy of the platform
/// that `target` names.
pub fn detect_kernel<C: SystemContext>(ctx: &C, target: BuildTarget) -> (out: DetectionResult<
    KernelInfo,
>)
    ensures
        kernel_may_yield(ctx, target, out@),
{
    if target.unix {
        kernel_from_uname(ctx.uname())
    } else if target.os == Platform::Windows {
        DetectionResult::Detected(
            KernelInfo { name: "Windows NT".to_owned(), version: "Unknown".to_owned() },
        )
    } else {
        DetectionResult::Error(Error::UnsupportedPlatform)
    }
}

} // verus!
