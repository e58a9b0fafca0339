//! The report of the platform a build runs on.

use vstd::prelude::*;

verus! {

/// The platform: operating system, processor architecture and the family the
/// operating system belongs to, each by the name the build gives it.
#[derive(Clone, Debug, PartialEq, Eq)]
pub struct PlatformInfo {
    /// The operating system, such as `linux`.
    pub os: String,
    /// The processor architecture, such as `x86_64`.
    pub arch: String,
    /// The family of the operating system, such as `unix`.
    pub family: String,
}

/// A platform report as plain texts.
pub struct PlatformInfoView {
    pub os: Seq<char>,
    pub arch: Seq<char>,
    pub family: Seq<char>,
}

impl View for PlatformInfo {
    type V = PlatformInfoView;

    open spec fn view(&self) -> PlatformInfoView {
        PlatformInfoView { os: self.os@, arch: self.arch@, family: self.family@ }
    }
}

/// The report for a build with these three constants: each of them, unchanged,
/// in its own field.
pub open spec fn platform_report(os: Seq<char>, arch: Seq<char>, family: Seq<char>)
    -> PlatformInfoView {
    PlatformInfoView { os, arch, family }
}

/// Reports the platform from the three constants of the build. There is
/// nothing that can fail.
pub fn get_platform_info(os: &str, arch: &str, family: &str) -> (info: PlatformInfo)
    ensures
        info@ == platform_report(os@, arch@, family@),
{
    PlatformInfo {
        os: String::from_str(os),
        arch: String::from_str(arch),
        family: String::from_str(family),
    }
}

/// The report depends on the three constants and on nothing else: any two
/// reports made from the same constants say the same. As the constants of a
/// build never change while it runs, every call in one run gives one answer.
pub proof fn lemma_platform_report_is_stable(
    first: PlatformInfo,
    second: PlatformInfo,
    os: Seq<char>,
    arch: Seq<char>,
    family: Seq<char>,
)
    requires
        first@ == platform_report(os, arch, family),
        second@ == platform_report(os, arch, family),
    ensures
        first@ == second@,
        first.os@ == second.os@,
        first.arch@ == second.arch@,
        first.family@ == second.family@,
{
}

} // verus!
