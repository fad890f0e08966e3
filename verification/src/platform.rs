//! Platform and build-mode gating.
//!
//! Single-instance enforcement applies on desktop-class platforms only, and
//! runtime URL-scheme registration is wanted only in development builds on
//! the platforms whose scheme registration is not purely declarative.

use vstd::prelude::*;

verus! {

/// The operating-system families the startup layer distinguishes.
#[derive(Clone, Copy, PartialEq, Eq, Structural, Debug)]
pub enum Platform {
    Windows,
    Linux,
    MacOs,
    Android,
    Ios,
}

/// Whether the binary was produced as a development or a release build.
#[derive(Clone, Copy, PartialEq, Eq, Structural, Debug)]
pub enum BuildMode {
    Debug,
    Release,
}

/// Desktop-class platforms: the ones where several copies of the process can
/// run at once, so single-instance arbitration is needed.
pub open spec fn spec_is_desktop(p: Platform) -> bool {
    p is Windows || p is Linux || p is MacOs
}

/// Platforms where URL-scheme registration must be requested at runtime
/// rather than being declared by the packaging manifest.
pub open spec fn spec_needs_runtime_registration(p: Platform) -> bool {
    p is Windows || p is Linux
}

/// The registrar runs only in development builds, and only where runtime
/// registration means anything.
pub open spec fn spec_should_register_deep_links(b: BuildMode, p: Platform) -> bool {
    b is Debug && spec_needs_runtime_registration(p)
}

/// Single-instance arbitration is skipped on mobile platforms, where the OS
/// already enforces app-singleton semantics.
pub open spec fn spec_should_enforce_single_instance(p: Platform) -> bool {
    spec_is_desktop(p)
}

/// Decides whether the deep-link registrar's OS registration call is made.
pub fn should_register_deep_links(build: BuildMode, platform: Platform) -> (r: bool)
    ensures
        r == spec_should_register_deep_links(build, platform),
{
    let debug = matches!(build, BuildMode::Debug);
    let needs_runtime = matches!(platform, Platform::Windows | Platform::Linux);
    debug && needs_runtime
}

/// Decides whether this process takes part in single-instance arbitration.
pub fn should_enforce_single_instance(platform: Platform) -> (r: bool)
    ensures
        r == spec_should_enforce_single_instance(platform),
{
    matches!(platform, Platform::Windows | Platform::Linux | Platform::MacOs)
}

} // verus!
