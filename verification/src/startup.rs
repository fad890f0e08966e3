//! The startup sequence: arbitrate, then register, then run.
//!
//! One process start is one call of [`run_startup`]. The caller (the OS
//! adapter) reports whether the arbitration mechanism could be established
//! and whether the registrar's OS call, if one was wanted, succeeded; the
//! sequencer decides everything else. Arbitration failure is fatal — the
//! process must never run as a second primary — while registration failure
//! is best-effort and never halts startup.

use vstd::prelude::*;
use crate::arbiter::{InstanceSession, LaunchOutcome, LaunchRequest, SessionModel, launch,
    launch_next};
use crate::platform::{BuildMode, Platform, should_enforce_single_instance,
    should_register_deep_links, spec_should_enforce_single_instance,
    spec_should_register_deep_links};

verus! {

/// How one process start ended.
#[derive(Clone, Copy, PartialEq, Eq, Structural, Debug)]
pub enum StartupOutcome {
    /// This process is the one live instance handling UI. The fields record
    /// whether the registrar's OS registration call was made at all, and
    /// whether, once made, it succeeded.
    Running { registration_attempted: bool, registration_succeeded: bool },
    /// Another instance already runs; the launch was forwarded to it and this
    /// process exited before any window was created.
    Exited,
    /// The arbitration mechanism could not be established: fatal, since the
    /// process must not proceed into a split-brain state with two primaries.
    Aborted,
}

/// The outcome one process start reports, as a function of the session it
/// found, the platform and build gates, and what the OS boundary reported.
pub open spec fn spec_startup_outcome(
    s: SessionModel,
    platform: Platform,
    build: BuildMode,
    arbitration_available: bool,
    registration_ok: bool,
) -> StartupOutcome {
    if spec_should_enforce_single_instance(platform) && !arbitration_available {
        StartupOutcome::Aborted
    } else if spec_should_enforce_single_instance(platform) && s.primary is Some {
        StartupOutcome::Exited
    } else {
        let attempted = spec_should_register_deep_links(build, platform);
        StartupOutcome::Running {
            registration_attempted: attempted,
            registration_succeeded: attempted && registration_ok,
        }
    }
}

/// The session one process start leaves behind: only an arbitrating launch —
/// a desktop launch with the mechanism in place — moves the marker or
/// delivers a request.
pub open spec fn spec_startup_next(
    s: SessionModel,
    pid: u64,
    req: LaunchRequest,
    platform: Platform,
    arbitration_available: bool,
) -> SessionModel {
    if spec_should_enforce_single_instance(platform) && arbitration_available {
        launch_next(s, pid, req)
    } else {
        s
    }
}

/// One process start. On desktop platforms the launch first goes through
/// single-instance arbitration; a winner (and any mobile launch) then makes
/// the registrar's OS call exactly when the build and platform gates ask for
/// it, and completes startup whether or not that call succeeded.
pub fn run_startup(
    session: &mut InstanceSession,
    pid: u64,
    args: Vec<String>,
    cwd: String,
    platform: Platform,
    build: BuildMode,
    arbitration_available: bool,
    registration_ok: bool,
) -> (o: StartupOutcome)
    ensures
        o == spec_startup_outcome(
            old(session).model(),
            platform,
            build,
            arbitration_available,
            registration_ok,
        ),
        final(session).model() == spec_startup_next(
            old(session).model(),
            pid,
            LaunchRequest { args, cwd },
            platform,
            arbitration_available,
        ),
        o is Aborted <==> spec_should_enforce_single_instance(platform) && !arbitration_available,
{
    let enforce = should_enforce_single_instance(platform);
    if enforce && !arbitration_available {
        return StartupOutcome::Aborted;
    }
    if enforce {
        match launch(session, pid, args, cwd) {
            LaunchOutcome::ForwardedAndExited => {
                return StartupOutcome::Exited;
            },
            LaunchOutcome::BecamePrimary => {},
        }
    }
    let attempted = should_register_deep_links(build, platform);
    StartupOutcome::Running {
        registration_attempted: attempted,
        registration_succeeded: attempted && registration_ok,
    }
}

/// Law: launching the application twice in sequence on an enforcing platform
/// leaves exactly one live instance handling UI. The first launch completes
/// startup; the second launch's argument list and working directory are
/// delivered to the first instance's notifier callback, and the second
/// process exits before any window is created.
pub proof fn lemma_single_instance(
    s0: SessionModel,
    pid1: u64,
    req1: LaunchRequest,
    pid2: u64,
    req2: LaunchRequest,
    platform: Platform,
    build: BuildMode,
    reg_ok1: bool,
    reg_ok2: bool,
)
    requires
        s0.primary is None,
        spec_should_enforce_single_instance(platform),
    ensures
        ({
            let o1 = spec_startup_outcome(s0, platform, build, true, reg_ok1);
            let s1 = spec_startup_next(s0, pid1, req1, platform, true);
            let o2 = spec_startup_outcome(s1, platform, build, true, reg_ok2);
            let s2 = spec_startup_next(s1, pid2, req2, platform, true);
            &&& o1 is Running
            &&& o2 is Exited
            &&& s2.primary == Some(pid1)
            &&& s2.delivered == s0.delivered.push(req2)
            &&& s2.delivered.last() == req2
        }),
{
}

/// Law: the registrar's OS registration call is made exactly when the build
/// is a development build and the platform needs runtime registration — on
/// every other combination it is never made.
pub proof fn lemma_registrar_gating(
    s: SessionModel,
    platform: Platform,
    build: BuildMode,
    arbitration_available: bool,
    registration_ok: bool,
)
    ensures
        spec_startup_outcome(
            s,
            platform,
            build,
            arbitration_available,
            registration_ok,
        ) matches StartupOutcome::Running { registration_attempted, .. }
            ==> registration_attempted == spec_should_register_deep_links(build, platform),
{
}

/// Law: a failure of the registrar's OS call never halts startup — the
/// startup outcome's variant is the same whether the call succeeded or
/// failed.
pub proof fn lemma_registration_failure_never_halts(
    s: SessionModel,
    platform: Platform,
    build: BuildMode,
    arbitration_available: bool,
)
    ensures
        ({
            let ok = spec_startup_outcome(s, platform, build, arbitration_available, true);
            let failed = spec_startup_outcome(s, platform, build, arbitration_available, false);
            &&& ok is Running <==> failed is Running
            &&& ok is Exited <==> failed is Exited
            &&& ok is Aborted <==> failed is Aborted
        }),
{
}

} // verus!
