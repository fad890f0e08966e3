//! Instance Arbiter: single-instance arbitration for the process.
//!
//! A machine-user session holds at most one primary instance. Launching is an
//! atomic test-and-set on a session-wide marker: the first launch wins and
//! keeps running; every later launch hands its argument list and working
//! directory to the winner's notifier callback and exits at once. The marker
//! is released when the primary exits — cleanly or not — so an unclean exit
//! never blocks future launches.

use vstd::prelude::*;

verus! {

/// What a launch attempt carries: its argument list and working directory.
/// A losing launch forwards exactly this to the primary instance.
pub struct LaunchRequest {
    pub args: Vec<String>,
    pub cwd: String,
}

/// The arbitration state of one machine-user session: which process holds the
/// primary marker, and the launch requests delivered so far to the primary's
/// notifier callback.
pub struct InstanceSession {
    pub primary: Option<u64>,
    pub delivered: Vec<LaunchRequest>,
}

/// What a launch attempt came to.
#[derive(Clone, Copy, PartialEq, Eq, Structural, Debug)]
pub enum LaunchOutcome {
    /// This process won the marker and continues normal startup.
    BecamePrimary,
    /// Another instance already holds the marker; the request was forwarded
    /// to it and this process exits with no further initialization.
    ForwardedAndExited,
}

/// The mathematical model of a session: the marker and the delivered requests.
pub struct SessionModel {
    pub primary: Option<u64>,
    pub delivered: Seq<LaunchRequest>,
}

/// The session a launch attempt leaves behind: an empty marker is taken by
/// the launching process; a held one stays, and the request joins what the
/// primary's callback has received.
pub open spec fn launch_next(s: SessionModel, pid: u64, req: LaunchRequest) -> SessionModel {
    if s.primary is None {
        SessionModel { primary: Some(pid), delivered: s.delivered }
    } else {
        SessionModel { primary: s.primary, delivered: s.delivered.push(req) }
    }
}

/// The outcome a launch attempt reports: winning is holding an empty marker.
pub open spec fn launch_outcome(s: SessionModel) -> LaunchOutcome {
    if s.primary is None {
        LaunchOutcome::BecamePrimary
    } else {
        LaunchOutcome::ForwardedAndExited
    }
}

/// The session a process exit leaves behind: the marker is released exactly
/// when the exiting process held it.
pub open spec fn exit_next(s: SessionModel, pid: u64) -> SessionModel {
    if s.primary == Some(pid) {
        SessionModel { primary: None, delivered: s.delivered }
    } else {
        s
    }
}

impl InstanceSession {
    /// The session as its model.
    pub open spec fn model(self) -> SessionModel {
        SessionModel { primary: self.primary, delivered: self.delivered@ }
    }

    /// A fresh session: no primary, nothing delivered.
    pub fn new() -> (s: InstanceSession)
        ensures
            s.model() == (SessionModel { primary: None, delivered: Seq::<LaunchRequest>::empty() }),
    {
        InstanceSession { primary: None, delivered: Vec::new() }
    }
}

/// One launch attempt: atomically test-and-set the session's primary marker.
/// The winner becomes primary; a loser's argument list and working directory
/// are delivered to the primary's notifier callback, and the loser exits.
pub fn launch(session: &mut InstanceSession, pid: u64, args: Vec<String>, cwd: String) -> (o:
    LaunchOutcome)
    ensures
        o == launch_outcome(old(session).model()),
        final(session).model() == launch_next(
            old(session).model(),
            pid,
            LaunchRequest { args, cwd },
        ),
{
    match session.primary {
        None => {
            session.primary = Some(pid);
            LaunchOutcome::BecamePrimary
        },
        Some(_) => {
            session.delivered.push(LaunchRequest { args, cwd });
            LaunchOutcome::ForwardedAndExited
        },
    }
}

/// A process exit, clean or not: releases the primary marker if the exiting
/// process held it, so a crashed primary never blocks future launches.
pub fn process_exit(session: &mut InstanceSession, pid: u64)
    ensures
        final(session).model() == exit_next(old(session).model(), pid),
{
    let release = match session.primary {
        Some(p) => p == pid,
        None => false,
    };
    if release {
        session.primary = None;
    }
}

/// Law: however a primary ends — a crash included — the next launch attempt
/// after its exit wins the marker; an unclean exit never blocks arbitration.
pub proof fn lemma_relaunch_after_exit(s: SessionModel, pid: u64, new_pid: u64, req: LaunchRequest)
    requires
        s.primary == Some(pid),
    ensures
        launch_outcome(exit_next(s, pid)) is BecamePrimary,
        launch_next(exit_next(s, pid), new_pid, req).primary == Some(new_pid),
{
}

} // verus!
